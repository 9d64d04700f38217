use vstd::prelude::*;

verus! {

/// The stages a transfer goes through, in the order they are reported.
#[derive(Debug, Clone, Copy, PartialEq, Eq, Structural)]
pub enum TransferProgress {
    Validating,
    InitializingTransfer,
    ExtractingFlowInstance,
    SettingDebitAccount,
    SettingCreditAccount,
    SettingAmount,
    AcknowledgingPayeeVerification,
    SettingReason,
    SubmittingRecap,
    ConfirmingTransfer,
    Completed,
}

/// The number of stages a transfer has.
pub open spec fn spec_total_steps() -> nat {
    11
}

impl TransferProgress {
    /// Position of the stage in the transfer, starting at 1.
    pub open spec fn spec_step_number(self) -> nat {
        match self {
            TransferProgress::Validating => 1,
            TransferProgress::InitializingTransfer => 2,
            TransferProgress::ExtractingFlowInstance => 3,
            TransferProgress::SettingDebitAccount => 4,
            TransferProgress::SettingCreditAccount => 5,
            TransferProgress::SettingAmount => 6,
            TransferProgress::AcknowledgingPayeeVerification => 7,
            TransferProgress::SettingReason => 8,
            TransferProgress::SubmittingRecap => 9,
            TransferProgress::ConfirmingTransfer => 10,
            TransferProgress::Completed => 11,
        }
    }

    /// Human-readable description of the stage.
    pub open spec fn spec_description(self) -> Seq<char> {
        match self {
            TransferProgress::Validating => "Validating transfer parameters"@,
            TransferProgress::InitializingTransfer => "Initializing transfer"@,
            TransferProgress::ExtractingFlowInstance => "Extracting flow instance"@,
            TransferProgress::SettingDebitAccount => "Setting debit account"@,
            TransferProgress::SettingCreditAccount => "Setting credit account"@,
            TransferProgress::SettingAmount => "Setting transfer amount"@,
            TransferProgress::AcknowledgingPayeeVerification => "Acknowledging the payee verification"@,
            TransferProgress::SettingReason => "Setting transfer reason"@,
            TransferProgress::SubmittingRecap => "Submitting the recap"@,
            TransferProgress::ConfirmingTransfer => "Confirming transfer"@,
            TransferProgress::Completed => "Transfer completed"@,
        }
    }

    pub fn step_number(&self) -> (n: u8)
        ensures
            n == self.spec_step_number(),
    {
        match self {
            TransferProgress::Validating => 1,
            TransferProgress::InitializingTransfer => 2,
            TransferProgress::ExtractingFlowInstance => 3,
            TransferProgress::SettingDebitAccount => 4,
            TransferProgress::SettingCreditAccount => 5,
            TransferProgress::SettingAmount => 6,
            TransferProgress::AcknowledgingPayeeVerification => 7,
            TransferProgress::SettingReason => 8,
            TransferProgress::SubmittingRecap => 9,
            TransferProgress::ConfirmingTransfer => 10,
            TransferProgress::Completed => 11,
        }
    }

    pub fn total_steps() -> (n: u8)
        ensures
            n == spec_total_steps(),
    {
        11
    }

    pub fn description(&self) -> (d: &'static str)
        ensures
            d@ == self.spec_description(),
    {
        match self {
            TransferProgress::Validating => "Validating transfer parameters",
            TransferProgress::InitializingTransfer => "Initializing transfer",
            TransferProgress::ExtractingFlowInstance => "Extracting flow instance",
            TransferProgress::SettingDebitAccount => "Setting debit account",
            TransferProgress::SettingCreditAccount => "Setting credit account",
            TransferProgress::SettingAmount => "Setting transfer amount",
            TransferProgress::AcknowledgingPayeeVerification => {
                "Acknowledging the payee verification"
            },
            TransferProgress::SettingReason => "Setting transfer reason",
            TransferProgress::SubmittingRecap => "Submitting the recap",
            TransferProgress::ConfirmingTransfer => "Confirming transfer",
            TransferProgress::Completed => "Transfer completed",
        }
    }
}

/// Every stage has a step number between 1 and the total number of steps,
/// and the last stage, `Completed`, is the one numbered `total_steps`.
pub proof fn lemma_step_number_in_range(p: TransferProgress)
    ensures
        1 <= p.spec_step_number() <= spec_total_steps(),
        p.spec_step_number() == spec_total_steps() <==> p == TransferProgress::Completed,
{
}

/// Two stages with the same step number are the same stage: step numbers
/// identify stages.
pub proof fn lemma_step_number_injective(p: TransferProgress, q: TransferProgress)
    ensures
        p.spec_step_number() == q.spec_step_number() <==> p == q,
{
}

proof fn lemma_description_shapes()
    ensures
        "Validating transfer parameters"@.len() == 30,
        "Initializing transfer"@.len() == 21,
        "Extracting flow instance"@.len() == 24,
        "Setting debit account"@.len() == 21,
        "Setting credit account"@.len() == 22,
        "Setting transfer amount"@.len() == 23,
        "Acknowledging the payee verification"@.len() == 36,
        "Setting transfer reason"@.len() == 23,
        "Submitting the recap"@.len() == 20,
        "Confirming transfer"@.len() == 19,
        "Transfer completed"@.len() == 18,
        "Initializing transfer"@[0] == 'I',
        "Setting debit account"@[0] == 'S',
        "Setting transfer amount"@[17] == 'a',
        "Setting transfer reason"@[17] == 'r',
{
    reveal_strlit("Validating transfer parameters");
    reveal_strlit("Initializing transfer");
    reveal_strlit("Extracting flow instance");
    reveal_strlit("Setting debit account");
    reveal_strlit("Setting credit account");
    reveal_strlit("Setting transfer amount");
    reveal_strlit("Acknowledging the payee verification");
    reveal_strlit("Setting transfer reason");
    reveal_strlit("Submitting the recap");
    reveal_strlit("Confirming transfer");
    reveal_strlit("Transfer completed");
}

/// Different stages have different descriptions.
pub proof fn lemma_descriptions_distinct(p: TransferProgress, q: TransferProgress)
    ensures
        p.spec_description() == q.spec_description() <==> p == q,
{
    lemma_description_shapes();
}

} // verus!

use vstd::prelude::*;

verus! {

/// Errors of the client's login flow.
#[derive(Debug)]
pub enum ClientError {
    InvalidCredentials,
    MfaRequired,
    QRCodeRequired(String),
    InvalidMfa,
    /// The password step succeeded but the login gives access to several
    /// identities: one must be selected before the session becomes usable.
    IdentitySelectionRequired,
}

impl ClientError {
    /// The message shown to the user for this error.
    pub open spec fn spec_message(&self) -> Seq<char> {
        match self {
            ClientError::InvalidCredentials => "Invalid credentials"@,
            ClientError::MfaRequired => "MFA required"@,
            ClientError::QRCodeRequired(msg) => msg@,
            ClientError::InvalidMfa => "Invalid MFA"@,
            ClientError::IdentitySelectionRequired => "This login gives access to several identities, one must be selected"@,
        }
    }

    /// The message shown to the user for this error (what the error displays as).
    pub fn message(&self) -> (m: String)
        ensures
            m@ == self.spec_message(),
    {
        match self {
            ClientError::InvalidCredentials => "Invalid credentials".to_owned(),
            ClientError::MfaRequired => "MFA required".to_owned(),
            ClientError::QRCodeRequired(msg) => msg.clone(),
            ClientError::InvalidMfa => "Invalid MFA".to_owned(),
            ClientError::IdentitySelectionRequired => {
                "This login gives access to several identities, one must be selected".to_owned()
            },
        }
    }
}

/// Why a transfer step was refused.
#[derive(Debug, Clone, Copy, PartialEq, Eq, Structural)]
pub enum TransferError {
    TransferInitiationFailed,
    SetDebitAccountFailed,
    SetCreditAccountFailed,
    SetAmountFailed,
    Step5Failed,
    SetReasonFailed,
    SubmitTransferFailed,
    InvalidTransfer,
    AmountTooLow,
    ReasonIsTooLong,
}

/// What can stop a transfer besides a refused step: a reply that lacks
/// what the next step needs.
#[derive(Debug, Clone, Copy, PartialEq, Eq, Structural)]
pub enum FlowError {
    Transfer(TransferError),
    MissingLocationHeader,
    MissingTransferId,
    MissingFlowInstance,
}

impl FlowError {
    /// The message of a missing piece of a reply (`None` for a refused step,
    /// whose error speaks for itself).
    pub open spec fn spec_context(&self) -> Option<Seq<char>> {
        match self {
            FlowError::Transfer(_) => None,
            FlowError::MissingLocationHeader => Some("Missing Location header"@),
            FlowError::MissingTransferId => Some("Failed to extract transfer id"@),
            FlowError::MissingFlowInstance => Some("Failed to extract flow instance"@),
        }
    }

    /// The message of a missing piece of a reply, `None` for a refused step.
    pub fn context(&self) -> (m: Option<&'static str>)
        ensures
            m matches Some(s) ==> self.spec_context() == Some(s@),
            m is None ==> self.spec_context() is None,
    {
        match self {
            FlowError::Transfer(_) => None,
            FlowError::MissingLocationHeader => Some("Missing Location header"),
            FlowError::MissingTransferId => Some("Failed to extract transfer id"),
            FlowError::MissingFlowInstance => Some("Failed to extract flow instance"),
        }
    }
}

proof fn lemma_message_lengths()
    ensures
        "Invalid credentials"@.len() == 19,
        "MFA required"@.len() == 12,
        "Invalid MFA"@.len() == 11,
        "This login gives access to several identities, one must be selected"@.len() == 67,
        "Missing Location header"@.len() == 23,
        "Failed to extract transfer id"@.len() == 29,
        "Failed to extract flow instance"@.len() == 31,
{
    reveal_strlit("Invalid credentials");
    reveal_strlit("MFA required");
    reveal_strlit("Invalid MFA");
    reveal_strlit("This login gives access to several identities, one must be selected");
    reveal_strlit("Missing Location header");
    reveal_strlit("Failed to extract transfer id");
    reveal_strlit("Failed to extract flow instance");
}

/// The login errors other than the QR-code one, which carries its own
/// message, have different messages.
pub proof fn lemma_client_messages_distinct(a: ClientError, b: ClientError)
    requires
        !(a is QRCodeRequired),
        !(b is QRCodeRequired),
    ensures
        a.spec_message() == b.spec_message() <==> a == b,
{
    lemma_message_lengths();
}

/// A QR-code error shows exactly the message it carries.
pub proof fn lemma_qr_code_message(msg: String)
    ensures
        ClientError::QRCodeRequired(msg).spec_message() == msg@,
{
}

/// Each missing piece of a reply has its own message, and a refused step has none.
pub proof fn lemma_flow_contexts_distinct(a: FlowError, b: FlowError)
    ensures
        a.spec_context() is None <==> a is Transfer,
        a.spec_context() is Some && a.spec_context() == b.spec_context() ==> a == b,
{
    lemma_message_lengths();
}

} // verus!

use bourso_api::error::{ClientError, FlowError, TransferError};
use bourso_api::progress::TransferProgress;

const ALL: [TransferProgress; 11] = [
    TransferProgress::Validating,
    TransferProgress::InitializingTransfer,
    TransferProgress::ExtractingFlowInstance,
    TransferProgress::SettingDebitAccount,
    TransferProgress::SettingCreditAccount,
    TransferProgress::SettingAmount,
    TransferProgress::AcknowledgingPayeeVerification,
    TransferProgress::SettingReason,
    TransferProgress::SubmittingRecap,
    TransferProgress::ConfirmingTransfer,
    TransferProgress::Completed,
];

#[test]
fn step_numbers_run_from_one_to_total() {
    for (i, p) in ALL.iter().enumerate() {
        assert_eq!(p.step_number() as usize, i + 1);
    }
    assert_eq!(TransferProgress::total_steps(), 11);
    assert_eq!(TransferProgress::Completed.step_number(), TransferProgress::total_steps());
}

#[test]
fn descriptions() {
    assert_eq!(TransferProgress::Validating.description(), "Validating transfer parameters");
    assert_eq!(TransferProgress::InitializingTransfer.description(), "Initializing transfer");
    assert_eq!(TransferProgress::ExtractingFlowInstance.description(), "Extracting flow instance");
    assert_eq!(TransferProgress::SettingDebitAccount.description(), "Setting debit account");
    assert_eq!(TransferProgress::SettingCreditAccount.description(), "Setting credit account");
    assert_eq!(TransferProgress::SettingAmount.description(), "Setting transfer amount");
    assert_eq!(
        TransferProgress::AcknowledgingPayeeVerification.description(),
        "Acknowledging the payee verification"
    );
    assert_eq!(TransferProgress::SettingReason.description(), "Setting transfer reason");
    assert_eq!(TransferProgress::SubmittingRecap.description(), "Submitting the recap");
    assert_eq!(TransferProgress::ConfirmingTransfer.description(), "Confirming transfer");
    assert_eq!(TransferProgress::Completed.description(), "Transfer completed");
}

#[test]
fn client_error_messages() {
    assert_eq!(ClientError::InvalidCredentials.message(), "Invalid credentials");
    assert_eq!(ClientError::MfaRequired.message(), "MFA required");
    assert_eq!(ClientError::QRCodeRequired("scan it".to_string()).message(), "scan it");
    assert_eq!(ClientError::InvalidMfa.message(), "Invalid MFA");
    assert_eq!(
        ClientError::IdentitySelectionRequired.message(),
        "This login gives access to several identities, one must be selected"
    );
}

#[test]
fn flow_error_contexts() {
    assert_eq!(FlowError::MissingLocationHeader.context(), Some("Missing Location header"));
    assert_eq!(FlowError::MissingTransferId.context(), Some("Failed to extract transfer id"));
    assert_eq!(FlowError::MissingFlowInstance.context(), Some("Failed to extract flow instance"));
    assert_eq!(FlowError::Transfer(TransferError::InvalidTransfer).context(), None);
}

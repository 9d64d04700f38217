use bourso_api::error::{FlowError, TransferError};
use bourso_api::progress::TransferProgress;
use bourso_api::reply::{check_status, read_flow_instance, read_post_reply, read_transfer_id};
use bourso_api::request::{amount_field_text, step_request, Method, TransferContext};

fn ctx() -> TransferContext {
    TransferContext {
        base_url: "https://bank.example".to_string(),
        from_account: "FROM".to_string(),
        to_account: "TO".to_string(),
        amount_text: "12,50".to_string(),
        reason: "Rent".to_string(),
        transfer_id: "TID".to_string(),
        flow_instance: "FI".to_string(),
    }
}

fn fields(p: TransferProgress) -> (Method, String, Vec<(String, String)>) {
    let q = step_request(&p, &ctx()).expect("stage sends a request");
    (q.method, q.url, q.form.into_iter().map(|f| (f.name, f.value)).collect())
}

fn f(n: &str, v: &str) -> (String, String) {
    (n.to_string(), v.to_string())
}

const BASE: &str = "https://bank.example/compte/cav/FROM/virements/immediat/nouveau";

#[test]
fn stages_without_requests() {
    assert!(step_request(&TransferProgress::Validating, &ctx()).is_none());
    assert!(step_request(&TransferProgress::Completed, &ctx()).is_none());
}

#[test]
fn opening_requests_are_gets() {
    let (m, url, form) = fields(TransferProgress::InitializingTransfer);
    assert_eq!(m, Method::Get);
    assert_eq!(url, BASE);
    assert!(form.is_empty());
    let (m, url, form) = fields(TransferProgress::ExtractingFlowInstance);
    assert_eq!(m, Method::Get);
    assert_eq!(url, format!("{}/TID/1", BASE));
    assert!(form.is_empty());
}

#[test]
fn debit_and_credit_forms() {
    let (m, url, form) = fields(TransferProgress::SettingDebitAccount);
    assert_eq!(m, Method::Post);
    assert_eq!(url, format!("{}/TID/2", BASE));
    assert_eq!(
        form,
        vec![
            f("flow_ImmediateCashTransfer_instance", "FI"),
            f("flow_ImmediateCashTransfer_step", "1"),
            f("DebitAccount[debit]", "FROM"),
        ]
    );
    let (_, url, form) = fields(TransferProgress::SettingCreditAccount);
    assert_eq!(url, format!("{}/TID/3", BASE));
    assert_eq!(
        form,
        vec![
            f("flow_ImmediateCashTransfer_instance", "FI"),
            f("flow_ImmediateCashTransfer_step", "2"),
            f("CreditAccount[credit]", "TO"),
        ]
    );
}

#[test]
fn amount_and_payee_forms() {
    let (_, url, form) = fields(TransferProgress::SettingAmount);
    assert_eq!(url, format!("{}/TID/4", BASE));
    assert_eq!(
        form,
        vec![
            f("flow_ImmediateCashTransfer_instance", "FI"),
            f("flow_ImmediateCashTransfer_step", "3"),
            f("Amount[amount]", "12,50"),
            f("flow_ImmediateCashTransfer_transition", ""),
            f("submit", ""),
        ]
    );
    let (_, url, form) = fields(TransferProgress::AcknowledgingPayeeVerification);
    assert_eq!(url, format!("{}/TID/5", BASE));
    assert_eq!(
        form,
        vec![
            f("flow_ImmediateCashTransfer_transition", ""),
            f("flow_ImmediateCashTransfer_transition", ""),
            f("flow_ImmediateCashTransfer_instance", "FI"),
            f("flow_ImmediateCashTransfer_step", "4"),
            f("submit", ""),
        ]
    );
}

#[test]
fn reason_recap_and_confirm_forms() {
    let (_, url, form) = fields(TransferProgress::SettingReason);
    assert_eq!(url, format!("{}/TID/7", BASE));
    assert_eq!(
        form,
        vec![
            f("flow_ImmediateCashTransfer_instance", "FI"),
            f("flow_ImmediateCashTransfer_step", "6"),
            f("Characteristics[label]", "Rent"),
            f("Characteristics[paymentType]", "0"),
            f("flow_ImmediateCashTransfer_transition", ""),
            f("flow_ImmediateCashTransfer_transition", ""),
            f("submit", ""),
        ]
    );
    for (p, page, step) in [
        (TransferProgress::SubmittingRecap, "9", "8"),
        (TransferProgress::ConfirmingTransfer, "10", "9"),
    ] {
        let (m, url, form) = fields(p);
        assert_eq!(m, Method::Post);
        assert_eq!(url, format!("{}/TID/{}", BASE, page));
        assert_eq!(
            form,
            vec![
                f("flow_ImmediateCashTransfer_instance", "FI"),
                f("flow_ImmediateCashTransfer_step", step),
                f("flow_ImmediateCashTransfer_transition", ""),
                f("flow_ImmediateCashTransfer_transition", ""),
                f("submit", ""),
            ]
        );
    }
}

#[test]
fn amount_uses_a_decimal_comma() {
    assert_eq!(amount_field_text("12.50"), "12,50");
    assert_eq!(amount_field_text("1000.00"), "1000,00");
    assert_eq!(amount_field_text("7"), "7");
}

#[test]
fn status_checks_per_stage() {
    assert_eq!(check_status(&TransferProgress::InitializingTransfer, 302), Ok(()));
    assert_eq!(
        check_status(&TransferProgress::InitializingTransfer, 200),
        Err(TransferError::TransferInitiationFailed)
    );
    assert_eq!(
        check_status(&TransferProgress::ExtractingFlowInstance, 302),
        Err(TransferError::TransferInitiationFailed)
    );
    let cases = [
        (TransferProgress::SettingDebitAccount, TransferError::SetDebitAccountFailed),
        (TransferProgress::SettingCreditAccount, TransferError::SetCreditAccountFailed),
        (TransferProgress::SettingAmount, TransferError::SetAmountFailed),
        (TransferProgress::AcknowledgingPayeeVerification, TransferError::Step5Failed),
        (TransferProgress::SettingReason, TransferError::SetReasonFailed),
        (TransferProgress::SubmittingRecap, TransferError::SubmitTransferFailed),
        (TransferProgress::ConfirmingTransfer, TransferError::SubmitTransferFailed),
    ];
    for (p, e) in cases {
        assert_eq!(check_status(&p, 200), Ok(()));
        assert_eq!(check_status(&p, 500), Err(e));
    }
}

#[test]
fn post_replies() {
    let form_page = r#"<input name="flow_ImmediateCashTransfer_step" value="8">"#;
    let done_page = r#"<div class="c-alert--success">OK</div>"#;
    assert_eq!(read_post_reply(&TransferProgress::SettingReason, 200, form_page), Ok(false));
    assert_eq!(read_post_reply(&TransferProgress::SubmittingRecap, 200, form_page), Ok(false));
    assert_eq!(read_post_reply(&TransferProgress::SubmittingRecap, 200, done_page), Ok(true));
    assert_eq!(
        read_post_reply(&TransferProgress::SubmittingRecap, 403, done_page),
        Err(TransferError::SubmitTransferFailed)
    );
    assert_eq!(read_post_reply(&TransferProgress::ConfirmingTransfer, 200, done_page), Ok(true));
    assert_eq!(
        read_post_reply(&TransferProgress::ConfirmingTransfer, 200, form_page),
        Err(TransferError::InvalidTransfer)
    );
}

#[test]
fn transfer_id_and_flow_instance_replies() {
    assert_eq!(read_transfer_id(None), Err(FlowError::MissingLocationHeader));
    assert_eq!(read_transfer_id(Some("/short/path")), Err(FlowError::MissingTransferId));
    assert_eq!(
        read_transfer_id(Some("/compte/cav/A/virements/immediat/nouveau/T42/1")),
        Ok("T42".to_string())
    );
    assert_eq!(read_flow_instance("<p>no form</p>"), Err(FlowError::MissingFlowInstance));
    assert_eq!(
        read_flow_instance(r#"name="flow_ImmediateCashTransfer_instance" value="inst-1""#),
        Ok("inst-1".to_string())
    );
}

use bourso_api::error::TransferError;
use bourso_api::flow::{first_action, next_action, validate_request, FlowAction};
use bourso_api::progress::TransferProgress;

fn run(recap_confirmed: bool) -> Vec<TransferProgress> {
    let mut seen = Vec::new();
    let mut action: FlowAction<String> = first_action();
    loop {
        match action {
            FlowAction::Report(p) => {
                seen.push(p);
                let confirmed = p == TransferProgress::SubmittingRecap && recap_confirmed;
                action = next_action(&p, Ok(confirmed));
            }
            FlowAction::Abort(_) => panic!("no stage fails"),
            FlowAction::Finish => break,
        }
    }
    seen
}

#[test]
fn successful_transfer_reports_every_stage_in_order() {
    let seen = run(false);
    assert_eq!(seen.len(), 11);
    for (i, p) in seen.iter().enumerate() {
        assert_eq!(p.step_number() as usize, i + 1);
    }
}

#[test]
fn confirmed_recap_skips_the_final_confirmation() {
    let seen = run(true);
    assert_eq!(seen.len(), 10);
    assert!(!seen.contains(&TransferProgress::ConfirmingTransfer));
    assert_eq!(seen[8], TransferProgress::SubmittingRecap);
    assert_eq!(seen[9], TransferProgress::Completed);
}

#[test]
fn failure_aborts_with_its_error() {
    let a: FlowAction<&str> = next_action(&TransferProgress::SettingAmount, Err("boom"));
    assert_eq!(a, FlowAction::Abort("boom"));
    let b: FlowAction<&str> = next_action(&TransferProgress::Completed, Ok(false));
    assert_eq!(b, FlowAction::Finish);
    let c: FlowAction<&str> = next_action(&TransferProgress::Completed, Err("late"));
    assert_eq!(c, FlowAction::Finish);
}

#[test]
fn validation_rules() {
    assert_eq!(validate_request(true, None), Err(TransferError::AmountTooLow));
    assert_eq!(validate_request(true, Some("x".repeat(80))), Err(TransferError::AmountTooLow));
    assert_eq!(validate_request(false, None), Ok("Virement depuis BoursoBank".to_string()));
    assert_eq!(validate_request(false, Some("x".repeat(50))), Ok("x".repeat(50)));
    assert_eq!(validate_request(false, Some("x".repeat(51))), Err(TransferError::ReasonIsTooLong));
    // The limit counts characters, not bytes.
    assert_eq!(validate_request(false, Some("é".repeat(26))), Ok("é".repeat(26)));
    assert_eq!(validate_request(false, Some("é".repeat(50))), Ok("é".repeat(50)));
    assert_eq!(validate_request(false, Some("é".repeat(51))), Err(TransferError::ReasonIsTooLong));
}

#[test]
fn failing_stream_ends_with_its_single_error() {
    let mut items: Vec<Result<TransferProgress, String>> = Vec::new();
    let mut action: FlowAction<String> = first_action();
    loop {
        match action {
            FlowAction::Report(p) => {
                items.push(Ok(p));
                let outcome = if p == TransferProgress::SettingAmount {
                    Err("refused".to_string())
                } else {
                    Ok(false)
                };
                action = next_action(&p, outcome);
            }
            FlowAction::Abort(e) => {
                items.push(Err(e));
                break;
            }
            FlowAction::Finish => break,
        }
    }
    assert_eq!(items.len(), 7);
    assert!(items[..6].iter().all(|i| i.is_ok()));
    assert_eq!(items[6], Err("refused".to_string()));
}

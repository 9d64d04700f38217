use vstd::prelude::*;

use crate::error::{FlowError, TransferError};
use crate::page::{
    extract_flow_instance, is_confirmation_page, spec_confirmation_page, spec_flow_instance,
    spec_flow_step, spec_transfer_id, transfer_id_from_location,
};
use crate::progress::TransferProgress;
use crate::text::spec_contains;
use crate::request::{has_request, posts_form};

verus! {

/// The status a stage's reply must have: a redirection for the request that
/// opens a transfer, OK for every other.
pub open spec fn spec_expected_status(p: TransferProgress) -> u16 {
    if p == TransferProgress::InitializingTransfer {
        302
    } else {
        200
    }
}

/// The error a stage reports when its reply has another status.
pub open spec fn spec_refusal(p: TransferProgress) -> TransferError {
    match p {
        TransferProgress::SettingDebitAccount => TransferError::SetDebitAccountFailed,
        TransferProgress::SettingCreditAccount => TransferError::SetCreditAccountFailed,
        TransferProgress::SettingAmount => TransferError::SetAmountFailed,
        TransferProgress::AcknowledgingPayeeVerification => TransferError::Step5Failed,
        TransferProgress::SettingReason => TransferError::SetReasonFailed,
        TransferProgress::SubmittingRecap => TransferError::SubmitTransferFailed,
        TransferProgress::ConfirmingTransfer => TransferError::SubmitTransferFailed,
        _ => TransferError::TransferInitiationFailed,
    }
}

/// Whether the reply of a stage has the status it must have; the stage's
/// error when it has not.
pub fn check_status(p: &TransferProgress, status: u16) -> (r: Result<(), TransferError>)
    requires
        has_request(*p),
    ensures
        r == (if status == spec_expected_status(*p) {
            Ok::<(), TransferError>(())
        } else {
            Err(spec_refusal(*p))
        }),
{
    let expected: u16 = match p {
        TransferProgress::InitializingTransfer => 302,
        _ => 200,
    };
    if status == expected {
        Ok(())
    } else {
        let e = match p {
            TransferProgress::SettingDebitAccount => TransferError::SetDebitAccountFailed,
            TransferProgress::SettingCreditAccount => TransferError::SetCreditAccountFailed,
            TransferProgress::SettingAmount => TransferError::SetAmountFailed,
            TransferProgress::AcknowledgingPayeeVerification => TransferError::Step5Failed,
            TransferProgress::SettingReason => TransferError::SetReasonFailed,
            TransferProgress::SubmittingRecap => TransferError::SubmitTransferFailed,
            TransferProgress::ConfirmingTransfer => TransferError::SubmitTransferFailed,
            _ => TransferError::TransferInitiationFailed,
        };
        Err(e)
    }
}

/// The transfer id of the reply that opens a transfer, read from its
/// `Location` header (`None` when the reply has no such header).
pub fn read_transfer_id(location: Option<&str>) -> (r: Result<String, FlowError>)
    ensures
        location is None ==> r == Err::<String, FlowError>(FlowError::MissingLocationHeader),
        location matches Some(l) ==> match spec_transfer_id(l@) {
            Some(id) => r matches Ok(s) && s@ == id,
            None => r == Err::<String, FlowError>(FlowError::MissingTransferId),
        },
{
    match location {
        None => Err(FlowError::MissingLocationHeader),
        Some(l) => match transfer_id_from_location(l) {
            Some(id) => Ok(id),
            None => Err(FlowError::MissingTransferId),
        },
    }
}

/// The flow instance of the transfer, read from the first page of the flow.
pub fn read_flow_instance(body: &str) -> (r: Result<String, FlowError>)
    ensures
        match spec_flow_instance(body@) {
            Some(fi) => r matches Ok(s) && s@ == fi,
            None => r == Err::<String, FlowError>(FlowError::MissingFlowInstance),
        },
{
    match extract_flow_instance(body) {
        Some(fi) => Ok(fi),
        None => Err(FlowError::MissingFlowInstance),
    }
}

/// How a stage that posts a form reads its reply: `true` when the reply is
/// the confirmation screen that ends the flow.
pub open spec fn spec_post_reply(p: TransferProgress, status: u16, body: Seq<char>) -> Result<
    bool,
    TransferError,
> {
    let confirmed = spec_confirmation_page(spec_flow_step(body), body);
    if status != 200 {
        Err(spec_refusal(p))
    } else if p == TransferProgress::SubmittingRecap {
        Ok(confirmed)
    } else if p == TransferProgress::ConfirmingTransfer {
        if confirmed {
            Ok(true)
        } else {
            Err(TransferError::InvalidTransfer)
        }
    } else {
        Ok(false)
    }
}

/// A transfer is only taken as confirmed on a reply with status 200 that
/// carries no flow form and shows a success marker: a re-rendered form, or
/// any refused reply, is never read as a confirmation.
pub proof fn lemma_confirmation_needs_a_success_page(p: TransferProgress, status: u16, body: Seq<char>)
    requires
        posts_form(p),
    ensures
        spec_post_reply(p, status, body) == Ok::<bool, TransferError>(true) ==> status == 200
            && spec_flow_step(body) is None && spec_confirmation_page(spec_flow_step(body), body),
        p == TransferProgress::ConfirmingTransfer ==> (spec_post_reply(p, status, body) is Ok
            <==> status == 200 && spec_confirmation_page(spec_flow_step(body), body)),
{
}

/// The opening request expects a redirection (302); every other stage that
/// talks to the server expects 200.
pub proof fn lemma_expected_statuses(p: TransferProgress)
    requires
        has_request(p),
    ensures
        p == TransferProgress::InitializingTransfer ==> spec_expected_status(p) == 302,
        p != TransferProgress::InitializingTransfer ==> spec_expected_status(p) == 200,
{
}

/// A refused reply is reported with an error that names its stage: only the
/// two opening stages share theirs, and so do the recap and the final
/// confirmation; it is never the error of a refused transfer or of refused
/// parameters.
pub proof fn lemma_refusals_name_their_stage(p: TransferProgress, q: TransferProgress)
    requires
        has_request(p),
        has_request(q),
    ensures
        spec_refusal(p) == spec_refusal(q) ==> p == q || ((p == TransferProgress::InitializingTransfer
            || p == TransferProgress::ExtractingFlowInstance) && (q
            == TransferProgress::InitializingTransfer || q
            == TransferProgress::ExtractingFlowInstance)) || ((p == TransferProgress::SubmittingRecap
            || p == TransferProgress::ConfirmingTransfer) && (q == TransferProgress::SubmittingRecap
            || q == TransferProgress::ConfirmingTransfer)),
        spec_refusal(p) != TransferError::InvalidTransfer,
        spec_refusal(p) != TransferError::AmountTooLow,
        spec_refusal(p) != TransferError::ReasonIsTooLong,
{
}

/// How a posted form's reply is read: a status other than 200 is the
/// stage's refusal; with 200, every stage but the final confirmation
/// succeeds, and only the recap can report the flow as already confirmed,
/// when its page is the confirmation screen.
pub proof fn lemma_post_reply_rules(p: TransferProgress, status: u16, body: Seq<char>)
    requires
        posts_form(p),
    ensures
        status != 200 ==> spec_post_reply(p, status, body) == Err::<bool, TransferError>(
            spec_refusal(p),
        ),
        status == 200 && p != TransferProgress::ConfirmingTransfer ==> spec_post_reply(
            p,
            status,
            body,
        ) == Ok::<bool, TransferError>(
            p == TransferProgress::SubmittingRecap && spec_flow_step(body) is None && (spec_contains(
                body,
                "c-alert--success"@,
            ) || spec_contains(body, ">Confirmation</h3>"@)),
        ),
        p != TransferProgress::ConfirmingTransfer ==> (spec_post_reply(p, status, body) is Err
            <==> status != 200),
{
}

/// Reads the reply of a stage that posts a form. The recap says whether it
/// already reached the confirmation screen (validating the recap executes
/// the transfer today); the final confirmation must reach it, or the
/// transfer was refused.
pub fn read_post_reply(p: &TransferProgress, status: u16, body: &str) -> (r: Result<
    bool,
    TransferError,
>)
    requires
        posts_form(*p),
    ensures
        r == spec_post_reply(*p, status, body@),
{
    if let Err(e) = check_status(p, status) {
        return Err(e);
    }
    match p {
        TransferProgress::SubmittingRecap => Ok(is_confirmation_page(body)),
        TransferProgress::ConfirmingTransfer => {
            if is_confirmation_page(body) {
                Ok(true)
            } else {
                Err(TransferError::InvalidTransfer)
            }
        },
        _ => Ok(false),
    }
}

} // verus!

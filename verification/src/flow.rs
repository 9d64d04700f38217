use vstd::prelude::*;

use crate::error::TransferError;
use crate::text::char_vec;
use crate::progress::{spec_total_steps, TransferProgress};
use crate::request::{has_request, posts_form, spec_page};

verus! {

/// Reason given to a transfer when the caller gives none.
pub const DEFAULT_REASON: &'static str = "Virement depuis BoursoBank";

/// Longest reason the bank accepts, in characters.
pub const MAX_REASON_CHARS: usize = 50;

/// What a running transfer does next.
#[derive(Debug, PartialEq, Eq)]
pub enum FlowAction<E> {
    /// Report the stage as reached, then do its work.
    Report(TransferProgress),
    /// Report the error and stop.
    Abort(E),
    /// The transfer is over.
    Finish,
}

/// How a transfer goes on once the work of the stage `current` is done.
/// `outcome` is the result of that work; its `true` means that the reply
/// already was the confirmation screen, which only matters for the recap.
/// `Completed` has no work: the transfer ends after it, whatever the outcome.
pub open spec fn spec_next_action<E>(current: TransferProgress, outcome: Result<bool, E>) -> FlowAction<E> {
    if current == TransferProgress::Completed {
        FlowAction::Finish
    } else {
        spec_next_after_work(current, outcome)
    }
}

/// How a transfer goes on after the work of a stage other than `Completed`.
pub open spec fn spec_next_after_work<E>(current: TransferProgress, outcome: Result<bool, E>) -> FlowAction<E> {
    match outcome {
        Err(e) => FlowAction::Abort(e),
        Ok(confirmed) => match current {
            TransferProgress::Validating => FlowAction::Report(TransferProgress::InitializingTransfer),
            TransferProgress::InitializingTransfer => FlowAction::Report(
                TransferProgress::ExtractingFlowInstance,
            ),
            TransferProgress::ExtractingFlowInstance => FlowAction::Report(
                TransferProgress::SettingDebitAccount,
            ),
            TransferProgress::SettingDebitAccount => FlowAction::Report(
                TransferProgress::SettingCreditAccount,
            ),
            TransferProgress::SettingCreditAccount => FlowAction::Report(
                TransferProgress::SettingAmount,
            ),
            TransferProgress::SettingAmount => FlowAction::Report(
                TransferProgress::AcknowledgingPayeeVerification,
            ),
            TransferProgress::AcknowledgingPayeeVerification => FlowAction::Report(
                TransferProgress::SettingReason,
            ),
            TransferProgress::SettingReason => FlowAction::Report(TransferProgress::SubmittingRecap),
            TransferProgress::SubmittingRecap => if confirmed {
                FlowAction::Report(TransferProgress::Completed)
            } else {
                FlowAction::Report(TransferProgress::ConfirmingTransfer)
            },
            TransferProgress::ConfirmingTransfer => FlowAction::Report(TransferProgress::Completed),
            TransferProgress::Completed => FlowAction::Finish,
        },
    }
}

/// The first thing a transfer does: report that it validates its parameters.
pub fn first_action<E>() -> (a: FlowAction<E>)
    ensures
        a == FlowAction::<E>::Report(TransferProgress::Validating),
{
    FlowAction::Report(TransferProgress::Validating)
}

/// What a transfer does once the work of the stage `current` is done.
pub fn next_action<E>(current: &TransferProgress, outcome: Result<bool, E>) -> (a: FlowAction<E>)
    ensures
        a == spec_next_action(*current, outcome),
{
    if let TransferProgress::Completed = current {
        return FlowAction::Finish;
    }
    match outcome {
        Err(e) => FlowAction::Abort(e),
        Ok(confirmed) => match current {
            TransferProgress::Validating => FlowAction::Report(TransferProgress::InitializingTransfer),
            TransferProgress::InitializingTransfer => FlowAction::Report(
                TransferProgress::ExtractingFlowInstance,
            ),
            TransferProgress::ExtractingFlowInstance => FlowAction::Report(
                TransferProgress::SettingDebitAccount,
            ),
            TransferProgress::SettingDebitAccount => FlowAction::Report(
                TransferProgress::SettingCreditAccount,
            ),
            TransferProgress::SettingCreditAccount => FlowAction::Report(
                TransferProgress::SettingAmount,
            ),
            TransferProgress::SettingAmount => FlowAction::Report(
                TransferProgress::AcknowledgingPayeeVerification,
            ),
            TransferProgress::AcknowledgingPayeeVerification => FlowAction::Report(
                TransferProgress::SettingReason,
            ),
            TransferProgress::SettingReason => FlowAction::Report(TransferProgress::SubmittingRecap),
            TransferProgress::SubmittingRecap => {
                if confirmed {
                    FlowAction::Report(TransferProgress::Completed)
                } else {
                    FlowAction::Report(TransferProgress::ConfirmingTransfer)
                }
            },
            TransferProgress::ConfirmingTransfer => FlowAction::Report(TransferProgress::Completed),
            TransferProgress::Completed => FlowAction::Finish,
        },
    }
}

/// A failed stage stops the transfer with the stage's error, and only a
/// failed stage does; after `Completed` the transfer ends, whatever happens.
pub proof fn lemma_abort_exactly_on_failure<E>(current: TransferProgress, outcome: Result<bool, E>)
    ensures
        spec_next_action(current, outcome) is Abort <==> (outcome is Err && current
            != TransferProgress::Completed),
        current != TransferProgress::Completed ==> (outcome matches Err(e) ==> spec_next_action(
            current,
            outcome,
        ) == FlowAction::<E>::Abort(e)),
        spec_next_action(current, outcome) is Finish <==> current == TransferProgress::Completed,
{
}

/// After a stage that succeeds, the transfer reports a later stage, the next
/// one in order, except that a recap that reached the confirmation screen
/// goes straight to `Completed`; once `Completed` has been reported, the
/// transfer is over, and it is over at no other point.
pub proof fn lemma_success_moves_forward<E>(current: TransferProgress, confirmed: bool)
    ensures
        current != TransferProgress::Completed ==> (spec_next_action(
            current,
            Ok::<bool, E>(confirmed),
        ) matches FlowAction::Report(next) && next.spec_step_number()
            > current.spec_step_number() && (next.spec_step_number()
            == current.spec_step_number() + 1 || (current == TransferProgress::SubmittingRecap
            && confirmed && next == TransferProgress::Completed))),
        spec_next_action(current, Ok::<bool, E>(confirmed)) is Finish <==> current
            == TransferProgress::Completed,
{
}

/// The final confirmation is submitted exactly when the recap did not
/// already reach the confirmation screen.
pub proof fn lemma_confirmation_only_when_recap_unconfirmed<E>(
    current: TransferProgress,
    outcome: Result<bool, E>,
)
    ensures
        spec_next_action(current, outcome) == FlowAction::<E>::Report(
            TransferProgress::ConfirmingTransfer,
        ) <==> (current == TransferProgress::SubmittingRecap && outcome == Ok::<bool, E>(false)),
{
}

/// Along a transfer, each stage that talks to the server after another one
/// requests a later page of the transfer than the one before.
pub proof fn lemma_pages_move_forward<E>(current: TransferProgress, confirmed: bool)
    ensures
        spec_next_action(current, Ok::<bool, E>(confirmed)) matches FlowAction::Report(next)
            ==> (has_request(current) && has_request(next) ==> spec_page(next) > spec_page(
            current,
        )),
{
}

/// What a transfer whose every stage succeeds has done after `k` steps;
/// `recap_confirmed` says whether the recap reaches the confirmation screen.
pub open spec fn successful_run<E>(k: nat, recap_confirmed: bool) -> FlowAction<E>
    decreases k,
{
    if k == 0 {
        FlowAction::Report(TransferProgress::Validating)
    } else {
        match successful_run::<E>((k - 1) as nat, recap_confirmed) {
            FlowAction::Report(p) => spec_next_action(
                p,
                Ok::<bool, E>(p == TransferProgress::SubmittingRecap && recap_confirmed),
            ),
            FlowAction::Abort(e) => FlowAction::Abort(e),
            FlowAction::Finish => FlowAction::Finish,
        }
    }
}

/// A transfer whose every stage succeeds reports every stage in order, the
/// `k`-th report being the stage numbered `k + 1`, up to `Completed`, and
/// then ends.
pub proof fn lemma_successful_transfer_reports_every_stage<E>(k: nat)
    ensures
        k < spec_total_steps() ==> (successful_run::<E>(k, false) matches FlowAction::Report(p)
            && p.spec_step_number() == k + 1),
        k >= spec_total_steps() ==> successful_run::<E>(k, false) == FlowAction::<E>::Finish,
    decreases k,
{
    if k > 0 {
        lemma_successful_transfer_reports_every_stage::<E>((k - 1) as nat);
    }
}

/// A transfer whose every stage succeeds requests, after the opening
/// redirection, the pages 1, 2, 3, 4, 5, 7, 9 and 10 of the transfer, in this
/// order, one per stage, and posts a form to all but the first.
pub proof fn lemma_successful_transfer_pages<E>(k: nat)
    requires
        2 <= k <= 9,
    ensures
        successful_run::<E>(k, false) matches FlowAction::Report(p) ==> spec_page(p) == seq![
            1nat,
            2,
            3,
            4,
            5,
            7,
            9,
            10,
        ][k - 2] && (posts_form(p) <==> k >= 3),
{
    lemma_successful_transfer_reports_every_stage::<E>(k);
}

/// When the recap already reaches the confirmation screen, the transfer
/// reports the stages in order up to the recap, then `Completed`, then ends:
/// it never reports the final confirmation.
pub proof fn lemma_confirmed_recap_skips_confirmation<E>(k: nat)
    ensures
        successful_run::<E>(k, true) != FlowAction::<E>::Report(TransferProgress::ConfirmingTransfer),
        k <= 8 ==> (successful_run::<E>(k, true) matches FlowAction::Report(p)
            && p.spec_step_number() == k + 1),
        k == 9 ==> successful_run::<E>(k, true) == FlowAction::<E>::Report(TransferProgress::Completed),
        k >= 10 ==> successful_run::<E>(k, true) == FlowAction::<E>::Finish,
    decreases k,
{
    if k > 0 {
        lemma_confirmed_recap_skips_confirmation::<E>((k - 1) as nat);
    }
}

/// The items a transfer's stream yields after it reported `current` as the
/// `k`-th stage (counting from 0), when the work of the `j`-th stage reported
/// has the outcome `outcomes(j)`: `Ok` items for the stages reported, then the
/// error that stopped it, if one did.
pub open spec fn items_after<E>(
    current: TransferProgress,
    k: nat,
    outcomes: spec_fn(nat) -> Result<bool, E>,
) -> Seq<Result<TransferProgress, E>>
    decreases 12 - current.spec_step_number(),
{
    match spec_next_action(current, outcomes(k)) {
        FlowAction::Report(next) => if next.spec_step_number() > current.spec_step_number() {
            seq![Ok(next)] + items_after(next, k + 1, outcomes)
        } else {
            seq![]
        },
        FlowAction::Abort(e) => seq![Err(e)],
        FlowAction::Finish => seq![],
    }
}

/// Everything a transfer's stream yields, to its end, when the work of the
/// `j`-th stage reported has the outcome `outcomes(j)`.
pub open spec fn transfer_items<E>(outcomes: spec_fn(nat) -> Result<bool, E>) -> Seq<
    Result<TransferProgress, E>,
> {
    seq![Ok(TransferProgress::Validating)] + items_after(TransferProgress::Validating, 0, outcomes)
}

proof fn lemma_items_after<E>(
    current: TransferProgress,
    k: nat,
    outcomes: spec_fn(nat) -> Result<bool, E>,
)
    requires
        current != TransferProgress::Completed,
    ensures
        1 <= items_after(current, k, outcomes).len() <= 11 - current.spec_step_number(),
        forall|i: int|
            0 <= i < items_after(current, k, outcomes).len() - 1 ==> #[trigger] items_after(
                current,
                k,
                outcomes,
            )[i] is Ok,
        items_after(current, k, outcomes).last() is Ok ==> items_after(current, k, outcomes).last()
            == Ok::<TransferProgress, E>(TransferProgress::Completed),
    decreases 12 - current.spec_step_number(),
{
    let t = items_after(current, k, outcomes);
    lemma_abort_exactly_on_failure(current, outcomes(k));
    match outcomes(k) {
        Ok(c) => {
            lemma_success_moves_forward::<E>(current, c);
        },
        Err(_) => {},
    }
    match spec_next_action(current, outcomes(k)) {
        FlowAction::Report(next) => {
            if next == TransferProgress::Completed {
                assert(items_after(next, k + 1, outcomes) =~= seq![]);
                assert(t =~= seq![Ok::<TransferProgress, E>(next)]);
            } else {
                let rest = items_after(next, k + 1, outcomes);
                lemma_items_after(next, k + 1, outcomes);
                assert(t =~= seq![Ok::<TransferProgress, E>(next)] + rest);
                assert forall|i: int| 0 <= i < t.len() - 1 implies #[trigger] t[i] is Ok by {
                    if i > 0 {
                        assert(t[i] == rest[i - 1]);
                    }
                }
                assert(t.last() == rest.last());
            }
        },
        FlowAction::Abort(e) => {},
        FlowAction::Finish => {},
    }
}

/// Whatever the outcome of each stage, a transfer's stream yields at least
/// two and at most `total_steps` items; every item but the last is `Ok`, so
/// an error can only be the last item; and the last item is
/// `Ok(Completed)` exactly when no item is an error.
pub proof fn lemma_transfer_stream_shape<E>(outcomes: spec_fn(nat) -> Result<bool, E>)
    ensures
        2 <= transfer_items(outcomes).len() <= spec_total_steps(),
        forall|i: int|
            0 <= i < transfer_items(outcomes).len() - 1 ==> #[trigger] transfer_items(outcomes)[i] is Ok,
        transfer_items(outcomes).last() == Ok::<TransferProgress, E>(TransferProgress::Completed)
            <==> (forall|i: int|
            0 <= i < transfer_items(outcomes).len() ==> #[trigger] transfer_items(outcomes)[i] is Ok),
{
    let s = transfer_items(outcomes);
    let t = items_after(TransferProgress::Validating, 0, outcomes);
    lemma_items_after(TransferProgress::Validating, 0, outcomes);
    assert forall|i: int| 0 <= i < s.len() - 1 implies #[trigger] s[i] is Ok by {
        if i > 0 {
            assert(s[i] == t[i - 1]);
        }
    }
    assert(s.last() == t.last());
    if forall|i: int| 0 <= i < s.len() ==> #[trigger] s[i] is Ok {
        assert(s[s.len() - 1] is Ok);
    }
}

/// The reason a transfer carries, or why its parameters are refused: an
/// amount under the minimum first, then a reason longer than the bank takes.
pub open spec fn spec_validate(amount_too_low: bool, reason: Option<Seq<char>>) -> Result<
    Seq<char>,
    TransferError,
> {
    if amount_too_low {
        Err(TransferError::AmountTooLow)
    } else {
        match reason {
            Some(r) => if r.len() > MAX_REASON_CHARS {
                Err(TransferError::ReasonIsTooLong)
            } else {
                Ok(r)
            },
            None => Ok(DEFAULT_REASON@),
        }
    }
}

/// Validates the parameters of a transfer. `amount_too_low` says whether the
/// amount is under the minimum of 10 euros; the reason, when given, must fit
/// in 50 characters, and defaults to "Virement depuis BoursoBank".
pub fn validate_request(amount_too_low: bool, reason: Option<String>) -> (r: Result<
    String,
    TransferError,
>)
    ensures
        match spec_validate(
            amount_too_low,
            match reason {
                Some(s) => Some(s@),
                None => None,
            },
        ) {
            Ok(s) => r matches Ok(t) && t@ == s,
            Err(e) => r == Err::<String, TransferError>(e),
        },
{
    if amount_too_low {
        return Err(TransferError::AmountTooLow);
    }
    match reason {
        Some(r) => {
            if char_vec(r.as_str()).len() > MAX_REASON_CHARS {
                Err(TransferError::ReasonIsTooLong)
            } else {
                Ok(r)
            }
        },
        None => Ok(DEFAULT_REASON.to_owned()),
    }
}

/// The rules of a transfer's parameters: an amount under the minimum is
/// refused whatever the reason; otherwise a reason of at most 50 characters
/// is kept as it is, a longer one is refused, and no reason gives
/// "Virement depuis BoursoBank". An accepted reason never exceeds 50 characters.
pub proof fn lemma_validation_rules(amount_too_low: bool, reason: Option<Seq<char>>)
    ensures
        amount_too_low ==> spec_validate(amount_too_low, reason) == Err::<Seq<char>, TransferError>(
            TransferError::AmountTooLow,
        ),
        spec_validate(amount_too_low, reason) is Ok ==> !amount_too_low,
        spec_validate(amount_too_low, reason) matches Ok(r) ==> r.len() <= 50,
        !amount_too_low && reason is None ==> spec_validate(amount_too_low, reason) == Ok::<
            Seq<char>,
            TransferError,
        >("Virement depuis BoursoBank"@),
        !amount_too_low ==> (reason matches Some(r) ==> (r.len() <= 50 ==> spec_validate(
            amount_too_low,
            reason,
        ) == Ok::<Seq<char>, TransferError>(r))),
        !amount_too_low ==> (reason matches Some(r) ==> (r.len() > 50 ==> spec_validate(
            amount_too_low,
            reason,
        ) == Err::<Seq<char>, TransferError>(TransferError::ReasonIsTooLong))),
{
    reveal_strlit("Virement depuis BoursoBank");
}

} // verus!

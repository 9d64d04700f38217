use vstd::prelude::*;

use crate::progress::TransferProgress;
use crate::text::{replace_char, replace_char_with};

verus! {

/// How a step reaches the server.
#[derive(Debug, Clone, Copy, PartialEq, Eq, Structural)]
pub enum Method {
    Get,
    Post,
}

/// One text field of a multipart form.
#[derive(Debug)]
pub struct FormField {
    pub name: String,
    pub value: String,
}

impl View for FormField {
    type V = (Seq<char>, Seq<char>);

    open spec fn view(&self) -> (Seq<char>, Seq<char>) {
        (self.name@, self.value@)
    }
}

/// A request that a transfer step sends.
#[derive(Debug)]
pub struct StepRequest {
    pub method: Method,
    pub url: String,
    /// The multipart form of a `Post`, in the order its fields are sent.
    pub form: Vec<FormField>,
}

/// A request, as mathematical values.
pub struct RequestSpec {
    pub method: Method,
    pub url: Seq<char>,
    pub form: Seq<(Seq<char>, Seq<char>)>,
}

impl View for StepRequest {
    type V = RequestSpec;

    open spec fn view(&self) -> RequestSpec {
        RequestSpec {
            method: self.method,
            url: self.url@,
            form: self.form@.map_values(|f: FormField| f@),
        }
    }
}

/// What the steps of a transfer need to build their requests. The transfer
/// id and the flow instance are learnt from the first two replies; they are
/// empty before.
#[derive(Debug)]
pub struct TransferContext {
    pub base_url: String,
    pub from_account: String,
    pub to_account: String,
    /// The amount as the form wants it: two decimals and a decimal comma.
    pub amount_text: String,
    pub reason: String,
    pub transfer_id: String,
    pub flow_instance: String,
}

/// A transfer context, as mathematical values.
pub struct ContextSpec {
    pub base_url: Seq<char>,
    pub from_account: Seq<char>,
    pub to_account: Seq<char>,
    pub amount_text: Seq<char>,
    pub reason: Seq<char>,
    pub transfer_id: Seq<char>,
    pub flow_instance: Seq<char>,
}

impl View for TransferContext {
    type V = ContextSpec;

    open spec fn view(&self) -> ContextSpec {
        ContextSpec {
            base_url: self.base_url@,
            from_account: self.from_account@,
            to_account: self.to_account@,
            amount_text: self.amount_text@,
            reason: self.reason@,
            transfer_id: self.transfer_id@,
            flow_instance: self.flow_instance@,
        }
    }
}

/// The decimal digit `d`.
pub open spec fn digit_char(d: nat) -> char {
    if d == 0 {
        '0'
    } else if d == 1 {
        '1'
    } else if d == 2 {
        '2'
    } else if d == 3 {
        '3'
    } else if d == 4 {
        '4'
    } else if d == 5 {
        '5'
    } else if d == 6 {
        '6'
    } else if d == 7 {
        '7'
    } else if d == 8 {
        '8'
    } else {
        '9'
    }
}

/// The digit of `d` is the character with code `'0' + d`.
pub proof fn lemma_digit_codes(d: nat)
    requires
        d < 10,
    ensures
        digit_char(d) as u32 == 48 + d,
{
}

/// `n` written in decimal.
pub open spec fn decimal(n: nat) -> Seq<char>
    decreases n,
{
    if n < 10 {
        seq![digit_char(n)]
    } else {
        decimal(n / 10) + seq![digit_char(n % 10)]
    }
}

/// `n`, between 1 and 10, written in decimal.
fn small_decimal(n: u8) -> (r: &'static str)
    requires
        1 <= n <= 10,
    ensures
        r@ == decimal(n as nat),
{
    proof {
        reveal_with_fuel(decimal, 2);
    }
    match n {
        1 => {
            proof {
                reveal_strlit("1");
            }
            "1"
        },
        2 => {
            proof {
                reveal_strlit("2");
            }
            "2"
        },
        3 => {
            proof {
                reveal_strlit("3");
            }
            "3"
        },
        4 => {
            proof {
                reveal_strlit("4");
            }
            "4"
        },
        5 => {
            proof {
                reveal_strlit("5");
            }
            "5"
        },
        6 => {
            proof {
                reveal_strlit("6");
            }
            "6"
        },
        7 => {
            proof {
                reveal_strlit("7");
            }
            "7"
        },
        8 => {
            proof {
                reveal_strlit("8");
            }
            "8"
        },
        9 => {
            proof {
                reveal_strlit("9");
            }
            "9"
        },
        _ => {
            proof {
                reveal_strlit("10");
                assert("10"@ =~= decimal(1) + seq!['0']);
            }
            "10"
        },
    }
}

/// Name of the field that carries the flow instance.
pub const INSTANCE_FIELD: &'static str = "flow_ImmediateCashTransfer_instance";

/// Name of the field that carries the step the form was filled at.
pub const STEP_FIELD: &'static str = "flow_ImmediateCashTransfer_step";

/// Name of the (empty) transition field.
pub const TRANSITION_FIELD: &'static str = "flow_ImmediateCashTransfer_transition";

/// Name of the (empty) submit field.
pub const SUBMIT_FIELD: &'static str = "submit";

/// `Characteristics[paymentType]` value for an instant transfer, credited in
/// seconds. The other value the form offers is "1", a classic transfer
/// settling in 1 to 3 business days.
pub const PAYMENT_TYPE_INSTANT: &'static str = "0";

/// The path under which a new immediate transfer from `from` is made.
pub open spec fn transfers_path(base: Seq<char>, from: Seq<char>) -> Seq<char> {
    base + "/compte/cav/"@ + from + "/virements/immediat/nouveau"@
}

/// The page `page` of the transfer the context names.
pub open spec fn page_url(c: ContextSpec, page: nat) -> Seq<char> {
    transfers_path(c.base_url, c.from_account) + "/"@ + c.transfer_id + "/"@ + decimal(page)
}

/// The page a step requests (0 for the stages that send nothing and for the
/// opening request, which has no page).
pub open spec fn spec_page(p: TransferProgress) -> nat {
    match p {
        TransferProgress::ExtractingFlowInstance => 1,
        TransferProgress::SettingDebitAccount => 2,
        TransferProgress::SettingCreditAccount => 3,
        TransferProgress::SettingAmount => 4,
        TransferProgress::AcknowledgingPayeeVerification => 5,
        TransferProgress::SettingReason => 7,
        TransferProgress::SubmittingRecap => 9,
        TransferProgress::ConfirmingTransfer => 10,
        _ => 0,
    }
}

/// The stages that talk to the server.
pub open spec fn has_request(p: TransferProgress) -> bool {
    p != TransferProgress::Validating && p != TransferProgress::Completed
}

/// The stages that post a form.
pub open spec fn posts_form(p: TransferProgress) -> bool {
    has_request(p) && p != TransferProgress::InitializingTransfer && p
        != TransferProgress::ExtractingFlowInstance
}

pub open spec fn instance_field(c: ContextSpec) -> (Seq<char>, Seq<char>) {
    (INSTANCE_FIELD@, c.flow_instance)
}

pub open spec fn step_field(k: nat) -> (Seq<char>, Seq<char>) {
    (STEP_FIELD@, decimal(k))
}

pub open spec fn transition_field() -> (Seq<char>, Seq<char>) {
    (TRANSITION_FIELD@, ""@)
}

pub open spec fn submit_field() -> (Seq<char>, Seq<char>) {
    (SUBMIT_FIELD@, ""@)
}

/// The form a step posts, field by field.
pub open spec fn spec_form(p: TransferProgress, c: ContextSpec) -> Seq<(Seq<char>, Seq<char>)> {
    match p {
        TransferProgress::SettingDebitAccount => seq![
            instance_field(c),
            step_field(1),
            ("DebitAccount[debit]"@, c.from_account),
        ],
        TransferProgress::SettingCreditAccount => seq![
            instance_field(c),
            step_field(2),
            ("CreditAccount[credit]"@, c.to_account),
        ],
        TransferProgress::SettingAmount => seq![
            instance_field(c),
            step_field(3),
            ("Amount[amount]"@, c.amount_text),
            transition_field(),
            submit_field(),
        ],
        TransferProgress::AcknowledgingPayeeVerification => seq![
            transition_field(),
            transition_field(),
            instance_field(c),
            step_field(4),
            submit_field(),
        ],
        TransferProgress::SettingReason => seq![
            instance_field(c),
            step_field(6),
            ("Characteristics[label]"@, c.reason),
            ("Characteristics[paymentType]"@, PAYMENT_TYPE_INSTANT@),
            transition_field(),
            transition_field(),
            submit_field(),
        ],
        TransferProgress::SubmittingRecap => seq![
            instance_field(c),
            step_field(8),
            transition_field(),
            transition_field(),
            submit_field(),
        ],
        TransferProgress::ConfirmingTransfer => seq![
            instance_field(c),
            step_field(9),
            transition_field(),
            transition_field(),
            submit_field(),
        ],
        _ => seq![],
    }
}

/// The request a stage sends, if it sends one.
pub open spec fn spec_step_request(p: TransferProgress, c: ContextSpec) -> Option<RequestSpec> {
    if !has_request(p) {
        None
    } else if p == TransferProgress::InitializingTransfer {
        Some(
            RequestSpec {
                method: Method::Get,
                url: transfers_path(c.base_url, c.from_account),
                form: seq![],
            },
        )
    } else if p == TransferProgress::ExtractingFlowInstance {
        Some(RequestSpec { method: Method::Get, url: page_url(c, 1), form: seq![] })
    } else {
        Some(RequestSpec { method: Method::Post, url: page_url(c, spec_page(p)), form: spec_form(p, c) })
    }
}

/// The amount as the amount form wants it, from the amount written with two
/// decimals: the decimal point becomes a decimal comma (`12.50` gives `12,50`).
pub fn amount_field_text(two_decimals: &str) -> (r: String)
    ensures
        r@ == replace_char(two_decimals@, '.', ','),
{
    proof {
        reveal_strlit(",");
    }
    replace_char_with(two_decimals, '.', ",")
}

fn field(name: &str, value: &str) -> (f: FormField)
    ensures
        f@ == (name@, value@),
{
    FormField { name: name.to_owned(), value: value.to_owned() }
}

fn page_of(p: &TransferProgress) -> (n: u8)
    ensures
        n == spec_page(*p),
{
    match p {
        TransferProgress::ExtractingFlowInstance => 1,
        TransferProgress::SettingDebitAccount => 2,
        TransferProgress::SettingCreditAccount => 3,
        TransferProgress::SettingAmount => 4,
        TransferProgress::AcknowledgingPayeeVerification => 5,
        TransferProgress::SettingReason => 7,
        TransferProgress::SubmittingRecap => 9,
        TransferProgress::ConfirmingTransfer => 10,
        _ => 0,
    }
}

/// The path under which a new immediate transfer from the context's account is made.
pub fn transfers_url(ctx: &TransferContext) -> (u: String)
    ensures
        u@ == transfers_path(ctx@.base_url, ctx@.from_account),
{
    let mut u = ctx.base_url.clone();
    u.append("/compte/cav/");
    u.append(ctx.from_account.as_str());
    u.append("/virements/immediat/nouveau");
    u
}

/// The page `page` (1 to 10) of the transfer the context names.
pub fn step_url(ctx: &TransferContext, page: u8) -> (u: String)
    requires
        1 <= page <= 10,
    ensures
        u@ == page_url(ctx@, page as nat),
{
    let mut u = transfers_url(ctx);
    u.append("/");
    u.append(ctx.transfer_id.as_str());
    u.append("/");
    u.append(small_decimal(page));
    u
}

/// The form the step `p` posts (empty for the stages that post none).
pub fn step_form(p: &TransferProgress, ctx: &TransferContext) -> (form: Vec<FormField>)
    ensures
        form@.map_values(|f: FormField| f@) == spec_form(*p, ctx@),
{
    let mut form: Vec<FormField> = Vec::new();
    match p {
        TransferProgress::SettingDebitAccount => {
            form.push(field(INSTANCE_FIELD, ctx.flow_instance.as_str()));
            form.push(field(STEP_FIELD, small_decimal(1)));
            form.push(field("DebitAccount[debit]", ctx.from_account.as_str()));
        },
        TransferProgress::SettingCreditAccount => {
            form.push(field(INSTANCE_FIELD, ctx.flow_instance.as_str()));
            form.push(field(STEP_FIELD, small_decimal(2)));
            form.push(field("CreditAccount[credit]", ctx.to_account.as_str()));
        },
        TransferProgress::SettingAmount => {
            form.push(field(INSTANCE_FIELD, ctx.flow_instance.as_str()));
            form.push(field(STEP_FIELD, small_decimal(3)));
            form.push(field("Amount[amount]", ctx.amount_text.as_str()));
            form.push(field(TRANSITION_FIELD, ""));
            form.push(field(SUBMIT_FIELD, ""));
        },
        TransferProgress::AcknowledgingPayeeVerification => {
            form.push(field(TRANSITION_FIELD, ""));
            form.push(field(TRANSITION_FIELD, ""));
            form.push(field(INSTANCE_FIELD, ctx.flow_instance.as_str()));
            form.push(field(STEP_FIELD, small_decimal(4)));
            form.push(field(SUBMIT_FIELD, ""));
        },
        TransferProgress::SettingReason => {
            form.push(field(INSTANCE_FIELD, ctx.flow_instance.as_str()));
            form.push(field(STEP_FIELD, small_decimal(6)));
            form.push(field("Characteristics[label]", ctx.reason.as_str()));
            form.push(field("Characteristics[paymentType]", PAYMENT_TYPE_INSTANT));
            form.push(field(TRANSITION_FIELD, ""));
            form.push(field(TRANSITION_FIELD, ""));
            form.push(field(SUBMIT_FIELD, ""));
        },
        TransferProgress::SubmittingRecap => {
            form.push(field(INSTANCE_FIELD, ctx.flow_instance.as_str()));
            form.push(field(STEP_FIELD, small_decimal(8)));
            form.push(field(TRANSITION_FIELD, ""));
            form.push(field(TRANSITION_FIELD, ""));
            form.push(field(SUBMIT_FIELD, ""));
        },
        TransferProgress::ConfirmingTransfer => {
            form.push(field(INSTANCE_FIELD, ctx.flow_instance.as_str()));
            form.push(field(STEP_FIELD, small_decimal(9)));
            form.push(field(TRANSITION_FIELD, ""));
            form.push(field(TRANSITION_FIELD, ""));
            form.push(field(SUBMIT_FIELD, ""));
        },
        _ => {},
    }
    assert(form@.map_values(|f: FormField| f@) =~= spec_form(*p, ctx@));
    form
}

/// The request the stage `p` sends, or `None` for the stages that send none
/// (validation and completion).
pub fn step_request(p: &TransferProgress, ctx: &TransferContext) -> (r: Option<StepRequest>)
    ensures
        r matches Some(q) ==> spec_step_request(*p, ctx@) == Some(q@),
        r is None ==> spec_step_request(*p, ctx@) is None,
{
    match p {
        TransferProgress::Validating | TransferProgress::Completed => None,
        TransferProgress::InitializingTransfer => {
            let q = StepRequest { method: Method::Get, url: transfers_url(ctx), form: Vec::new() };
            assert(q@.form =~= seq![]);
            Some(q)
        },
        TransferProgress::ExtractingFlowInstance => {
            let q = StepRequest { method: Method::Get, url: step_url(ctx, 1), form: Vec::new() };
            assert(q@.form =~= seq![]);
            Some(q)
        },
        _ => {
            let page = page_of(p);
            Some(StepRequest { method: Method::Post, url: step_url(ctx, page), form: step_form(p, ctx) })
        },
    }
}

/// The form carries `value` under `name`: it has such a field, and every
/// field of that name holds that value.
pub open spec fn carries(form: Seq<(Seq<char>, Seq<char>)>, name: Seq<char>, value: Seq<char>) -> bool {
    &&& exists|i: int| 0 <= i < form.len() && #[trigger] form[i] == (name, value)
    &&& forall|i: int| 0 <= i < form.len() && (#[trigger] form[i]).0 == name ==> form[i].1 == value
}

/// The field names have different lengths, so no two of them are equal.
proof fn lemma_field_name_lengths()
    ensures
        "flow_ImmediateCashTransfer_instance"@.len() == 35,
        "flow_ImmediateCashTransfer_step"@.len() == 31,
        "flow_ImmediateCashTransfer_transition"@.len() == 37,
        "submit"@.len() == 6,
        "DebitAccount[debit]"@.len() == 19,
        "CreditAccount[credit]"@.len() == 21,
        "Amount[amount]"@.len() == 14,
        "Characteristics[label]"@.len() == 22,
        "Characteristics[paymentType]"@.len() == 28,
{
    reveal_strlit("flow_ImmediateCashTransfer_instance");
    reveal_strlit("flow_ImmediateCashTransfer_step");
    reveal_strlit("flow_ImmediateCashTransfer_transition");
    reveal_strlit("submit");
    reveal_strlit("DebitAccount[debit]");
    reveal_strlit("CreditAccount[credit]");
    reveal_strlit("Amount[amount]");
    reveal_strlit("Characteristics[label]");
    reveal_strlit("Characteristics[paymentType]");
}

/// Every stage that posts a form posts it to its own page of the transfer,
/// and the form carries the flow instance and, as its step, the page before.
pub proof fn lemma_posted_form_names_previous_page(p: TransferProgress, c: ContextSpec)
    requires
        posts_form(p),
    ensures
        2 <= spec_page(p) <= 10,
        spec_step_request(p, c) == Some(
            RequestSpec { method: Method::Post, url: page_url(c, spec_page(p)), form: spec_form(p, c) },
        ),
        spec_form(p, c).contains(instance_field(c)),
        spec_form(p, c).contains(step_field((spec_page(p) - 1) as nat)),
        carries(spec_form(p, c), "flow_ImmediateCashTransfer_instance"@, c.flow_instance),
        carries(spec_form(p, c), "flow_ImmediateCashTransfer_step"@, decimal((spec_page(p) - 1) as nat)),
{
    lemma_field_name_lengths();
    let f = spec_form(p, c);
    match p {
        TransferProgress::AcknowledgingPayeeVerification => {
            assert(f[2] == instance_field(c));
            assert(f[3] == step_field(4));
        },
        _ => {
            assert(f[0] == instance_field(c));
            assert(f[1] == step_field((spec_page(p) - 1) as nat));
        },
    }
}

/// Where each stage goes: the opening request gets
/// `<base>/compte/cav/<from>/virements/immediat/nouveau`, the next stage gets
/// page 1 of the transfer below it, `.../<id>/1`, and neither sends a form;
/// every other stage that talks to the server posts to its page
/// `.../<id>/<page>` of the same transfer. Validation and completion send nothing.
pub proof fn lemma_request_targets(p: TransferProgress, c: ContextSpec)
    ensures
        !has_request(p) ==> spec_step_request(p, c) is None,
        p == TransferProgress::InitializingTransfer ==> spec_step_request(p, c) == Some(
            RequestSpec {
                method: Method::Get,
                url: c.base_url + "/compte/cav/"@ + c.from_account + "/virements/immediat/nouveau"@,
                form: seq![],
            },
        ),
        p == TransferProgress::ExtractingFlowInstance ==> spec_step_request(p, c) == Some(
            RequestSpec {
                method: Method::Get,
                url: c.base_url + "/compte/cav/"@ + c.from_account + "/virements/immediat/nouveau"@
                    + "/"@ + c.transfer_id + "/"@ + seq!['1'],
                form: seq![],
            },
        ),
        posts_form(p) ==> (spec_step_request(p, c) matches Some(r) && r.method == Method::Post
            && r.url == c.base_url + "/compte/cav/"@ + c.from_account
            + "/virements/immediat/nouveau"@ + "/"@ + c.transfer_id + "/"@ + decimal(spec_page(p))),
{
}

/// The forms pass the context's values on unchanged: the debit account, the
/// credit account, the amount text and the reason, each under its own field,
/// and the reason's payment type is the instant one, "0".
pub proof fn lemma_forms_carry_the_context(c: ContextSpec)
    ensures
        carries(
            spec_form(TransferProgress::SettingDebitAccount, c),
            "DebitAccount[debit]"@,
            c.from_account,
        ),
        carries(
            spec_form(TransferProgress::SettingCreditAccount, c),
            "CreditAccount[credit]"@,
            c.to_account,
        ),
        carries(spec_form(TransferProgress::SettingAmount, c), "Amount[amount]"@, c.amount_text),
        carries(spec_form(TransferProgress::SettingReason, c), "Characteristics[label]"@, c.reason),
        carries(
            spec_form(TransferProgress::SettingReason, c),
            "Characteristics[paymentType]"@,
            "0"@,
        ),
{
    lemma_field_name_lengths();
    assert(spec_form(TransferProgress::SettingDebitAccount, c)[2] == ("DebitAccount[debit]"@, c.from_account));
    assert(spec_form(TransferProgress::SettingCreditAccount, c)[2] == ("CreditAccount[credit]"@, c.to_account));
    assert(spec_form(TransferProgress::SettingAmount, c)[2] == ("Amount[amount]"@, c.amount_text));
    assert(spec_form(TransferProgress::SettingReason, c)[2] == ("Characteristics[label]"@, c.reason));
    assert(spec_form(TransferProgress::SettingReason, c)[3] == ("Characteristics[paymentType]"@, "0"@));
}

} // verus!

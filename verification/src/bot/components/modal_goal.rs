use vstd::prelude::*;
use crate::bot::models::embed::{Colour, EmbedSpec, footer_of, title_of};
use crate::bot::utils::text::{decimal, push_decimal};
use crate::bot::utils::{amount_text, format_amount};
use crate::bot::utils::text::same_text;
use crate::db::models::goal::Goal;
use crate::db::models::channels::ChannelIds;
use crate::bot::components::buttons_meta::{Verdict, status_label_text};

verus! {

/// A component of a submitted form.
pub enum ModalComponent {
    /// A text field, with what was typed in it, if anything.
    InputText(Option<String>),
    /// Any other component.
    Other,
}

/// A row of a submitted form.
pub struct ModalRow {
    pub components: Vec<ModalComponent>,
}

/// The texts typed in the fields of `components`, in order; fields left
/// without a value and other components give nothing.
pub open spec fn component_texts(components: Seq<ModalComponent>) -> Seq<Seq<char>>
    decreases components.len(),
{
    if components.len() == 0 {
        Seq::empty()
    } else {
        let rest = component_texts(components.drop_last());
        match components.last() {
            ModalComponent::InputText(Some(v)) => rest.push(v@),
            _ => rest,
        }
    }
}

/// The texts typed in all the rows of a form, row after row.
pub open spec fn form_texts(rows: Seq<ModalRow>) -> Seq<Seq<char>>
    decreases rows.len(),
{
    if rows.len() == 0 {
        Seq::empty()
    } else {
        form_texts(rows.drop_last()) + component_texts(rows.last().components@)
    }
}

/// The characters of each string.
pub open spec fn texts_of(v: Seq<String>) -> Seq<Seq<char>> {
    v.map_values(|s: String| s@)
}

/// The texts typed in the fields of a row.
pub fn get_texts(row: &ModalRow) -> (r: Vec<String>)
    ensures
        texts_of(r@) == component_texts(row.components@),
{
    let mut r: Vec<String> = Vec::new();
    for k in 0..row.components.len()
        invariant
            texts_of(r@) == component_texts(row.components@.take(k as int)),
    {
        proof {
            assert(row.components@.take(k + 1).drop_last() == row.components@.take(k as int));
        }
        match &row.components[k] {
            ModalComponent::InputText(Some(v)) => {
                r.push(v.clone());
                proof {
                    assert(texts_of(r@) == texts_of(r@.drop_last()).push(v@));
                }
            },
            _ => {},
        }
    }
    proof {
        assert(row.components@.take(row.components.len() as int) == row.components@);
    }
    r
}

/// The texts typed in a submitted form, row after row.
pub fn form_inputs(rows: &Vec<ModalRow>) -> (r: Vec<String>)
    ensures
        texts_of(r@) == form_texts(rows@),
{
    let mut r: Vec<String> = Vec::new();
    for k in 0..rows.len()
        invariant
            texts_of(r@) == form_texts(rows@.take(k as int)),
    {
        proof {
            assert(rows@.take(k + 1).drop_last() == rows@.take(k as int));
        }
        let mut texts = get_texts(&rows[k]);
        let ghost before = r@;
        r.append(&mut texts);
        proof {
            assert(texts_of(r@) == texts_of(before) + component_texts(rows@[k as int].components@));
        }
    }
    proof {
        assert(rows@.take(rows.len() as int) == rows@);
    }
    r
}

/// The amount and the person responsible typed in the goal form: its first
/// two texts; `None` when fewer were filled in.
pub fn goal_fields(inputs: &Vec<String>) -> (r: Option<(String, String)>)
    ensures
        r is Some <==> inputs@.len() >= 2,
        r matches Some(f) ==> f.0@ == inputs@[0]@ && f.1@ == inputs@[1]@,
{
    if inputs.len() < 2 {
        None
    } else {
        Some((inputs[0].clone(), inputs[1].clone()))
    }
}

/// A goal still waits for approval.
pub open spec fn is_pending(goal: Goal) -> bool {
    goal.status matches Some(s) && s@ == "Pending"@
}

/// A goal that has been judged, approved or rejected, never holds back a new
/// submission of its author.
pub proof fn judged_goal_does_not_block(goal: Goal, verdict: Verdict)
    requires
        goal.status matches Some(s) && s@ == status_label_text(verdict),
    ensures
        !is_pending(goal),
{
    reveal_strlit("Pending");
    reveal_strlit("Approved");
    reveal_strlit("Rejected");
    assert("Approved"@[0] != "Pending"@[0]);
    assert("Rejected"@[0] != "Pending"@[0]);
}

/// A user may not hand in a new goal while their last one waits for approval.
pub fn submission_blocked(last: &Option<Goal>) -> (r: bool)
    ensures
        r == (*last matches Some(g) && is_pending(g)),
{
    match last {
        Some(goal) => match &goal.status {
            Some(status) => same_text(status.as_str(), "Pending"),
            None => false,
        },
        None => false,
    }
}

/// The answer while the last goal still waits for approval.
pub fn pending_reply() -> (s: String)
    ensures
        s@ == "🚫 A sua ultima meta enviada ainda não foi analisada."@,
{
    "🚫 A sua ultima meta enviada ainda não foi analisada.".to_owned()
}

/// The answer once a goal is sent for approval.
pub fn submitted_reply() -> (s: String)
    ensures
        s@ == "✅ A tua meta foi enviada com sucesso! Em breve será analisada."@,
{
    "✅ A tua meta foi enviada com sucesso! Em breve será analisada.".to_owned()
}

/// The answer when the amount typed is not a number.
pub fn invalid_value_reply() -> (s: String)
    ensures
        s@ == "🚫 The goal value must be a valid number!"@,
{
    "🚫 The goal value must be a valid number!".to_owned()
}

/// The approval request of the goal `amount` handed in by `user` on behalf of `responsible`.
pub open spec fn request_description_text(user: u64, responsible: Seq<char>, amount: u64) -> Seq<char> {
    "🚀 **Novo Pedido de Meta Recebido!**\n\n👤 **Usuário:** <@"@
        + decimal(user as nat)
        + ">\n👤 **Responsável:** `"@
        + responsible
        + "`\n💰 **Valor da Meta:** `"@
        + amount_text(amount as nat)
        + "`\n\nPor favor, avalie e processe este pedido com atenção. ✅"@
}

/// The approval request of the goal `amount` handed in by `user` on behalf of `responsible`.
pub fn request_description(user: u64, responsible: &str, amount: u64) -> (s: String)
    ensures
        s@ == request_description_text(user, responsible@, amount),
{
    let mut s = String::new();
    s.append("🚀 **Novo Pedido de Meta Recebido!**\n\n👤 **Usuário:** <@");
    push_decimal(&mut s, user);
    s.append(">\n👤 **Responsável:** `");
    s.append(responsible);
    s.append("`\n💰 **Valor da Meta:** `");
    let amount1 = format_amount(amount);
    s.append(amount1.as_str());
    s.append("`\n\nPor favor, avalie e processe este pedido com atenção. ✅");
    s
}

/// The approval request posted in the approval channel.
pub fn request_embed(user: u64, responsible: &str, amount: u64) -> (e: EmbedSpec)
    ensures
        e.description@ == request_description_text(user, responsible@, amount),
        title_of(e) == Some("📊 Pedido de Entrega de Meta"@),
        footer_of(e) == None::<Seq<char>>,
        e.colour == Colour::Rgb(144, 238, 144),
        e.timestamp == true,
{
    let title = "📊 Pedido de Entrega de Meta".to_owned();
    let description = request_description(user, responsible, amount);
    EmbedSpec {
        title: Some(title),
        description,
        footer: None,
        colour: Colour::Rgb(144, 238, 144),
        timestamp: true,
    }
}

/// The look of a button.
#[derive(Clone, Copy, Debug, PartialEq, Eq)]
pub enum ButtonStyle {
    Success,
    Danger,
}

/// A button under a message.
pub struct ButtonSpec {
    pub custom_id: String,
    pub label: String,
    pub style: ButtonStyle,
}

/// The buttons under a approval request: approve, then refuse.
pub fn approval_buttons() -> (r: Vec<ButtonSpec>)
    ensures
        r@.len() == 2,
        r@[0].custom_id@ == "aprove"@ && r@[0].label@ == "Aprovar"@ && r@[0].style == ButtonStyle::Success,
        r@[1].custom_id@ == "deny"@ && r@[1].label@ == "Recusar"@ && r@[1].style == ButtonStyle::Danger,
{
    let mut r: Vec<ButtonSpec> = Vec::new();
    r.push(ButtonSpec { custom_id: "aprove".to_owned(), label: "Aprovar".to_owned(), style: ButtonStyle::Success });
    r.push(ButtonSpec { custom_id: "deny".to_owned(), label: "Recusar".to_owned(), style: ButtonStyle::Danger });
    r
}

/// Where the handling of a submitted goal form stands.
pub enum SubmissionState {
    /// Nothing done yet.
    Start,
    /// The configured channels were asked for.
    LoadingChannels,
    /// The amount typed was handed over to be read as a number.
    ParsingAmount { approval_channel: u64, responsible: String },
    /// The user's latest goal was asked for.
    LoadingLastGoal { approval_channel: u64, responsible: String, shown: u64, stored: i64 },
    /// The approval request was posted.
    Posting { stored: i64 },
    /// The goal was written to the store.
    Recording,
    /// Nothing more to do.
    Done,
}

/// What came back from the last thing done.
pub enum SubmissionEvent {
    /// The form was just submitted.
    Begin,
    /// The configured channels; `None` when they could not be read.
    Channels(Option<ChannelIds>),
    /// The amount typed read as a number, cut down to `u64` (to show) and to
    /// `i64` (to store); `None` when it is not a number.
    Amount(Option<(u64, i64)>),
    /// The user's latest goal; `None` when there is none or it could not be
    /// read.
    LastGoal(Option<Goal>),
    /// The id of the posted approval request; `None` when posting failed.
    Posted(Option<u64>),
    /// Whether the goal was written to the store.
    Recorded(bool),
}

/// The private answers of the goal form.
#[derive(Clone, Copy, Debug, PartialEq, Eq)]
pub enum SubmissionReply {
    /// `pending_reply`.
    Pending,
    /// `invalid_value_reply`.
    InvalidValue,
    /// `submitted_reply`.
    Submitted,
}

/// What to do next with a submitted goal form.
pub enum SubmissionAction {
    LoadChannels,
    /// Read this text as a number.
    ParseAmount(String),
    LoadLastGoal,
    /// Post `request_embed(user, responsible, amount)` with the approval
    /// buttons in `channel`.
    PostRequest { channel: u64, responsible: String, amount: u64 },
    /// Store the goal `amount`, judged under the message `message_id`.
    RecordGoal { amount: i64, message_id: u64 },
    /// Answer privately, then stop.
    Reply(SubmissionReply),
    /// Stop without an answer.
    Stop,
}

/// The step from `state` on `event` for the form texts `inputs`: the
/// channels first, then the two fields (a form with fewer gets no answer),
/// the amount as a number, the latest goal (a pending one is refused), the
/// approval request, and only once it is posted, the goal itself.
pub open spec fn submission_step_is(
    inputs: Seq<String>,
    state: SubmissionState,
    event: SubmissionEvent,
    next: SubmissionState,
    action: SubmissionAction,
) -> bool {
    match (state, event) {
        (SubmissionState::Start, SubmissionEvent::Begin) => next is LoadingChannels && action is LoadChannels,
        (SubmissionState::LoadingChannels, SubmissionEvent::Channels(Some(ids))) => if inputs.len() < 2 {
            next is Done && action is Stop
        } else {
            &&& next matches SubmissionState::ParsingAmount { approval_channel, responsible }
            &&& approval_channel == ids.approval_channel_id
            &&& responsible@ == inputs[1]@
            &&& action matches SubmissionAction::ParseAmount(v) && v@ == inputs[0]@
        },
        (SubmissionState::ParsingAmount { approval_channel, responsible }, SubmissionEvent::Amount(Some(a))) => {
            &&& next matches SubmissionState::LoadingLastGoal { approval_channel: c, responsible: r, shown, stored }
            &&& c == approval_channel && r@ == responsible@ && shown == a.0 && stored == a.1
            &&& action is LoadLastGoal
        },
        (SubmissionState::ParsingAmount { .. }, SubmissionEvent::Amount(None)) => next is Done && action
            == SubmissionAction::Reply(SubmissionReply::InvalidValue),
        (
            SubmissionState::LoadingLastGoal { approval_channel, responsible, shown, stored },
            SubmissionEvent::LastGoal(last),
        ) => if last matches Some(g) && is_pending(g) {
            next is Done && action == SubmissionAction::Reply(SubmissionReply::Pending)
        } else {
            &&& next == SubmissionState::Posting { stored }
            &&& action matches SubmissionAction::PostRequest { channel, responsible: r, amount }
            &&& channel == approval_channel && r@ == responsible@ && amount == shown
        },
        (SubmissionState::Posting { stored }, SubmissionEvent::Posted(Some(id))) => next is Recording && action
            == SubmissionAction::RecordGoal { amount: stored, message_id: id },
        (SubmissionState::Recording, SubmissionEvent::Recorded(true)) => next is Done && action
            == SubmissionAction::Reply(SubmissionReply::Submitted),
        _ => next is Done && action is Stop,
    }
}

/// The next step of the handling of a submitted goal form.
pub fn submission_step(inputs: &Vec<String>, state: SubmissionState, event: SubmissionEvent) -> (r: (
    SubmissionState,
    SubmissionAction,
))
    ensures
        submission_step_is(inputs@, state, event, r.0, r.1),
{
    match (state, event) {
        (SubmissionState::Start, SubmissionEvent::Begin) => (SubmissionState::LoadingChannels, SubmissionAction::LoadChannels),
        (SubmissionState::LoadingChannels, SubmissionEvent::Channels(Some(ids))) => match goal_fields(inputs) {
            Some((value, responsible)) => (
                SubmissionState::ParsingAmount { approval_channel: ids.approval_channel_id, responsible },
                SubmissionAction::ParseAmount(value),
            ),
            None => (SubmissionState::Done, SubmissionAction::Stop),
        },
        (SubmissionState::ParsingAmount { approval_channel, responsible }, SubmissionEvent::Amount(amount)) => match amount {
            Some((shown, stored)) => (
                SubmissionState::LoadingLastGoal { approval_channel, responsible, shown, stored },
                SubmissionAction::LoadLastGoal,
            ),
            None => (SubmissionState::Done, SubmissionAction::Reply(SubmissionReply::InvalidValue)),
        },
        (
            SubmissionState::LoadingLastGoal { approval_channel, responsible, shown, stored },
            SubmissionEvent::LastGoal(last),
        ) => if submission_blocked(&last) {
            (SubmissionState::Done, SubmissionAction::Reply(SubmissionReply::Pending))
        } else {
            (
                SubmissionState::Posting { stored },
                SubmissionAction::PostRequest { channel: approval_channel, responsible, amount: shown },
            )
        },
        (SubmissionState::Posting { stored }, SubmissionEvent::Posted(Some(id))) => (
            SubmissionState::Recording,
            SubmissionAction::RecordGoal { amount: stored, message_id: id },
        ),
        (SubmissionState::Recording, SubmissionEvent::Recorded(true)) => (
            SubmissionState::Done,
            SubmissionAction::Reply(SubmissionReply::Submitted),
        ),
        _ => (SubmissionState::Done, SubmissionAction::Stop),
    }
}

/// A goal is stored only once its approval request is posted: no step of the
/// form's handling records a goal but the one that follows a posted request,
/// and it records the amount read from the form under that request's id.
pub proof fn goal_recorded_only_after_request(
    inputs: Seq<String>,
    state: SubmissionState,
    event: SubmissionEvent,
    next: SubmissionState,
    action: SubmissionAction,
)
    requires
        submission_step_is(inputs, state, event, next, action),
        action is RecordGoal,
    ensures
        state matches SubmissionState::Posting { stored } && event matches SubmissionEvent::Posted(Some(id))
            && action == (SubmissionAction::RecordGoal { amount: stored, message_id: id }),
{
}

/// A form with fewer than two fields gets no answer and leaves no trace:
/// once the channels are read, its handling stops.
pub proof fn short_form_is_dropped(
    inputs: Seq<String>,
    ids: ChannelIds,
    next: SubmissionState,
    action: SubmissionAction,
)
    requires
        inputs.len() < 2,
        submission_step_is(inputs, SubmissionState::LoadingChannels, SubmissionEvent::Channels(Some(ids)), next, action),
    ensures
        next is Done,
        action is Stop,
{
}

/// Only a pending goal holds back a new one: once the user's last goal is
/// known, the form is refused as pending exactly when that goal exists and
/// its status is "Pending"; with no last goal, or a judged one, the approval
/// request is posted in the approval channel with the amount read and the
/// responsible named, and the amount to store is kept for when it is posted.
pub proof fn only_a_pending_goal_blocks(
    inputs: Seq<String>,
    approval_channel: u64,
    responsible: String,
    shown: u64,
    stored: i64,
    last: Option<Goal>,
    next: SubmissionState,
    action: SubmissionAction,
)
    requires
        submission_step_is(
            inputs,
            SubmissionState::LoadingLastGoal { approval_channel, responsible, shown, stored },
            SubmissionEvent::LastGoal(last),
            next,
            action,
        ),
    ensures
        (action == SubmissionAction::Reply(SubmissionReply::Pending)) <==> (last matches Some(g) && g.status matches Some(
            st,
        ) && st@ == "Pending"@),
        !(last matches Some(g) && g.status matches Some(st) && st@ == "Pending"@) ==> {
            &&& next == SubmissionState::Posting { stored }
            &&& action matches SubmissionAction::PostRequest { channel, responsible: r, amount }
            &&& channel == approval_channel && r@ == responsible@ && amount == shown
        },
{
}

} // verus!

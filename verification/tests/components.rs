use aura::bot::components::buttons_meta::Judged;
use aura::bot::components::buttons_meta::VerdictAction;
use aura::bot::components::buttons_meta::VerdictEvent;
use aura::bot::components::buttons_meta::VerdictState;
use aura::bot::components::buttons_meta::verdict_step;
use aura::bot::components::modal_goal::SubmissionAction;
use aura::bot::components::modal_goal::SubmissionEvent;
use aura::bot::components::modal_goal::SubmissionReply;
use aura::bot::components::modal_goal::SubmissionState;
use aura::bot::components::modal_goal::submission_step;
use aura::bot::components::button_deny;
use aura::bot::components::buttons_meta::{status_label, verdict_log, verdict_reply_embed, verdict_user_embed, Verdict};
use aura::bot::components::modal_goal::{
    approval_buttons, form_inputs, get_texts, goal_fields, invalid_value_reply, pending_reply, request_embed,
    submission_blocked, submitted_reply, ButtonStyle, ModalComponent, ModalRow,
};
use aura::bot::utils::logs::log_embed;
use aura::bot::models::embed::Colour;
use aura::db::models::goal::{goals_of, weekly_total, Goal};

fn goal(user_id: i64, amount: i64, status: Option<&str>) -> Goal {
    Goal {
        id: 1,
        user_id,
        amount,
        created_at: None,
        status: status.map(|s| s.to_string()),
        message_id: Some("55".to_string()),
    }
}

const BAR: &str = "━━━━━━━━━━━━━━━━━━━━━━━━";

#[test]
fn verdict_labels() {
    assert_eq!(status_label(Verdict::Approved), "Approved");
    assert_eq!(status_label(Verdict::Rejected), "Rejected");
    assert_eq!(verdict_reply_embed(Verdict::Approved).description, "✅ **Meta Aprovada com Sucesso!**");
    assert_eq!(verdict_reply_embed(Verdict::Rejected).description, "❌ **Meta Rejeitada com Sucesso!**");
}

#[test]
fn approved_goal_message() {
    let e = verdict_user_embed(Verdict::Approved, 300_000, 77, 300_000, 1_000_000);
    assert_eq!(e.title.as_deref(), Some("Meta Aprovada"));
    assert_eq!(
        e.description,
        format!(
            "A sua meta foi aprovada com sucesso!\n{BAR}\n💰 **Valor Aprovado:** `300k`\n✅ **Status:** `Aprovada`\n🛡️ **Aprovado por:** <@77>\n📊 **Valor Restante:** `700k`\n{BAR}"
        )
    );
    assert!(e.timestamp);
    assert_eq!(
        verdict_log(Verdict::Approved, 12, 300_000, 77),
        format!(
            "🎯 **Meta Entregue com Sucesso!**\n{BAR}\n👤 **Entregue por:** <@12>\n💰 **Valor Entregue:** `300k`\n✅ **Status:** `Aprovada`\n🛡️ **Aprovado por:** <@77>\n{BAR}"
        )
    );
}

#[test]
fn rejected_goal_message() {
    let e = verdict_user_embed(Verdict::Rejected, 5_000, 77, 2_000_000, 1_000_000);
    assert_eq!(e.title.as_deref(), Some("Meta Reprovada"));
    assert_eq!(
        e.description,
        format!(
            "A sua meta foi reprovada com sucesso!\n{BAR}\n💰 **Valor Reprovado:** `5k`\n❌ **Status:** `Reprovada`\n🛡️ **Reprovado por:** <@77>\n📊 **Valor Restante:** `0`\n{BAR}"
        )
    );
    assert_eq!(
        verdict_log(Verdict::Rejected, -3, 5_000, 77),
        format!(
            "❌ **Meta Reprovada**\n{BAR}\n👤 **Entregue por:** <@-3>\n💰 **Valor da Meta:** `5k`\n❌ **Status:** `Reprovada`\n🛡️ **Reprovado por:** <@77>\n{BAR}"
        )
    );
}

#[test]
fn denial_messages() {
    assert_eq!(button_deny::denied_reply_embed().description, "Você negou a meta com sucesso!");
    let e = button_deny::denied_user_embed(1_000, 4, 0, 3_000);
    assert_eq!(
        e.description,
        format!(
            "A sua meta foi reprovada!\n{BAR}\n💰 **Valor Reprovado:** `1k`\n🔴 **Status:** `Reprovada`\n🛡️ **Reprovado por:** <@4>\n📊 **Valor Restante:** `3k`\n{BAR}"
        )
    );
    assert!(!e.timestamp);
    assert_eq!(
        button_deny::denied_log(8, 1_000, 4),
        format!(
            "❌ **Meta Reprovada**\n{BAR}\n👤 **Entregue por:** <@8>\n💰 **Valor da Meta:** `1k`\n🔴 **Status:** `Reprovada`\n🛡️ **Reprovado por:** <@4>\n{BAR}"
        )
    );
}

#[test]
fn form_texts_skip_empty_fields() {
    let rows = vec![
        ModalRow { components: vec![ModalComponent::InputText(Some("1500".to_string())), ModalComponent::Other] },
        ModalRow { components: vec![ModalComponent::InputText(None)] },
        ModalRow { components: vec![ModalComponent::InputText(Some("Carlos".to_string()))] },
    ];
    assert_eq!(get_texts(&rows[0]), vec!["1500".to_string()]);
    let inputs = form_inputs(&rows);
    assert_eq!(inputs, vec!["1500".to_string(), "Carlos".to_string()]);
    assert_eq!(goal_fields(&inputs), Some(("1500".to_string(), "Carlos".to_string())));
    assert_eq!(goal_fields(&vec!["1500".to_string()]), None);
}

#[test]
fn pending_goal_blocks_a_new_one() {
    assert!(submission_blocked(&Some(goal(1, 10, Some("Pending")))));
    assert!(!submission_blocked(&Some(goal(1, 10, Some("Approved")))));
    assert!(!submission_blocked(&Some(goal(1, 10, Some("Rejected")))));
    assert!(!submission_blocked(&Some(goal(1, 10, None))));
    assert!(!submission_blocked(&None));
}

#[test]
fn approval_request() {
    let e = request_embed(12, "Carlos", 1_500);
    assert_eq!(e.title.as_deref(), Some("📊 Pedido de Entrega de Meta"));
    assert_eq!(
        e.description,
        "🚀 **Novo Pedido de Meta Recebido!**\n\n👤 **Usuário:** <@12>\n👤 **Responsável:** `Carlos`\n💰 **Valor da Meta:** `1k`\n\nPor favor, avalie e processe este pedido com atenção. ✅"
    );
    let buttons = approval_buttons();
    assert_eq!(buttons[0].label, "Aprovar");
    assert_eq!(buttons[0].style, ButtonStyle::Success);
    assert_eq!(buttons[1].label, "Recusar");
    assert_eq!(buttons[1].style, ButtonStyle::Danger);
    assert_eq!(pending_reply(), "🚫 A sua ultima meta enviada ainda não foi analisada.");
    assert_eq!(submitted_reply(), "✅ A tua meta foi enviada com sucesso! Em breve será analisada.");
    assert_eq!(invalid_value_reply(), "🚫 The goal value must be a valid number!");
}

#[test]
fn weekly_totals_are_counted_in_32_bits() {
    let week = vec![goal(1, 100, None), goal(2, 50, None), goal(1, 4_294_967_296 + 7, None)];
    assert_eq!(goals_of(&week, 1).len(), 2);
    assert_eq!(weekly_total(&week, 1), Some(107));
    assert_eq!(weekly_total(&week, 3), Some(0));
    let big = vec![goal(1, i32::MAX as i64, None), goal(1, 1, None)];
    assert_eq!(weekly_total(&big, 1), None);
}

#[test]
fn log_entries() {
    let e = log_embed("olá".to_string());
    assert_eq!(e.description, "olá");
    assert_eq!(e.colour, Colour::LightGrey);
    assert!(e.timestamp);
    assert!(e.title.is_none());
}

fn channel_ids() -> aura::db::models::channels::ChannelIds {
    aura::db::models::channels::ChannelIds {
        individuals_category_id: 1,
        anonymous_channel_id: 2,
        meta_channel_id: 3,
        logs_channel_id: 4,
        approval_channel_id: 5,
        results_channel_id: 6,
    }
}

#[test]
fn a_goal_is_recorded_after_its_request_is_posted() {
    let inputs = vec!["1500000".to_string(), "Rui".to_string()];
    let (s, a) = submission_step(&inputs, SubmissionState::Start, SubmissionEvent::Begin);
    assert!(matches!(a, SubmissionAction::LoadChannels));
    let (s, a) = submission_step(&inputs, s, SubmissionEvent::Channels(Some(channel_ids())));
    assert!(matches!(a, SubmissionAction::ParseAmount(ref v) if v == "1500000"));
    let (s, a) = submission_step(&inputs, s, SubmissionEvent::Amount(Some((1_500_000, 1_500_000))));
    assert!(matches!(a, SubmissionAction::LoadLastGoal));
    let (s, a) = submission_step(&inputs, s, SubmissionEvent::LastGoal(Some(goal(7, 10, Some("Approved")))));
    assert!(matches!(a, SubmissionAction::PostRequest { channel: 5, ref responsible, amount: 1_500_000 } if responsible == "Rui"));
    let (s, a) = submission_step(&inputs, s, SubmissionEvent::Posted(Some(900)));
    assert!(matches!(a, SubmissionAction::RecordGoal { amount: 1_500_000, message_id: 900 }));
    let (s, a) = submission_step(&inputs, s, SubmissionEvent::Recorded(true));
    assert!(matches!(a, SubmissionAction::Reply(SubmissionReply::Submitted)));
    let (_, a) = submission_step(&inputs, s, SubmissionEvent::Begin);
    assert!(matches!(a, SubmissionAction::Stop));
}

#[test]
fn a_goal_form_is_refused_or_dropped() {
    let inputs = vec!["abc".to_string(), "Rui".to_string()];
    let short = vec!["1".to_string()];
    let (_, a) = submission_step(&short, SubmissionState::LoadingChannels, SubmissionEvent::Channels(Some(channel_ids())));
    assert!(matches!(a, SubmissionAction::Stop));
    let (_, a) = submission_step(&inputs, SubmissionState::LoadingChannels, SubmissionEvent::Channels(None));
    assert!(matches!(a, SubmissionAction::Stop));
    let parsing = SubmissionState::ParsingAmount { approval_channel: 5, responsible: "Rui".to_string() };
    let (_, a) = submission_step(&inputs, parsing, SubmissionEvent::Amount(None));
    assert!(matches!(a, SubmissionAction::Reply(SubmissionReply::InvalidValue)));
    let waiting = SubmissionState::LoadingLastGoal { approval_channel: 5, responsible: "Rui".to_string(), shown: 3, stored: 3 };
    let (_, a) = submission_step(&inputs, waiting, SubmissionEvent::LastGoal(Some(goal(7, 10, Some("Pending")))));
    assert!(matches!(a, SubmissionAction::Reply(SubmissionReply::Pending)));
    let (_, a) = submission_step(&inputs, SubmissionState::Posting { stored: 3 }, SubmissionEvent::Posted(None));
    assert!(matches!(a, SubmissionAction::Stop));
    let (_, a) = submission_step(&inputs, SubmissionState::Recording, SubmissionEvent::Recorded(false));
    assert!(matches!(a, SubmissionAction::Stop));
}

#[test]
fn a_verdict_runs_to_the_log() {
    let (s, a) = verdict_step(VerdictState::Start, VerdictEvent::Begin);
    assert!(matches!(a, VerdictAction::LoadChannels));
    let (s, a) = verdict_step(s, VerdictEvent::Channels(Some(channel_ids())));
    assert!(matches!(a, VerdictAction::LoadGoal));
    let (s, a) = verdict_step(s, VerdictEvent::Goal(Some(goal(12, 300_000, None))));
    assert!(matches!(a, VerdictAction::UpdateStatus));
    let (s, a) = verdict_step(s, VerdictEvent::StatusUpdated);
    assert!(matches!(a, VerdictAction::Reply));
    let (s, a) = verdict_step(s, VerdictEvent::Replied);
    assert!(matches!(a, VerdictAction::LoadUserChannel { user: 12 }));
    let (s, a) = verdict_step(s, VerdictEvent::UserChannel(Some(40)));
    assert!(matches!(a, VerdictAction::LoadCurrentMeta));
    let (s, a) = verdict_step(s, VerdictEvent::CurrentMeta(Some(1_000_000)));
    assert!(matches!(a, VerdictAction::LoadWeek));
    let week = vec![goal(12, 100_000, Some("Approved")), goal(13, 5, Some("Approved")), goal(12, 200_000, Some("Approved"))];
    let (s, a) = verdict_step(s, VerdictEvent::Week(Some(week)));
    assert!(matches!(a, VerdictAction::NotifyUser { channel: 40, amount: 300_000, total: 300_000, current_meta: 1_000_000 }));
    assert_eq!(s, VerdictState::Notifying(Judged { logs: 4, author: 12, amount: 300_000 }));
    let (s, a) = verdict_step(s, VerdictEvent::UserNotified(true));
    assert!(matches!(a, VerdictAction::Log { channel: 4, author: 12, amount: 300_000 }));
    let (s, a) = verdict_step(s, VerdictEvent::Logged);
    assert_eq!(s, VerdictState::Done);
    assert!(matches!(a, VerdictAction::Stop));
}

#[test]
fn a_verdict_stops_on_missing_data_and_fails_on_overflow() {
    let j = Judged { logs: 4, author: 12, amount: 1 };
    assert!(matches!(verdict_step(VerdictState::LoadingUserChannel(j), VerdictEvent::UserChannel(None)).1, VerdictAction::Stop));
    assert!(matches!(verdict_step(VerdictState::LoadingGoal { logs: 4 }, VerdictEvent::Goal(None)).1, VerdictAction::Stop));
    assert!(matches!(verdict_step(VerdictState::Notifying(j), VerdictEvent::UserNotified(false)).1, VerdictAction::Stop));
    let week = vec![goal(12, i32::MAX as i64, Some("Approved")), goal(12, 1, Some("Approved"))];
    let waiting = VerdictState::LoadingWeek { judged: j, channel: 40, current_meta: 10 };
    assert!(matches!(verdict_step(waiting, VerdictEvent::Week(Some(week))).1, VerdictAction::Overflowed));
}

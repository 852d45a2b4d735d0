use aura::scheduler::reminder::ReminderAction;
use aura::scheduler::reminder::ReminderEvent;
use aura::scheduler::reminder::ReminderState;
use aura::scheduler::reminder::reminder_step;
use aura::db::models::goal::Goal;
use aura::scheduler::reminder::{job_schedule, reminder_message, reminder_text, Job, REMINDER_DAYS_LEFT};
use aura::bot::models::intents::{default_itents, GatewayIntent};

fn goal(user_id: i64, amount: i64) -> Goal {
    Goal { id: 0, user_id, amount, created_at: None, status: Some("Approved".to_string()), message_id: None }
}

#[test]
fn reminder_text_shows_what_is_left() {
    assert_eq!(
        reminder_text(12, 250_000, 1_000_000, 3),
        "<@12> Você foi **AVISADO**. Faltam **3 dias** para o fim do prazo de entrega e falta `750k` a ser entregue."
    );
    assert_eq!(
        reminder_text(12, 2_000_000, 1_000_000, 3),
        "<@12> Você foi **AVISADO**. Faltam **3 dias** para o fim do prazo de entrega e falta `0` a ser entregue."
    );
    assert_eq!(
        reminder_text(1, 0, 5, -2),
        "<@1> Você foi **AVISADO**. Faltam **-2 dias** para o fim do prazo de entrega e falta `5` a ser entregue."
    );
}

#[test]
fn reminders_count_the_users_approved_goals() {
    let week = vec![goal(12, 100_000), goal(13, 900_000), goal(12, 150_000)];
    assert_eq!(REMINDER_DAYS_LEFT, 3);
    assert_eq!(reminder_message(12, &week, 1_000_000), Some(reminder_text(12, 250_000, 1_000_000, 3)));
    let overflow = vec![goal(12, i32::MAX as i64), goal(12, 1)];
    assert_eq!(reminder_message(12, &overflow, 0), None);
}

#[test]
fn job_schedules() {
    assert_eq!(job_schedule(Job::Reminder), "0 0 18 * * Sun,Sat");
    assert_eq!(job_schedule(Job::Leaderboard), "0 47 19 * * Mon");
}

#[test]
fn gateway_intents() {
    assert_eq!(
        default_itents(),
        vec![GatewayIntent::GuildMessages, GatewayIntent::DirectMessages, GatewayIntent::MessageContent]
    );
}

#[test]
fn a_round_of_reminders_visits_each_user_in_turn() {
    let users = vec![(12u64, 120u64), (13u64, 130u64)];
    let week = || vec![goal(12, 100_000), goal(13, 900_000), goal(12, 150_000)];
    let (s, a) = reminder_step(ReminderState::Start, ReminderEvent::Begin);
    assert!(matches!(a, ReminderAction::LoadUsers));
    let (s, a) = reminder_step(s, ReminderEvent::Users(Some(users)));
    assert!(matches!(a, ReminderAction::LoadCurrentMeta));
    let (s, a) = reminder_step(s, ReminderEvent::CurrentMeta(Some(1_000_000)));
    assert!(matches!(a, ReminderAction::LoadWeek));
    let (s, a) = reminder_step(s, ReminderEvent::Week(Some(week())));
    match a {
        ReminderAction::Send { channel, content } => {
            assert_eq!(channel, 120);
            assert_eq!(content, reminder_text(12, 250_000, 1_000_000, 3));
        }
        _ => panic!("expected a reminder"),
    }
    let (s, a) = reminder_step(s, ReminderEvent::Sent);
    assert!(matches!(a, ReminderAction::Pause));
    let (s, a) = reminder_step(s, ReminderEvent::Paused);
    assert!(matches!(a, ReminderAction::LoadWeek));
    let (s, a) = reminder_step(s, ReminderEvent::Week(Some(week())));
    match a {
        ReminderAction::Send { channel, content } => {
            assert_eq!(channel, 130);
            assert_eq!(content, reminder_text(13, 900_000, 1_000_000, 3));
        }
        _ => panic!("expected a reminder"),
    }
    let (s, a) = reminder_step(s, ReminderEvent::Sent);
    assert!(matches!(a, ReminderAction::Pause));
    let (s, a) = reminder_step(s, ReminderEvent::Paused);
    assert!(matches!(s, ReminderState::Done));
    assert!(matches!(a, ReminderAction::Stop));
}

#[test]
fn a_round_of_reminders_ends_at_the_first_failed_read() {
    assert!(matches!(reminder_step(ReminderState::LoadingUsers, ReminderEvent::Users(Some(Vec::new()))).1, ReminderAction::Stop));
    assert!(matches!(reminder_step(ReminderState::LoadingUsers, ReminderEvent::Users(None)).1, ReminderAction::Stop));
    let loading = ReminderState::LoadingMeta { users: vec![(1, 2)] };
    assert!(matches!(reminder_step(loading, ReminderEvent::CurrentMeta(None)).1, ReminderAction::Stop));
    let waiting = ReminderState::LoadingWeek { users: vec![(1, 2), (3, 4)], at: 0, current_meta: 5 };
    assert!(matches!(reminder_step(waiting, ReminderEvent::Week(None)).1, ReminderAction::Stop));
    let overflow = vec![goal(1, i32::MAX as i64), goal(1, 1)];
    let waiting = ReminderState::LoadingWeek { users: vec![(1, 2)], at: 0, current_meta: 5 };
    assert!(matches!(reminder_step(waiting, ReminderEvent::Week(Some(overflow))).1, ReminderAction::Overflowed));
}

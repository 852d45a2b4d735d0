use aura::db::models::goal::Goal;
use aura::scheduler::leaderboard::{board_step, user_ids, BoardAction, BoardEvent, BoardState};
use aura::db::models::channels::ChannelIds;
use aura::scheduler::leaderboard::{build_leaderboard, rank_by_total, board_line_text, user_total, Standing, standing};

fn goal(user_id: i64, amount: i64) -> Goal {
    Goal {
        id: 0,
        user_id,
        amount,
        created_at: None,
        status: Some("Approved".to_string()),
        message_id: None,
    }
}

#[test]
fn ranking_is_descending_and_stable() {
    assert_eq!(rank_by_total(&vec![5, 9, 5, 0, 9]), vec![1, 4, 0, 2, 3]);
    assert_eq!(rank_by_total(&vec![]), Vec::<usize>::new());
    assert_eq!(rank_by_total(&vec![-1, -3, 2]), vec![2, 0, 1]);
}

#[test]
fn user_totals_add_the_users_goals() {
    let goals = vec![goal(1, 100), goal(2, 50), goal(1, 25)];
    assert_eq!(user_total(&goals, 1), Some(125));
    assert_eq!(user_total(&goals, 3), Some(0));
    let huge = vec![goal(1, i64::MAX), goal(1, 1)];
    assert_eq!(user_total(&huge, 1), None);
}

#[test]
fn standings_against_the_goal() {
    assert_eq!(standing(1000, 1000), Standing::Complete);
    assert_eq!(standing(999, 1000), Standing::Partial);
    assert_eq!(standing(0, 1000), Standing::Missing);
    assert_eq!(standing(-5, -10), Standing::Complete);
}

#[test]
fn board_lines_pad_place_and_name() {
    assert_eq!(
        board_line_text(1, "ana", 2_000_000, 1_000_000),
        format!("+ {:>2}. {: <20} | ✅ R$ {} sujo", 1, "ana", "2kk")
    );
    assert_eq!(board_line_text(1, "ana", 2_000_000, 1_000_000), "+  1. ana                  | ✅ R$ 2kk sujo");
    assert_eq!(
        board_line_text(12, "bruno", 5_000, 1_000_000),
        format!("\u{1b}[2;33m! {:>2}. {: <20} | ⚠️ R$ {} sujo\u{1b}[0m", 12, "bruno", "5k")
    );
    assert_eq!(
        board_line_text(3, "a_very_long_username_here", 0, 1_000_000),
        "-  3. a_very_long_username_here | ❌ R$ 0 sujo"
    );
    assert_eq!(
        board_line_text(4, "joão", -3, 1_000),
        format!("- {:>2}. {: <20} | ❌ R$ 0 sujo", 4, "joão")
    );
}

#[test]
fn leaderboard_groups_users_by_standing() {
    let users = vec![10, 20, 30];
    let names = vec!["ana".to_string(), "bia".to_string(), "caio".to_string()];
    let goals = vec![goal(20, 2_000_000), goal(10, 300_000), goal(20, 500)];
    let msg = build_leaderboard(&users, &names, &goals, 1_000_000).unwrap();
    let expected = String::new()
        + "```ini\n[📊 LEADERBOARD - Semana Atual]\n```\n\n"
        + &format!("```diff\n+ {:>2}. {: <20} | ✅ R$ 2kk sujo\n```\n", 1, "bia")
        + &format!("```ansi\n\u{1b}[2;33m! {:>2}. {: <20} | ⚠️ R$ 300k sujo\u{1b}[0m\n```\n", 2, "ana")
        + &format!("```diff\n- {:>2}. {: <20} | ❌ R$ 0 sujo\n```\n", 3, "caio")
        + "```ini\n[💰 TOTAL GERAL: R$ 2kk (2300500)]\n```";
    assert_eq!(msg, expected);
}

#[test]
fn empty_groups_are_left_out() {
    let users = vec![7];
    let names = vec!["zé".to_string()];
    let msg = build_leaderboard(&users, &names, &vec![], 100).unwrap();
    let expected = format!(
        "```ini\n[📊 LEADERBOARD - Semana Atual]\n```\n\n```diff\n- {:>2}. {: <20} | ❌ R$ 0 sujo\n```\n```ini\n[💰 TOTAL GERAL: R$ 0 (0)]\n```",
        1,
        "zé"
    );
    assert_eq!(msg, expected);
}

#[test]
fn leaderboard_fails_on_overflow() {
    let users = vec![1, 2];
    let names = vec!["a".to_string(), "b".to_string()];
    let goals = vec![goal(1, i64::MAX), goal(2, 1)];
    assert_eq!(build_leaderboard(&users, &names, &goals, 0), None);
}

#[test]
fn negative_totals_do_not_lower_the_grand_total() {
    let users = vec![1, 2];
    let names = vec!["a".to_string(), "b".to_string()];
    let goals = vec![goal(1, -50), goal(2, 70)];
    let msg = build_leaderboard(&users, &names, &goals, 1000).unwrap();
    assert!(msg.ends_with("[💰 TOTAL GERAL: R$ 70 (70)]\n```"));
}

#[test]
fn the_board_job_names_each_user_then_posts() {
    let ids = ChannelIds {
        individuals_category_id: 1,
        anonymous_channel_id: 2,
        meta_channel_id: 3,
        logs_channel_id: 4,
        approval_channel_id: 5,
        results_channel_id: 6,
    };
    let week = || vec![goal(1, 100), goal(2, 300), goal(1, 50)];
    let (s, a) = board_step(BoardState::Start, BoardEvent::Begin);
    assert!(matches!(a, BoardAction::LoadChannels));
    let (s, a) = board_step(s, BoardEvent::Channels(Some(ids)));
    assert!(matches!(a, BoardAction::LoadWeek));
    let (s, a) = board_step(s, BoardEvent::Week(Some(week())));
    assert!(matches!(a, BoardAction::LoadCurrentMeta));
    let (s, a) = board_step(s, BoardEvent::CurrentMeta(Some(1000)));
    assert!(matches!(a, BoardAction::LoadUsers));
    let (s, a) = board_step(s, BoardEvent::Users(Some(vec![(1, 10), (2, 20)])));
    assert!(matches!(a, BoardAction::LoadName { user: 1 }));
    let (s, a) = board_step(s, BoardEvent::Name("Ana".to_string()));
    assert!(matches!(a, BoardAction::LoadName { user: 2 }));
    let (s, a) = board_step(s, BoardEvent::Name("Bia".to_string()));
    let expected = build_leaderboard(&vec![1, 2], &vec!["Ana".to_string(), "Bia".to_string()], &week(), 1000).unwrap();
    match a {
        BoardAction::Post { channel, message } => {
            assert_eq!(channel, 3);
            assert_eq!(message, expected);
        }
        _ => panic!("expected the board"),
    }
    let (s, a) = board_step(s, BoardEvent::Posted);
    assert!(matches!(s, BoardState::Done));
    assert!(matches!(a, BoardAction::Stop));
}

#[test]
fn the_board_job_stops_or_fails() {
    assert!(matches!(board_step(BoardState::LoadingChannels, BoardEvent::Channels(None)).1, BoardAction::Stop));
    let loading = BoardState::LoadingUsers { channel: 3, week: vec![], current_meta: 10 };
    assert!(matches!(board_step(loading, BoardEvent::Users(None)).1, BoardAction::Stop));
    let loading = BoardState::LoadingUsers { channel: 3, week: vec![], current_meta: 10 };
    match board_step(loading, BoardEvent::Users(Some(vec![]))).1 {
        BoardAction::Post { channel, message } => {
            assert_eq!(channel, 3);
            assert_eq!(message, build_leaderboard(&vec![], &vec![], &vec![], 10).unwrap());
        }
        _ => panic!("expected the board"),
    }
    let overflow = vec![goal(1, i64::MAX), goal(1, 1)];
    let naming = BoardState::Naming { channel: 3, week: overflow, current_meta: 10, users: vec![1], names: vec![] };
    assert!(matches!(board_step(naming, BoardEvent::Name("Ana".to_string())).1, BoardAction::Overflowed));
    assert_eq!(user_ids(&vec![(7, 70), (8, 80)]), vec![7, 8]);
}

use aura::bot::components::buttons_meta::Verdict;
use aura::db::models::channels::ChannelIds;
use aura::db::queries::channels::{channel_row, channels_from_row, get_channels_statement, set_channels_statement};
use aura::db::queries::meta::{approved_in_window_statement, format_sql_datetime, set_meta_statement, sql_datetime};
use aura::db::queries::user::{
    create_goal_statement, create_user_channel_statement, get_goal_by_message_statement, parse_u64,
    update_goal_status_statement, user_channel_from_row, user_key,
};
use aura::db::queries::SqlParam;

fn texts(params: &[SqlParam]) -> Vec<String> {
    params
        .iter()
        .map(|p| match p {
            SqlParam::Integer(n) => format!("i{n}"),
            SqlParam::Text(s) => format!("t{s}"),
        })
        .collect()
}

#[test]
fn parse_reads_decimal_u64() {
    assert_eq!(parse_u64("0"), Some(0));
    assert_eq!(parse_u64("123456789012345678"), Some(123456789012345678));
    assert_eq!(parse_u64("+42"), Some(42));
    assert_eq!(parse_u64("18446744073709551615"), Some(u64::MAX));
    assert_eq!(parse_u64("18446744073709551616"), None);
    assert_eq!(parse_u64(""), None);
    assert_eq!(parse_u64("+"), None);
    assert_eq!(parse_u64("-1"), None);
    assert_eq!(parse_u64("12a"), None);
    assert_eq!(parse_u64(" 12"), None);
}

#[test]
fn parse_agrees_with_std() {
    for s in ["0", "007", "+7", "99999999999999999999", "-0", "١٢", "4 2", "18446744073709551615"] {
        assert_eq!(parse_u64(s), s.parse::<u64>().ok(), "{s}");
    }
}

#[test]
fn stored_channel_ids_read_back() {
    for id in [0u64, 1, 987654321987654321, u64::MAX] {
        assert_eq!(user_channel_from_row(Some(user_key(id))), Some(id));
    }
    assert_eq!(user_channel_from_row(None), None);
    assert_eq!(user_channel_from_row(Some("abc".to_string())), None);
}

#[test]
fn channels_round_trip_through_the_table() {
    let ids = ChannelIds {
        individuals_category_id: u64::MAX,
        anonymous_channel_id: 1 << 63,
        meta_channel_id: 3,
        logs_channel_id: 4,
        approval_channel_id: 5,
        results_channel_id: 6,
    };
    let row = channel_row(ids);
    assert_eq!(row.individuals_category_id, -1);
    assert_eq!(row.anonymous_channel_id, i64::MIN);
    assert_eq!(channels_from_row(row), ids);
}

#[test]
fn channel_statements() {
    let ids = ChannelIds {
        individuals_category_id: 1,
        anonymous_channel_id: 2,
        meta_channel_id: 3,
        logs_channel_id: 4,
        approval_channel_id: 5,
        results_channel_id: 6,
    };
    let update = set_channels_statement(true, ids);
    assert!(update.sql.starts_with("UPDATE channels SET logs_channel_id = ?"));
    assert_eq!(texts(&update.params), vec!["i4", "i3", "i2", "i1", "i5", "i6"]);
    let insert = set_channels_statement(false, ids);
    assert!(insert.sql.starts_with("INSERT INTO channels"));
    assert_eq!(texts(&insert.params), vec!["i4", "i3", "i2", "i1", "i5", "i6"]);
    assert!(get_channels_statement().params.is_empty());
}

#[test]
fn goal_statements() {
    let s = set_meta_statement(true, 500);
    assert_eq!(s.sql, "UPDATE current_goal SET goal = ?, created_at = CURRENT_TIMESTAMP");
    assert_eq!(texts(&s.params), vec!["i500"]);
    assert_eq!(set_meta_statement(false, 500).sql, "INSERT INTO current_goal (goal) VALUES (?)");
    let c = create_goal_statement(12, 1_500, "999".to_string());
    assert_eq!(texts(&c.params), vec!["t12", "i1500", "t999"]);
    let u = update_goal_status_statement(999, Verdict::Rejected);
    assert_eq!(u.sql, "UPDATE goals SET status = ? WHERE message_id = ?");
    assert_eq!(texts(&u.params), vec!["tRejected", "t999"]);
    assert_eq!(texts(&get_goal_by_message_statement(999).params), vec!["t999"]);
    assert_eq!(texts(&create_user_channel_statement(7, 8).params), vec!["t7", "t8"]);
}

#[test]
fn datetimes_are_written_for_sqlite() {
    assert_eq!(sql_datetime(1704142800).as_deref(), Some("2024-01-01 21:00:00"));
    assert_eq!(sql_datetime(0).as_deref(), Some("1970-01-01 00:00:00"));
    assert_eq!(format_sql_datetime((987, 3, 4, 5, 6, 7)), "0987-03-04 05:06:07");
    assert_eq!(format_sql_datetime((-5, 12, 31, 23, 59, 59)), "-0005-12-31 23:59:59");
    assert_eq!(format_sql_datetime((12345, 1, 1, 0, 0, 0)), "+12345-01-01 00:00:00");
    assert_eq!(sql_datetime(i64::MAX), None);
}

#[test]
fn week_window_statement() {
    let s = approved_in_window_statement(1704142800, 1704747600).unwrap();
    assert!(s.sql.contains("WHERE status = 'Approved'"));
    assert_eq!(texts(&s.params), vec!["t2024-01-01 21:00:00", "t2024-01-08 21:00:00"]);
}

fn apply_goal(rows: &mut Vec<i64>, s: &aura::db::queries::Statement) {
    let amount = match s.params[0] {
        SqlParam::Integer(n) => n,
        _ => panic!("the goal is an integer"),
    };
    if s.sql.starts_with("UPDATE current_goal") {
        for r in rows.iter_mut() {
            *r = amount;
        }
    } else {
        assert!(s.sql.starts_with("INSERT INTO current_goal"));
        rows.push(amount);
    }
}

#[test]
fn a_stored_goal_is_the_one_read_back() {
    let mut rows: Vec<i64> = Vec::new();
    assert_eq!(rows.first(), None);
    let first = set_meta_statement(!rows.is_empty(), 1_500_000);
    apply_goal(&mut rows, &first);
    assert_eq!(rows.first(), Some(&1_500_000));
    let second = set_meta_statement(!rows.is_empty(), 700);
    apply_goal(&mut rows, &second);
    assert_eq!(rows.first(), Some(&700));
    assert_eq!(rows.len(), 1);
}

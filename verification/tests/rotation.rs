use chrono::{DateTime, Local, TimeZone};
use prune_backup::{
    check_rotation_config, command_with_path, escape_path, is_hidden_name, newest_first_order, plan_rotation, trash_action,
    trash_command,
    FileInfo, LocalDateTime, ReasonSet, RetentionConfig, RotationError, RetentionReason, TrashAction,
};

fn moment(dt: DateTime<Local>) -> LocalDateTime {
    LocalDateTime::from_timestamp(dt.timestamp(), dt.timestamp_subsec_nanos()).unwrap()
}

fn file(name: &str, dt: DateTime<Local>) -> FileInfo {
    FileInfo {
        path: name.to_string(),
        created: moment(dt),
    }
}

fn keep_last_only(n: usize) -> RetentionConfig {
    RetentionConfig {
        keep_last: n,
        keep_hourly: 0,
        keep_daily: 0,
        keep_weekly: 0,
        keep_monthly: 0,
        keep_yearly: 0,
    }
}

fn names(files: &[FileInfo]) -> Vec<String> {
    files.iter().map(|f| f.path.clone()).collect()
}

#[test]
fn hidden_names_start_with_a_dot() {
    assert!(is_hidden_name(".hidden"));
    assert!(is_hidden_name(".retention"));
    assert!(!is_hidden_name("visible1.txt"));
    assert!(!is_hidden_name("a.b"));
    assert!(!is_hidden_name(""));
}

#[test]
fn sort_puts_newest_first_and_keeps_ties_in_order() {
    let now = Local.with_ymd_and_hms(2024, 6, 15, 12, 0, 0).unwrap();
    let files = vec![
        file("old.txt", now - chrono::Duration::days(3)),
        file("new.txt", now),
        file("tie_a.txt", now - chrono::Duration::hours(1)),
        file("mid.txt", now - chrono::Duration::days(1)),
        file("tie_b.txt", now - chrono::Duration::hours(1)),
    ];
    let order = newest_first_order(&files);
    assert_eq!(order, vec![1, 2, 4, 3, 0]);
    let sorted: Vec<FileInfo> = order.iter().map(|&i| files[i].clone()).collect();
    assert_eq!(names(&sorted), vec!["new.txt", "tie_a.txt", "tie_b.txt", "mid.txt", "old.txt"]);
}

#[test]
fn sort_of_empty_listing_is_empty() {
    assert!(newest_first_order(&[]).is_empty());
}

#[test]
fn command_with_path_uses_the_given_word() {
    assert_eq!(command_with_path("mv {} /t", "\"x y\""), "mv \"x y\" /t");
    assert_eq!(command_with_path("rm", "''"), "rm ''");
}

#[test]
fn escape_leaves_safe_paths_alone() {
    assert_eq!(escape_path("/backups/file1.txt"), "/backups/file1.txt");
    assert_eq!(escape_path("a-b_c=d,e.f+g"), "a-b_c=d,e.f+g");
}

#[test]
fn escape_quotes_paths_with_spaces_and_quotes() {
    assert_eq!(escape_path("/tmp/file with spaces.txt"), "'/tmp/file with spaces.txt'");
    assert_eq!(escape_path(""), "''");
    assert_eq!(escape_path("it's!"), "'it'\\''s'\\!''");
}

#[test]
fn trash_command_substitutes_placeholder() {
    assert_eq!(
        trash_command("mv {} /trash/", "/b/file with spaces.txt"),
        "mv '/b/file with spaces.txt' /trash/"
    );
    assert_eq!(trash_command("cp {} {}.bak", "/b/x"), "cp /b/x /b/x.bak");
}

#[test]
fn trash_command_appends_path_without_placeholder() {
    assert_eq!(trash_command("rm", "/b/file2.txt"), "rm /b/file2.txt");
    assert_eq!(trash_command("trash-put", "/b/a b"), "trash-put '/b/a b'");
    assert_eq!(trash_command("echo {", "/x"), "echo { /x");
}

#[test]
fn trash_action_follows_dry_run_and_command() {
    assert_eq!(trash_action("/b/f", true, Some("rm")), TrashAction::Report);
    assert_eq!(trash_action("/b/f", true, None), TrashAction::Report);
    assert_eq!(trash_action("/b/f", false, None), TrashAction::SystemTrash);
    assert_eq!(
        trash_action("/b/f", false, Some("mv {} /t")),
        TrashAction::RunCommand("mv /b/f /t".to_string())
    );
}

#[test]
fn rotation_refuses_keep_last_zero() {
    assert_eq!(check_rotation_config(&keep_last_only(0)), Err(RotationError::KeepLastZero));
    assert_eq!(check_rotation_config(&keep_last_only(1)), Ok(()));
    let now = Local.with_ymd_and_hms(2024, 6, 15, 12, 0, 0).unwrap();
    let files = vec![file("a", now)];
    assert_eq!(plan_rotation(&files, &keep_last_only(0), moment(now)).err(), Some(RotationError::KeepLastZero));
}

#[test]
fn rotation_of_empty_listing_keeps_and_moves_nothing() {
    let now = Local.with_ymd_and_hms(2024, 6, 15, 12, 0, 0).unwrap();
    let plan = plan_rotation(&[], &RetentionConfig::default(), moment(now)).unwrap();
    assert_eq!(plan.reasons.len(), 0);
    assert!(plan.to_trash.is_empty());
}

#[test]
fn rotation_keeps_newest_and_trashes_the_rest() {
    let now = Local.with_ymd_and_hms(2024, 6, 15, 12, 0, 0).unwrap();
    let files = vec![
        file("file1.txt", now),
        file("file2.txt", now - chrono::Duration::minutes(1)),
        file("file3.txt", now - chrono::Duration::minutes(2)),
    ];
    let plan = plan_rotation(&files, &keep_last_only(2), moment(now)).unwrap();
    assert_eq!(plan.reasons.len(), 2);
    assert_eq!(plan.to_trash, vec![2]);
}

#[test]
fn rotation_counts_add_up_with_all_policies() {
    let now = Local.with_ymd_and_hms(2024, 6, 15, 12, 0, 0).unwrap();
    let files = vec![
        file("recent1.txt", now),
        file("recent2.txt", now - chrono::Duration::minutes(1)),
        file("hourly1.txt", now - chrono::Duration::hours(1)),
        file("hourly2.txt", now - chrono::Duration::hours(2)),
        file("daily1.txt", now - chrono::Duration::days(1)),
        file("daily2.txt", now - chrono::Duration::days(2)),
        file("ancient.txt", now - chrono::Duration::days(4000)),
    ];
    let config = RetentionConfig {
        keep_last: 2,
        keep_hourly: 3,
        keep_daily: 3,
        keep_weekly: 0,
        keep_monthly: 0,
        keep_yearly: 0,
    };
    let plan = plan_rotation(&files, &config, moment(now)).unwrap();
    assert_eq!(plan.reasons.len(), 6);
    assert_eq!(plan.to_trash, vec![6]);
    assert_eq!(plan.reasons.len() + plan.to_trash.len(), files.len());
}

#[test]
fn rotation_reports_window_out_of_range() {
    let now = Local.with_ymd_and_hms(2024, 6, 15, 12, 0, 0).unwrap();
    let files = vec![file("a", now)];
    let config = RetentionConfig {
        keep_yearly: u32::MAX,
        ..keep_last_only(1)
    };
    assert_eq!(plan_rotation(&files, &config, moment(now)).err(), Some(RotationError::WindowOutOfRange));
}

#[test]
fn reason_labels_and_description() {
    assert_eq!(RetentionReason::KeepLast.as_str(), "keep-last");
    assert_eq!(RetentionReason::Hourly.as_str(), "hourly");
    assert_eq!(RetentionReason::Daily.as_str(), "daily");
    assert_eq!(RetentionReason::Weekly.as_str(), "weekly");
    assert_eq!(RetentionReason::Monthly.as_str(), "monthly");
    assert_eq!(RetentionReason::Yearly.as_str(), "yearly");
    let mut s = ReasonSet::new();
    assert_eq!(s.describe(), "");
    s.insert(RetentionReason::Daily);
    s.insert(RetentionReason::KeepLast);
    assert_eq!(s.describe(), "keep-last, daily");
    assert_eq!(s.to_vec(), vec![RetentionReason::KeepLast, RetentionReason::Daily]);
    assert!(!s.is_empty());
}

use chrono::{DateTime, Datelike, Local, NaiveDate, TimeZone};
use prune_backup::calendar::{MAX_TIMESTAMP, MIN_TIMESTAMP, SECS_PER_DAY};
use prune_backup::{
    get_hour_key, get_month_key, get_week_key, get_year_key, pick_periods, select_files_to_keep_with_datetime,
    select_files_to_keep_with_reasons, CivilDate, FileInfo, LocalDateTime, RetentionConfig, RetentionReason,
};

fn moment(dt: DateTime<Local>) -> LocalDateTime {
    LocalDateTime::from_timestamp(dt.timestamp(), dt.timestamp_subsec_nanos()).unwrap()
}

fn civil(date: NaiveDate) -> CivilDate {
    CivilDate::new(date.year(), date.month(), date.day()).unwrap()
}

fn make_file_info_with_time(name: &str, dt: DateTime<Local>) -> FileInfo {
    FileInfo {
        path: name.to_string(),
        created: moment(dt),
    }
}

fn make_file_info(name: &str, date: NaiveDate) -> FileInfo {
    let datetime = Local
        .from_local_datetime(&date.and_hms_opt(12, 0, 0).unwrap())
        .single()
        .unwrap();
    FileInfo {
        path: name.to_string(),
        created: moment(datetime),
    }
}

fn zero_config() -> RetentionConfig {
    RetentionConfig {
        keep_last: 0,
        keep_hourly: 0,
        keep_daily: 0,
        keep_weekly: 0,
        keep_monthly: 0,
        keep_yearly: 0,
    }
}

#[test]
fn test_get_hour_key() {
    let dt = Local.with_ymd_and_hms(2024, 6, 15, 14, 30, 0).unwrap();
    assert_eq!(get_hour_key(&moment(dt)), (2024, 6, 15, 14));
}

#[test]
fn test_get_week_key() {
    let date = NaiveDate::from_ymd_opt(2024, 1, 15).unwrap();
    let (year, week) = get_week_key(&civil(date));
    assert_eq!(year, 2024);
    assert!(week >= 1 && week <= 53);
}

#[test]
fn test_get_month_key() {
    let date = NaiveDate::from_ymd_opt(2024, 6, 15).unwrap();
    assert_eq!(get_month_key(&civil(date)), (2024, 6));
}

#[test]
fn test_get_year_key() {
    let date = NaiveDate::from_ymd_opt(2024, 6, 15).unwrap();
    assert_eq!(get_year_key(&civil(date)), 2024);
}

#[test]
fn test_keep_last_n_files() {
    let now = Local.with_ymd_and_hms(2024, 6, 15, 12, 0, 0).unwrap();
    let config = RetentionConfig {
        keep_last: 3,
        ..zero_config()
    };

    // Create 5 files with different times
    let files: Vec<FileInfo> = (0..5)
        .map(|i| {
            let dt = now - chrono::Duration::minutes(i as i64);
            FileInfo {
                path: format!("file{}.txt", i),
                created: moment(dt),
            }
        })
        .collect();

    let keep = select_files_to_keep_with_datetime(&files, &config, moment(now)).unwrap();
    assert_eq!(keep.len(), 3);
    assert!(keep.contains(&0));
    assert!(keep.contains(&1));
    assert!(keep.contains(&2));
}

#[test]
fn test_keep_one_per_hour() {
    let now = Local.with_ymd_and_hms(2024, 6, 15, 12, 0, 0).unwrap();
    let config = RetentionConfig {
        keep_hourly: 5,
        ..zero_config()
    };

    // Create files in different hours (sorted newest-first like scan_files does)
    // file4 is newer than file3 but in the same hour
    let files = vec![
        make_file_info_with_time("file1.txt", now),
        make_file_info_with_time("file2.txt", now - chrono::Duration::hours(1)),
        make_file_info_with_time(
            "file4.txt",
            now - chrono::Duration::hours(2) + chrono::Duration::minutes(30),
        ), // hour 10, newer
        make_file_info_with_time("file3.txt", now - chrono::Duration::hours(2)), // hour 10, older
    ];

    let keep = select_files_to_keep_with_datetime(&files, &config, moment(now)).unwrap();
    assert_eq!(keep.len(), 3); // 3 unique hours
    assert!(keep.contains(&0)); // hour 12
    assert!(keep.contains(&1)); // hour 11
    assert!(keep.contains(&3)); // hour 10 (oldest file in that hour)
    assert!(!keep.contains(&2)); // same hour as file3, not kept (newer)
}

#[test]
fn test_keep_one_per_day() {
    let now = Local.with_ymd_and_hms(2024, 6, 15, 12, 0, 0).unwrap();
    let today = now.date_naive();
    let config = RetentionConfig {
        keep_daily: 5,
        ..zero_config()
    };

    // Create files for different days (sorted newest-first like scan_files does)
    // file3 and file4 are on the same day, but file4 is older
    let files = vec![
        make_file_info("file1.txt", today),
        make_file_info("file2.txt", today - chrono::Duration::days(1)),
        make_file_info("file3.txt", today - chrono::Duration::days(2)), // newer on day -2
        make_file_info("file4.txt", today - chrono::Duration::days(2)), // older on day -2 (same day)
    ];

    let keep = select_files_to_keep_with_datetime(&files, &config, moment(now)).unwrap();
    assert_eq!(keep.len(), 3);
    assert!(keep.contains(&0)); // today
    assert!(keep.contains(&1)); // yesterday
    assert!(keep.contains(&3)); // 2 days ago (oldest file on that day)
    assert!(!keep.contains(&2)); // duplicate day, not kept
}

#[test]
fn test_keep_one_per_week() {
    let now = Local.with_ymd_and_hms(2024, 6, 15, 12, 0, 0).unwrap(); // Saturday
    let today = now.date_naive();
    let config = RetentionConfig {
        keep_weekly: 4,
        ..zero_config()
    };

    // Create files spanning different weeks
    let files = vec![
        make_file_info("file1.txt", today),
        make_file_info("file2.txt", today - chrono::Duration::weeks(1)),
        make_file_info("file3.txt", today - chrono::Duration::weeks(2)),
        make_file_info(
            "file4.txt",
            today - chrono::Duration::weeks(2) + chrono::Duration::days(1),
        ), // same week as file3
    ];

    let keep = select_files_to_keep_with_datetime(&files, &config, moment(now)).unwrap();
    assert_eq!(keep.len(), 3);
}

#[test]
fn test_keep_one_per_month() {
    let now = Local.with_ymd_and_hms(2024, 6, 15, 12, 0, 0).unwrap();
    let config = RetentionConfig {
        keep_monthly: 6,
        ..zero_config()
    };

    // Create files in different months (sorted newest-first like scan_files does)
    // file2 and file3 are in the same month (May), but file3 is older
    let files = vec![
        make_file_info("file1.txt", NaiveDate::from_ymd_opt(2024, 6, 15).unwrap()),
        make_file_info("file2.txt", NaiveDate::from_ymd_opt(2024, 5, 10).unwrap()), // May, newer
        make_file_info("file3.txt", NaiveDate::from_ymd_opt(2024, 5, 5).unwrap()), // May, older
        make_file_info("file4.txt", NaiveDate::from_ymd_opt(2024, 4, 20).unwrap()),
    ];

    let keep = select_files_to_keep_with_datetime(&files, &config, moment(now)).unwrap();
    assert_eq!(keep.len(), 3);
    assert!(keep.contains(&0)); // June
    assert!(keep.contains(&2)); // May (oldest file in that month)
    assert!(!keep.contains(&1)); // May duplicate, not kept (newer)
    assert!(keep.contains(&3)); // April
}

#[test]
fn test_keep_one_per_year() {
    let now = Local.with_ymd_and_hms(2024, 6, 15, 12, 0, 0).unwrap();
    let config = RetentionConfig {
        keep_yearly: 5,
        ..zero_config()
    };

    // Create files in different years (sorted newest-first like scan_files does)
    // file2 and file3 are in the same year (2023), but file3 is older
    let files = vec![
        make_file_info("file1.txt", NaiveDate::from_ymd_opt(2024, 6, 15).unwrap()),
        make_file_info("file2.txt", NaiveDate::from_ymd_opt(2023, 3, 10).unwrap()), // 2023, newer
        make_file_info("file3.txt", NaiveDate::from_ymd_opt(2023, 1, 5).unwrap()), // 2023, older
        make_file_info("file4.txt", NaiveDate::from_ymd_opt(2022, 12, 20).unwrap()),
    ];

    let keep = select_files_to_keep_with_datetime(&files, &config, moment(now)).unwrap();
    assert_eq!(keep.len(), 3);
    assert!(keep.contains(&0)); // 2024
    assert!(keep.contains(&2)); // 2023 (oldest file in that year)
    assert!(!keep.contains(&1)); // 2023 duplicate, not kept (newer)
    assert!(keep.contains(&3)); // 2022
}

#[test]
fn test_empty_files() {
    let now = Local::now();
    let config = RetentionConfig::default();
    let files: Vec<FileInfo> = vec![];

    let keep = select_files_to_keep_with_datetime(&files, &config, moment(now)).unwrap();
    assert!(keep.is_empty());
}

#[test]
fn test_files_outside_retention_window() {
    let now = Local.with_ymd_and_hms(2024, 6, 15, 12, 0, 0).unwrap();
    let config = RetentionConfig {
        keep_daily: 5,
        ..zero_config()
    };

    // File is 10 days old, outside the 5-day window
    let files = vec![make_file_info(
        "old_file.txt",
        now.date_naive() - chrono::Duration::days(10),
    )];

    let keep = select_files_to_keep_with_datetime(&files, &config, moment(now)).unwrap();
    assert!(keep.is_empty());
}

#[test]
fn test_combined_retention_policies() {
    let now = Local.with_ymd_and_hms(2024, 6, 15, 12, 0, 0).unwrap();
    let config = RetentionConfig {
        keep_last: 2,
        keep_hourly: 3,
        keep_daily: 3,
        keep_weekly: 2,
        keep_monthly: 2,
        keep_yearly: 1,
    };

    let files = vec![
        make_file_info_with_time("file1.txt", now),
        make_file_info_with_time("file2.txt", now - chrono::Duration::hours(1)),
        make_file_info_with_time("file3.txt", now - chrono::Duration::days(1)),
        make_file_info_with_time("file4.txt", now - chrono::Duration::days(10)),
        make_file_info_with_time("file5.txt", now - chrono::Duration::days(40)),
    ];

    let keep = select_files_to_keep_with_datetime(&files, &config, moment(now)).unwrap();
    assert_eq!(keep.len(), 5); // All files kept by various policies
}

#[test]
fn test_keep_last_more_than_files() {
    let now = Local.with_ymd_and_hms(2024, 6, 15, 12, 0, 0).unwrap();
    let config = RetentionConfig {
        keep_last: 100,
        ..zero_config()
    };

    let files = vec![
        make_file_info("file1.txt", now.date_naive()),
        make_file_info("file2.txt", now.date_naive() - chrono::Duration::days(1)),
    ];

    let keep = select_files_to_keep_with_datetime(&files, &config, moment(now)).unwrap();
    assert_eq!(keep.len(), 2);
}

#[test]
fn test_iso_week_year_boundary() {
    // Test that ISO week handles year boundaries correctly
    // Dec 31, 2024 is in ISO week 1 of 2025
    let date = NaiveDate::from_ymd_opt(2024, 12, 31).unwrap();
    let (year, week) = get_week_key(&civil(date));
    // The ISO week year for Dec 31, 2024 should be 2025
    assert_eq!(year, 2025);
    assert_eq!(week, 1);
}

// These tests verify that retention policies are applied independently,
// and a file can be kept by multiple policies.

#[test]
fn test_independent_policies_multiple_reasons() {
    // A file can be kept by multiple policies simultaneously.
    let now = Local.with_ymd_and_hms(2024, 6, 15, 12, 0, 0).unwrap();
    let config = RetentionConfig {
        keep_last: 1,
        keep_hourly: 2,
        keep_daily: 2,
        ..zero_config()
    };

    // file0 is keep-last and oldest in its hour (hour 12)
    // file1 is oldest in its hour (hour 11) AND oldest file on day 15
    let files = vec![
        make_file_info_with_time("file0.txt", now), // hour 12, day 15
        make_file_info_with_time("file1.txt", now - chrono::Duration::hours(1)), // hour 11, day 15
    ];

    let reasons = select_files_to_keep_with_reasons(&files, &config, moment(now)).unwrap();

    // file0 should have keep-last and hourly (oldest in hour 12)
    let file0_reasons = reasons.get(&0).unwrap();
    assert!(file0_reasons.contains(&RetentionReason::KeepLast));
    assert!(file0_reasons.contains(&RetentionReason::Hourly));

    // file1 should have hourly (hour 11) and daily (oldest on day 15)
    let file1_reasons = reasons.get(&1).unwrap();
    assert!(file1_reasons.contains(&RetentionReason::Hourly));
    assert!(file1_reasons.contains(&RetentionReason::Daily));
}

#[test]
fn test_independent_policies_overlapping_periods() {
    // Policies evaluate all files independently; overlapping periods are fine.
    let now = Local.with_ymd_and_hms(2024, 6, 15, 14, 0, 0).unwrap();
    let config = RetentionConfig {
        keep_hourly: 3,
        keep_daily: 2,
        ..zero_config()
    };

    let files = vec![
        make_file_info_with_time("file0.txt", now),
        make_file_info_with_time("file1.txt", now - chrono::Duration::hours(1)),
        make_file_info_with_time("file2.txt", now - chrono::Duration::days(1)),
    ];

    let keep = select_files_to_keep_with_datetime(&files, &config, moment(now)).unwrap();
    let reasons = select_files_to_keep_with_reasons(&files, &config, moment(now)).unwrap();

    assert_eq!(keep.len(), 3);

    // file0: hourly only (hour 14)
    let file0_reasons = reasons.get(&0).unwrap();
    assert!(file0_reasons.contains(&RetentionReason::Hourly));
    assert!(!file0_reasons.contains(&RetentionReason::Daily)); // file1 is older on same day

    // file1: hourly (hour 13) + daily (oldest on day 15)
    let file1_reasons = reasons.get(&1).unwrap();
    assert!(file1_reasons.contains(&RetentionReason::Hourly));
    assert!(file1_reasons.contains(&RetentionReason::Daily));

    // file2: daily (day 14)
    assert!(reasons.get(&2).unwrap().contains(&RetentionReason::Daily));
}

#[test]
fn test_independent_weekly_and_monthly() {
    // Weekly and monthly policies can both keep the same file.
    let now = Local.with_ymd_and_hms(2024, 6, 28, 12, 0, 0).unwrap();
    let config = RetentionConfig {
        keep_weekly: 2,
        keep_monthly: 3,
        ..zero_config()
    };

    let files = vec![
        make_file_info("file0.txt", NaiveDate::from_ymd_opt(2024, 6, 28).unwrap()),
        make_file_info("file1.txt", NaiveDate::from_ymd_opt(2024, 6, 21).unwrap()),
        make_file_info("file2.txt", NaiveDate::from_ymd_opt(2024, 5, 15).unwrap()),
    ];

    let keep = select_files_to_keep_with_datetime(&files, &config, moment(now)).unwrap();
    let reasons = select_files_to_keep_with_reasons(&files, &config, moment(now)).unwrap();

    assert_eq!(keep.len(), 3);

    // file0: weekly (week 26)
    let file0_reasons = reasons.get(&0).unwrap();
    assert!(file0_reasons.contains(&RetentionReason::Weekly));

    // file1: weekly (week 25) + monthly (oldest in June)
    let file1_reasons = reasons.get(&1).unwrap();
    assert!(file1_reasons.contains(&RetentionReason::Weekly));
    assert!(file1_reasons.contains(&RetentionReason::Monthly));

    // file2: monthly (May)
    assert!(reasons.get(&2).unwrap().contains(&RetentionReason::Monthly));
}

#[test]
fn test_independent_monthly_and_yearly() {
    // Monthly and yearly policies can both keep the same file.
    let now = Local.with_ymd_and_hms(2024, 6, 15, 12, 0, 0).unwrap();
    let config = RetentionConfig {
        keep_monthly: 2,
        keep_yearly: 3,
        ..zero_config()
    };

    let files = vec![
        make_file_info("file0.txt", NaiveDate::from_ymd_opt(2024, 6, 15).unwrap()),
        make_file_info("file1.txt", NaiveDate::from_ymd_opt(2024, 5, 15).unwrap()),
        make_file_info("file2.txt", NaiveDate::from_ymd_opt(2023, 12, 1).unwrap()),
    ];

    let keep = select_files_to_keep_with_datetime(&files, &config, moment(now)).unwrap();
    let reasons = select_files_to_keep_with_reasons(&files, &config, moment(now)).unwrap();

    assert_eq!(keep.len(), 3);

    // file0: monthly (June 2024)
    let file0_reasons = reasons.get(&0).unwrap();
    assert!(file0_reasons.contains(&RetentionReason::Monthly));

    // file1: monthly (May 2024) + yearly (oldest in 2024)
    let file1_reasons = reasons.get(&1).unwrap();
    assert!(file1_reasons.contains(&RetentionReason::Monthly));
    assert!(file1_reasons.contains(&RetentionReason::Yearly));

    // file2: yearly (2023)
    assert!(reasons.get(&2).unwrap().contains(&RetentionReason::Yearly));
}

#[test]
fn test_independent_full_chain() {
    // Test that all policies are applied independently.
    let now = Local.with_ymd_and_hms(2024, 6, 15, 12, 0, 0).unwrap();
    let config = RetentionConfig {
        keep_last: 1,
        keep_hourly: 1,
        keep_daily: 1,
        keep_weekly: 1,
        keep_monthly: 1,
        keep_yearly: 1,
    };

    let files = vec![
        make_file_info_with_time("file0.txt", now),
        make_file_info_with_time("file1.txt", now - chrono::Duration::minutes(30)),
        make_file_info_with_time("file2.txt", now - chrono::Duration::hours(5)),
        make_file_info_with_time("file3.txt", now - chrono::Duration::days(2)),
        make_file_info_with_time("file4.txt", now - chrono::Duration::weeks(2)),
        make_file_info("file5.txt", NaiveDate::from_ymd_opt(2023, 7, 15).unwrap()),
    ];

    let keep = select_files_to_keep_with_datetime(&files, &config, moment(now)).unwrap();
    let reasons = select_files_to_keep_with_reasons(&files, &config, moment(now)).unwrap();

    assert_eq!(keep.len(), 6);

    // file0 should have multiple reasons (keep-last + hourly)
    let file0_reasons = reasons.get(&0).unwrap();
    assert!(file0_reasons.contains(&RetentionReason::KeepLast));
    assert!(file0_reasons.contains(&RetentionReason::Hourly));

    // All files should be kept
    assert!(keep.contains(&0));
    assert!(keep.contains(&1));
    assert!(keep.contains(&2));
    assert!(keep.contains(&3));
    assert!(keep.contains(&4));
    assert!(keep.contains(&5));
}

#[test]
fn test_independent_same_period_keeps_oldest() {
    // Within a period, policies keep the oldest file in that period.
    let now = Local.with_ymd_and_hms(2024, 6, 15, 12, 0, 0).unwrap();
    let config = RetentionConfig {
        keep_daily: 2,
        ..zero_config()
    };

    // Multiple files on the same day - oldest should be kept
    let files = vec![
        make_file_info_with_time("file0.txt", now),
        make_file_info_with_time("file1.txt", now - chrono::Duration::hours(2)),
        make_file_info_with_time("file2.txt", now - chrono::Duration::hours(4)),
        make_file_info_with_time("file3.txt", now - chrono::Duration::days(1)),
    ];

    let keep = select_files_to_keep_with_datetime(&files, &config, moment(now)).unwrap();

    assert_eq!(keep.len(), 2);
    assert!(keep.contains(&2)); // oldest on day 15
    assert!(!keep.contains(&0)); // not oldest on day 15
    assert!(!keep.contains(&1)); // not oldest on day 15
    assert!(keep.contains(&3)); // oldest on day 14
}

#[test]
fn current_moment_matches_chrono_now() {
    let before = Local::now().timestamp();
    let now = LocalDateTime::now().unwrap();
    let after = Local::now().timestamp();
    assert!(now.instant().secs >= before && now.instant().secs <= after);
    assert!(now.hour() < 24);
}

#[test]
fn select_with_current_time_keeps_last_files() {
    let now = Local::now();
    let files = vec![
        make_file_info_with_time("a", now),
        make_file_info_with_time("b", now - chrono::Duration::minutes(1)),
        make_file_info_with_time("c", now - chrono::Duration::minutes(2)),
    ];
    let config = RetentionConfig {
        keep_last: 2,
        ..zero_config()
    };
    let keep = prune_backup::select_files_to_keep(&files, &config).unwrap();
    assert_eq!(keep.len(), 2);
    assert!(keep.contains(&0) && keep.contains(&1));
}

#[test]
fn civil_date_rejects_nonexistent_days() {
    assert!(CivilDate::new(2024, 2, 29).is_some());
    assert!(CivilDate::new(2023, 2, 29).is_none());
    assert!(CivilDate::new(2000, 2, 29).is_some());
    assert!(CivilDate::new(1900, 2, 29).is_none());
    assert!(CivilDate::new(2024, 4, 31).is_none());
    assert!(CivilDate::new(2024, 13, 1).is_none());
    assert!(CivilDate::new(2024, 1, 0).is_none());
    assert!(CivilDate::new(262143, 1, 1).is_none());
    for (y, m, d) in [(2024, 2, 29), (2023, 2, 29), (-4, 2, 29), (-100, 2, 29), (262142, 12, 31), (-262143, 1, 1), (-262144, 12, 31)] {
        assert_eq!(CivilDate::new(y, m, d).is_some(), NaiveDate::from_ymd_opt(y, m, d).is_some());
    }
}

#[test]
fn days_and_hours_before() {
    let date = CivilDate::new(2024, 3, 1).unwrap();
    assert_eq!(date.days_before(1).unwrap().ymd(), (2024, 2, 29));
    assert_eq!(date.days_before(366).unwrap().ymd(), (2023, 3, 1));
    assert!(date.days_before(i64::MAX).is_none());
    let t = moment(Local.with_ymd_and_hms(2024, 6, 15, 12, 0, 0).unwrap());
    let b = t.hours_before(5).unwrap();
    assert_eq!(b.secs, t.instant().secs - 5 * 3600);
    assert_eq!(b.nanos, t.instant().nanos);
    assert!(t.hours_before(i64::MAX).is_none());
}

#[test]
fn cutoffs_follow_settings() {
    let now = moment(Local.with_ymd_and_hms(2024, 6, 15, 12, 0, 0).unwrap());
    let config = RetentionConfig {
        keep_last: 1,
        keep_hourly: 2,
        keep_daily: 3,
        keep_weekly: 0,
        keep_monthly: 1,
        keep_yearly: 1,
    };
    let c = prune_backup::compute_cutoffs(&config, &now).unwrap();
    assert_eq!(c.hourly.unwrap().secs, now.instant().secs - 7200);
    assert_eq!(c.daily, Some((2024, 6, 12)));
    assert_eq!(c.weekly, None);
    assert_eq!(c.monthly, Some((2024, 5, 16)));
    assert_eq!(c.yearly, Some((2023, 6, 16)));
}

#[test]
fn hidden_reasons_are_absent_for_unkept_files() {
    let now = Local.with_ymd_and_hms(2024, 6, 15, 12, 0, 0).unwrap();
    let config = RetentionConfig {
        keep_last: 1,
        ..zero_config()
    };
    let files = vec![make_file_info_with_time("a", now), make_file_info_with_time("b", now)];
    let reasons = select_files_to_keep_with_reasons(&files, &config, moment(now)).unwrap();
    assert!(reasons.contains_key(&0));
    assert!(!reasons.contains_key(&1));
    assert!(reasons.get(&1).is_none());
    assert!(reasons.get(&7).is_none());
    assert_eq!(reasons.len(), 1);
    assert_eq!(reasons.num_files(), 2);
}

#[test]
fn local_fields_build_a_moment_only_when_valid() {
    let t = LocalDateTime::from_local_fields(1_718_452_800, 5, 2024, 6, 15, 12).unwrap();
    assert_eq!(t.instant().secs, 1_718_452_800);
    assert_eq!(t.instant().nanos, 5);
    assert_eq!(t.date().ymd(), (2024, 6, 15));
    assert_eq!(t.hour(), 12);
    assert!(LocalDateTime::from_local_fields(0, 1_000_000_000, 2024, 6, 15, 12).is_none());
    assert!(LocalDateTime::from_local_fields(0, 0, 2024, 6, 31, 12).is_none());
    assert!(LocalDateTime::from_local_fields(0, 0, 2024, 6, 15, 24).is_none());
    assert!(LocalDateTime::from_timestamp(0, 1_000_000_000).is_none());
}

#[test]
fn ordinary_settings_always_have_windows() {
    let now = moment(Local.with_ymd_and_hms(2024, 6, 15, 12, 0, 0).unwrap());
    let config = RetentionConfig {
        keep_last: 1,
        keep_hourly: 90_000_000,
        keep_daily: 36_500_000,
        keep_weekly: 5_214_285,
        keep_monthly: 1_216_666,
        keep_yearly: 100_000,
    };
    assert!(prune_backup::compute_cutoffs(&config, &now).is_some());
    assert!(prune_backup::compute_cutoffs(&RetentionConfig::default(), &now).is_some());
}

#[test]
fn hours_before_follows_chrono_range() {
    let at = |secs: i64, nanos: u32| LocalDateTime::from_local_fields(secs, nanos, 2000, 1, 1, 0).unwrap();
    let t = at(MIN_TIMESTAMP + 3600, 7);
    let b = t.hours_before(1).unwrap();
    assert_eq!((b.secs, b.nanos), (MIN_TIMESTAMP, 7));
    assert!(t.hours_before(2).is_none());
    let t = at(MAX_TIMESTAMP, 5);
    assert_eq!(t.hours_before(0).unwrap().secs, MAX_TIMESTAMP);
    assert!(t.hours_before(-1).is_none());
    assert_eq!(t.hours_before(1).unwrap().secs, MAX_TIMESTAMP - 3600);
    assert!(at(MAX_TIMESTAMP + 1, 0).hours_before(0).is_none());
    assert!(at(MIN_TIMESTAMP - 1, 0).hours_before(0).is_none());
    assert!(at(0, 0).hours_before(i64::MAX).is_none());
    assert!(at(0, 0).hours_before(i64::MIN).is_none());
    assert_eq!(at(0, 0).hours_before(-2).unwrap().secs, 7200);
}

#[test]
fn timestamp_range_matches_chrono() {
    let ok = |s: i64| chrono::DateTime::<chrono::Utc>::from_timestamp(s, 0).is_some();
    assert!(ok(MIN_TIMESTAMP) && !ok(MIN_TIMESTAMP - 1));
    assert!(ok(MAX_TIMESTAMP) && !ok(MAX_TIMESTAMP + 1));
    assert!(chrono::DateTime::<chrono::Utc>::from_timestamp(MAX_TIMESTAMP, 999_999_999).is_some());
}

#[test]
fn days_before_succeeds_on_ordinary_inputs() {
    let year = prune_backup::calendar::MIN_YEAR_FOR_DAYS_BACK;
    let days = prune_backup::calendar::MAX_DAYS_BACK;
    let first = CivilDate::new(year, 1, 1).unwrap();
    assert!(first.days_before(days).is_some());
    assert!(first.days_before(0).is_some());
    let last = CivilDate::new(prune_backup::calendar::MAX_YEAR, 12, 31).unwrap();
    assert!(last.days_before(days).is_some());
    let min = CivilDate::new(prune_backup::calendar::MIN_YEAR, 1, 1).unwrap();
    assert!(min.days_before(1).is_none());
    assert!(min.days_before(0).is_some());
}

#[test]
fn pick_periods_keeps_last_position_of_each_week() {
    // ISO weeks 26 and 25 of 2024, newest first; the third file lies outside the window.
    let keys = vec![Some((2024, 26, 0, 0)), Some((2024, 26, 0, 0)), None, Some((2024, 25, 0, 0)), Some((2024, 25, 0, 0))];
    assert_eq!(pick_periods(&keys), vec![false, true, false, false, true]);
}

#[test]
fn pick_periods_tells_apart_keys_differing_in_any_field() {
    let keys = vec![
        Some((2024, 1, 2, 3)),
        Some((2024, 1, 2, 4)),
        Some((2024, 1, 3, 3)),
        Some((2024, 2, 2, 3)),
        Some((2023, 1, 2, 3)),
        Some((i32::MIN, u32::MAX, u32::MAX, u32::MAX)),
        Some((i32::MAX, u32::MAX, u32::MAX, u32::MAX)),
    ];
    assert_eq!(pick_periods(&keys), vec![true; 7]);
    assert!(pick_periods(&[]).is_empty());
    assert_eq!(pick_periods(&[None, None]), vec![false, false]);
}

#[test]
fn from_timestamp_places_instants_a_day_inside_the_range() {
    for secs in [MIN_TIMESTAMP + SECS_PER_DAY, 0, 1_700_000_000, MAX_TIMESTAMP - SECS_PER_DAY] {
        let t = LocalDateTime::from_timestamp(secs, 999_999_999).unwrap();
        assert_eq!(t.instant().secs, secs);
        assert!(t.hour() < 24);
    }
}

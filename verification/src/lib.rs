//! Retention rules for backup rotation: which files of a directory to keep, and why.
//!
//! - `calendar`: instants, local dates and times, and the calendar arithmetic done by chrono.
//! - `config`: the retention settings, their defaults, and how they are combined.
//! - `reason`: why a file is kept.
//! - `selection`: the retention policies.
//! - `rotation`: listing order, the trash, and the plan of a rotation.
//! - `laws`: properties of the policies that hold for every input.
pub mod calendar;
pub mod config;
pub mod laws;
pub mod reason;
pub mod rotation;
pub mod selection;

pub use calendar::{CivilDate, Instant, LocalDateTime};
pub use config::{parse_keep_last, resolve_config, RetentionConfig, RetentionFileConfig, RETENTION_FILE_NAME};
pub use reason::{KeepReasons, ReasonSet, RetentionReason};
pub use rotation::{
    check_rotation_config, command_with_path, escape_path, is_hidden_name, newest_first_order, plan_rotation, trash_action,
    trash_command,
    RotationError, RotationPlan, TrashAction,
};
pub use selection::{
    compute_cutoffs, get_hour_key, get_month_key, get_week_key, get_year_key, pick_periods, select_files_to_keep,
    select_files_to_keep_with_datetime, select_files_to_keep_with_reasons, select_with_cutoffs, Cutoffs, FileInfo,
};

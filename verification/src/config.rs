//! Configuration values for the recorder and exporter.
//!
//! The unverified shell loads these from the configuration files; the library
//! only holds the values and their defaults.

use vstd::prelude::*;

verus! {

/// One dashboard slot: a field id, optionally with a display label.
#[derive(Clone, Debug)]
pub enum DashboardSlot {
    Field(String),
    WithLabel { field: String, label: Option<String> },
}

impl DashboardSlot {
    /// The field id the slot displays.
    pub fn field_id(&self) -> (r: &String)
        ensures
            r@ == match self {
                DashboardSlot::Field(s) => s@,
                DashboardSlot::WithLabel { field, .. } => field@,
            },
    {
        match self {
            DashboardSlot::Field(s) => s,
            DashboardSlot::WithLabel { field, .. } => field,
        }
    }

    /// The display label, when one was set.
    pub fn label(&self) -> (r: Option<&String>)
        ensures
            match self {
                DashboardSlot::Field(_) => r is None,
                DashboardSlot::WithLabel { label, .. } => match (r, label) {
                    (Some(a), Some(b)) => a@ == b@,
                    (None, None) => true,
                    _ => false,
                },
            },
    {
        match self {
            DashboardSlot::Field(_) => None,
            DashboardSlot::WithLabel { label, .. } => label.as_ref(),
        }
    }
}

/// Colors of the dashboard palette, one per threshold band.
#[derive(Clone, Debug)]
pub struct ColorPalette {
    pub very_low: String,
    pub low: String,
    pub normal: String,
    pub high: String,
    pub very_high: String,
    pub ignore: String,
}

/// Capture-side configuration.
#[derive(Clone, Debug)]
pub struct RecorderConfig {
    /// Directory for raw recordings.
    pub raw_output_dir: String,
    /// Path of the stop-signal file; empty means the platform default.
    pub stop_file_path: Option<String>,
    /// Directory of the scratch note files; empty means the platform default.
    pub notes_dir: Option<String>,
    /// Record the medium-rate stream alongside physics.
    pub record_graphics: bool,
}

impl Default for RecorderConfig {
    /// The defaults the recorder runs with when no file configures it.
    fn default() -> (r: RecorderConfig)
        ensures
            r.record_graphics,
            r.stop_file_path is None,
            r.notes_dir is None,
    {
        RecorderConfig {
            raw_output_dir: String::from_str("telemetry_raw"),
            stop_file_path: None,
            notes_dir: None,
            record_graphics: true,
        }
    }
}

/// Export-side configuration.
#[derive(Clone, Debug)]
pub struct ExportConfig {
    /// Default export method name.
    pub default_method: String,
    /// Default path of the analytical database.
    pub sqlite_db_path: String,
}

impl Default for ExportConfig {
    /// The defaults the exporter runs with when no file configures it.
    fn default() -> (r: ExportConfig)
        ensures
            r.default_method@ == "csv"@,
            r.sqlite_db_path@ == "telemetry.db"@,
    {
        ExportConfig {
            default_method: String::from_str("csv"),
            sqlite_db_path: String::from_str("telemetry.db"),
        }
    }
}

/// Whole configuration of the pipeline.
#[derive(Clone, Debug)]
pub struct Config {
    pub recorder: RecorderConfig,
    pub export: ExportConfig,
}

impl Default for Config {
    /// The default configuration.
    fn default() -> (r: Config)
        ensures
            r.recorder.record_graphics,
            r.export.default_method@ == "csv"@,
    {
        Config { recorder: RecorderConfig::default(), export: ExportConfig::default() }
    }
}

} // verus!

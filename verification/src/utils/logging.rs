//! Log output settings.
use vstd::prelude::*;

verus! {

#[derive(Debug, Clone, Copy, PartialEq, Eq, Structural)]
pub enum LogFormat {
    Console,
    Json,
}

/// How logs are written.
#[derive(Debug, Clone)]
pub struct LogSettings {
    /// JSON lines rather than console text.
    pub use_json: bool,
    /// The filter used when the environment sets none.
    pub default_filter: String,
}

/// JSON when asked for, or when stderr is not a terminal.
pub open spec fn uses_json(log_format: Option<LogFormat>, stderr_is_terminal: bool) -> bool {
    log_format == Some(LogFormat::Json) || !stderr_is_terminal
}

/// The default filter: debug or info for everything, info for the radio
/// library.
pub open spec fn default_filter_text(verbose: bool) -> Seq<char> {
    (if verbose { "debug"@ } else { "info"@ }) + ",meshtastic=info"@
}

/// The log settings for the verbosity, the format asked for, and whether
/// stderr is a terminal.
pub fn logging_settings(verbose: bool, log_format: Option<LogFormat>, stderr_is_terminal: bool) -> (r: LogSettings)
    ensures
        r.use_json == uses_json(log_format, stderr_is_terminal),
        r.default_filter@ == default_filter_text(verbose),
{
    let use_json = if let Some(LogFormat::Json) = log_format {
        true
    } else {
        !stderr_is_terminal
    };
    let level = if verbose { "debug" } else { "info" };
    let mut default_filter = level.to_owned();
    default_filter.append(",meshtastic=info");
    LogSettings { use_json, default_filter }
}

} // verus!

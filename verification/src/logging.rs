//! Logger configuration and the filter that the process-wide logger uses.
//! Installing the logger and opening its files is the caller's part.
use vstd::prelude::*;

verus! {

/// Whether `tracing_subscriber::EnvFilter::try_new` accepts this directive string.
pub uninterp spec fn env_filter_parses(directives: Seq<char>) -> bool;

/// `tracing_subscriber::EnvFilter::try_new`: whether the directives parse.
#[verifier::external_body]
fn env_filter_accepts(directives: &str) -> (ok: bool)
    ensures
        ok == env_filter_parses(directives@),
{
    tracing_subscriber::EnvFilter::try_new(directives).is_ok()
}

/// How the process-wide logger is set up.
#[derive(Debug)]
pub struct LogConfig {
    /// Tracing filter directives such as `info` or `debug`.
    pub level: String,
    /// Log file path prefix (files rotate daily); `None` logs to standard output.
    pub file_path: Option<String>,
}

impl Default for LogConfig {
    /// `info` level, to standard output.
    fn default() -> (c: Self)
        ensures
            c.level@ == "info"@,
            c.file_path is None,
    {
        LogConfig { level: String::from_str("info"), file_path: None }
    }
}

/// The filter the logger uses: the configured level when it parses, else
/// `info` (`true` in the second place says that the fallback was taken).
pub open spec fn chosen_filter(level: Seq<char>) -> (Seq<char>, bool) {
    if env_filter_parses(level) {
        (level, false)
    } else {
        ("info"@, true)
    }
}

impl LogConfig {
    /// The filter directives to install, and whether the configured level was
    /// invalid and replaced by `info`.
    pub fn filter_directive(&self) -> (r: (String, bool))
        ensures
            (r.0@, r.1) == chosen_filter(self.level@),
    {
        if env_filter_accepts(self.level.as_str()) {
            (self.level.clone(), false)
        } else {
            (String::from_str("info"), true)
        }
    }
}

} // verus!

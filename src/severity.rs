use vstd::prelude::*;

verus! {

/// How serious a log event is, from the most verbose to the most severe.
#[derive(Clone, Copy, Debug, PartialEq, Eq, Structural, Hash)]
pub enum Severity {
    Debug,
    Info,
    Warn,
    Error,
}

/// Position of a severity on the verbose-to-severe scale.
pub open spec fn rank(s: Severity) -> nat {
    match s {
        Severity::Debug => 0,
        Severity::Info => 1,
        Severity::Warn => 2,
        Severity::Error => 3,
    }
}

/// A target whose threshold is `threshold` accepts events of `level`.
pub open spec fn admits(threshold: Severity, level: Severity) -> bool {
    rank(level) >= rank(threshold)
}

/// The upper-case name written in front of a message.
pub open spec fn severity_name(s: Severity) -> Seq<char> {
    match s {
        Severity::Debug => seq!['D', 'E', 'B', 'U', 'G'],
        Severity::Info => seq!['I', 'N', 'F', 'O'],
        Severity::Warn => seq!['W', 'A', 'R', 'N'],
        Severity::Error => seq!['E', 'R', 'R', 'O', 'R'],
    }
}

/// Relies on log::Level::as_str, which names each level in upper case
/// ("ERROR", "WARN", "INFO", "DEBUG").
#[verifier::external_body]
fn log_level_name(s: Severity) -> (r: &'static str)
    ensures
        r@ == severity_name(s),
{
    let level = match s {
        Severity::Debug => log::Level::Debug,
        Severity::Info => log::Level::Info,
        Severity::Warn => log::Level::Warn,
        Severity::Error => log::Level::Error,
    };
    level.as_str()
}

impl Severity {
    pub fn rank(&self) -> (r: u8)
        ensures
            r as nat == rank(*self),
    {
        match self {
            Severity::Debug => 0,
            Severity::Info => 1,
            Severity::Warn => 2,
            Severity::Error => 3,
        }
    }

    /// Whether a target filtered at `self` writes an event of `level`.
    pub fn admits(&self, level: Severity) -> (r: bool)
        ensures
            r == admits(*self, level),
    {
        level.rank() >= self.rank()
    }

    /// The upper-case name of the severity, as the log line shows it.
    pub fn name(&self) -> (r: &'static str)
        ensures
            r@ == severity_name(*self),
    {
        log_level_name(*self)
    }
}

} // verus!

//! The diagnostic system's five levels and the four severities of the peer.
use vstd::prelude::*;

verus! {

/// The level a diagnostic event was raised at, most severe first.
#[derive(Clone, Copy, Debug, PartialEq, Eq, Structural)]
pub enum Level {
    Error,
    Warn,
    Info,
    Debug,
    Trace,
}

/// The severity the peer is told, most severe first.
#[derive(Clone, Copy, Debug, PartialEq, Eq, Structural)]
pub enum Severity {
    Error,
    Warning,
    Info,
    Log,
}

impl Level {
    /// Position of the level, counted from the most severe.
    pub open spec fn rank(self) -> nat {
        match self {
            Level::Error => 0,
            Level::Warn => 1,
            Level::Info => 2,
            Level::Debug => 3,
            Level::Trace => 4,
        }
    }

    /// The severity that stands for this level.
    pub open spec fn spec_severity(self) -> Severity {
        match self {
            Level::Error => Severity::Error,
            Level::Warn => Severity::Warning,
            Level::Info => Severity::Info,
            Level::Debug => Severity::Log,
            Level::Trace => Severity::Log,
        }
    }

    /// The upper-case name of the level as it is shown in a message.
    pub open spec fn spec_name(self) -> Seq<char> {
        match self {
            Level::Error => seq!['E', 'R', 'R', 'O', 'R'],
            Level::Warn => seq!['W', 'A', 'R', 'N'],
            Level::Info => seq!['I', 'N', 'F', 'O'],
            Level::Debug => seq!['D', 'E', 'B', 'U', 'G'],
            Level::Trace => seq!['T', 'R', 'A', 'C', 'E'],
        }
    }

    /// Maps the level to the severity reported to the peer.
    pub fn severity(self) -> (s: Severity)
        ensures
            s == self.spec_severity(),
    {
        match self {
            Level::Error => Severity::Error,
            Level::Warn => Severity::Warning,
            Level::Info => Severity::Info,
            Level::Debug | Level::Trace => Severity::Log,
        }
    }

    /// The name of the level, in upper case.
    pub fn name(self) -> (s: &'static str)
        ensures
            s@ == self.spec_name(),
    {
        match self {
            Level::Error => {
                proof {
                    reveal_strlit("ERROR");
                }
                assert("ERROR"@ =~= self.spec_name());
                "ERROR"
            },
            Level::Warn => {
                proof {
                    reveal_strlit("WARN");
                }
                assert("WARN"@ =~= self.spec_name());
                "WARN"
            },
            Level::Info => {
                proof {
                    reveal_strlit("INFO");
                }
                assert("INFO"@ =~= self.spec_name());
                "INFO"
            },
            Level::Debug => {
                proof {
                    reveal_strlit("DEBUG");
                }
                assert("DEBUG"@ =~= self.spec_name());
                "DEBUG"
            },
            Level::Trace => {
                proof {
                    reveal_strlit("TRACE");
                }
                assert("TRACE"@ =~= self.spec_name());
                "TRACE"
            },
        }
    }
}

impl Severity {
    /// Position of the severity, counted from the most severe.
    pub open spec fn rank(self) -> nat {
        match self {
            Severity::Error => 0,
            Severity::Warning => 1,
            Severity::Info => 2,
            Severity::Log => 3,
        }
    }
}

/// The mapping keeps the order of the levels: a level at least as severe as
/// another never maps to a less severe one.
pub proof fn severity_keeps_order(a: Level, b: Level)
    requires
        a.rank() <= b.rank(),
    ensures
        a.spec_severity().rank() <= b.spec_severity().rank(),
{
}

/// Two levels share a severity exactly when they are the same level or are
/// the two least severe ones.
pub proof fn severity_merges_only_debug_and_trace(a: Level, b: Level)
    ensures
        a.spec_severity() == b.spec_severity() <==> (a == b || (a.rank() >= 3 && b.rank() >= 3)),
{
}

} // verus!

//! Severity levels and their fixed rendering attributes.
//!
//! The external logging facade delivers records tagged with one of five
//! severities. Each severity has a fixed three-letter tag and a fixed ANSI
//! color escape; both are part of the stable line format.

use vstd::prelude::*;

verus! {

/// One of the five record severities, ordered from most to least verbose.
#[derive(Clone, Copy, PartialEq, Eq, Structural, Debug)]
pub enum Level {
    Trace,
    Debug,
    Info,
    Warn,
    Error,
}

/// The fixed three-letter tag of a severity, as it appears between the
/// square brackets of a rendered line.
pub open spec fn spec_tag(level: Level) -> Seq<char> {
    match level {
        Level::Trace => "TRC"@,
        Level::Debug => "DBG"@,
        Level::Info => "INF"@,
        Level::Warn => "WRN"@,
        Level::Error => "ERR"@,
    }
}

/// The fixed ANSI color escape emitted just before the thread label.
pub open spec fn spec_color(level: Level) -> Seq<char> {
    match level {
        Level::Trace => "\x1B[97m"@,
        Level::Debug => "\x1B[36m"@,
        Level::Info => "\x1B[97m"@,
        Level::Warn => "\x1B[33m"@,
        Level::Error => "\x1B[31m"@,
    }
}

/// No cross-mapping: two different severities never share a tag, so the
/// bracketed tag of a line identifies its record's severity exactly.
pub proof fn lemma_tags_distinct(a: Level, b: Level)
    requires
        a != b,
    ensures
        spec_tag(a) != spec_tag(b),
{
    reveal_strlit("TRC");
    reveal_strlit("DBG");
    reveal_strlit("INF");
    reveal_strlit("WRN");
    reveal_strlit("ERR");
    assert(spec_tag(Level::Trace)[0] == 'T');
    assert(spec_tag(Level::Debug)[0] == 'D');
    assert(spec_tag(Level::Info)[0] == 'I');
    assert(spec_tag(Level::Warn)[0] == 'W');
    assert(spec_tag(Level::Error)[0] == 'E');
}

impl Level {
    /// The three-letter tag of this severity; no two severities share one
    /// except through `spec_tag` itself.
    pub fn tag(self) -> (r: &'static str)
        ensures
            r@ == spec_tag(self),
    {
        match self {
            Level::Trace => "TRC",
            Level::Debug => "DBG",
            Level::Info => "INF",
            Level::Warn => "WRN",
            Level::Error => "ERR",
        }
    }

    /// The ANSI color escape of this severity.
    pub fn color(self) -> (r: &'static str)
        ensures
            r@ == spec_color(self),
    {
        match self {
            Level::Trace => "\x1B[97m",
            Level::Debug => "\x1B[36m",
            Level::Info => "\x1B[97m",
            Level::Warn => "\x1B[33m",
            Level::Error => "\x1B[31m",
        }
    }
}

} // verus!

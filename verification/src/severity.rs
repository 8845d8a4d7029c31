//! The five severity tiers a timer can report at, and the names an attribute
//! argument may use for them.

use vstd::prelude::*;
use crate::text::same_text;

verus! {

/// How important a timing line is. The tiers are those of the `log` crate,
/// from the most to the least severe.
#[derive(Clone, Copy, Debug, PartialEq, Eq, Structural)]
pub enum Severity {
    Error,
    Warn,
    Info,
    Debug,
    Trace,
}

impl Severity {
    /// The identifier that selects this tier in an attribute argument.
    pub open spec fn spec_name(self) -> Seq<char> {
        match self {
            Severity::Error => "Error"@,
            Severity::Warn => "Warn"@,
            Severity::Info => "Info"@,
            Severity::Debug => "Debug"@,
            Severity::Trace => "Trace"@,
        }
    }

    /// The path of the matching `log::Level` variant, as it is written into
    /// generated code.
    pub open spec fn spec_path(self) -> Seq<char> {
        match self {
            Severity::Error => "log::Level::Error"@,
            Severity::Warn => "log::Level::Warn"@,
            Severity::Info => "log::Level::Info"@,
            Severity::Debug => "log::Level::Debug"@,
            Severity::Trace => "log::Level::Trace"@,
        }
    }

    /// The tier that `name` selects, if it selects one. Names are matched
    /// exactly: case matters and nothing is trimmed.
    pub open spec fn spec_from_name(name: Seq<char>) -> Option<Severity> {
        if name == "Trace"@ {
            Some(Severity::Trace)
        } else if name == "Debug"@ {
            Some(Severity::Debug)
        } else if name == "Info"@ {
            Some(Severity::Info)
        } else if name == "Warn"@ {
            Some(Severity::Warn)
        } else if name == "Error"@ {
            Some(Severity::Error)
        } else {
            None
        }
    }

    /// The identifier that selects this tier.
    pub fn name(self) -> (name: &'static str)
        ensures
            name@ == self.spec_name(),
    {
        match self {
            Severity::Error => "Error",
            Severity::Warn => "Warn",
            Severity::Info => "Info",
            Severity::Debug => "Debug",
            Severity::Trace => "Trace",
        }
    }

    /// The path of the matching `log::Level` variant.
    pub fn path(self) -> (path: &'static str)
        ensures
            path@ == self.spec_path(),
    {
        match self {
            Severity::Error => "log::Level::Error",
            Severity::Warn => "log::Level::Warn",
            Severity::Info => "log::Level::Info",
            Severity::Debug => "log::Level::Debug",
            Severity::Trace => "log::Level::Trace",
        }
    }

    /// The tier that `name` selects, if it selects one.
    pub fn from_name(name: &str) -> (level: Option<Severity>)
        ensures
            level == Severity::spec_from_name(name@),
    {
        if same_text(name, "Trace") {
            Some(Severity::Trace)
        } else if same_text(name, "Debug") {
            Some(Severity::Debug)
        } else if same_text(name, "Info") {
            Some(Severity::Info)
        } else if same_text(name, "Warn") {
            Some(Severity::Warn)
        } else if same_text(name, "Error") {
            Some(Severity::Error)
        } else {
            None
        }
    }
}

} // verus!

//! How much detail a report shows.

use vstd::prelude::*;

verus! {

/// The detail level of a report, ordered `MINIMAL < MEDIUM < FULL`.
#[allow(non_camel_case_types)]
#[derive(Debug, Clone, Copy, PartialEq, Eq, PartialOrd, Ord, Structural)]
pub enum Verbosity {
    /// Only the panic summary.
    MINIMAL,
    /// The summary and the stack trace.
    MEDIUM,
    /// The summary, the stack trace and source excerpts for its frames.
    FULL,
}

impl Verbosity {
    /// The position of the level in the order: 0, 1 or 2.
    pub open spec fn rank(self) -> nat {
        match self {
            Verbosity::MINIMAL => 0,
            Verbosity::MEDIUM => 1,
            Verbosity::FULL => 2,
        }
    }

    /// The position of the level in the order.
    pub fn level(self) -> (r: u8)
        ensures
            r == self.rank(),
    {
        match self {
            Verbosity::MINIMAL => 0,
            Verbosity::MEDIUM => 1,
            Verbosity::FULL => 2,
        }
    }

    /// Whether this level shows at least what `floor` shows.
    pub fn at_least(self, floor: Verbosity) -> (r: bool)
        ensures
            r == (self.rank() >= floor.rank()),
    {
        self.level() >= floor.level()
    }
}

/// The level that a configuration value stands for: `"full"` gives `FULL`,
/// any other value that is set gives `MEDIUM`, and no value gives `MINIMAL`.
pub open spec fn verbosity_of(setting: Option<Seq<char>>) -> Verbosity {
    match setting {
        Some(value) => if value == "full"@ {
            Verbosity::FULL
        } else {
            Verbosity::MEDIUM
        },
        None => Verbosity::MINIMAL,
    }
}

/// Resolves the detail level from the value of the configuration key, `None`
/// where the key is not set. Every input has a level; there is no error.
pub fn get_verbosity(setting: Option<&str>) -> (v: Verbosity)
    ensures
        v == verbosity_of(
            match setting {
                Some(value) => Some(value@),
                None => None,
            },
        ),
{
    match setting {
        Some(value) => {
            let given = String::from_str(value);
            let full = String::from_str("full");
            if given == full {
                Verbosity::FULL
            } else {
                Verbosity::MEDIUM
            }
        },
        None => Verbosity::MINIMAL,
    }
}

} // verus!

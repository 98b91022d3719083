//! Squelch modes and flags that the automatic gain control reports.

use vstd::prelude::*;

verus! {

/// The state of the squelch of an automatic gain control.
#[derive(Debug, Clone, Copy, PartialEq, Eq, Structural)]
pub enum AgcSquelchType {
    /// Unknown or unavailable squelch mode.
    AgcSquelchUnknown,
    /// Squelch enabled but no signal detected.
    AgcSquelchEnabled,
    /// The signal first reached the threshold.
    AgcSquelchRise,
    /// The signal level is above the threshold.
    AgcSquelchSignalHi,
    /// The signal first dropped below the threshold.
    AgcSquelchFall,
    /// The signal level is below the threshold.
    AgcSquelchSignalLo,
    /// The signal level stayed below the threshold for the timeout.
    AgcSquelchTimeout,
    /// Squelch not enabled.
    AgcSquelchDisabled,
}

impl AgcSquelchType {
    /// The number that the native library reports for this mode.
    pub open spec fn code(self) -> int {
        match self {
            AgcSquelchType::AgcSquelchUnknown => 0,
            AgcSquelchType::AgcSquelchEnabled => 1,
            AgcSquelchType::AgcSquelchRise => 2,
            AgcSquelchType::AgcSquelchSignalHi => 3,
            AgcSquelchType::AgcSquelchFall => 4,
            AgcSquelchType::AgcSquelchSignalLo => 5,
            AgcSquelchType::AgcSquelchTimeout => 6,
            AgcSquelchType::AgcSquelchDisabled => 7,
        }
    }

    /// Whether `raw` is the number of a squelch mode.
    pub open spec fn recognized(raw: int) -> bool {
        0 <= raw <= 7
    }

    /// The mode that a recognized number stands for.
    pub open spec fn of_code(raw: int) -> AgcSquelchType
        recommends
            Self::recognized(raw),
    {
        if raw == 0 {
            AgcSquelchType::AgcSquelchUnknown
        } else if raw == 1 {
            AgcSquelchType::AgcSquelchEnabled
        } else if raw == 2 {
            AgcSquelchType::AgcSquelchRise
        } else if raw == 3 {
            AgcSquelchType::AgcSquelchSignalHi
        } else if raw == 4 {
            AgcSquelchType::AgcSquelchFall
        } else if raw == 5 {
            AgcSquelchType::AgcSquelchSignalLo
        } else if raw == 6 {
            AgcSquelchType::AgcSquelchTimeout
        } else {
            AgcSquelchType::AgcSquelchDisabled
        }
    }

    /// The name of this mode, as it is printed.
    pub open spec fn name_spec(self) -> Seq<char> {
        match self {
            AgcSquelchType::AgcSquelchUnknown => "AgcSquelchUnknown"@,
            AgcSquelchType::AgcSquelchEnabled => "AgcSquelchEnabled"@,
            AgcSquelchType::AgcSquelchRise => "AgcSquelchRise"@,
            AgcSquelchType::AgcSquelchSignalHi => "AgcSquelchSignalHi"@,
            AgcSquelchType::AgcSquelchFall => "AgcSquelchFall"@,
            AgcSquelchType::AgcSquelchSignalLo => "AgcSquelchSignalLo"@,
            AgcSquelchType::AgcSquelchTimeout => "AgcSquelchTimeout"@,
            AgcSquelchType::AgcSquelchDisabled => "AgcSquelchDisabled"@,
        }
    }

    /// Tells whether `raw` is a number that [`AgcSquelchType::from_raw`]
    /// accepts.
    pub fn recognizes(raw: i32) -> (known: bool)
        ensures
            known == Self::recognized(raw as int),
    {
        0 <= raw && raw <= 7
    }

    /// Decodes the number that the native library reports for the squelch.
    ///
    /// A number outside the table names nothing: callers that cannot
    /// rule it out ask [`AgcSquelchType::recognizes`] first.
    pub fn from_raw(raw: i32) -> (mode: AgcSquelchType)
        requires
            Self::recognized(raw as int),
        ensures
            mode == Self::of_code(raw as int),
            mode.code() == raw,
    {
        match raw {
            0 => AgcSquelchType::AgcSquelchUnknown,
            1 => AgcSquelchType::AgcSquelchEnabled,
            2 => AgcSquelchType::AgcSquelchRise,
            3 => AgcSquelchType::AgcSquelchSignalHi,
            4 => AgcSquelchType::AgcSquelchFall,
            5 => AgcSquelchType::AgcSquelchSignalLo,
            6 => AgcSquelchType::AgcSquelchTimeout,
            _ => AgcSquelchType::AgcSquelchDisabled,
        }
    }

    /// Returns the number that the native library reports for this mode.
    pub fn to_raw(&self) -> (raw: u32)
        ensures
            raw == self.code(),
            Self::recognized(raw as int),
    {
        match self {
            AgcSquelchType::AgcSquelchUnknown => 0,
            AgcSquelchType::AgcSquelchEnabled => 1,
            AgcSquelchType::AgcSquelchRise => 2,
            AgcSquelchType::AgcSquelchSignalHi => 3,
            AgcSquelchType::AgcSquelchFall => 4,
            AgcSquelchType::AgcSquelchSignalLo => 5,
            AgcSquelchType::AgcSquelchTimeout => 6,
            AgcSquelchType::AgcSquelchDisabled => 7,
        }
    }

    /// Returns the name of this mode.
    pub fn name(&self) -> (name: &'static str)
        ensures
            name@ == self.name_spec(),
    {
        match self {
            AgcSquelchType::AgcSquelchUnknown => "AgcSquelchUnknown",
            AgcSquelchType::AgcSquelchEnabled => "AgcSquelchEnabled",
            AgcSquelchType::AgcSquelchRise => "AgcSquelchRise",
            AgcSquelchType::AgcSquelchSignalHi => "AgcSquelchSignalHi",
            AgcSquelchType::AgcSquelchFall => "AgcSquelchFall",
            AgcSquelchType::AgcSquelchSignalLo => "AgcSquelchSignalLo",
            AgcSquelchType::AgcSquelchTimeout => "AgcSquelchTimeout",
            AgcSquelchType::AgcSquelchDisabled => "AgcSquelchDisabled",
        }
    }

    /// Returns the name of this mode as an owned string, the text that the
    /// mode is displayed as.
    pub fn to_string(&self) -> (text: String)
        ensures
            text@ == self.name_spec(),
    {
        self.name().to_owned()
    }

    /// Every recognized number names a mode, and that mode carries the same
    /// number.
    pub proof fn lemma_code_of_code(raw: int)
        requires
            Self::recognized(raw),
        ensures
            Self::of_code(raw).code() == raw,
    {
    }

    /// Every mode carries a recognized number, and decoding that number
    /// gives the same mode back.
    pub proof fn lemma_of_code_code(mode: AgcSquelchType)
        ensures
            Self::recognized(mode.code()),
            Self::of_code(mode.code()) == mode,
    {
    }

    /// Distinct modes carry distinct numbers.
    pub proof fn lemma_code_injective(a: AgcSquelchType, b: AgcSquelchType)
        requires
            a.code() == b.code(),
        ensures
            a == b,
    {
    }

    /// No mode stands for a number outside the table.
    pub proof fn lemma_unrecognized_names_no_mode(raw: int, mode: AgcSquelchType)
        requires
            !Self::recognized(raw),
        ensures
            mode.code() != raw,
    {
    }
}

impl Default for AgcSquelchType {
    fn default() -> (mode: AgcSquelchType)
        ensures
            mode == AgcSquelchType::AgcSquelchUnknown,
    {
        AgcSquelchType::AgcSquelchUnknown
    }
}

/// Reads a yes-or-no answer of the native library: zero is no, one is yes,
/// and any other number is no answer at all.
pub fn flag_from_raw(raw: i32) -> (flag: Option<bool>)
    ensures
        flag == Some(false) <==> raw == 0,
        flag == Some(true) <==> raw == 1,
        flag is None <==> raw != 0 && raw != 1,
{
    match raw {
        0 => Some(false),
        1 => Some(true),
        _ => None,
    }
}

} // verus!

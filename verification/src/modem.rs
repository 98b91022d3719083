//! Modulation schemes of the linear modem and their numeric codes.

use vstd::prelude::*;
use vstd::std_specs::convert::FromSpecImpl;

verus! {

/// A modulation scheme that the native modem can be created with.
#[derive(Debug, Clone, Copy, PartialEq, Eq, Structural)]
pub enum ModulationScheme {
    // Unknown modulation scheme
    Unknown,
    // Phase-shift keying (PSK)
    Psk2,
    Psk4,
    Psk8,
    Psk16,
    Psk32,
    Psk64,
    Psk128,
    Psk256,
    // Differential phase-shift keying (DPSK)
    Dpsk2,
    Dpsk4,
    Dpsk8,
    Dpsk16,
    Dpsk32,
    Dpsk64,
    Dpsk128,
    Dpsk256,
    // Amplitude-shift keying (ASK)
    Ask2,
    Ask4,
    Ask8,
    Ask16,
    Ask32,
    Ask64,
    Ask128,
    Ask256,
    // Rectangular quadrature amplitude modulation (QAM)
    Qam4,
    Qam8,
    Qam16,
    Qam32,
    Qam64,
    Qam128,
    Qam256,
    // Amplitude phase-shift keying (APSK)
    Apsk4,
    Apsk8,
    Apsk16,
    Apsk32,
    Apsk64,
    Apsk128,
    Apsk256,
    // Specific modem types
    Bpsk,
    Qpsk,
    Ook,
    Sqam32,
    Sqam128,
    V29,
    Arb16opt,
    Arb32opt,
    Arb64opt,
    Arb128opt,
    Arb64vt,
    Pi4Dqpsk,
    // Arbitrary QAM
    Arb,
}

impl ModulationScheme {
    /// The number that the native library knows this scheme by.
    pub open spec fn code(self) -> int {
        match self {
            ModulationScheme::Unknown => 0,
            ModulationScheme::Psk2 => 1,
            ModulationScheme::Psk4 => 2,
            ModulationScheme::Psk8 => 3,
            ModulationScheme::Psk16 => 4,
            ModulationScheme::Psk32 => 5,
            ModulationScheme::Psk64 => 6,
            ModulationScheme::Psk128 => 7,
            ModulationScheme::Psk256 => 8,
            ModulationScheme::Dpsk2 => 9,
            ModulationScheme::Dpsk4 => 10,
            ModulationScheme::Dpsk8 => 11,
            ModulationScheme::Dpsk16 => 12,
            ModulationScheme::Dpsk32 => 13,
            ModulationScheme::Dpsk64 => 14,
            ModulationScheme::Dpsk128 => 15,
            ModulationScheme::Dpsk256 => 16,
            ModulationScheme::Ask2 => 17,
            ModulationScheme::Ask4 => 18,
            ModulationScheme::Ask8 => 19,
            ModulationScheme::Ask16 => 20,
            ModulationScheme::Ask32 => 21,
            ModulationScheme::Ask64 => 22,
            ModulationScheme::Ask128 => 23,
            ModulationScheme::Ask256 => 24,
            ModulationScheme::Qam4 => 25,
            ModulationScheme::Qam8 => 26,
            ModulationScheme::Qam16 => 27,
            ModulationScheme::Qam32 => 28,
            ModulationScheme::Qam64 => 29,
            ModulationScheme::Qam128 => 30,
            ModulationScheme::Qam256 => 31,
            ModulationScheme::Apsk4 => 32,
            ModulationScheme::Apsk8 => 33,
            ModulationScheme::Apsk16 => 34,
            ModulationScheme::Apsk32 => 35,
            ModulationScheme::Apsk64 => 36,
            ModulationScheme::Apsk128 => 37,
            ModulationScheme::Apsk256 => 38,
            ModulationScheme::Bpsk => 39,
            ModulationScheme::Qpsk => 40,
            ModulationScheme::Ook => 41,
            ModulationScheme::Sqam32 => 42,
            ModulationScheme::Sqam128 => 43,
            ModulationScheme::V29 => 44,
            ModulationScheme::Arb16opt => 45,
            ModulationScheme::Arb32opt => 46,
            ModulationScheme::Arb64opt => 47,
            ModulationScheme::Arb128opt => 48,
            ModulationScheme::Arb64vt => 50,
            ModulationScheme::Pi4Dqpsk => 51,
            ModulationScheme::Arb => 52,
        }
    }

    /// Whether `raw` is the number of a scheme in this table.
    ///
    /// The native numbering has one entry, 49, that this table leaves out.
    pub open spec fn recognized(raw: int) -> bool {
        0 <= raw <= 52 && raw != 49
    }

    /// The scheme that a recognized number stands for.
    pub open spec fn of_code(raw: int) -> ModulationScheme
        recommends
            Self::recognized(raw),
    {
        if raw == 0 {
            ModulationScheme::Unknown
        } else if raw == 1 {
            ModulationScheme::Psk2
        } else if raw == 2 {
            ModulationScheme::Psk4
        } else if raw == 3 {
            ModulationScheme::Psk8
        } else if raw == 4 {
            ModulationScheme::Psk16
        } else if raw == 5 {
            ModulationScheme::Psk32
        } else if raw == 6 {
            ModulationScheme::Psk64
        } else if raw == 7 {
            ModulationScheme::Psk128
        } else if raw == 8 {
            ModulationScheme::Psk256
        } else if raw == 9 {
            ModulationScheme::Dpsk2
        } else if raw == 10 {
            ModulationScheme::Dpsk4
        } else if raw == 11 {
            ModulationScheme::Dpsk8
        } else if raw == 12 {
            ModulationScheme::Dpsk16
        } else if raw == 13 {
            ModulationScheme::Dpsk32
        } else if raw == 14 {
            ModulationScheme::Dpsk64
        } else if raw == 15 {
            ModulationScheme::Dpsk128
        } else if raw == 16 {
            ModulationScheme::Dpsk256
        } else if raw == 17 {
            ModulationScheme::Ask2
        } else if raw == 18 {
            ModulationScheme::Ask4
        } else if raw == 19 {
            ModulationScheme::Ask8
        } else if raw == 20 {
            ModulationScheme::Ask16
        } else if raw == 21 {
            ModulationScheme::Ask32
        } else if raw == 22 {
            ModulationScheme::Ask64
        } else if raw == 23 {
            ModulationScheme::Ask128
        } else if raw == 24 {
            ModulationScheme::Ask256
        } else if raw == 25 {
            ModulationScheme::Qam4
        } else if raw == 26 {
            ModulationScheme::Qam8
        } else if raw == 27 {
            ModulationScheme::Qam16
        } else if raw == 28 {
            ModulationScheme::Qam32
        } else if raw == 29 {
            ModulationScheme::Qam64
        } else if raw == 30 {
            ModulationScheme::Qam128
        } else if raw == 31 {
            ModulationScheme::Qam256
        } else if raw == 32 {
            ModulationScheme::Apsk4
        } else if raw == 33 {
            ModulationScheme::Apsk8
        } else if raw == 34 {
            ModulationScheme::Apsk16
        } else if raw == 35 {
            ModulationScheme::Apsk32
        } else if raw == 36 {
            ModulationScheme::Apsk64
        } else if raw == 37 {
            ModulationScheme::Apsk128
        } else if raw == 38 {
            ModulationScheme::Apsk256
        } else if raw == 39 {
            ModulationScheme::Bpsk
        } else if raw == 40 {
            ModulationScheme::Qpsk
        } else if raw == 41 {
            ModulationScheme::Ook
        } else if raw == 42 {
            ModulationScheme::Sqam32
        } else if raw == 43 {
            ModulationScheme::Sqam128
        } else if raw == 44 {
            ModulationScheme::V29
        } else if raw == 45 {
            ModulationScheme::Arb16opt
        } else if raw == 46 {
            ModulationScheme::Arb32opt
        } else if raw == 47 {
            ModulationScheme::Arb64opt
        } else if raw == 48 {
            ModulationScheme::Arb128opt
        } else if raw == 50 {
            ModulationScheme::Arb64vt
        } else if raw == 51 {
            ModulationScheme::Pi4Dqpsk
        } else {
            ModulationScheme::Arb
        }
    }

    /// Tells whether `raw` is a number that [`ModulationScheme::from_raw`]
    /// accepts.
    pub fn recognizes(raw: i32) -> (known: bool)
        ensures
            known == Self::recognized(raw as int),
    {
        0 <= raw && raw <= 52 && raw != 49
    }

    /// Decodes the number that the native library reports for a scheme.
    ///
    /// A number outside the table names nothing: callers that cannot
    /// rule it out ask [`ModulationScheme::recognizes`] first.
    pub fn from_raw(raw: i32) -> (scheme: ModulationScheme)
        requires
            Self::recognized(raw as int),
        ensures
            scheme == Self::of_code(raw as int),
            scheme.code() == raw,
    {
        match raw {
            0 => ModulationScheme::Unknown,
            1 => ModulationScheme::Psk2,
            2 => ModulationScheme::Psk4,
            3 => ModulationScheme::Psk8,
            4 => ModulationScheme::Psk16,
            5 => ModulationScheme::Psk32,
            6 => ModulationScheme::Psk64,
            7 => ModulationScheme::Psk128,
            8 => ModulationScheme::Psk256,
            9 => ModulationScheme::Dpsk2,
            10 => ModulationScheme::Dpsk4,
            11 => ModulationScheme::Dpsk8,
            12 => ModulationScheme::Dpsk16,
            13 => ModulationScheme::Dpsk32,
            14 => ModulationScheme::Dpsk64,
            15 => ModulationScheme::Dpsk128,
            16 => ModulationScheme::Dpsk256,
            17 => ModulationScheme::Ask2,
            18 => ModulationScheme::Ask4,
            19 => ModulationScheme::Ask8,
            20 => ModulationScheme::Ask16,
            21 => ModulationScheme::Ask32,
            22 => ModulationScheme::Ask64,
            23 => ModulationScheme::Ask128,
            24 => ModulationScheme::Ask256,
            25 => ModulationScheme::Qam4,
            26 => ModulationScheme::Qam8,
            27 => ModulationScheme::Qam16,
            28 => ModulationScheme::Qam32,
            29 => ModulationScheme::Qam64,
            30 => ModulationScheme::Qam128,
            31 => ModulationScheme::Qam256,
            32 => ModulationScheme::Apsk4,
            33 => ModulationScheme::Apsk8,
            34 => ModulationScheme::Apsk16,
            35 => ModulationScheme::Apsk32,
            36 => ModulationScheme::Apsk64,
            37 => ModulationScheme::Apsk128,
            38 => ModulationScheme::Apsk256,
            39 => ModulationScheme::Bpsk,
            40 => ModulationScheme::Qpsk,
            41 => ModulationScheme::Ook,
            42 => ModulationScheme::Sqam32,
            43 => ModulationScheme::Sqam128,
            44 => ModulationScheme::V29,
            45 => ModulationScheme::Arb16opt,
            46 => ModulationScheme::Arb32opt,
            47 => ModulationScheme::Arb64opt,
            48 => ModulationScheme::Arb128opt,
            50 => ModulationScheme::Arb64vt,
            51 => ModulationScheme::Pi4Dqpsk,
            _ => ModulationScheme::Arb,
        }
    }

    /// Returns the number that the native library knows this scheme by.
    pub fn to_raw(&self) -> (raw: u32)
        ensures
            raw == self.code(),
            Self::recognized(raw as int),
    {
        match self {
            ModulationScheme::Unknown => 0,
            ModulationScheme::Psk2 => 1,
            ModulationScheme::Psk4 => 2,
            ModulationScheme::Psk8 => 3,
            ModulationScheme::Psk16 => 4,
            ModulationScheme::Psk32 => 5,
            ModulationScheme::Psk64 => 6,
            ModulationScheme::Psk128 => 7,
            ModulationScheme::Psk256 => 8,
            ModulationScheme::Dpsk2 => 9,
            ModulationScheme::Dpsk4 => 10,
            ModulationScheme::Dpsk8 => 11,
            ModulationScheme::Dpsk16 => 12,
            ModulationScheme::Dpsk32 => 13,
            ModulationScheme::Dpsk64 => 14,
            ModulationScheme::Dpsk128 => 15,
            ModulationScheme::Dpsk256 => 16,
            ModulationScheme::Ask2 => 17,
            ModulationScheme::Ask4 => 18,
            ModulationScheme::Ask8 => 19,
            ModulationScheme::Ask16 => 20,
            ModulationScheme::Ask32 => 21,
            ModulationScheme::Ask64 => 22,
            ModulationScheme::Ask128 => 23,
            ModulationScheme::Ask256 => 24,
            ModulationScheme::Qam4 => 25,
            ModulationScheme::Qam8 => 26,
            ModulationScheme::Qam16 => 27,
            ModulationScheme::Qam32 => 28,
            ModulationScheme::Qam64 => 29,
            ModulationScheme::Qam128 => 30,
            ModulationScheme::Qam256 => 31,
            ModulationScheme::Apsk4 => 32,
            ModulationScheme::Apsk8 => 33,
            ModulationScheme::Apsk16 => 34,
            ModulationScheme::Apsk32 => 35,
            ModulationScheme::Apsk64 => 36,
            ModulationScheme::Apsk128 => 37,
            ModulationScheme::Apsk256 => 38,
            ModulationScheme::Bpsk => 39,
            ModulationScheme::Qpsk => 40,
            ModulationScheme::Ook => 41,
            ModulationScheme::Sqam32 => 42,
            ModulationScheme::Sqam128 => 43,
            ModulationScheme::V29 => 44,
            ModulationScheme::Arb16opt => 45,
            ModulationScheme::Arb32opt => 46,
            ModulationScheme::Arb64opt => 47,
            ModulationScheme::Arb128opt => 48,
            ModulationScheme::Arb64vt => 50,
            ModulationScheme::Pi4Dqpsk => 51,
            ModulationScheme::Arb => 52,
        }
    }

    /// Every recognized number names a scheme, and that scheme carries the
    /// same number.
    pub proof fn lemma_code_of_code(raw: int)
        requires
            Self::recognized(raw),
        ensures
            Self::of_code(raw).code() == raw,
    {
    }

    /// Every scheme carries a recognized number, and decoding that number
    /// gives the same scheme back.
    pub proof fn lemma_of_code_code(scheme: ModulationScheme)
        ensures
            Self::recognized(scheme.code()),
            Self::of_code(scheme.code()) == scheme,
    {
    }

    /// Distinct schemes carry distinct numbers.
    pub proof fn lemma_code_injective(a: ModulationScheme, b: ModulationScheme)
        requires
            a.code() == b.code(),
        ensures
            a == b,
    {
    }

    /// No scheme stands for a number outside the table.
    pub proof fn lemma_unrecognized_names_no_scheme(raw: int, scheme: ModulationScheme)
        requires
            !Self::recognized(raw),
        ensures
            scheme.code() != raw,
    {
    }
}

impl From<ModulationScheme> for u32 {
    fn from(scheme: ModulationScheme) -> (raw: u32) {
        scheme.to_raw()
    }
}

impl FromSpecImpl<ModulationScheme> for u32 {
    open spec fn obeys_from_spec() -> bool {
        true
    }

    open spec fn from_spec(scheme: ModulationScheme) -> u32 {
        scheme.code() as u32
    }
}

} // verus!

//! Typed codes and buffer marshalling for bindings to the liquid-dsp
//! signal-processing library.
//!
//! The native library reports every outcome as a small integer: a status code,
//! a squelch mode, a modulation scheme, a flag. This crate holds the tables that
//! turn those integers into closed Rust enums and back, and the preparation of
//! sample buffers for block operations, each with a proved contract.

use vstd::prelude::*;

pub mod agc;
pub mod block;
pub mod modem;

verus! {

/// An error returned by a liquid API function.
#[derive(Clone, Copy, Debug, PartialEq, Eq, Structural)]
pub enum Error {
    LiquidOk,
    LiquidEint,
    LiquidEiobj,
    LiquidEiconfig,
    LiquidEival,
    LiquidEirange,
    LiquidEimode,
    LiquidEumode,
    LiquidEnoinit,
    LiquidEimem,
    LiquidEio,
    LiquidEnoconv,
    LiquidEnoimp,
}

/// The class of I/O failure that an [`Error`] is reported as when it is handed
/// to code that speaks in I/O errors.
#[derive(Clone, Copy, Debug, PartialEq, Eq, Structural)]
pub enum IoKind {
    Other,
    InvalidInput,
    InvalidData,
}

impl Error {
    /// The number of status codes that the native library defines.
    pub const COUNT: i32 = 13;

    /// The numeric status code that stands for this error.
    pub open spec fn code(self) -> int {
        match self {
            Error::LiquidOk => 0,
            Error::LiquidEint => 1,
            Error::LiquidEiobj => 2,
            Error::LiquidEiconfig => 3,
            Error::LiquidEival => 4,
            Error::LiquidEirange => 5,
            Error::LiquidEimode => 6,
            Error::LiquidEumode => 7,
            Error::LiquidEnoinit => 8,
            Error::LiquidEimem => 9,
            Error::LiquidEio => 10,
            Error::LiquidEnoconv => 11,
            Error::LiquidEnoimp => 12,
        }
    }

    /// Whether `raw` is a status code that the table knows.
    pub open spec fn recognized(raw: int) -> bool {
        0 <= raw < 13
    }

    /// The error that a recognized status code stands for.
    pub open spec fn of_code(raw: int) -> Error
        recommends
            Self::recognized(raw),
    {
        if raw == 0 {
            Error::LiquidOk
        } else if raw == 1 {
            Error::LiquidEint
        } else if raw == 2 {
            Error::LiquidEiobj
        } else if raw == 3 {
            Error::LiquidEiconfig
        } else if raw == 4 {
            Error::LiquidEival
        } else if raw == 5 {
            Error::LiquidEirange
        } else if raw == 6 {
            Error::LiquidEimode
        } else if raw == 7 {
            Error::LiquidEumode
        } else if raw == 8 {
            Error::LiquidEnoinit
        } else if raw == 9 {
            Error::LiquidEimem
        } else if raw == 10 {
            Error::LiquidEio
        } else if raw == 11 {
            Error::LiquidEnoconv
        } else {
            Error::LiquidEnoimp
        }
    }

    /// The class of I/O failure this error is reported as.
    pub open spec fn io_kind_spec(self) -> IoKind {
        match self {
            Error::LiquidEiobj => IoKind::InvalidData,
            Error::LiquidEint
            | Error::LiquidEiconfig
            | Error::LiquidEival
            | Error::LiquidEirange
            | Error::LiquidEimode
            | Error::LiquidEumode => IoKind::InvalidInput,
            _ => IoKind::Other,
        }
    }

    /// What a call that ended with this status hands to its caller: success
    /// for `LiquidOk`, and otherwise the status itself as the error.
    pub open spec fn result_spec(self) -> Result<(), Error> {
        if self == Error::LiquidOk {
            Ok(())
        } else {
            Err(self)
        }
    }

    /// Returns the numeric status code of this error, which is also its index
    /// in the native library's table of messages.
    pub fn to_raw(self) -> (raw: usize)
        ensures
            raw == self.code(),
            Self::recognized(raw as int),
    {
        match self {
            Error::LiquidOk => 0,
            Error::LiquidEint => 1,
            Error::LiquidEiobj => 2,
            Error::LiquidEiconfig => 3,
            Error::LiquidEival => 4,
            Error::LiquidEirange => 5,
            Error::LiquidEimode => 6,
            Error::LiquidEumode => 7,
            Error::LiquidEnoinit => 8,
            Error::LiquidEimem => 9,
            Error::LiquidEio => 10,
            Error::LiquidEnoconv => 11,
            Error::LiquidEnoimp => 12,
        }
    }

    /// Tells whether `raw` is a status code that [`Error::from_raw`] accepts.
    pub fn recognizes(raw: i32) -> (known: bool)
        ensures
            known == Self::recognized(raw as int),
    {
        0 <= raw && raw < Self::COUNT
    }

    /// Decodes a status code of the native library.
    ///
    /// A code outside the table names no error: callers that cannot rule
    /// it out ask [`Error::recognizes`] first.
    pub fn from_raw(raw: i32) -> (error: Error)
        requires
            Self::recognized(raw as int),
        ensures
            error == Self::of_code(raw as int),
            error.code() == raw,
    {
        match raw {
            0 => Error::LiquidOk,
            1 => Error::LiquidEint,
            2 => Error::LiquidEiobj,
            3 => Error::LiquidEiconfig,
            4 => Error::LiquidEival,
            5 => Error::LiquidEirange,
            6 => Error::LiquidEimode,
            7 => Error::LiquidEumode,
            8 => Error::LiquidEnoinit,
            9 => Error::LiquidEimem,
            10 => Error::LiquidEio,
            11 => Error::LiquidEnoconv,
            _ => Error::LiquidEnoimp,
        }
    }

    /// Turns a status into a result: `LiquidOk` is success, every other status
    /// is the error itself.
    pub fn into_result(self) -> (result: Result<(), Error>)
        ensures
            result == self.result_spec(),
    {
        match self {
            Error::LiquidOk => Ok(()),
            e => Err(e),
        }
    }

    /// Names the class of I/O failure that this error is reported as.
    pub fn io_kind(self) -> (kind: IoKind)
        ensures
            kind == self.io_kind_spec(),
    {
        match self {
            Error::LiquidOk => IoKind::Other,
            Error::LiquidEint => IoKind::InvalidInput,
            Error::LiquidEiobj => IoKind::InvalidData,
            Error::LiquidEiconfig => IoKind::InvalidInput,
            Error::LiquidEival => IoKind::InvalidInput,
            Error::LiquidEirange => IoKind::InvalidInput,
            Error::LiquidEimode => IoKind::InvalidInput,
            Error::LiquidEumode => IoKind::InvalidInput,
            Error::LiquidEnoinit => IoKind::Other,
            Error::LiquidEimem => IoKind::Other,
            Error::LiquidEio => IoKind::Other,
            Error::LiquidEnoconv => IoKind::Other,
            Error::LiquidEnoimp => IoKind::Other,
        }
    }

    /// Every recognized status code names an error, and that error carries the
    /// same code.
    pub proof fn lemma_code_of_code(raw: int)
        requires
            Self::recognized(raw),
        ensures
            Self::of_code(raw).code() == raw,
    {
    }

    /// Every error carries a recognized status code, and decoding that code
    /// gives the same error back.
    pub proof fn lemma_of_code_code(error: Error)
        ensures
            Self::recognized(error.code()),
            Self::of_code(error.code()) == error,
    {
    }

    /// Distinct errors carry distinct status codes.
    pub proof fn lemma_code_injective(a: Error, b: Error)
        requires
            a.code() == b.code(),
        ensures
            a == b,
    {
    }

    /// No error stands for a status code outside the table.
    pub proof fn lemma_unrecognized_names_no_error(raw: int, error: Error)
        requires
            !Self::recognized(raw),
        ensures
            error.code() != raw,
    {
    }
}

/// Turns the status that a native call returned into a result.
///
/// Status zero is success; any other recognized status is the error it names.
pub fn status(raw: i32) -> (result: Result<(), Error>)
    requires
        Error::recognized(raw as int),
    ensures
        result == Error::of_code(raw as int).result_spec(),
        result is Ok <==> raw == 0,
{
    Error::from_raw(raw).into_result()
}

} // verus!

//! The closed error taxonomy of the driver, and the translation of the
//! protocol engine's 16-bit status codes into it.

use vstd::prelude::*;

verus! {

/// Everything an operation of this driver can fail with.
///
/// `NotInitialized` is raised by the driver itself, before any engine call is
/// made. Every other variant stands for one status code of the engine;
/// `Unknown` keeps the raw value of a code that has no name here.
#[derive(Debug, Clone, Copy, PartialEq, Eq, Structural)]
pub enum Error {
    /// An accessor was used before it was bound to a device.
    NotInitialized,
    /// Not enough memory to perform the requested operation. Status code 1.
    NoMem,
    /// Device or resource busy; an operation is still in progress. Status code 2.
    Busy,
    /// Generic I/O or bus fault. Status code 3.
    Io,
    /// The operation timed out. Status code 4.
    Timeout,
    /// Invalid request, or one that cannot be executed at the moment. Status code 5.
    Request,
    /// No message of the desired type. Status code 6.
    NoMsg,
    /// Parameter error. Status code 7.
    Param,
    /// System error. Status code 8.
    System,
    /// Framing error. Status code 9.
    Framing,
    /// One or more received bytes were lost. Status code 10.
    Overrun,
    /// Protocol error. Status code 11.
    Proto,
    /// Internal error. Status code 12.
    Internal,
    /// The call should be made again. Status code 13.
    Again,
    /// Memory corruption. Status code 14.
    MemCorrupt,
    /// Not implemented. Status code 15.
    NotImplemented,
    /// The program counter was manipulated, or noise triggered an illegal operation. Status code 16.
    PcCorrupt,
    /// Error while sending. Status code 17.
    Send,
    /// An error was detected but is to be ignored. Status code 18.
    Ignore,
    /// State machine error: unexpected command. Status code 19.
    Semantic,
    /// State machine error: unknown command. Status code 20.
    Syntax,
    /// CRC error. Status code 21.
    Crc,
    /// Transponder not found. Status code 22.
    NotFound,
    /// Transponder not unique: more than one in the field. Status code 23.
    NotUnique,
    /// The requested operation is not supported. Status code 24.
    NotSupp,
    /// Write error. Status code 25.
    Write,
    /// FIFO overflow or underflow. Status code 26.
    Fifo,
    /// Parity error. Status code 27.
    Par,
    /// The transfer has already finished. Status code 28.
    Done,
    /// Collision, on bit level or during RF collision avoidance. Status code 29.
    RfCollision,
    /// The hardware lost one or more received bytes. Status code 30.
    HwOverrun,
    /// The device requested release. Status code 31.
    ReleaseReq,
    /// The device requested sleep. Status code 32.
    SleepReq,
    /// Incorrect state for the requested operation. Status code 33.
    WrongState,
    /// A blocking procedure reached its maximum number of runs. Status code 34.
    MaxReruns,
    /// The operation was aborted because it is disabled by configuration. Status code 35.
    Disabled,
    /// The hardware found does not match the one expected. Status code 36.
    HwMismatch,
    /// The other device's field did not behave as expected. Status code 37.
    LinkLoss,
    /// Invalid or uninitialised device handle. Status code 38.
    InvalidHandle,
    /// An incomplete byte was received. Status code 40.
    IncompleteByte,
    /// A status code without a name in this taxonomy, kept as it came.
    Unknown(u16),
}

/// The status code with which the engine reports success.
pub const RFAL_ERR_NONE: u16 = 0;

/// Status code of [`Error::NoMem`].
pub const RFAL_ERR_NOMEM: u16 = 1;

/// Status code of [`Error::Busy`].
pub const RFAL_ERR_BUSY: u16 = 2;

/// Status code of [`Error::Io`].
pub const RFAL_ERR_IO: u16 = 3;

/// Status code of [`Error::Timeout`].
pub const RFAL_ERR_TIMEOUT: u16 = 4;

/// Status code of [`Error::Request`].
pub const RFAL_ERR_REQUEST: u16 = 5;

/// Status code of [`Error::NoMsg`].
pub const RFAL_ERR_NOMSG: u16 = 6;

/// Status code of [`Error::Param`].
pub const RFAL_ERR_PARAM: u16 = 7;

/// Status code of [`Error::System`].
pub const RFAL_ERR_SYSTEM: u16 = 8;

/// Status code of [`Error::Framing`].
pub const RFAL_ERR_FRAMING: u16 = 9;

/// Status code of [`Error::Overrun`].
pub const RFAL_ERR_OVERRUN: u16 = 10;

/// Status code of [`Error::Proto`].
pub const RFAL_ERR_PROTO: u16 = 11;

/// Status code of [`Error::Internal`].
pub const RFAL_ERR_INTERNAL: u16 = 12;

/// Status code of [`Error::Again`].
pub const RFAL_ERR_AGAIN: u16 = 13;

/// Status code of [`Error::MemCorrupt`].
pub const RFAL_ERR_MEM_CORRUPT: u16 = 14;

/// Status code of [`Error::NotImplemented`].
pub const RFAL_ERR_NOT_IMPLEMENTED: u16 = 15;

/// Status code of [`Error::PcCorrupt`].
pub const RFAL_ERR_PC_CORRUPT: u16 = 16;

/// Status code of [`Error::Send`].
pub const RFAL_ERR_SEND: u16 = 17;

/// Status code of [`Error::Ignore`].
pub const RFAL_ERR_IGNORE: u16 = 18;

/// Status code of [`Error::Semantic`].
pub const RFAL_ERR_SEMANTIC: u16 = 19;

/// Status code of [`Error::Syntax`].
pub const RFAL_ERR_SYNTAX: u16 = 20;

/// Status code of [`Error::Crc`].
pub const RFAL_ERR_CRC: u16 = 21;

/// Status code of [`Error::NotFound`].
pub const RFAL_ERR_NOTFOUND: u16 = 22;

/// Status code of [`Error::NotUnique`].
pub const RFAL_ERR_NOTUNIQUE: u16 = 23;

/// Status code of [`Error::NotSupp`].
pub const RFAL_ERR_NOTSUPP: u16 = 24;

/// Status code of [`Error::Write`].
pub const RFAL_ERR_WRITE: u16 = 25;

/// Status code of [`Error::Fifo`].
pub const RFAL_ERR_FIFO: u16 = 26;

/// Status code of [`Error::Par`].
pub const RFAL_ERR_PAR: u16 = 27;

/// Status code of [`Error::Done`].
pub const RFAL_ERR_DONE: u16 = 28;

/// Status code of [`Error::RfCollision`].
pub const RFAL_ERR_RF_COLLISION: u16 = 29;

/// Status code of [`Error::HwOverrun`].
pub const RFAL_ERR_HW_OVERRUN: u16 = 30;

/// Status code of [`Error::ReleaseReq`].
pub const RFAL_ERR_RELEASE_REQ: u16 = 31;

/// Status code of [`Error::SleepReq`].
pub const RFAL_ERR_SLEEP_REQ: u16 = 32;

/// Status code of [`Error::WrongState`].
pub const RFAL_ERR_WRONG_STATE: u16 = 33;

/// Status code of [`Error::MaxReruns`].
pub const RFAL_ERR_MAX_RERUNS: u16 = 34;

/// Status code of [`Error::Disabled`].
pub const RFAL_ERR_DISABLED: u16 = 35;

/// Status code of [`Error::HwMismatch`].
pub const RFAL_ERR_HW_MISMATCH: u16 = 36;

/// Status code of [`Error::LinkLoss`].
pub const RFAL_ERR_LINK_LOSS: u16 = 37;

/// Status code of [`Error::InvalidHandle`].
pub const RFAL_ERR_INVALID_HANDLE: u16 = 38;

/// Status code of [`Error::IncompleteByte`].
pub const RFAL_ERR_INCOMPLETE_BYTE: u16 = 40;

/// Whether `code` is one of the named failure codes.
pub open spec fn is_known(code: u16) -> bool {
    1 <= code <= 38 || code == 40
}

/// The error kind that stands for `code`.
///
/// The function is total: a code without a name, the success code among
/// them, is kept in `Unknown`.
pub open spec fn translate(code: u16) -> Error {
    match code {
        1 => Error::NoMem,
        2 => Error::Busy,
        3 => Error::Io,
        4 => Error::Timeout,
        5 => Error::Request,
        6 => Error::NoMsg,
        7 => Error::Param,
        8 => Error::System,
        9 => Error::Framing,
        10 => Error::Overrun,
        11 => Error::Proto,
        12 => Error::Internal,
        13 => Error::Again,
        14 => Error::MemCorrupt,
        15 => Error::NotImplemented,
        16 => Error::PcCorrupt,
        17 => Error::Send,
        18 => Error::Ignore,
        19 => Error::Semantic,
        20 => Error::Syntax,
        21 => Error::Crc,
        22 => Error::NotFound,
        23 => Error::NotUnique,
        24 => Error::NotSupp,
        25 => Error::Write,
        26 => Error::Fifo,
        27 => Error::Par,
        28 => Error::Done,
        29 => Error::RfCollision,
        30 => Error::HwOverrun,
        31 => Error::ReleaseReq,
        32 => Error::SleepReq,
        33 => Error::WrongState,
        34 => Error::MaxReruns,
        35 => Error::Disabled,
        36 => Error::HwMismatch,
        37 => Error::LinkLoss,
        38 => Error::InvalidHandle,
        40 => Error::IncompleteByte,
        _ => Error::Unknown(code),
    }
}

/// What an engine call that returned `code` amounts to: success for the
/// success code, and the translated error for every other code.
pub open spec fn outcome(code: u16) -> Result<(), Error> {
    if code == RFAL_ERR_NONE {
        Ok(())
    } else {
        Err(translate(code))
    }
}

impl Error {
    /// The status code that this error stands for, if it stands for one of
    /// the engine at all.
    pub open spec fn raw_code(self) -> Option<u16> {
        match self {
            Error::NotInitialized => None,
            Error::NoMem => Some(1u16),
            Error::Busy => Some(2u16),
            Error::Io => Some(3u16),
            Error::Timeout => Some(4u16),
            Error::Request => Some(5u16),
            Error::NoMsg => Some(6u16),
            Error::Param => Some(7u16),
            Error::System => Some(8u16),
            Error::Framing => Some(9u16),
            Error::Overrun => Some(10u16),
            Error::Proto => Some(11u16),
            Error::Internal => Some(12u16),
            Error::Again => Some(13u16),
            Error::MemCorrupt => Some(14u16),
            Error::NotImplemented => Some(15u16),
            Error::PcCorrupt => Some(16u16),
            Error::Send => Some(17u16),
            Error::Ignore => Some(18u16),
            Error::Semantic => Some(19u16),
            Error::Syntax => Some(20u16),
            Error::Crc => Some(21u16),
            Error::NotFound => Some(22u16),
            Error::NotUnique => Some(23u16),
            Error::NotSupp => Some(24u16),
            Error::Write => Some(25u16),
            Error::Fifo => Some(26u16),
            Error::Par => Some(27u16),
            Error::Done => Some(28u16),
            Error::RfCollision => Some(29u16),
            Error::HwOverrun => Some(30u16),
            Error::ReleaseReq => Some(31u16),
            Error::SleepReq => Some(32u16),
            Error::WrongState => Some(33u16),
            Error::MaxReruns => Some(34u16),
            Error::Disabled => Some(35u16),
            Error::HwMismatch => Some(36u16),
            Error::LinkLoss => Some(37u16),
            Error::InvalidHandle => Some(38u16),
            Error::IncompleteByte => Some(40u16),
            Error::Unknown(code) => Some(code),
        }
    }

    /// Whether this is the in-progress indication of a poll rather than a
    /// final failure.
    pub open spec fn is_in_progress(self) -> bool {
        self == Error::Busy
    }
}

impl vstd::std_specs::convert::FromSpecImpl<u16> for Error {
    open spec fn obeys_from_spec() -> bool {
        true
    }

    open spec fn from_spec(value: u16) -> Error {
        translate(value)
    }
}

impl From<u16> for Error {
    /// Translates a status code of the engine.
    fn from(value: u16) -> (error: Error)
        ensures
            error == translate(value),
    {
        match value {
            RFAL_ERR_NOMEM => Error::NoMem,
            RFAL_ERR_BUSY => Error::Busy,
            RFAL_ERR_IO => Error::Io,
            RFAL_ERR_TIMEOUT => Error::Timeout,
            RFAL_ERR_REQUEST => Error::Request,
            RFAL_ERR_NOMSG => Error::NoMsg,
            RFAL_ERR_PARAM => Error::Param,
            RFAL_ERR_SYSTEM => Error::System,
            RFAL_ERR_FRAMING => Error::Framing,
            RFAL_ERR_OVERRUN => Error::Overrun,
            RFAL_ERR_PROTO => Error::Proto,
            RFAL_ERR_INTERNAL => Error::Internal,
            RFAL_ERR_AGAIN => Error::Again,
            RFAL_ERR_MEM_CORRUPT => Error::MemCorrupt,
            RFAL_ERR_NOT_IMPLEMENTED => Error::NotImplemented,
            RFAL_ERR_PC_CORRUPT => Error::PcCorrupt,
            RFAL_ERR_SEND => Error::Send,
            RFAL_ERR_IGNORE => Error::Ignore,
            RFAL_ERR_SEMANTIC => Error::Semantic,
            RFAL_ERR_SYNTAX => Error::Syntax,
            RFAL_ERR_CRC => Error::Crc,
            RFAL_ERR_NOTFOUND => Error::NotFound,
            RFAL_ERR_NOTUNIQUE => Error::NotUnique,
            RFAL_ERR_NOTSUPP => Error::NotSupp,
            RFAL_ERR_WRITE => Error::Write,
            RFAL_ERR_FIFO => Error::Fifo,
            RFAL_ERR_PAR => Error::Par,
            RFAL_ERR_DONE => Error::Done,
            RFAL_ERR_RF_COLLISION => Error::RfCollision,
            RFAL_ERR_HW_OVERRUN => Error::HwOverrun,
            RFAL_ERR_RELEASE_REQ => Error::ReleaseReq,
            RFAL_ERR_SLEEP_REQ => Error::SleepReq,
            RFAL_ERR_WRONG_STATE => Error::WrongState,
            RFAL_ERR_MAX_RERUNS => Error::MaxReruns,
            RFAL_ERR_DISABLED => Error::Disabled,
            RFAL_ERR_HW_MISMATCH => Error::HwMismatch,
            RFAL_ERR_LINK_LOSS => Error::LinkLoss,
            RFAL_ERR_INVALID_HANDLE => Error::InvalidHandle,
            RFAL_ERR_INCOMPLETE_BYTE => Error::IncompleteByte,
            v => Error::Unknown(v),
        }
    }
}

/// Funnels the status code of an engine call into a result.
pub fn result(res: u16) -> (r: Result<(), Error>)
    ensures
        r == outcome(res),
        r is Ok <==> res == RFAL_ERR_NONE,
{
    if res == RFAL_ERR_NONE {
        Ok(())
    } else {
        Err(Error::from(res))
    }
}

/// Translation is total and loses nothing: every code translates to exactly
/// one error, and the code can be read back from that error.
pub proof fn lemma_translate_keeps_code(code: u16)
    ensures
        translate(code).raw_code() == Some(code),
        !(translate(code) is NotInitialized),
{
}

/// Two codes that translate to the same error are the same code.
pub proof fn lemma_translate_injective(a: u16, b: u16)
    requires
        translate(a) == translate(b),
    ensures
        a == b,
{
    lemma_translate_keeps_code(a);
    lemma_translate_keeps_code(b);
}

/// A code outside the named set passes through the catch-all with its value
/// intact, and a named code never lands in the catch-all.
pub proof fn lemma_unknown_codes_round_trip(code: u16)
    ensures
        !is_known(code) ==> translate(code) == Error::Unknown(code),
        is_known(code) ==> !(translate(code) is Unknown),
        translate(code) is Unknown <==> !is_known(code),
{
}

/// Success is reported for the success code alone, and a failure never
/// carries the driver's own `NotInitialized`.
pub proof fn lemma_outcome_of_code(code: u16)
    ensures
        outcome(code) is Ok <==> code == RFAL_ERR_NONE,
        outcome(code) is Err ==> outcome(code)->Err_0.raw_code() == Some(code),
{
    lemma_translate_keeps_code(code);
}

} // verus!

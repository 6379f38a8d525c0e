//! The errors a host operation can hand back to a contract, and the raw
//! return code they travel as.

use vstd::prelude::*;

verus! {

/// Every error that can be returned to a contract when it calls one of the
/// host operations.
#[derive(Debug, Clone, Copy, PartialEq, Eq, Structural)]
pub enum Error {
    /// The called function trapped and has its state changes reverted.
    CalleeTrapped,
    /// The called function ran to completion but decided to revert its state.
    CalleeReverted,
    /// The passed key does not exist in storage.
    KeyNotFound,
    /// The transfer failed: the amount was malformed or the payer could not
    /// cover it.
    TransferFailed,
    /// No code could be found at the supplied code hash.
    CodeNotFound,
    /// The account that was called is no contract.
    NotCallable,
    /// The debug message had no effect because recording was disabled.
    LoggingDisabled,
    /// ECDSA public key recovery failed.
    EcdsaRecoveryFailed,
    /// An unknown code was received from the host.
    Unknown,
}

/// The code that the host returns for an error. An unknown error has none
/// of its own.
pub open spec fn code_of_error(error: Error) -> Option<u32> {
    match error {
        Error::CalleeTrapped => Some(1u32),
        Error::CalleeReverted => Some(2u32),
        Error::KeyNotFound => Some(3u32),
        Error::TransferFailed => Some(5u32),
        Error::CodeNotFound => Some(7u32),
        Error::NotCallable => Some(8u32),
        Error::LoggingDisabled => Some(9u32),
        Error::EcdsaRecoveryFailed => Some(11u32),
        Error::Unknown => None,
    }
}

/// The outcome a raw host return code stands for. Zero is success; the codes
/// four and six are retired and, like every code without a meaning, unknown.
pub open spec fn outcome_of_code(code: u32) -> Result<(), Error> {
    if code == 0 {
        Ok(())
    } else if code == 1 {
        Err(Error::CalleeTrapped)
    } else if code == 2 {
        Err(Error::CalleeReverted)
    } else if code == 3 {
        Err(Error::KeyNotFound)
    } else if code == 5 {
        Err(Error::TransferFailed)
    } else if code == 7 {
        Err(Error::CodeNotFound)
    } else if code == 8 {
        Err(Error::NotCallable)
    } else if code == 9 {
        Err(Error::LoggingDisabled)
    } else if code == 11 {
        Err(Error::EcdsaRecoveryFailed)
    } else {
        Err(Error::Unknown)
    }
}

impl Error {
    /// Returns the code that the host returns for this error, if it has one.
    pub fn code(&self) -> (code: Option<u32>)
        ensures
            code == code_of_error(*self),
    {
        match self {
            Error::CalleeTrapped => Some(1),
            Error::CalleeReverted => Some(2),
            Error::KeyNotFound => Some(3),
            Error::TransferFailed => Some(5),
            Error::CodeNotFound => Some(7),
            Error::NotCallable => Some(8),
            Error::LoggingDisabled => Some(9),
            Error::EcdsaRecoveryFailed => Some(11),
            Error::Unknown => None,
        }
    }
}

/// Every known error is what its own code stands for, and no error has the
/// code of success or one of the two retired codes.
pub proof fn law_error_codes_round_trip(error: Error)
    ensures
        code_of_error(error) matches Some(code) ==> outcome_of_code(code) == Err::<(), Error>(error)
            && code != 0 && code != 4 && code != 6,
        code_of_error(error) is None <==> error == Error::Unknown,
{
}

/// A code stands for success only if it is zero, and a code that stands for
/// a known error is the code of that error.
pub proof fn law_outcomes_have_their_codes(code: u32)
    ensures
        outcome_of_code(code) is Ok <==> code == 0,
        outcome_of_code(code) matches Err(error) ==> error == Error::Unknown || code_of_error(error)
            == Some(code),
        code == 4 || code == 6 ==> outcome_of_code(code) == Err::<(), Error>(Error::Unknown),
{
}

/// The raw return code returned by the host side.
#[derive(Debug, Clone, Copy, PartialEq, Eq, Structural)]
pub struct ReturnCode(pub u32);

impl ReturnCode {
    /// Returns the raw underlying `u32` representation.
    pub fn into_u32(self) -> (code: u32)
        ensures
            code == self.0,
    {
        self.0
    }

    /// Reads the code as the outcome of a host call.
    pub fn into_result(self) -> (outcome: Result<(), Error>)
        ensures
            outcome == outcome_of_code(self.0),
    {
        match self.0 {
            0 => Ok(()),
            1 => Err(Error::CalleeTrapped),
            2 => Err(Error::CalleeReverted),
            3 => Err(Error::KeyNotFound),
            5 => Err(Error::TransferFailed),
            7 => Err(Error::CodeNotFound),
            8 => Err(Error::NotCallable),
            9 => Err(Error::LoggingDisabled),
            11 => Err(Error::EcdsaRecoveryFailed),
            _ => Err(Error::Unknown),
        }
    }
}

impl From<ReturnCode> for Result<(), Error> {
    fn from(return_code: ReturnCode) -> (outcome: Self) {
        return_code.into_result()
    }
}

impl vstd::std_specs::convert::FromSpecImpl<ReturnCode> for Result<(), Error> {
    open spec fn obeys_from_spec() -> bool {
        true
    }

    open spec fn from_spec(return_code: ReturnCode) -> Self {
        outcome_of_code(return_code.0)
    }
}

} // verus!

//! The outcome of a call of a method by name.
//!
//! A late-bound call hands the engine a method name and variants as
//! arguments. The engine answers with an error code, and for some codes with
//! the position of the offending argument and what was expected there.

use vstd::prelude::*;
use crate::builtin::variant::variant_type::VariantType;

verus! {

/// Why a call by name failed.
#[derive(Copy, Clone, Debug, PartialEq, Eq, Structural)]
pub enum CallError {
    /// The object has no method of that name.
    InvalidMethod,
    /// The argument at `argument` has the wrong type; `expected_type` is the
    /// type asked for, where the engine names one that it defines.
    InvalidArgument { argument: i32, expected_type: Option<VariantType> },
    /// More arguments than the method takes; it takes `expected`.
    TooManyArguments { expected: i32 },
    /// Fewer arguments than the method needs; it needs `expected`.
    TooFewArguments { expected: i32 },
    /// There is no object to call the method on.
    InstanceIsNull,
    /// The method may change the object, which is constant.
    MethodNotConst,
    /// A code that the engine does not define.
    Unknown { code: i32 },
}

/// What the engine's answer to a call comes to.
pub open spec fn call_outcome(error: i32, argument: i32, expected: i32) -> Result<(), CallError> {
    if error == 0 {
        Ok(())
    } else if error == 1 {
        Err(CallError::InvalidMethod)
    } else if error == 2 {
        Err(
            CallError::InvalidArgument {
                argument,
                expected_type: VariantType::try_from_sys_spec(expected),
            },
        )
    } else if error == 3 {
        Err(CallError::TooManyArguments { expected })
    } else if error == 4 {
        Err(CallError::TooFewArguments { expected })
    } else if error == 5 {
        Err(CallError::InstanceIsNull)
    } else if error == 6 {
        Err(CallError::MethodNotConst)
    } else {
        Err(CallError::Unknown { code: error })
    }
}

/// Reads the engine's answer to a call: success for the code zero, else the
/// error that the code stands for.
pub fn check_call(error: i32, argument: i32, expected: i32) -> (outcome: Result<(), CallError>)
    ensures
        outcome == call_outcome(error, argument, expected),
        outcome.is_ok() == (error == 0),
{
    match error {
        0 => Ok(()),
        1 => Err(CallError::InvalidMethod),
        2 => Err(
            CallError::InvalidArgument {
                argument,
                expected_type: VariantType::try_from_sys(expected),
            },
        ),
        3 => Err(CallError::TooManyArguments { expected }),
        4 => Err(CallError::TooFewArguments { expected }),
        5 => Err(CallError::InstanceIsNull),
        6 => Err(CallError::MethodNotConst),
        _ => Err(CallError::Unknown { code: error }),
    }
}

} // verus!

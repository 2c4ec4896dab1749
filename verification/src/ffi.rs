//! The numeric conventions of the host's C interface, on plain values: which
//! code answers which outcome, how the driver reads a code, and how it reads
//! the message that goes with a failure.

use crate::error::code_of;
use crate::error::ErrorKind;
use crate::error::MyMainError;
use crate::plugin::LoadError;
use crate::plugin::PluginSymbol;
use crate::text::utf8_text;
use vstd::prelude::*;
use vstd::utf8::decode_utf8;
use vstd::utf8::valid_utf8;

verus! {

/// Why a registration did not take place.
#[derive(Clone, Copy, Debug, PartialEq, Eq, Structural)]
pub enum RegisterFault {
    /// The handle of the host was null.
    BadHandle,
    /// The plugin's name was null or not UTF-8.
    BadName,
    /// The library's name was null or not UTF-8.
    BadLibrary,
    /// The plugin could not be loaded.
    Load(LoadError),
}

/// The code with which a registration answers `fault`. The first two tell the
/// driver which of its strings was at fault.
pub open spec fn register_fault_code(fault: RegisterFault) -> int {
    match fault {
        RegisterFault::BadName => -1,
        RegisterFault::BadLibrary => -2,
        RegisterFault::Load(LoadError::LibraryOpen) => -3,
        RegisterFault::Load(LoadError::SymbolMissing(_)) => -4,
        RegisterFault::BadHandle => -5,
    }
}

/// The code with which a registration answers: zero for success, a negative
/// number for each fault.
pub open spec fn register_code_of(outcome: Result<(), RegisterFault>) -> int {
    match outcome {
        Ok(_) => 0,
        Err(fault) => register_fault_code(fault),
    }
}

/// The code with which any other call answers: zero for success, the kind's
/// positive code for a failure.
pub open spec fn status_code_of(outcome: Result<(), ErrorKind>) -> u32 {
    match outcome {
        Ok(_) => 0,
        Err(kind) => code_of(kind),
    }
}

/// How the driver reads the code of a registration.
pub open spec fn decoded(code: int) -> Result<(), MyMainError> {
    if code == 0 {
        Ok(())
    } else if code > 0 {
        Err(MyMainError::FFICall)
    } else if code == -1 || code == -2 {
        Err(MyMainError::ParseNull)
    } else {
        Err(MyMainError::Unknown)
    }
}

/// Checks the arguments of a registration as they arrived from the driver:
/// the handle first, then the plugin's name, then the library's. For a string
/// `None` stands for a null pointer or for bytes that are not UTF-8.
pub fn check_register_args<'a>(
    handle_is_null: bool,
    name: Option<&'a str>,
    library: Option<&'a str>,
) -> (checked: Result<(&'a str, &'a str), RegisterFault>)
    ensures
        checked == if handle_is_null {
            Err::<(&str, &str), RegisterFault>(RegisterFault::BadHandle)
        } else {
            match (name, library) {
                (None, _) => Err::<(&str, &str), RegisterFault>(RegisterFault::BadName),
                (Some(_), None) => Err(RegisterFault::BadLibrary),
                (Some(n), Some(l)) => Ok((n, l)),
            }
        },
{
    if handle_is_null {
        return Err(RegisterFault::BadHandle);
    }
    match name {
        None => Err(RegisterFault::BadName),
        Some(n) => match library {
            None => Err(RegisterFault::BadLibrary),
            Some(l) => Ok((n, l)),
        },
    }
}

/// The code with which a registration answers `outcome`.
pub fn register_code(outcome: &Result<(), RegisterFault>) -> (code: i32)
    ensures
        code == register_code_of(*outcome),
        code == 0 <==> *outcome is Ok,
        code <= 0,
{
    match outcome {
        Ok(_) => 0,
        Err(RegisterFault::BadName) => -1,
        Err(RegisterFault::BadLibrary) => -2,
        Err(RegisterFault::Load(LoadError::LibraryOpen)) => -3,
        Err(RegisterFault::Load(LoadError::SymbolMissing(_))) => -4,
        Err(RegisterFault::BadHandle) => -5,
    }
}

/// The code with which a call other than a registration answers `outcome`.
pub fn status_code(outcome: &Result<(), ErrorKind>) -> (code: u32)
    ensures
        code == status_code_of(*outcome),
        code == 0 <==> *outcome is Ok,
{
    match outcome {
        Ok(_) => 0,
        Err(kind) => kind.code(),
    }
}

/// The code with which freeing a host answers: a null handle is a bad argument.
pub fn free_code(handle_is_null: bool) -> (code: u32)
    ensures
        code == if handle_is_null {
            code_of(ErrorKind::BadArgument)
        } else {
            0
        },
{
    if handle_is_null {
        ErrorKind::BadArgument.code()
    } else {
        0
    }
}

/// Reads the code of a registration on the driver's side.
pub fn decode_register_code(code: i32) -> (outcome: Result<(), MyMainError>)
    ensures
        outcome == decoded(code as int),
{
    if code == 0 {
        Ok(())
    } else if code > 0 {
        Err(MyMainError::FFICall)
    } else if code == -1 || code == -2 {
        Err(MyMainError::ParseNull)
    } else {
        Err(MyMainError::Unknown)
    }
}

/// The driver reads a registration's code as success exactly when the
/// registration succeeded; a faulty string reaches it as `ParseNull`, a failed
/// load or a null handle as `Unknown`.
pub proof fn lemma_register_code_is_read_back(outcome: Result<(), RegisterFault>)
    ensures
        decoded(register_code_of(outcome)) is Ok <==> outcome is Ok,
        outcome matches Err(fault) ==> decoded(register_code_of(outcome)) == Err::<
            (),
            MyMainError,
        >(
            match fault {
                RegisterFault::BadName => MyMainError::ParseNull,
                RegisterFault::BadLibrary => MyMainError::ParseNull,
                RegisterFault::Load(_) => MyMainError::Unknown,
                RegisterFault::BadHandle => MyMainError::Unknown,
            },
        ),
{
}

/// Why no message could be read from the buffer of the last error.
#[derive(Clone, Copy, Debug, PartialEq, Eq, Structural)]
pub enum LastErrorFault {
    /// The buffer was too small for the message.
    BufferTooSmall,
    /// There was no message.
    NoMessage,
    /// The count of bytes is not one that the host hands out.
    BadLength,
    /// The message is not valid UTF-8.
    NotUtf8,
}

/// The bytes of the message in a buffer into which `written` bytes were
/// written, the last of them the closing null.
pub open spec fn message_bytes(buffer: Seq<u8>, written: int) -> Seq<u8> {
    if written - 1 <= buffer.len() {
        buffer.take(written - 1)
    } else {
        buffer
    }
}

/// What the driver reads from the buffer of the last error.
pub open spec fn last_error_of(buffer: Seq<u8>, written: int) -> Result<Seq<char>, LastErrorFault> {
    if written == -1 {
        Err(LastErrorFault::BufferTooSmall)
    } else if written == 0 {
        Err(LastErrorFault::NoMessage)
    } else if written < 0 {
        Err(LastErrorFault::BadLength)
    } else if valid_utf8(message_bytes(buffer, written)) {
        Ok(decode_utf8(message_bytes(buffer, written)))
    } else {
        Err(LastErrorFault::NotUtf8)
    }
}

/// A zeroed buffer for a message of `length` bytes, the closing null among
/// them; empty where `length` is not positive.
pub fn message_buffer(length: i32) -> (buffer: Vec<u8>)
    ensures
        buffer@.len() == if length > 0 {
            length as int
        } else {
            0
        },
        forall|i: int| 0 <= i < buffer@.len() ==> buffer@[i] == 0,
{
    let mut buffer: Vec<u8> = Vec::new();
    let mut i: i32 = 0;
    while i < length
        invariant
            0 <= i,
            i <= length || (length < 0 && i == 0),
            buffer@.len() == i,
            forall|j: int| 0 <= j < buffer@.len() ==> buffer@[j] == 0,
        decreases length - i,
    {
        buffer.push(0u8);
        i += 1;
    }
    buffer
}

/// Reads the message of the last error from `buffer`, into which the host
/// reported to have written `written` bytes. A report of -1 means that the
/// buffer was too small, one of 0 that there is no message.
pub fn last_error_text(buffer: Vec<u8>, written: i32) -> (text: Result<String, LastErrorFault>)
    ensures
        match text {
            Ok(message) => last_error_of(buffer@, written as int) == Ok::<
                Seq<char>,
                LastErrorFault,
            >(message@),
            Err(fault) => last_error_of(buffer@, written as int) == Err::<
                Seq<char>,
                LastErrorFault,
            >(fault),
        },
{
    if written == -1 {
        Err(LastErrorFault::BufferTooSmall)
    } else if written == 0 {
        Err(LastErrorFault::NoMessage)
    } else if written < 0 {
        Err(LastErrorFault::BadLength)
    } else {
        let keep: usize = (written - 1) as usize;
        let mut bytes = buffer;
        if keep <= bytes.len() {
            bytes.truncate(keep);
        }
        assert(bytes@ == message_bytes(buffer@, written as int));
        match utf8_text(bytes) {
            Some(message) => Ok(message),
            None => Err(LastErrorFault::NotUtf8),
        }
    }
}

} // verus!

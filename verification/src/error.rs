//! The errors that memory accesses report.

use vstd::prelude::*;
use vstd::string::*;
use simple_error::SimpleError;
use crate::text::{decimal, lower_hex, push_decimal, push_lower_hex};

verus! {

#[verifier::external_type_specification]
#[verifier::external_body]
pub struct ExSimpleError(simple_error::SimpleError);

/// The message that an error carries: the text that `SimpleError::as_str`
/// hands out.
pub uninterp spec fn error_text(e: SimpleError) -> Seq<char>;

/// Makes an error out of its message with `SimpleError::new`, which keeps the
/// string it is given as the message of the new error. Trusted: the message
/// of the result is `message`.
#[verifier::external_body]
pub(crate) fn new_error(message: String) -> (e: SimpleError)
    ensures
        error_text(e) == message@,
{
    SimpleError::new(message)
}

/// The message of a two-byte read that starts at the last address, `top`.
pub open spec fn read16_message(top: u16) -> Seq<char> {
    "cannot read two bytes starting from address 0x"@ + lower_hex(top as nat)
}

/// The message of a two-byte write that starts at the last address, `top`.
pub open spec fn write16_message(top: u16) -> Seq<char> {
    "cannot write two bytes at address 0x"@ + lower_hex(top as nat)
}

/// The message of a write of `len` bytes from `start_addr` on that would run
/// past the end of memory.
pub open spec fn range_message(start_addr: u16, len: nat) -> Seq<char> {
    "Range exceeds the memory space: start_addr = 0x"@ + lower_hex(start_addr as nat)
        + ", range_length = "@ + decimal(len)
}

/// The error of a two-byte read that starts at the last address, `top`.
pub fn read16_error(top: u16) -> (e: SimpleError)
    ensures
        error_text(e) == read16_message(top),
{
    let mut message = String::from_str("cannot read two bytes starting from address 0x");
    push_lower_hex(&mut message, top as usize);
    new_error(message)
}

/// The error of a two-byte write that starts at the last address, `top`.
pub fn write16_error(top: u16) -> (e: SimpleError)
    ensures
        error_text(e) == write16_message(top),
{
    let mut message = String::from_str("cannot write two bytes at address 0x");
    push_lower_hex(&mut message, top as usize);
    new_error(message)
}

/// The error of a write of `len` bytes from `start_addr` on that would run
/// past the end of memory.
pub fn range_error(start_addr: u16, len: usize) -> (e: SimpleError)
    ensures
        error_text(e) == range_message(start_addr, len as nat),
{
    let mut message = String::from_str("Range exceeds the memory space: start_addr = 0x");
    push_lower_hex(&mut message, start_addr as usize);
    message.append(", range_length = ");
    push_decimal(&mut message, len);
    new_error(message)
}

} // verus!

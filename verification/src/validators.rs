//! Rules on GraphQL input values.
use vstd::prelude::*;
use crate::text::{decimal, push_decimal};

verus! {

/// The rejection of an input value, with the message the API answers.
#[derive(Debug)]
pub struct InputError {
    pub message: String,
}

/// The length in bytes of the UTF-8 encoding of `s`: the length a
/// `min_length` rule counts.
pub open spec fn byte_len(s: Seq<char>) -> nat {
    vstd::utf8::encode_utf8(s).len()
}

/// A string takes no bytes exactly when it has no characters: each character
/// is encoded in at least one byte.
pub proof fn lemma_byte_len_zero_iff_empty(s: Seq<char>)
    ensures
        (byte_len(s) == 0) <==> (s.len() == 0),
{
    if s.len() > 0 {
        let c = s[0] as u32;
        assert(vstd::utf8::encode_scalar(c).len() >= 1);
        assert(vstd::utf8::encode_utf8(s) == vstd::utf8::encode_scalar(c) + vstd::utf8::encode_utf8(
            s.drop_first(),
        ));
    }
}

/// The message that rejects a string of `actual` bytes where at least `min`
/// are asked for.
pub open spec fn min_length_message(actual: nat, min: nat) -> Seq<char> {
    "the string length is "@ + decimal(actual) + ", must be greater than or equal to "@ + decimal(min)
}

/// The rule `min_length = len`: the value must be at least `len` bytes long.
/// The `requires` is the machine limit: a string in memory is at most
/// `usize::MAX` bytes long.
pub fn min_length(value: &str, len: usize) -> (r: Result<(), InputError>)
    requires
        byte_len(value@) <= usize::MAX,
    ensures
        r is Ok <==> byte_len(value@) >= len,
        r matches Err(e) ==> e.message@ == min_length_message(byte_len(value@), len as nat),
{
    let actual = value.len();
    if actual >= len {
        Ok(())
    } else {
        let mut message = String::from_str("the string length is ");
        push_decimal(&mut message, actual as u64);
        message.append(", must be greater than or equal to ");
        push_decimal(&mut message, len as u64);
        assert(message@ =~= min_length_message(byte_len(value@), len as nat));
        Err(InputError { message })
    }
}

} // verus!

//! Decoding of a user-supplied hexadecimal string into the fixed-size
//! secret key: validation, two-characters-per-byte decoding, right
//! zero-padding of short input and truncation of long input.

use vstd::prelude::*;
use vstd::string::StringSliceAdditionalSpecFns;

use crate::error::AuthError;

verus! {

/// Number of bytes in the stored secret key.
pub const SECRET_KEY_SIZE: usize = 20;

/// Whether byte `b` is the ASCII code of a hexadecimal digit.
pub open spec fn is_hex_digit(b: u8) -> bool {
    (48 <= b <= 57) || (97 <= b <= 102) || (65 <= b <= 70)
}

/// Whether every byte of `s` is the ASCII code of a hexadecimal digit.
pub open spec fn all_hex_digits(s: Seq<u8>) -> bool {
    forall|i: int| 0 <= i < s.len() ==> is_hex_digit(#[trigger] s[i])
}

/// Numeric value of one hexadecimal digit given by its ASCII code.
pub open spec fn hex_digit_value(b: u8) -> u8 {
    if 48 <= b <= 57 {
        (b - 48) as u8
    } else if 97 <= b <= 102 {
        (b - 87) as u8
    } else {
        (b - 55) as u8
    }
}

/// Value of the `i`-th two-character chunk of `s`.  A trailing chunk of a
/// single character stands for its own digit value.
pub open spec fn chunk_value(s: Seq<u8>, i: int) -> u8 {
    if 2 * i + 1 < s.len() {
        (hex_digit_value(s[2 * i]) * 16 + hex_digit_value(s[2 * i + 1])) as u8
    } else {
        hex_digit_value(s[2 * i])
    }
}

/// Number of bytes a hex string of length `n` decodes to: one for each
/// chunk of two characters, the last chunk possibly of one character.
pub open spec fn chunk_count(n: nat) -> nat {
    (n + 1) / 2
}

/// The secret key a hex string decodes to: its chunk values left-aligned,
/// zero-padded on the right up to `SECRET_KEY_SIZE` bytes, and truncated
/// beyond them.
pub open spec fn secret_key_of(s: Seq<u8>) -> Seq<u8> {
    Seq::new(
        SECRET_KEY_SIZE as nat,
        |i: int|
            if i < chunk_count(s.len()) {
                chunk_value(s, i)
            } else {
                0u8
            },
    )
}

/// Returns whether every character of the string is a hexadecimal digit.
pub fn is_hex_string(input: &str) -> (r: bool)
    ensures
        r == all_hex_digits(input.spec_bytes()),
{
    let bytes = input.as_bytes();
    let mut i: usize = 0;
    while i < bytes.len()
        invariant
            0 <= i <= bytes@.len(),
            bytes@ == input.spec_bytes(),
            forall|j: int| 0 <= j < i ==> is_hex_digit(#[trigger] bytes@[j]),
        decreases bytes@.len() - i,
    {
        let b = bytes[i];
        if !(48 <= b && b <= 57 || 97 <= b && b <= 102 || 65 <= b && b <= 70) {
            return false;
        }
        i = i + 1;
    }
    true
}

/// Numeric value of one hexadecimal digit given by its ASCII code.
fn hex_digit_value_exec(b: u8) -> (r: u8)
    requires
        is_hex_digit(b),
    ensures
        r == hex_digit_value(b),
{
    if 48 <= b && b <= 57 {
        b - 48
    } else if 97 <= b && b <= 102 {
        b - 87
    } else {
        b - 55
    }
}

/// Decodes the hex string two characters at a time into `buf`: rejects a
/// string with a non-hexadecimal character, zero-pads a short key on the
/// right, and truncates a long one to `SECRET_KEY_SIZE` bytes.
pub fn input_secret_key(hex_str: &str, buf: &mut [u8; SECRET_KEY_SIZE]) -> (r: Result<
    (),
    AuthError,
>)
    ensures
        all_hex_digits(hex_str.spec_bytes()) ==> r is Ok && final(buf)@ == secret_key_of(
            hex_str.spec_bytes(),
        ),
        !all_hex_digits(hex_str.spec_bytes()) ==> r == Err::<(), AuthError>(AuthError::InvalidDigit)
            && final(buf)@ == old(buf)@,
{
    if !is_hex_string(hex_str) {
        return Err(AuthError::InvalidDigit);
    }
    let bytes = hex_str.as_bytes();
    let ghost s = hex_str.spec_bytes();

    let mut i: usize = 0;
    while i < SECRET_KEY_SIZE
        invariant
            0 <= i <= SECRET_KEY_SIZE,
            buf@.len() == SECRET_KEY_SIZE,
            forall|j: int| 0 <= j < i ==> buf@[j] == 0u8,
        decreases SECRET_KEY_SIZE - i,
    {
        buf[i] = 0;
        i = i + 1;
    }

    let n_chunks: usize = bytes.len() / 2 + bytes.len() % 2;
    let limit: usize = if n_chunks < SECRET_KEY_SIZE {
        n_chunks
    } else {
        SECRET_KEY_SIZE
    };

    let mut i: usize = 0;
    while i < limit
        invariant
            0 <= i <= limit,
            limit <= SECRET_KEY_SIZE,
            limit <= chunk_count(s.len()),
            chunk_count(s.len()) <= limit || limit == SECRET_KEY_SIZE,
            2 * limit <= s.len() + 1,
            bytes@ == s,
            all_hex_digits(s),
            buf@.len() == SECRET_KEY_SIZE,
            forall|j: int| 0 <= j < i ==> buf@[j] == chunk_value(s, j),
            forall|j: int| i <= j < SECRET_KEY_SIZE ==> buf@[j] == 0u8,
        decreases limit - i,
    {
        let hi = bytes[2 * i];
        let value: u8 = if 2 * i + 1 < bytes.len() {
            hex_digit_value_exec(hi) * 16 + hex_digit_value_exec(bytes[2 * i + 1])
        } else {
            hex_digit_value_exec(hi)
        };
        buf[i] = value;
        i = i + 1;
    }

    proof {
        assert(buf@ =~= secret_key_of(s));
    }
    Ok(())
}

/// A hex string short enough to fit the key decodes to exactly
/// `SECRET_KEY_SIZE` bytes: each of its chunks in order, left-aligned,
/// and zeros on the right from the first byte it does not reach.
pub proof fn lemma_short_key_zero_padded(s: Seq<u8>)
    requires
        all_hex_digits(s),
        s.len() <= 2 * SECRET_KEY_SIZE,
    ensures
        secret_key_of(s).len() == SECRET_KEY_SIZE,
        forall|i: int|
            0 <= i < chunk_count(s.len()) ==> secret_key_of(s)[i] == chunk_value(s, i),
        forall|i: int|
            chunk_count(s.len()) <= i < SECRET_KEY_SIZE ==> secret_key_of(s)[i] == 0u8,
{
}

/// A hex string longer than the key is truncated, not rejected: the
/// stored key is exactly the first `SECRET_KEY_SIZE` decoded bytes.
pub proof fn lemma_long_key_truncated(s: Seq<u8>)
    requires
        all_hex_digits(s),
        s.len() > 2 * SECRET_KEY_SIZE,
    ensures
        secret_key_of(s).len() == SECRET_KEY_SIZE,
        forall|i: int| 0 <= i < SECRET_KEY_SIZE ==> secret_key_of(s)[i] == chunk_value(s, i),
{
}

} // verus!

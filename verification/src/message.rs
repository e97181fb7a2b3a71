//! The message by which the child reports the status of the command.
//!
//! The message is a JSON object with the one member `status`, written
//! without white space. A message in exactly this form is recognized here,
//! and proved to give back the status that was written.

use crate::text::{
    decimal, digit, join2, lemma_decimal_is_short, power_of_ten, render_signed, signed_decimal,
};
use vstd::prelude::*;
use vstd::string::*;
use vstd::utf8::{encode_utf8, is_ascii_chars, is_ascii_chars_encode_utf8};

verus! {

/// The message that reports a status.
pub open spec fn status_message(status: i32) -> Seq<char> {
    "{\"status\":"@ + signed_decimal(status as int) + "}"@
}

/// The bytes of the message that reports a status.
pub open spec fn status_bytes(status: i32) -> Seq<u8> {
    encode_utf8(status_message(status))
}

/// The status, if there is one, whose message the bytes are.
pub open spec fn written_status(bytes: Seq<u8>) -> Option<i32> {
    if exists|status: i32| status_bytes(status) == bytes {
        Some(choose|status: i32| status_bytes(status) == bytes)
    } else {
        None
    }
}

/// The number that a string of digits writes, digit by digit.
spec fn digits_value(bytes: Seq<u8>) -> int
    decreases bytes.len(),
{
    if bytes.len() == 0 {
        0
    } else {
        10 * digits_value(bytes.drop_last()) + (bytes.last() - 48)
    }
}

/// The number that stands in a message between its first ten bytes and its
/// last one, read as a string of digits with or without a minus sign.
spec fn scanned(bytes: Seq<u8>) -> int {
    let body = bytes.subrange(10, bytes.len() - 1);
    if body.len() > 0 && body[0] == 45 {
        -digits_value(body.drop_first())
    } else {
        digits_value(body)
    }
}

/// The bytes of a string in ASCII.
spec fn ascii_bytes(chars: Seq<char>) -> Seq<u8> {
    Seq::new(chars.len(), |i: int| chars[i] as u8)
}

/// The digits of a number, read back, give the number.
proof fn lemma_digits_read_back(n: nat)
    ensures
        digits_value(ascii_bytes(decimal(n))) == n,
        ascii_bytes(decimal(n)).len() >= 1,
        ascii_bytes(decimal(n))[0] != 45,
    decreases n,
{
    let bytes = ascii_bytes(decimal(n));
    if n < 10 {
        assert(bytes.drop_last() =~= Seq::<u8>::empty());
        assert(digits_value(bytes.drop_last()) == 0);
        assert(bytes.last() == digit(n) as u8);
        assert(digit(n) as u8 == 48 + n);
    } else {
        lemma_digits_read_back(n / 10);
        let head = decimal(n / 10);
        assert(decimal(n) == head.push(digit(n % 10)));
        assert(bytes.drop_last() =~= ascii_bytes(head));
        assert(bytes.last() == digit(n % 10) as u8);
        assert(digit(n % 10) as u8 == 48 + n % 10);
        assert(bytes[0] == ascii_bytes(head)[0]);
    }
}

/// A status message is written in ASCII, one byte for each character, and
/// has from 12 to 22 characters.
pub proof fn lemma_status_message_is_short(status: i32)
    ensures
        is_ascii_chars(status_message(status)),
        status_bytes(status).len() == status_message(status).len(),
        12 <= status_bytes(status).len() <= 22,
{
    lemma_status_bytes(status);
}

/// The bytes of a status message are its characters in ASCII.
proof fn lemma_status_bytes(status: i32)
    ensures
        is_ascii_chars(status_message(status)),
        status_bytes(status) == ascii_bytes(status_message(status)),
        12 <= status_bytes(status).len() <= 22,
{
    reveal_strlit("{\"status\":");
    reveal_strlit("}");
    let magnitude: nat = if status < 0 {
        (-status) as nat
    } else {
        status as nat
    };
    assert(power_of_ten(10) == 10_000_000_000) by {
        reveal_with_fuel(power_of_ten, 11);
    }
    lemma_decimal_is_short(magnitude, 10);
    assert(1 <= signed_decimal(status as int).len() <= 11);
    assert(is_ascii_chars(signed_decimal(status as int)));
    is_ascii_chars_encode_utf8(status_message(status));
    assert(status_bytes(status) =~= ascii_bytes(status_message(status)));
}

/// The number that stands in the message of a status is the status.
proof fn lemma_message_holds_its_status(status: i32)
    ensures
        scanned(status_bytes(status)) == status,
{
    reveal_strlit("{\"status\":");
    reveal_strlit("}");
    lemma_status_bytes(status);
    let bytes = status_bytes(status);
    let body = bytes.subrange(10, bytes.len() - 1);
    assert(body =~= ascii_bytes(signed_decimal(status as int)));
    if status < 0 {
        let magnitude = (-status) as nat;
        lemma_digits_read_back(magnitude);
        assert(body[0] == 45);
        assert(body.drop_first() =~= ascii_bytes(decimal(magnitude)));
    } else {
        lemma_digits_read_back(status as nat);
    }
}

/// No two statuses have the same message.
pub proof fn lemma_messages_differ(one: i32, other: i32)
    requires
        status_bytes(one) == status_bytes(other),
    ensures
        one == other,
{
    lemma_message_holds_its_status(one);
    lemma_message_holds_its_status(other);
}

/// Writes the message that reports a status.
pub fn write_status(status: i32) -> (out: String)
    ensures
        out@ == status_message(status),
{
    let digits = render_signed(status as i64);
    let mut out = join2("{\"status\":", digits.as_str());
    out.append("}");
    out
}

/// Reads the number that stands in a message of 12 to 22 bytes.
fn scan(received: &[u8]) -> (out: i64)
    requires
        12 <= received.len() <= 22,
    ensures
        out == scanned(received@),
{
    let end: usize = received.len() - 1;
    let negative = received[10] == 45;
    let start: usize = if negative {
        11
    } else {
        10
    };
    let ghost digits = received@.subrange(start as int, end as int);
    let mut value: i64 = 0;
    let mut at: usize = start;
    while at < end
        invariant
            start <= at <= end,
            end == received.len() - 1,
            end <= 21,
            10 <= start <= 11,
            digits == received@.subrange(start as int, end as int),
            value == digits_value(digits.take(at - start)),
            -6 * (power_of_ten((at - start) as nat) - 1) <= value <= 23 * (power_of_ten(
                (at - start) as nat,
            ) - 1),
        decreases end - at,
    {
        proof {
            let seen = digits.take(at - start + 1);
            assert(seen.drop_last() =~= digits.take(at - start));
            assert(seen.last() == received@[at as int]);
            lemma_power_of_ten_grows((at - start) as nat);
        }
        value = value * 10 + (received[at] as i64 - 48);
        at = at + 1;
    }
    proof {
        lemma_power_of_ten_grows((end - start) as nat);
        assert(digits.take(end - start) =~= digits);
        let body = received@.subrange(10, received@.len() - 1);
        if negative {
            assert(body.drop_first() =~= digits);
        } else {
            assert(body =~= digits);
        }
    }
    if negative {
        -value
    } else {
        value
    }
}

/// Powers of ten up to the eleventh are small, and each is ten times the one
/// before.
proof fn lemma_power_of_ten_grows(exponent: nat)
    requires
        exponent <= 11,
    ensures
        power_of_ten(exponent + 1) == 10 * power_of_ten(exponent),
        1 <= power_of_ten(exponent) <= 100_000_000_000,
{
    reveal_with_fuel(power_of_ten, 13);
}

/// Whether two byte strings are the same.
fn same_bytes(a: &[u8], b: &[u8]) -> (same: bool)
    ensures
        same == (a@ == b@),
{
    if a.len() != b.len() {
        return false;
    }
    let mut at: usize = 0;
    while at < a.len()
        invariant
            at <= a.len(),
            a.len() == b.len(),
            forall|i: int| 0 <= i < at ==> a@[i] == b@[i],
        decreases a.len() - at,
    {
        if a[at] != b[at] {
            return false;
        }
        at = at + 1;
    }
    assert(a@ =~= b@);
    true
}

/// Recognizes the message of a status.
pub fn read_written_status(received: &[u8]) -> (out: Option<i32>)
    ensures
        out == written_status(received@),
{
    proof {
        assert forall|status: i32| status_bytes(status) == received@ implies 12 <= received@.len()
            <= 22 && scanned(received@) == status by {
            lemma_status_bytes(status);
            lemma_message_holds_its_status(status);
        }
    }
    if received.len() < 12 || received.len() > 22 {
        return None;
    }
    let value = scan(received);
    if value < -2147483648 || value > 2147483647 {
        return None;
    }
    let status = value as i32;
    let message = write_status(status);
    if same_bytes(message.as_str().as_bytes(), received) {
        assert(status_bytes(status) == received@);
        Some(status)
    } else {
        None
    }
}

} // verus!

//! Signed-decimal ASCII encoding used on the motion-controller wire.

use vstd::prelude::*;

verus! {

/// ASCII code of the minus sign.
pub const MINUS: u8 = 45;

/// ASCII code of the digit zero.
pub const ZERO: u8 = 48;

/// Start-of-text byte that opens every command frame.
pub const STX: u8 = 2;

/// Carriage return that closes every command frame.
pub const CR: u8 = 13;

/// Whether `b` is an ASCII decimal digit.
pub open spec fn is_digit(b: u8) -> bool {
    48 <= b <= 57
}

/// The ASCII digit for a value below ten.
pub open spec fn digit_byte(d: nat) -> u8
    recommends
        d < 10,
{
    (48 + d) as u8
}

/// Decimal digits of `n`, most significant first, without leading zeros.
pub open spec fn digits_of(n: nat) -> Seq<u8>
    decreases n,
{
    if n < 10 {
        seq![digit_byte(n)]
    } else {
        digits_of(n / 10).push(digit_byte(n % 10))
    }
}

/// Standard signed decimal text of `i`: a minus sign if negative, then the
/// digits of the magnitude.
pub open spec fn encode_signed(i: int) -> Seq<u8> {
    if i < 0 {
        seq![45u8] + digits_of((-i) as nat)
    } else {
        digits_of(i as nat)
    }
}

/// Whether every byte of `s` is a digit.
pub open spec fn all_digits(s: Seq<u8>) -> bool {
    forall|i: int| 0 <= i < s.len() ==> is_digit(#[trigger] s[i])
}

/// Length of the longest prefix of `s` made of digits only.
pub open spec fn digit_run_len(s: Seq<u8>) -> nat
    decreases s.len(),
{
    if s.len() > 0 && is_digit(s[0]) {
        1 + digit_run_len(s.skip(1))
    } else {
        0
    }
}

/// Number written by a sequence of digits, most significant first; zero for
/// the empty sequence.
pub open spec fn digits_value(s: Seq<u8>) -> nat
    decreases s.len(),
{
    if s.len() == 0 {
        0
    } else {
        digits_value(s.drop_last()) * 10 + (s.last() - 48) as nat
    }
}

/// Number written by the longest digit prefix of `s`.
pub open spec fn parse_unsigned(s: Seq<u8>) -> nat {
    digits_value(s.take(digit_run_len(s) as int))
}

/// Value of a signed decimal text: an optional leading minus sign, then the
/// longest run of digits; whatever follows the run is ignored, and an empty
/// run counts as zero.
pub open spec fn parse_signed(s: Seq<u8>) -> int {
    if s.len() > 0 && s[0] == 45 {
        -(parse_unsigned(s.skip(1)) as int)
    } else {
        parse_unsigned(s) as int
    }
}

/// `v` limited to the range of `i64`.
pub open spec fn clamp_i64(v: int) -> int {
    if v < i64::MIN {
        i64::MIN as int
    } else if v > i64::MAX {
        i64::MAX as int
    } else {
        v
    }
}

/// The digit run of `s` has length `k` when the first `k` bytes are digits
/// and the run cannot be extended.
pub proof fn lemma_digit_run_len(s: Seq<u8>, k: nat)
    requires
        k <= s.len(),
        all_digits(s.take(k as int)),
        k == s.len() || !is_digit(s[k as int]),
    ensures
        digit_run_len(s) == k,
    decreases k,
{
    if k == 0 {
    } else {
        assert(s.take(k as int)[0] == s[0]);
        let t = s.skip(1);
        assert forall|i: int| 0 <= i < (k - 1) implies is_digit(#[trigger] t.take(k - 1)[i]) by {
            assert(t.take(k - 1)[i] == s.take(k as int)[i + 1]);
        }
        if k < s.len() {
            assert(t[k - 1] == s[k as int]);
        }
        lemma_digit_run_len(t, (k - 1) as nat);
    }
}

/// The digits of a number are all digits, at least one of them.
pub proof fn lemma_digits_of_shape(n: nat)
    ensures
        digits_of(n).len() >= 1,
        all_digits(digits_of(n)),
    decreases n,
{
    if n >= 10 {
        lemma_digits_of_shape(n / 10);
    }
}

/// Reading back the digits of a number gives the number.
pub proof fn lemma_digits_value_of_digits(n: nat)
    ensures
        digits_value(digits_of(n)) == n,
    decreases n,
{
    if n < 10 {
        let s = digits_of(n);
        assert(s.drop_last().len() == 0);
        assert(digits_value(s.drop_last()) == 0);
    } else {
        lemma_digits_value_of_digits(n / 10);
        let s = digits_of(n);
        assert(s.drop_last() =~= digits_of(n / 10));
    }
}

/// A text made of digits only is read in full.
pub proof fn lemma_parse_unsigned_all_digits(s: Seq<u8>)
    requires
        all_digits(s),
    ensures
        parse_unsigned(s) == digits_value(s),
{
    assert(s.take(s.len() as int) =~= s);
    lemma_digit_run_len(s, s.len());
}

/// Decoding the signed decimal text of any integer gives that integer back,
/// for negative numbers as well as for the others.
pub proof fn lemma_parse_encode_roundtrip(n: int)
    ensures
        parse_signed(encode_signed(n)) == n,
{
    let m: nat = if n < 0 { (-n) as nat } else { n as nat };
    lemma_digits_of_shape(m);
    lemma_digits_value_of_digits(m);
    lemma_parse_unsigned_all_digits(digits_of(m));
    if n < 0 {
        let e = encode_signed(n);
        assert(e[0] == 45);
        assert(e.skip(1) =~= digits_of(m));
    } else {
        assert(is_digit(digits_of(m)[0]));
    }
}

/// Whether `s` is a numeral: not empty, an optional minus sign, then digits
/// only.
pub open spec fn is_numeral(s: Seq<u8>) -> bool {
    s.len() > 0 && (s[0] == 45 || is_digit(s[0])) && all_digits(s.skip(1))
}

/// Bytes that follow a numeral and do not start with a digit never change
/// the value that is read.
pub proof fn lemma_parse_ignores_tail(head: Seq<u8>, tail: Seq<u8>)
    requires
        is_numeral(head),
        tail.len() == 0 || !is_digit(tail[0]),
    ensures
        parse_signed(head + tail) == parse_signed(head),
{
    let whole = head + tail;
    assert(whole[0] == head[0]);
    if head[0] == 45 {
        let h = head.skip(1);
        let w = whole.skip(1);
        assert(w =~= h + tail);
        lemma_unsigned_ignores_tail(h, tail);
    } else {
        assert forall|i: int| 0 <= i < head.len() implies is_digit(#[trigger] head[i]) by {
            if i > 0 {
                assert(head[i] == head.skip(1)[i - 1]);
            }
        }
        lemma_unsigned_ignores_tail(head, tail);
    }
}

/// The unsigned reading of digits followed by a tail that starts with no
/// digit is the reading of the digits alone.
pub proof fn lemma_unsigned_ignores_tail(digits: Seq<u8>, tail: Seq<u8>)
    requires
        all_digits(digits),
        tail.len() == 0 || !is_digit(tail[0]),
    ensures
        parse_unsigned(digits + tail) == digits_value(digits),
        parse_unsigned(digits) == digits_value(digits),
{
    let whole = digits + tail;
    let k = digits.len();
    assert(whole.take(k as int) =~= digits);
    if tail.len() > 0 {
        assert(whole[k as int] == tail[0]);
    }
    lemma_digit_run_len(whole, k);
    lemma_parse_unsigned_all_digits(digits);
}

/// The ASCII digit of a single-digit device id.
pub fn int_to_byte(number: u8) -> (byte: u8)
    requires
        number <= 9,
    ensures
        byte == number + 48,
        is_digit(byte),
{
    number + 48
}

/// The three bytes that address a sub-device: start of text, the device
/// type and the id as a digit.
pub open spec fn prefix_of(device_type: u8, device_id: u8) -> Seq<u8> {
    seq![2u8, device_type, (device_id + 48) as u8]
}

/// Builds the command prefix of the device `device_id` of kind `device_type`.
pub fn make_prefix(device_type: u8, device_id: u8) -> (prefix: [u8; 3])
    requires
        device_id <= 9,
    ensures
        prefix@ == prefix_of(device_type, device_id),
{
    let prefix = [STX, device_type, int_to_byte(device_id)];
    assert(prefix@ =~= prefix_of(device_type, device_id));
    prefix
}

/// Appends the decimal digits of `m` to `out`.
fn push_digits(out: &mut Vec<u8>, m: u64)
    ensures
        final(out)@ == old(out)@ + digits_of(m as nat),
    decreases m,
{
    if m >= 10 {
        push_digits(out, m / 10);
    }
    let d: u8 = (m % 10) as u8;
    out.push(48 + d);
    assert(final(out)@ =~= old(out)@ + digits_of(m as nat));
}

/// Magnitude of `number` as an unsigned value.
fn magnitude(number: i64) -> (m: u64)
    ensures
        m == if number < 0 { -(number as int) } else { number as int },
{
    if number < 0 {
        let below: i64 = -(number + 1);
        (below as u64) + 1
    } else {
        number as u64
    }
}

/// Writes `number` as signed decimal ASCII: no leading zeros, a minus sign in
/// front of a negative number.
pub fn num_to_bytes(number: i64) -> (bytes: Vec<u8>)
    ensures
        bytes@ == encode_signed(number as int),
{
    let mut bytes: Vec<u8> = Vec::new();
    if number < 0 {
        bytes.push(MINUS);
    }
    push_digits(&mut bytes, magnitude(number));
    assert(bytes@ =~= encode_signed(number as int));
    bytes
}

/// Largest magnitude that a parsed value is tracked to: one more than
/// `i64::MAX`, which is the magnitude of `i64::MIN`.
const MAGNITUDE_CAP: u64 = 9223372036854775808;

/// Reads a signed decimal number from the start of `bytes`: an optional minus
/// sign, then the longest run of digits. Anything after the run is ignored,
/// an empty run reads as zero, and a value outside `i64` is held at the
/// nearest bound.
pub fn ascii_to_int(bytes: &[u8]) -> (value: i64)
    ensures
        value == clamp_i64(parse_signed(bytes@)),
{
    let negative = bytes.len() > 0 && bytes[0] == MINUS;
    let start: usize = if negative { 1 } else { 0 };
    let ghost body = bytes@.skip(start as int);
    let mut i: usize = start;
    let mut acc: u64 = 0;
    while i < bytes.len() && 48 <= bytes[i] && bytes[i] <= 57
        invariant
            start <= i <= bytes.len(),
            body == bytes@.skip(start as int),
            all_digits(body.take(i - start)),
            acc <= MAGNITUDE_CAP,
            acc == if digits_value(body.take(i - start)) <= MAGNITUDE_CAP {
                digits_value(body.take(i - start))
            } else {
                MAGNITUDE_CAP as nat
            },
        decreases bytes.len() - i,
    {
        let d: u8 = bytes[i] - 48;
        let wide: u128 = (acc as u128) * 10 + (d as u128);
        proof {
            let next = body.take(i - start + 1);
            assert(next.drop_last() =~= body.take(i - start));
            assert(next.last() == bytes@[i as int]);
            assert forall|j: int| 0 <= j < next.len() implies is_digit(#[trigger] next[j]) by {
                if j < i - start {
                    assert(next[j] == body.take(i - start)[j]);
                }
            }
        }
        acc = if wide > MAGNITUDE_CAP as u128 { MAGNITUDE_CAP } else { wide as u64 };
        i = i + 1;
    }
    proof {
        if i < bytes.len() {
            assert(body[i - start] == bytes@[i as int]);
        }
        lemma_digit_run_len(body, (i - start) as nat);
        assert(bytes@.skip(0) =~= bytes@);
    }
    if negative {
        if acc >= MAGNITUDE_CAP {
            i64::MIN
        } else {
            -(acc as i64)
        }
    } else {
        if acc >= MAGNITUDE_CAP {
            i64::MAX
        } else {
            acc as i64
        }
    }
}

/// Text written by `num_to_bytes` is read back by `ascii_to_int` as the same
/// number, whatever bytes follow it, provided they start with no digit.
pub proof fn lemma_wire_roundtrip(number: i64, tail: Seq<u8>)
    requires
        tail.len() == 0 || !is_digit(tail[0]),
    ensures
        clamp_i64(parse_signed(encode_signed(number as int) + tail)) == number,
{
    let n = number as int;
    let m: nat = if n < 0 { (-n) as nat } else { n as nat };
    lemma_digits_of_shape(m);
    let e = encode_signed(n);
    if n < 0 {
        assert(e.skip(1) =~= digits_of(m));
    } else {
        assert(e.skip(1) =~= digits_of(m).skip(1));
    }
    lemma_parse_ignores_tail(e, tail);
    lemma_parse_encode_roundtrip(n);
}

} // verus!

//! The text form of a percentage in a kernel attribute file: ASCII decimal
//! digits, which the kernel follows with a newline.

use vstd::prelude::*;

verus! {

/// ASCII code of the digit zero.
pub const ZERO: u8 = 0x30;

/// ASCII code of the plus sign.
pub const PLUS: u8 = 0x2b;

/// Largest value that `parse` accepts.
pub const PERCENT_MAX: u8 = 100;

/// The ASCII white space: space, tab, line feed, vertical tab, form feed,
/// carriage return.
pub open spec fn is_whitespace(byte: u8) -> bool {
    byte == 0x20 || (0x09 <= byte && byte <= 0x0d)
}

/// The ASCII digits.
pub open spec fn is_digit(byte: u8) -> bool {
    ZERO <= byte && byte <= 0x39
}

/// `text` without the white space that leads it.
pub open spec fn trim_start(text: Seq<u8>) -> Seq<u8>
    decreases text.len(),
{
    if text.len() > 0 && is_whitespace(text[0]) {
        trim_start(text.subrange(1, text.len() as int))
    } else {
        text
    }
}

/// `text` without the white space that trails it.
pub open spec fn trim_end(text: Seq<u8>) -> Seq<u8>
    decreases text.len(),
{
    if text.len() > 0 && is_whitespace(text.last()) {
        trim_end(text.drop_last())
    } else {
        text
    }
}

/// `text` without white space at either end.
pub open spec fn trimmed(text: Seq<u8>) -> Seq<u8> {
    trim_end(trim_start(text))
}

/// `text` without one leading plus sign, where more follows it.
pub open spec fn unsigned(text: Seq<u8>) -> Seq<u8> {
    if text.len() >= 2 && text[0] == PLUS {
        text.subrange(1, text.len() as int)
    } else {
        text
    }
}

/// Every byte of `text` is a digit.
pub open spec fn all_digits(text: Seq<u8>) -> bool {
    forall|i: int| 0 <= i < text.len() ==> is_digit(#[trigger] text[i])
}

/// The number that the digits of `text` write in base ten.
pub open spec fn digits_value(text: Seq<u8>) -> nat
    decreases text.len(),
{
    if text.len() == 0 {
        0
    } else {
        digits_value(text.drop_last()) * 10 + (text.last() - ZERO) as nat
    }
}

/// The percentage that `text` holds: white space, an optional plus sign, one
/// or more digits that write a number up to 100, white space. Anything else
/// holds none.
pub open spec fn parse_percentage(text: Seq<u8>) -> Option<u8> {
    let digits = unsigned(trimmed(text));
    if digits.len() > 0 && all_digits(digits) && digits_value(digits) <= PERCENT_MAX {
        Some(digits_value(digits) as u8)
    } else {
        None
    }
}

/// `n` in base ten, without leading zeros.
pub open spec fn decimal(n: nat) -> Seq<u8>
    decreases n,
{
    if n < 10 {
        seq![(ZERO + n) as u8]
    } else {
        decimal(n / 10).push((ZERO + n % 10) as u8)
    }
}

/// Where `cut` bytes of white space lead `text` and no more, `trim_start`
/// removes exactly those.
proof fn lemma_trim_start(text: Seq<u8>, cut: int)
    requires
        0 <= cut <= text.len(),
        forall|i: int| 0 <= i < cut ==> is_whitespace(#[trigger] text[i]),
        cut == text.len() || !is_whitespace(text[cut]),
    ensures
        trim_start(text) == text.subrange(cut, text.len() as int),
    decreases cut,
{
    if cut == 0 {
        assert(text.subrange(0, text.len() as int) =~= text);
    } else {
        let rest = text.subrange(1, text.len() as int);
        assert(is_whitespace(text[0]));
        assert forall|i: int| 0 <= i < cut - 1 implies is_whitespace(#[trigger] rest[i]) by {
            assert(rest[i] == text[i + 1]);
        }
        lemma_trim_start(rest, cut - 1);
        assert(rest.subrange(cut - 1, rest.len() as int) =~= text.subrange(
            cut,
            text.len() as int,
        ));
    }
}

/// Where white space fills `text` from `keep` on and the byte before is
/// none, `trim_end` keeps exactly the first `keep` bytes.
proof fn lemma_trim_end(text: Seq<u8>, keep: int)
    requires
        0 <= keep <= text.len(),
        forall|i: int| keep <= i < text.len() ==> is_whitespace(#[trigger] text[i]),
        keep == 0 || !is_whitespace(text[keep - 1]),
    ensures
        trim_end(text) == text.subrange(0, keep),
    decreases text.len() - keep,
{
    if keep == text.len() {
        assert(text.subrange(0, keep) =~= text);
    } else {
        let rest = text.drop_last();
        assert(is_whitespace(text.last()));
        assert forall|i: int| keep <= i < rest.len() implies is_whitespace(#[trigger] rest[i]) by {
            assert(rest[i] == text[i]);
        }
        lemma_trim_end(rest, keep);
        assert(rest.subrange(0, keep) =~= text.subrange(0, keep));
    }
}

/// More digits never write a smaller number.
proof fn lemma_value_grows(text: Seq<u8>, len: int)
    requires
        0 <= len <= text.len(),
        all_digits(text),
    ensures
        digits_value(text.subrange(0, len)) <= digits_value(text),
    decreases text.len() - len,
{
    if len == text.len() {
        assert(text.subrange(0, len) =~= text);
    } else {
        let rest = text.drop_last();
        assert forall|i: int| 0 <= i < rest.len() implies is_digit(#[trigger] rest[i]) by {
            assert(rest[i] == text[i]);
        }
        lemma_value_grows(rest, len);
        assert(rest.subrange(0, len) =~= text.subrange(0, len));
        assert(is_digit(text.last()));
    }
}

/// Reads the percentage that `text` holds, if it holds one.
pub fn parse(text: &[u8]) -> (value: Option<u8>)
    ensures
        value == parse_percentage(text@),
{
    let len: usize = text.len();
    let mut lo: usize = 0;
    while lo < len && is_space(text[lo])
        invariant
            lo <= len,
            len == text@.len(),
            forall|i: int| 0 <= i < lo ==> is_whitespace(#[trigger] text@[i]),
        decreases len - lo,
    {
        lo += 1;
    }
    let mut hi: usize = len;
    while hi > lo && is_space(text[hi - 1])
        invariant
            lo <= hi <= len,
            len == text@.len(),
            forall|i: int| hi <= i < len ==> is_whitespace(#[trigger] text@[i]),
        decreases hi,
    {
        hi -= 1;
    }
    let ghost core = text@.subrange(lo as int, hi as int);
    proof {
        let tail = text@.subrange(lo as int, len as int);
        lemma_trim_start(text@, lo as int);
        assert forall|i: int| hi - lo <= i < tail.len() implies is_whitespace(
            #[trigger] tail[i],
        ) by {
            assert(tail[i] == text@[i + lo]);
        }
        lemma_trim_end(tail, hi - lo);
        assert(tail.subrange(0, hi - lo) =~= core);
        assert(trimmed(text@) == core);
    }
    if hi - lo >= 2 && text[lo] == PLUS {
        lo += 1;
    }
    let ghost digits = text@.subrange(lo as int, hi as int);
    assert(digits =~= unsigned(core));
    if lo == hi {
        return None;
    }
    let mut value: u16 = 0;
    let mut at: usize = lo;
    while at < hi
        invariant
            lo <= at <= hi <= len,
            len == text@.len(),
            digits == text@.subrange(lo as int, hi as int),
            digits == unsigned(trimmed(text@)),
            forall|i: int| 0 <= i < at - lo ==> is_digit(#[trigger] digits[i]),
            value == digits_value(digits.subrange(0, at - lo)),
            value <= PERCENT_MAX,
        decreases hi - at,
    {
        let byte: u8 = text[at];
        assert(byte == digits[at - lo]);
        if byte < ZERO || byte > 0x39 {
            return None;
        }
        proof {
            let longer = digits.subrange(0, at - lo + 1);
            assert(longer.drop_last() =~= digits.subrange(0, at - lo));
            assert(longer.last() == byte);
        }
        value = value * 10 + (byte - ZERO) as u16;
        at += 1;
        if value > PERCENT_MAX as u16 {
            proof {
                if all_digits(digits) {
                    lemma_value_grows(digits, at - lo);
                }
            }
            return None;
        }
    }
    assert(digits.subrange(0, at - lo) =~= digits);
    Some(value as u8)
}

/// Tells ASCII white space from other bytes.
fn is_space(byte: u8) -> (space: bool)
    ensures
        space == is_whitespace(byte),
{
    byte == 0x20 || (0x09 <= byte && byte <= 0x0d)
}

/// Writes `value` in base ten.
pub fn encode(value: u8) -> (text: Vec<u8>)
    ensures
        text@ == decimal(value as nat),
{
    let mut text: Vec<u8> = Vec::new();
    if value >= 100 {
        text.push(ZERO + value / 100);
    }
    if value >= 10 {
        text.push(ZERO + (value / 10) % 10);
    }
    text.push(ZERO + value % 10);
    proof {
        reveal_with_fuel(decimal, 3);
        assert(text@ =~= decimal(value as nat));
    }
    text
}

/// What `decimal` writes is digits alone, and they write `n`.
pub proof fn lemma_decimal_digits(n: nat)
    ensures
        decimal(n).len() > 0,
        all_digits(decimal(n)),
        digits_value(decimal(n)) == n,
    decreases n,
{
    if n < 10 {
        let text = decimal(n);
        assert(text.drop_last() =~= Seq::<u8>::empty());
        assert(digits_value(text.drop_last()) == 0);
    } else {
        lemma_decimal_digits(n / 10);
        let text = decimal(n);
        assert(text.drop_last() =~= decimal(n / 10));
        assert forall|i: int| 0 <= i < text.len() implies is_digit(#[trigger] text[i]) by {
            if i < text.len() - 1 {
                assert(text[i] == decimal(n / 10)[i]);
            }
        }
    }
}

/// A percentage that was written with `decimal` is read back by
/// `parse_percentage`: the two forms agree on every value up to 100.
pub proof fn lemma_decimal_parses(value: u8)
    requires
        value <= PERCENT_MAX,
    ensures
        parse_percentage(decimal(value as nat)) == Some(value),
{
    let text = decimal(value as nat);
    lemma_decimal_digits(value as nat);
    assert(is_digit(text[0]));
    assert(is_digit(text[text.len() - 1]));
    lemma_trim_start(text, 0);
    assert(text.subrange(0, text.len() as int) =~= text);
    lemma_trim_end(text, text.len() as int);
    assert(trimmed(text) == text);
    assert(unsigned(text) == text);
}

} // verus!

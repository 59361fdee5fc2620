use crate::error::ScaffoldError;
use vstd::prelude::*;
use vstd::utf8::encode_utf8;

verus! {

/// Blinding rows set aside when nothing else is asked for.
pub const DEFAULT_MINIMUM_ROWS: usize = 20;

/// Whether `byte` is an ASCII decimal digit.
pub open spec fn is_digit(byte: u8) -> bool {
    0x30 <= byte <= 0x39
}

/// The number that `digits` spell in base ten, most significant digit first.
/// A byte that is no digit counts as zero.
pub open spec fn digits_value(digits: Seq<u8>) -> nat
    decreases digits.len(),
{
    if digits.len() == 0 {
        0
    } else {
        let last = digits.last();
        digits_value(digits.drop_last()) * 10 + (if is_digit(last) {
            (last - 0x30) as nat
        } else {
            0
        })
    }
}

/// `text` without the one `+` that may lead it.
pub open spec fn without_plus(text: Seq<u8>) -> Seq<u8> {
    if text.len() > 0 && text[0] == 0x2b {
        text.subrange(1, text.len() as int)
    } else {
        text
    }
}

/// The unsigned number that `text` holds: an optional `+`, then one or more
/// decimal digits and nothing else, whose value a `usize` can hold.
pub open spec fn parse_decimal(text: Seq<u8>) -> Option<usize> {
    let digits = without_plus(text);
    if digits.len() > 0 && (forall|i: int| 0 <= i < digits.len() ==> is_digit(#[trigger] digits[i]))
        && digits_value(digits) <= usize::MAX {
        Some(digits_value(digits) as usize)
    } else {
        None
    }
}

/// A number never shrinks when more digits follow it.
proof fn lemma_digits_value_grows(digits: Seq<u8>, prefix: int)
    requires
        0 <= prefix <= digits.len(),
    ensures
        digits_value(digits.subrange(0, prefix)) <= digits_value(digits),
    decreases digits.len() - prefix,
{
    if prefix == digits.len() {
        assert(digits.subrange(0, prefix) == digits);
    } else {
        let longer = digits.subrange(0, prefix + 1);
        assert(longer.drop_last() == digits.subrange(0, prefix));
        lemma_digits_value_grows(digits, prefix + 1);
    }
}

/// Reads an unsigned decimal number.
pub fn parse_usize(text: &str) -> (value: Option<usize>)
    ensures
        value == parse_decimal(encode_utf8(text@)),
{
    let bytes = text.as_bytes();
    let len: usize = bytes.len();
    let start: usize = if len > 0 && bytes[0] == 0x2b {
        1
    } else {
        0
    };
    let ghost digits = without_plus(bytes@);
    assert(digits == bytes@.subrange(start as int, len as int));
    if start == len {
        return None;
    }
    let mut value: usize = 0;
    let mut i: usize = start;
    assert(digits.subrange(0, 0) == Seq::<u8>::empty());
    while i < len
        invariant
            start <= i <= len,
            len == bytes@.len(),
            digits == bytes@.subrange(start as int, len as int),
            digits == without_plus(encode_utf8(text@)),
            forall|j: int| 0 <= j < i - start ==> is_digit(#[trigger] digits[j]),
            value == digits_value(digits.subrange(0, i - start)),
        decreases len - i,
    {
        let byte: u8 = bytes[i];
        assert(byte == digits[i - start]);
        if byte < 0x30 || byte > 0x39 {
            return None;
        }
        let ghost read = digits.subrange(0, i - start + 1);
        proof {
            assert(read.drop_last() == digits.subrange(0, i - start));
            assert(read.last() == byte);
            lemma_digits_value_grows(digits, i - start + 1);
        }
        let digit: usize = (byte - 0x30) as usize;
        let shifted: usize = match value.checked_mul(10) {
            Some(shifted) => shifted,
            None => {
                return None;
            },
        };
        value = match shifted.checked_add(digit) {
            Some(sum) => sum,
            None => {
                return None;
            },
        };
        i = i + 1;
    }
    assert(digits.subrange(0, len - start) == digits);
    Some(value)
}

/// Optional overrides of how a circuit is sized, each as the text it was given in.
pub struct Tuning {
    /// Width of the lookup table, in bits; `None` for a circuit without one.
    pub lookup_bits: Option<String>,
    /// Rows set aside for blinding; `None` for `DEFAULT_MINIMUM_ROWS`.
    pub minimum_rows: Option<String>,
}

impl Tuning {
    /// The tuning that overrides nothing.
    pub open spec fn untuned() -> Tuning {
        Tuning { lookup_bits: None, minimum_rows: None }
    }

    /// No lookup table, and the default number of blinding rows.
    pub fn defaults() -> (tuning: Tuning)
        ensures
            tuning == Tuning::untuned(),
    {
        Tuning { lookup_bits: None, minimum_rows: None }
    }

    /// The lookup width asked for: `Ok(None)` without a table, an error where
    /// the text is no number.
    pub open spec fn lookup_width(&self) -> Result<Option<usize>, ScaffoldError> {
        match self.lookup_bits {
            None => Ok(None),
            Some(text) => match parse_decimal(encode_utf8(text@)) {
                Some(bits) => Ok(Some(bits)),
                None => Err(ScaffoldError::InvalidLookupBits),
            },
        }
    }

    /// The blinding rows asked for, `DEFAULT_MINIMUM_ROWS` where none are
    /// named, an error where the text is no number.
    pub open spec fn blinding_rows(&self) -> Result<usize, ScaffoldError> {
        match self.minimum_rows {
            None => Ok(DEFAULT_MINIMUM_ROWS),
            Some(text) => match parse_decimal(encode_utf8(text@)) {
                Some(rows) => Ok(rows),
                None => Err(ScaffoldError::InvalidMinimumRows),
            },
        }
    }

    /// Reads the lookup width.
    pub fn resolve_lookup_bits(&self) -> (width: Result<Option<usize>, ScaffoldError>)
        ensures
            width == self.lookup_width(),
    {
        match &self.lookup_bits {
            None => Ok(None),
            Some(text) => match parse_usize(text.as_str()) {
                Some(bits) => Ok(Some(bits)),
                None => Err(ScaffoldError::InvalidLookupBits),
            },
        }
    }

    /// Reads the number of blinding rows.
    pub fn resolve_minimum_rows(&self) -> (rows: Result<usize, ScaffoldError>)
        ensures
            rows == self.blinding_rows(),
    {
        match &self.minimum_rows {
            None => Ok(DEFAULT_MINIMUM_ROWS),
            Some(text) => match parse_usize(text.as_str()) {
                Some(rows) => Ok(rows),
                None => Err(ScaffoldError::InvalidMinimumRows),
            },
        }
    }
}

} // verus!

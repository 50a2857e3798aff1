//! The limits within which a text is handed to the JSON parser.
//!
//! The parser descends once for each array or object that opens inside
//! another, counts the items of an array in 32 bits, sums the digits of an
//! exponent into a machine word, keeps the keys of the objects that are open
//! in a buffer that it addresses in 16 bits, and loses its place where a comma
//! stands before the brace that closes an inner object. A text is looked over
//! first, byte by byte, and is parsed only where none of these can happen.
//!
//! The scan tells strings from what stands between them and does not parse
//! otherwise. So it measures a key by the bytes that spell it, escapes
//! included, and it may refuse a text that the parser would have rejected
//! before it came to the place.

use vstd::prelude::*;
use vstd::string::StringSliceAdditionalSpecFns;
use vstd::utf8::encode_utf8;

verus! {

/// The deepest nesting of arrays and objects that is parsed. The parser's
/// descent is bounded by the machine's stack alone; this many levels fit any.
pub const MAX_DEPTH: usize = 128;

/// The most bytes that the keys of the members that are open at once may
/// have together, as the text spells them: what 16 bits can address.
pub const MAX_OPEN_KEYS: usize = 0xFFFF;

/// The longest text that is parsed, in bytes: what keeps an array's items
/// countable in 32 bits.
pub const MAX_LENGTH: usize = 0xFFFF_FFFF;

pub const TAB: u8 = 0x09;

pub const LINE_FEED: u8 = 0x0A;

pub const CARRIAGE_RETURN: u8 = 0x0D;

pub const SPACE: u8 = 0x20;

pub const QUOTE: u8 = 0x22;

pub const PLUS: u8 = 0x2B;

pub const COMMA: u8 = 0x2C;

pub const MINUS: u8 = 0x2D;

pub const ZERO: u8 = 0x30;

pub const NINE: u8 = 0x39;

pub const COLON: u8 = 0x3A;

pub const UPPER_E: u8 = 0x45;

pub const OPEN_BRACKET: u8 = 0x5B;

pub const BACKSLASH: u8 = 0x5C;

pub const CLOSE_BRACKET: u8 = 0x5D;

pub const LOWER_E: u8 = 0x65;

pub const OPEN_BRACE: u8 = 0x7B;

pub const CLOSE_BRACE: u8 = 0x7D;

/// What is known of a text after some of its bytes.
pub struct Scan {
    /// Inside a string.
    pub in_string: bool,
    /// Inside a string, just behind a backslash that escapes the next byte.
    pub escaped: bool,
    /// The bytes between the quotes of the string that is being read, or of
    /// the last one that was read.
    pub string_length: nat,
    /// The last byte was a digit outside any string.
    pub after_digit: bool,
    /// The last byte was the `e` or `E` behind a digit.
    pub marked: bool,
    /// Behind an exponent's sign or among its digits.
    pub counting: bool,
    /// The number that the digits of the exponent make so far.
    pub exponent: nat,
    /// Outside any string, nothing but blanks came since the last comma.
    pub after_comma: bool,
    /// The bytes of the key of the member that is being read, once its colon
    /// has come.
    pub key: usize,
    /// For each array or object that is open, from the outermost on, the
    /// bytes of the key that it stands under; nothing for one that stands
    /// under no key.
    pub open: Seq<usize>,
    /// An array or object opened inside `MAX_DEPTH` others.
    pub too_deep: bool,
    /// A key came that, with the keys of what is open around it, has more
    /// than `MAX_OPEN_KEYS` bytes.
    pub keys_overrun: bool,
    /// An exponent came that is more than a machine word holds.
    pub exponent_overrun: bool,
    /// A comma came before the brace that closes an array or object inside
    /// another.
    pub dangling_comma: bool,
}

pub open spec fn is_digit(byte: u8) -> bool {
    ZERO <= byte <= NINE
}

pub open spec fn is_blank(byte: u8) -> bool {
    byte == SPACE || byte == LINE_FEED || byte == CARRIAGE_RETURN || byte == TAB
}

pub open spec fn is_opener(byte: u8) -> bool {
    byte == OPEN_BRACKET || byte == OPEN_BRACE
}

pub open spec fn is_closer(byte: u8) -> bool {
    byte == CLOSE_BRACKET || byte == CLOSE_BRACE
}

pub open spec fn is_exponent_mark(byte: u8) -> bool {
    byte == UPPER_E || byte == LOWER_E
}

pub open spec fn is_sign(byte: u8) -> bool {
    byte == PLUS || byte == MINUS
}

/// Some numbers added up.
pub open spec fn total(lengths: Seq<usize>) -> nat
    decreases lengths.len(),
{
    if lengths.len() == 0 {
        0
    } else {
        total(lengths.drop_last()) + lengths.last() as nat
    }
}

/// What is open after a byte: a bracket or brace opens one more level, under
/// the key given, unless `MAX_DEPTH` are open; a closing one closes the
/// innermost.
pub open spec fn nested(open: Seq<usize>, key: usize, byte: u8) -> Seq<usize> {
    if is_opener(byte) && open.len() < MAX_DEPTH {
        open.push(key)
    } else if is_closer(byte) && open.len() > 0 {
        open.drop_last()
    } else {
        open
    }
}

/// The number that an exponent's digits make with one digit more.
pub open spec fn grown(exponent: nat, byte: u8) -> nat {
    (exponent * 10 + (byte - ZERO)) as nat
}

/// Before the first byte.
pub open spec fn start() -> Scan {
    Scan {
        in_string: false,
        escaped: false,
        string_length: 0,
        after_digit: false,
        marked: false,
        counting: false,
        exponent: 0,
        after_comma: false,
        key: 0,
        open: Seq::empty(),
        too_deep: false,
        keys_overrun: false,
        exponent_overrun: false,
        dangling_comma: false,
    }
}

/// One byte further inside a string. The string runs to the next quote that
/// no backslash escapes.
pub open spec fn step_inside(scan: Scan, byte: u8) -> Scan {
    let closes = !scan.escaped && byte == QUOTE;
    Scan {
        in_string: !closes,
        escaped: !scan.escaped && byte == BACKSLASH,
        string_length: if closes {
            scan.string_length
        } else {
            scan.string_length + 1
        },
        ..scan
    }
}

/// One byte further outside any string.
///
/// A quote opens a string. An exponent is an `e` or `E` behind a digit, then
/// at most one sign, then digits. A colon makes the last string the key of a
/// member. A bracket or brace opens an array or object under the key that is
/// being read, or closes the innermost one; either ends the member's key, and
/// so does a comma.
pub open spec fn step_outside(scan: Scan, byte: u8) -> Scan {
    let exponent_digit = is_digit(byte) && (scan.marked || scan.counting);
    let fitting = total(scan.open) + scan.string_length <= MAX_OPEN_KEYS;
    Scan {
        in_string: byte == QUOTE,
        escaped: false,
        string_length: if byte == QUOTE {
            0
        } else {
            scan.string_length
        },
        after_digit: is_digit(byte),
        marked: scan.after_digit && is_exponent_mark(byte),
        counting: exponent_digit || (scan.marked && is_sign(byte)),
        exponent: if exponent_digit && grown(scan.exponent, byte) <= usize::MAX {
            grown(scan.exponent, byte)
        } else {
            0
        },
        after_comma: byte == COMMA || (scan.after_comma && is_blank(byte)),
        key: if byte == COLON && fitting {
            scan.string_length as usize
        } else if byte == COLON || byte == COMMA || is_opener(byte) || is_closer(byte) {
            0
        } else {
            scan.key
        },
        open: nested(scan.open, scan.key, byte),
        too_deep: scan.too_deep || (is_opener(byte) && scan.open.len() >= MAX_DEPTH),
        keys_overrun: scan.keys_overrun || (byte == COLON && !fitting),
        exponent_overrun: scan.exponent_overrun || (exponent_digit && grown(scan.exponent, byte)
            > usize::MAX),
        dangling_comma: scan.dangling_comma || (byte == CLOSE_BRACE && scan.after_comma
            && scan.open.len() > 1),
    }
}

/// One byte further.
pub open spec fn step(scan: Scan, byte: u8) -> Scan {
    if scan.in_string {
        step_inside(scan, byte)
    } else {
        step_outside(scan, byte)
    }
}

/// After all of the bytes.
pub open spec fn scan(bytes: Seq<u8>) -> Scan
    decreases bytes.len(),
{
    if bytes.len() == 0 {
        start()
    } else {
        step(scan(bytes.drop_last()), bytes.last())
    }
}

/// Whether a text is handed to the parser: it is no longer than
/// [`MAX_LENGTH`] bytes, nests no deeper than [`MAX_DEPTH`], has no more
/// than [`MAX_OPEN_KEYS`] bytes of keys open at once, no exponent beyond a
/// machine word, and no comma before the closing brace of an inner object.
pub open spec fn within_limits(text: Seq<char>) -> bool {
    let bytes = encode_utf8(text);
    let end = scan(bytes);
    &&& bytes.len() <= MAX_LENGTH
    &&& !end.too_deep
    &&& !end.keys_overrun
    &&& !end.exponent_overrun
    &&& !end.dangling_comma
}

/// An exponent with one digit more, where a machine word holds it.
fn grow(exponent: usize, byte: u8) -> (next: Option<usize>)
    requires
        is_digit(byte),
    ensures
        match next {
            Some(value) => value == grown(exponent as nat, byte),
            None => grown(exponent as nat, byte) > usize::MAX,
        },
{
    let digit = (byte - ZERO) as usize;
    if exponent <= (usize::MAX - digit) / 10 {
        Some(exponent * 10 + digit)
    } else {
        None
    }
}

/// Opens or closes a level and keeps the sum of the keys that are open.
fn nest(open: &mut Vec<usize>, open_keys: &mut usize, key: usize, byte: u8)
    requires
        old(open)@.len() <= MAX_DEPTH,
        *old(open_keys) == total(old(open)@),
        *old(open_keys) + key <= MAX_OPEN_KEYS,
    ensures
        final(open)@ == nested(old(open)@, key, byte),
        final(open)@.len() <= MAX_DEPTH,
        *final(open_keys) == total(final(open)@),
        *final(open_keys) <= MAX_OPEN_KEYS,
{
    let ghost before = open@;
    if byte == OPEN_BRACKET || byte == OPEN_BRACE {
        if open.len() < MAX_DEPTH {
            open.push(key);
            *open_keys = *open_keys + key;
            assert(open@.drop_last() == before);
        }
    } else if byte == CLOSE_BRACKET || byte == CLOSE_BRACE {
        match open.pop() {
            Some(under) => {
                *open_keys = *open_keys - under;
            },
            None => {},
        }
    }
}

/// Looks a text over, byte by byte.
pub fn fits(text: &str) -> (within: bool)
    ensures
        within == within_limits(text@),
{
    let bytes = text.as_bytes();
    let n = bytes.len();
    if n > MAX_LENGTH {
        return false;
    }
    let mut in_string = false;
    let mut escaped = false;
    let mut string_length: usize = 0;
    let mut after_digit = false;
    let mut marked = false;
    let mut counting = false;
    let mut exponent: usize = 0;
    let mut after_comma = false;
    let mut key: usize = 0;
    let mut open: Vec<usize> = Vec::new();
    let mut open_keys: usize = 0;
    let mut too_deep = false;
    let mut keys_overrun = false;
    let mut exponent_overrun = false;
    let mut dangling_comma = false;
    let mut i: usize = 0;
    while i < n
        invariant
            i <= n,
            n == bytes@.len(),
            string_length <= i,
            open@.len() <= MAX_DEPTH,
            open_keys == total(open@),
            open_keys + key <= MAX_OPEN_KEYS,
            scan(bytes@.take(i as int)) == (Scan {
                in_string,
                escaped,
                string_length: string_length as nat,
                after_digit,
                marked,
                counting,
                exponent: exponent as nat,
                after_comma,
                key,
                open: open@,
                too_deep,
                keys_overrun,
                exponent_overrun,
                dangling_comma,
            }),
        decreases n - i,
    {
        let byte = bytes[i];
        assert(bytes@.take(i + 1).drop_last() == bytes@.take(i as int));
        assert(bytes@.take(i + 1).last() == byte);
        if in_string {
            let closes = !escaped && byte == QUOTE;
            escaped = !escaped && byte == BACKSLASH;
            in_string = !closes;
            if !closes {
                string_length = string_length + 1;
            }
        } else {
            let digit = ZERO <= byte && byte <= NINE;
            let exponent_digit = digit && (marked || counting);
            let opener = byte == OPEN_BRACKET || byte == OPEN_BRACE;
            let closer = byte == CLOSE_BRACKET || byte == CLOSE_BRACE;
            let blank = byte == SPACE || byte == LINE_FEED || byte == CARRIAGE_RETURN || byte
                == TAB;
            if byte == CLOSE_BRACE && after_comma && open.len() > 1 {
                dangling_comma = true;
            }
            if exponent_digit {
                match grow(exponent, byte) {
                    Some(value) => {
                        exponent = value;
                    },
                    None => {
                        exponent = 0;
                        exponent_overrun = true;
                    },
                }
            } else {
                exponent = 0;
            }
            if opener && open.len() >= MAX_DEPTH {
                too_deep = true;
            }
            nest(&mut open, &mut open_keys, key, byte);
            if opener || closer {
                key = 0;
            } else if byte == COLON {
                if string_length <= MAX_OPEN_KEYS - open_keys {
                    key = string_length;
                } else {
                    key = 0;
                    keys_overrun = true;
                }
            } else if byte == COMMA {
                key = 0;
            }
            counting = exponent_digit || (marked && (byte == PLUS || byte == MINUS));
            marked = after_digit && (byte == UPPER_E || byte == LOWER_E);
            after_digit = digit;
            after_comma = byte == COMMA || (after_comma && blank);
            in_string = byte == QUOTE;
            escaped = false;
            if byte == QUOTE {
                string_length = 0;
            }
        }
        i = i + 1;
    }
    assert(bytes@.take(n as int) == bytes@);
    !too_deep && !keys_overrun && !exponent_overrun && !dangling_comma
}

} // verus!

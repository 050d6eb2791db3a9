//! What the program is asked to do: show the animation in a window, or save
//! it as a file of a given resolution.
//!
//! A resolution is written as width, `x`, height, each a whole number from 1
//! to 65535 in decimal digits, with an optional `+` in front, and nothing
//! else.

use vstd::prelude::*;
use vstd::string::StrSliceExecFns;

verus! {

/// Speed of the animation in a window where none is asked for.
pub const DEFAULT_SPEED: u8 = 1;

/// Speed of a saved animation.
pub const SAVE_SPEED: u8 = 10;

/// Resolution of a saved animation where none is asked for.
pub const DEFAULT_RESOLUTION: [u16; 2] = [512, 512];

/// Which part of a resolution is not a number from 1 to 65535.
#[derive(Clone, Copy, Debug, PartialEq, Eq, Structural)]
pub enum ResolutionError {
    InvalidWidth,
    InvalidHeight,
}

/// What the program does.
#[derive(Clone, Debug, PartialEq, Eq)]
pub enum RunMode {
    /// Render to a window.
    Interactive { speed: u8 },
    /// Capture frames and save them as `filename`.
    Save { filename: String, speed: u8, resolution: [u16; 2] },
}

pub open spec fn is_digit(c: char) -> bool {
    '0' <= c <= '9'
}

/// Value of a sequence of decimal digits.
pub open spec fn decimal(digits: Seq<char>) -> nat
    decreases digits.len(),
{
    if digits.len() == 0 {
        0
    } else {
        10 * decimal(digits.drop_last()) + (digits.last() as u32 - '0' as u32) as nat
    }
}

/// A field without its optional sign.
pub open spec fn unsigned(field: Seq<char>) -> Seq<char> {
    if field.len() > 0 && field[0] == '+' {
        field.drop_first()
    } else {
        field
    }
}

/// The dimension that a field stands for.
pub open spec fn parse_dimension(field: Seq<char>) -> Option<u16> {
    let digits = unsigned(field);
    if digits.len() > 0 && (forall|i: int| 0 <= i < digits.len() ==> is_digit(#[trigger] digits[i]))
        && 1 <= decimal(digits) <= 65535 {
        Some(decimal(digits) as u16)
    } else {
        None
    }
}

/// Position of the first `x` at or behind `start`, or the length of the text
/// where there is none.
pub open spec fn field_end(text: Seq<char>, start: int) -> int
    decreases text.len() - start,
{
    if start < 0 || start >= text.len() {
        text.len() as int
    } else if text[start] == 'x' {
        start
    } else {
        field_end(text, start + 1)
    }
}

/// The resolution that a text stands for: the width is what stands before the
/// first `x`, the height all that stands behind it. A text without an `x`
/// has no height.
pub open spec fn resolution_of(text: Seq<char>) -> Result<[u16; 2], ResolutionError> {
    let first = field_end(text, 0);
    match parse_dimension(text.subrange(0, first)) {
        None => Err(ResolutionError::InvalidWidth),
        Some(width) => if first >= text.len() {
            Err(ResolutionError::InvalidHeight)
        } else {
            match parse_dimension(text.subrange(first + 1, text.len() as int)) {
                None => Err(ResolutionError::InvalidHeight),
                Some(height) => Ok([width, height]),
            }
        },
    }
}

/// A text that stands for a resolution holds one `x` and no more: the one
/// between width and height.
pub proof fn lemma_resolution_has_one_separator(text: Seq<char>)
    requires
        resolution_of(text) is Ok,
    ensures
        0 <= field_end(text, 0) < text.len(),
        text[field_end(text, 0)] == 'x',
        forall|i: int| 0 <= i < text.len() && i != field_end(text, 0) ==> text[i] != 'x',
{
    lemma_field_end(text, 0);
    let first = field_end(text, 0);
    let field = text.subrange(first + 1, text.len() as int);
    let digits = unsigned(field);
    assert forall|i: int| 0 <= i < text.len() && i != first implies text[i] != 'x' by {
        if i > first {
            let k = i - first - 1;
            assert(text[i] == field[k]);
            if field[0] == '+' {
                if k > 0 {
                    assert(is_digit(digits[k - 1]));
                    assert(field[k] == digits[k - 1]);
                }
            } else {
                assert(is_digit(digits[k]));
            }
        }
    }
}

proof fn lemma_field_end(text: Seq<char>, start: int)
    requires
        0 <= start <= text.len(),
    ensures
        start <= field_end(text, start) <= text.len(),
        field_end(text, start) < text.len() ==> text[field_end(text, start)] == 'x',
        forall|i: int| start <= i < field_end(text, start) ==> text[i] != 'x',
    decreases text.len() - start,
{
    if start < text.len() && text[start] != 'x' {
        lemma_field_end(text, start + 1);
    }
}

proof fn lemma_decimal_grows(digits: Seq<char>, k: int)
    requires
        0 <= k <= digits.len(),
        forall|i: int| 0 <= i < digits.len() ==> is_digit(#[trigger] digits[i]),
    ensures
        decimal(digits.subrange(0, k)) <= decimal(digits),
    decreases digits.len() - k,
{
    if k == digits.len() {
        assert(digits.subrange(0, k) =~= digits);
    } else {
        lemma_decimal_grows(digits, k + 1);
        let longer = digits.subrange(0, k + 1);
        assert(longer.drop_last() =~= digits.subrange(0, k));
        assert(is_digit(digits[k]));
        assert(longer.last() == digits[k]);
    }
}

fn find_field_end(text: &str, start: usize, len: usize) -> (end: usize)
    requires
        start <= len,
        len == text@.len(),
    ensures
        end == field_end(text@, start as int),
        start <= end <= len,
{
    let mut i: usize = start;
    proof {
        lemma_field_end(text@, start as int);
    }
    while i < len
        invariant
            start <= i <= len,
            len == text@.len(),
            field_end(text@, i as int) == field_end(text@, start as int),
        decreases len - i,
    {
        if text.get_char(i) == 'x' {
            return i;
        }
        i = i + 1;
    }
    i
}

fn parse_field(text: &str, start: usize, end: usize) -> (value: Option<u16>)
    requires
        start <= end <= text@.len(),
    ensures
        value == parse_dimension(text@.subrange(start as int, end as int)),
{
    let ghost field = text@.subrange(start as int, end as int);
    let ghost digits = unsigned(field);
    let mut i: usize = start;
    if i < end && text.get_char(i) == '+' {
        i = i + 1;
    }
    let first: usize = i;
    assert(digits =~= text@.subrange(first as int, end as int));
    if i == end {
        return None;
    }
    let mut value: u32 = 0;
    assert(digits.subrange(0, 0) =~= Seq::<char>::empty());
    while i < end
        invariant
            start <= first <= i <= end <= text@.len(),
            digits == text@.subrange(first as int, end as int),
            digits == unsigned(text@.subrange(start as int, end as int)),
            forall|j: int| 0 <= j < i - first ==> is_digit(#[trigger] digits[j]),
            value == decimal(digits.subrange(0, i - first)),
            value <= 65535,
        decreases end - i,
    {
        let c = text.get_char(i);
        assert(c == digits[i - first]);
        if !(c >= '0' && c <= '9') {
            assert(!is_digit(digits[i - first]));
            return None;
        }
        let ghost longer = digits.subrange(0, i - first + 1);
        assert(longer.drop_last() =~= digits.subrange(0, i - first));
        assert(longer.last() == c);
        value = value * 10 + (c as u32 - '0' as u32);
        if value > 65535 {
            proof {
                if forall|j: int| 0 <= j < digits.len() ==> is_digit(#[trigger] digits[j]) {
                    lemma_decimal_grows(digits, i - first + 1);
                }
            }
            return None;
        }
        i = i + 1;
    }
    assert(digits.subrange(0, i - first) =~= digits);
    if value == 0 {
        None
    } else {
        Some(value as u16)
    }
}

/// Reads a resolution. The width is looked at first: a text whose width and
/// height are both wrong has an invalid width.
pub fn parse_resolution(text: &str) -> (result: Result<[u16; 2], ResolutionError>)
    ensures
        result == resolution_of(text@),
{
    let len = text.unicode_len();
    let first = find_field_end(text, 0, len);
    let width = match parse_field(text, 0, first) {
        Some(width) => width,
        None => {
            return Err(ResolutionError::InvalidWidth);
        },
    };
    if first >= len {
        return Err(ResolutionError::InvalidHeight);
    }
    match parse_field(text, first + 1, len) {
        Some(height) => Ok([width, height]),
        None => Err(ResolutionError::InvalidHeight),
    }
}

/// What the given options ask for.
pub open spec fn mode_of(save: Option<String>, speed: Option<u8>, resolution: Option<Seq<char>>)
    -> Result<RunMode, ResolutionError> {
    match save {
        None => Ok(
            RunMode::Interactive {
                speed: match speed {
                    Some(speed) => speed,
                    None => DEFAULT_SPEED,
                },
            },
        ),
        Some(filename) => match resolution {
            None => Ok(
                RunMode::Save { filename, speed: SAVE_SPEED, resolution: DEFAULT_RESOLUTION },
            ),
            Some(text) => match resolution_of(text) {
                Ok(resolution) => Ok(RunMode::Save { filename, speed: SAVE_SPEED, resolution }),
                Err(error) => Err(error),
            },
        },
    }
}

/// Decides what to do. Without a file to save to, the animation runs in a
/// window at the speed asked for. With one, it is saved at the fixed speed
/// of saved animations, whatever speed was asked for, at the resolution asked
/// for; a resolution that cannot be read is an error.
pub fn run_mode(save: Option<String>, speed: Option<u8>, resolution: Option<&str>) -> (result:
    Result<RunMode, ResolutionError>)
    ensures
        result == mode_of(
            save,
            speed,
            match resolution {
                Some(text) => Some(text@),
                None => None,
            },
        ),
{
    match save {
        None => {
            let speed = match speed {
                Some(speed) => speed,
                None => DEFAULT_SPEED,
            };
            Ok(RunMode::Interactive { speed })
        },
        Some(filename) => match resolution {
            None => Ok(
                RunMode::Save { filename, speed: SAVE_SPEED, resolution: DEFAULT_RESOLUTION },
            ),
            Some(text) => match parse_resolution(text) {
                Ok(resolution) => Ok(RunMode::Save { filename, speed: SAVE_SPEED, resolution }),
                Err(error) => Err(error),
            },
        },
    }
}

} // verus!

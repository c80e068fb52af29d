use vstd::prelude::*;

verus! {

/// The number of samples when no count is given.
pub const DEFAULT_SAMPLE_COUNT: usize = 1000;

/// Why the sample count could not be read.
#[derive(Debug, Clone, Copy, PartialEq, Eq, Structural)]
pub enum StartupError {
    /// The count is not a nonnegative decimal integer that fits in `usize`.
    InvalidCount,
}

/// `c` is one of the digits `0` to `9`.
pub open spec fn is_digit(c: char) -> bool {
    '0' as u32 <= c as u32 <= '9' as u32
}

/// The value of the decimal numeral `s`, most significant digit first.
pub open spec fn decimal_value(s: Seq<char>) -> int
    decreases s.len(),
{
    if s.len() == 0 {
        0
    } else {
        decimal_value(s.drop_last()) * 10 + (s.last() as u32 - '0' as u32)
    }
}

/// `text` without the one leading `+` that it may have.
pub open spec fn digits_of(text: Seq<char>) -> Seq<char> {
    if text.len() > 0 && text[0] == '+' {
        text.drop_first()
    } else {
        text
    }
}

/// `text` is an optional `+` followed by one or more decimal digits.
pub open spec fn is_count_text(text: Seq<char>) -> bool {
    &&& digits_of(text).len() > 0
    &&& forall|i: int| 0 <= i < digits_of(text).len() ==> is_digit(#[trigger] digits_of(text)[i])
}

/// The count that `text` gives, or why it gives none.
pub open spec fn parsed_count(text: Seq<char>) -> Result<usize, StartupError> {
    if is_count_text(text) && decimal_value(digits_of(text)) <= usize::MAX {
        Ok(decimal_value(digits_of(text)) as usize)
    } else {
        Err(StartupError::InvalidCount)
    }
}

/// Reads a sample count written as a decimal integer, with an optional
/// leading `+`. Anything else, surrounding spaces and signs `-` included, and
/// any number beyond `usize::MAX`, is refused.
pub fn parse_count(text: &str) -> (r: Result<usize, StartupError>)
    ensures
        r == parsed_count(text@),
{
    let ghost s = text@;
    let ghost mut start: int = 0;
    let mut value: usize = 0;
    let mut first: bool = true;
    let mut signed: bool = false;
    let mut digits: bool = false;
    let mut overflow: bool = false;
    for c in it: text.chars()
        invariant
            s == text@,
            it.seq() == s,
            first == (it.index() == 0),
            start == (if signed { 1int } else { 0int }),
            signed == (it.index() > 0 && s[0] == '+'),
            digits == (it.index() > start),
            start <= it.index(),
            forall|j: int| start <= j < it.index() ==> is_digit(#[trigger] s[j]),
            !overflow ==> value as int == decimal_value(s.subrange(start, it.index())),
            overflow ==> decimal_value(s.subrange(start, it.index())) > usize::MAX,
    {
        let ghost position = it.index();
        let ghost before = s.subrange(start, position);
        assert(c == s[position]);
        if first && c == '+' {
            signed = true;
            proof {
                start = 1;
            }
            assert(s.subrange(start, 1) =~= Seq::<char>::empty());
        } else {
            let code = c as u32;
            if code < '0' as u32 || code > '9' as u32 {
                assert(digits_of(s) =~= s.subrange(start, s.len() as int));
                assert(digits_of(s)[position - start] == c);
                assert(!is_digit(digits_of(s)[position - start]));
                return Err(StartupError::InvalidCount);
            }
            let digit = (code - '0' as u32) as usize;
            let ghost after = s.subrange(start, position + 1);
            assert(after.drop_last() =~= before);
            assert(decimal_value(after) == decimal_value(before) * 10 + digit);
            if !overflow {
                match value.checked_mul(10) {
                    Some(tens) => match tens.checked_add(digit) {
                        Some(next) => {
                            value = next;
                        },
                        None => {
                            overflow = true;
                        },
                    },
                    None => {
                        overflow = true;
                    },
                }
            }
            digits = true;
        }
        first = false;
    }
    assert(s.subrange(start, s.len() as int) =~= digits_of(s));
    if !digits || overflow {
        return Err(StartupError::InvalidCount);
    }
    Ok(value)
}

/// The sample count that a program's argument list asks for: the default
/// when there is no argument after the program's name, else the first such
/// argument read as a count.
pub fn sample_count(args: &Vec<String>) -> (r: Result<usize, StartupError>)
    ensures
        args@.len() < 2 ==> r == Ok::<usize, StartupError>(DEFAULT_SAMPLE_COUNT),
        args@.len() >= 2 ==> r == parsed_count(args@[1]@),
{
    if args.len() < 2 {
        Ok(DEFAULT_SAMPLE_COUNT)
    } else {
        parse_count(args[1].as_str())
    }
}

} // verus!

use vstd::prelude::*;

verus! {

/// The stable identifier of a menu choice. `Play` and `Test` select the
/// top-level mode; `Keep` and `Switch` answer the second-pick question.
#[derive(Debug)]
pub enum GameOptionEnum {
    Play,
    Test,
    Keep,
    Switch,
}

/// One entry of an interactive menu: a stable identifier paired with the
/// label that the terminal shows for it.
#[derive(Debug)]
pub struct GameOption<'msg> {
    pub option: GameOptionEnum,
    pub message: &'msg str,
}

/// The byte is the ASCII code of a decimal digit.
pub open spec fn is_digit(b: u8) -> bool {
    48 <= b <= 57
}

/// Every byte of the sequence is a decimal digit.
pub open spec fn is_digit_seq(s: Seq<u8>) -> bool {
    forall|i: int| 0 <= i < s.len() ==> is_digit(#[trigger] s[i])
}

/// The number that a sequence of ASCII digits spells in base ten; the
/// empty sequence spells zero.
pub open spec fn digit_seq_value(s: Seq<u8>) -> int
    decreases s.len(),
{
    if s.len() == 0 {
        0
    } else {
        10 * digit_seq_value(s.drop_last()) + (s.last() - 48)
    }
}

proof fn lemma_digit_seq_value_nonneg(s: Seq<u8>)
    requires
        is_digit_seq(s),
    ensures
        digit_seq_value(s) >= 0,
    decreases s.len(),
{
    if s.len() > 0 {
        assert(is_digit_seq(s.drop_last()));
        lemma_digit_seq_value_nonneg(s.drop_last());
    }
}

/// Reading further digits never shrinks the value: each step multiplies
/// the prefix value by ten and adds a digit.
proof fn lemma_digit_seq_value_prefix_le(s: Seq<u8>, i: int)
    requires
        is_digit_seq(s),
        0 <= i <= s.len(),
    ensures
        digit_seq_value(s.take(i)) <= digit_seq_value(s),
    decreases s.len() - i,
{
    if i == s.len() {
        assert(s.take(i) =~= s);
    } else {
        assert(s.take(i + 1).drop_last() =~= s.take(i));
        assert(is_digit_seq(s.take(i)));
        lemma_digit_seq_value_nonneg(s.take(i));
        assert(digit_seq_value(s.take(i + 1)) == 10 * digit_seq_value(s.take(i)) + (s[i] - 48));
        lemma_digit_seq_value_prefix_le(s, i + 1);
    }
}

/// Base-ten parsing of a byte string, as the numeric prompt needs it: the
/// result is the spelled value exactly when the input is one or more
/// decimal digits whose value fits in a u64, and nothing otherwise.
pub fn parse_u64(digits: &[u8]) -> (parsed: Option<u64>)
    ensures
        match parsed {
            Some(value) => digits@.len() > 0 && is_digit_seq(digits@) && digit_seq_value(digits@)
                == value,
            None => digits@.len() == 0 || !is_digit_seq(digits@) || digit_seq_value(digits@)
                > u64::MAX,
        },
{
    if digits.len() == 0 {
        return None;
    }

    let mut value: u64 = 0;
    let mut i: usize = 0;
    while i < digits.len()
        invariant
            0 <= i <= digits@.len(),
            is_digit_seq(digits@.take(i as int)),
            digit_seq_value(digits@.take(i as int)) == value,
        decreases digits@.len() - i,
    {
        let b = digits[i];
        if b < 48 || b > 57 {
            proof {
                assert(!is_digit(digits@[i as int]));
            }
            return None;
        }
        let digit = (b - 48) as u64;
        proof {
            assert(digits@.take(i as int + 1).drop_last() =~= digits@.take(i as int));
            assert(digits@.take(i as int + 1).last() == digits@[i as int]);
            assert(is_digit_seq(digits@.take(i as int + 1)));
        }
        if value > u64::MAX / 10 || (value == u64::MAX / 10 && digit > u64::MAX % 10) {
            // The digits read so far already spell more than a u64 holds,
            // and further digits only grow the value.
            proof {
                if is_digit_seq(digits@) {
                    lemma_digit_seq_value_prefix_le(digits@, i as int + 1);
                }
            }
            return None;
        }
        value = value * 10 + digit;
        i = i + 1;
    }
    proof {
        assert(digits@.take(digits@.len() as int) =~= digits@);
    }
    Some(value)
}

/// The numeric prompt's acceptance rule: the trimmed line is accepted
/// exactly when it spells a number within `[start, end]`, and the accepted
/// number is that value. Unparseable input, and values outside the range,
/// are rejected.
pub fn validate_number_input(digits: &[u8], start: u64, end: u64) -> (validated: Option<u64>)
    ensures
        match validated {
            Some(value) => {
                &&& start <= value <= end
                &&& digits@.len() > 0
                &&& is_digit_seq(digits@)
                &&& digit_seq_value(digits@) == value
            },
            None => digits@.len() == 0 || !is_digit_seq(digits@) || digit_seq_value(digits@)
                < start || digit_seq_value(digits@) > end,
        },
{
    match parse_u64(digits) {
        Some(number) => {
            if number >= start && number <= end {
                Some(number)
            } else {
                None
            }
        },
        None => None,
    }
}

} // verus!

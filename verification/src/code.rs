//! The codes given to children who come without one.

use vstd::prelude::*;
use vstd::string::StringExecFns;

verus! {

/// What every generated code starts with.
pub const CODE_PREFIX: &'static str = "CSB-";

/// Number of hexadecimal digits after the prefix.
pub const CODE_DIGITS: usize = 8;

/// How many codes are tried before giving up.
pub const MAX_CODE_ATTEMPTS: usize = 16;

pub open spec fn hex_digit(n: int) -> char {
    seq!['0', '1', '2', '3', '4', '5', '6', '7', '8', '9', 'A', 'B', 'C', 'D', 'E', 'F'][n]
}

pub open spec fn is_hex_digit(c: char) -> bool {
    exists|n: int| 0 <= n < 16 && c == #[trigger] hex_digit(n)
}

/// The 32 leading bits of an identifier of 128 bits.
pub open spec fn leading_word(value: u128) -> int {
    value as int / 0x1_0000_0000_0000_0000_0000_0000
}

/// The leading word on eight hexadecimal digits, in upper case.
pub open spec fn code_digits(value: u128) -> Seq<char> {
    let word = leading_word(value);
    seq![
        hex_digit(word / 0x1000_0000 % 16),
        hex_digit(word / 0x100_0000 % 16),
        hex_digit(word / 0x10_0000 % 16),
        hex_digit(word / 0x1_0000 % 16),
        hex_digit(word / 0x1000 % 16),
        hex_digit(word / 0x100 % 16),
        hex_digit(word / 0x10 % 16),
        hex_digit(word % 16),
    ]
}

/// The code made from an identifier.
pub open spec fn code_of(value: u128) -> Seq<char> {
    CODE_PREFIX@ + code_digits(value)
}

/// The prefix, then eight hexadecimal digits in upper case.
pub open spec fn has_code_format(code: Seq<char>) -> bool {
    &&& code.len() == CODE_PREFIX@.len() + CODE_DIGITS
    &&& code.take(CODE_PREFIX@.len() as int) == CODE_PREFIX@
    &&& forall|i: int| CODE_PREFIX@.len() <= i < code.len() ==> is_hex_digit(#[trigger] code[i])
}

/// Every code made from an identifier has the format.
pub proof fn lemma_code_has_format(value: u128)
    ensures
        has_code_format(code_of(value)),
{
    let code = code_of(value);
    let digits = code_digits(value);
    let word = leading_word(value);
    assert(code.take(CODE_PREFIX@.len() as int) =~= CODE_PREFIX@);
    assert forall|i: int| CODE_PREFIX@.len() <= i < code.len() implies is_hex_digit(#[trigger] code[i]) by {
        let k = i - CODE_PREFIX@.len();
        assert(code[i] == digits[k]);
        let n = if k == 0 {
            word / 0x1000_0000 % 16
        } else if k == 1 {
            word / 0x100_0000 % 16
        } else if k == 2 {
            word / 0x10_0000 % 16
        } else if k == 3 {
            word / 0x1_0000 % 16
        } else if k == 4 {
            word / 0x1000 % 16
        } else if k == 5 {
            word / 0x100 % 16
        } else if k == 6 {
            word / 0x10 % 16
        } else {
            word % 16
        };
        assert(0 <= n < 16);
        assert(digits[k] == hex_digit(n));
    }
}

/// `uuid::Uuid::new_v4`, then `Uuid::as_u128`: a fresh random identifier.
/// Nothing is stated of it: any number of 128 bits may come.
#[verifier::external_body]
fn fresh_uuid() -> (value: u128) {
    uuid::Uuid::new_v4().as_u128()
}

fn hex_text(n: u128) -> (text: &'static str)
    requires
        n < 16,
    ensures
        text@ == seq![hex_digit(n as int)],
{
    proof {
        reveal_strlit("0");
        reveal_strlit("1");
        reveal_strlit("2");
        reveal_strlit("3");
        reveal_strlit("4");
        reveal_strlit("5");
        reveal_strlit("6");
        reveal_strlit("7");
        reveal_strlit("8");
        reveal_strlit("9");
        reveal_strlit("A");
        reveal_strlit("B");
        reveal_strlit("C");
        reveal_strlit("D");
        reveal_strlit("E");
        reveal_strlit("F");
    }
    let text = if n == 0 {
        "0"
    } else if n == 1 {
        "1"
    } else if n == 2 {
        "2"
    } else if n == 3 {
        "3"
    } else if n == 4 {
        "4"
    } else if n == 5 {
        "5"
    } else if n == 6 {
        "6"
    } else if n == 7 {
        "7"
    } else if n == 8 {
        "8"
    } else if n == 9 {
        "9"
    } else if n == 10 {
        "A"
    } else if n == 11 {
        "B"
    } else if n == 12 {
        "C"
    } else if n == 13 {
        "D"
    } else if n == 14 {
        "E"
    } else {
        "F"
    };
    assert(text@ =~= seq![hex_digit(n as int)]);
    text
}

/// The code made from an identifier: the prefix, then the identifier's 32
/// leading bits on eight hexadecimal digits in upper case.
pub fn code_from_uuid(value: u128) -> (code: String)
    ensures
        code@ == code_of(value),
        has_code_format(code@),
{
    let word: u128 = value / 0x1_0000_0000_0000_0000_0000_0000u128;
    let mut code = String::from_str(CODE_PREFIX);
    code.append(hex_text(word / 0x1000_0000u128 % 16));
    code.append(hex_text(word / 0x100_0000u128 % 16));
    code.append(hex_text(word / 0x10_0000u128 % 16));
    code.append(hex_text(word / 0x1_0000u128 % 16));
    code.append(hex_text(word / 0x1000u128 % 16));
    code.append(hex_text(word / 0x100u128 % 16));
    code.append(hex_text(word / 0x10u128 % 16));
    code.append(hex_text(word % 16));
    proof {
        assert(code@ =~= code_of(value));
        lemma_code_has_format(value);
    }
    code
}

/// A code made from a fresh random identifier.
pub fn fresh_code() -> (code: String)
    ensures
        has_code_format(code@),
{
    code_from_uuid(fresh_uuid())
}

} // verus!

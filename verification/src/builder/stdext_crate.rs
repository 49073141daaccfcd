use crate::builder::native::{module_crate, module_functions, module_marked, module_with_crate};
use vstd::prelude::*;
use vstd::utf8::encode_utf8;

verus! {

/// Why a text is not a 32-bit integer.
#[derive(Debug, Clone, Copy, PartialEq, Eq, Structural)]
pub enum ParseFailure {
    /// The text is empty.
    Empty,
    /// The text holds something that is no decimal digit, or only a sign.
    InvalidDigit,
    /// The number is too large.
    PosOverflow,
    /// The number is too small.
    NegOverflow,
}

/// What a [`ParseFailure`] says to the script.
pub open spec fn failure_message(failure: ParseFailure) -> Seq<char> {
    match failure {
        ParseFailure::Empty => "cannot parse integer from empty string"@,
        ParseFailure::InvalidDigit => "invalid digit found in string"@,
        ParseFailure::PosOverflow => "number too large to fit in target type"@,
        ParseFailure::NegOverflow => "number too small to fit in target type"@,
    }
}

impl ParseFailure {
    /// The failure in words.
    pub fn message(self) -> (message: String)
        ensures
            message@ == failure_message(self),
    {
        match self {
            ParseFailure::Empty => "cannot parse integer from empty string".to_owned(),
            ParseFailure::InvalidDigit => "invalid digit found in string".to_owned(),
            ParseFailure::PosOverflow => "number too large to fit in target type".to_owned(),
            ParseFailure::NegOverflow => "number too small to fit in target type".to_owned(),
        }
    }
}

/// `Value`'s `Debug` form as text.
#[verifier::external_body]
fn value_debug(value: &rune::Value) -> (description: String) {
    format!("{value:?}")
}

/// `Module::function(..).build()` for `vtos`: where it succeeds the module
/// offers one function more, under that name. It fails where the module
/// already offers the name. The module stays that of its crate, and its
/// mark stays as it is.
#[verifier::external_body]
fn add_vtos(module: &mut rune::Module) -> (added: Result<(), rune::ContextError>)
    ensures
        module_crate(*final(module)) == module_crate(*old(module)),
        module_marked(*final(module)) == module_marked(*old(module)),
        added is Ok ==> module_functions(*final(module)) == module_functions(*old(module)).push(
            "vtos"@,
        ),
{
    module.function("vtos", |value: rune::Value| STDExtCrate::vtos(&value)).build().map(|_| ())
}

/// `Module::function(..).build()` for `itol`: where it succeeds the module
/// offers one function more, under that name. It fails where the module
/// already offers the name. The module stays that of its crate, and its
/// mark stays as it is.
#[verifier::external_body]
fn add_itol(module: &mut rune::Module) -> (added: Result<(), rune::ContextError>)
    ensures
        module_crate(*final(module)) == module_crate(*old(module)),
        module_marked(*final(module)) == module_marked(*old(module)),
        added is Ok ==> module_functions(*final(module)) == module_functions(*old(module)).push(
            "itol"@,
        ),
{
    module.function("itol", |i: i32| STDExtCrate::itol(i)).build().map(|_| ())
}

/// `Module::function(..).build()` for `ltoi`: where it succeeds the module
/// offers one function more, under that name. It fails where the module
/// already offers the name. The module stays that of its crate, and its
/// mark stays as it is.
#[verifier::external_body]
fn add_ltoi(module: &mut rune::Module) -> (added: Result<(), rune::ContextError>)
    ensures
        module_crate(*final(module)) == module_crate(*old(module)),
        module_marked(*final(module)) == module_marked(*old(module)),
        added is Ok ==> module_functions(*final(module)) == module_functions(*old(module)).push(
            "ltoi"@,
        ),
{
    module.function("ltoi", |l: i64| STDExtCrate::ltoi(l)).build().map(|_| ())
}

/// `Module::function(..).build()` for `stoi`: where it succeeds the module
/// offers one function more, under that name. It fails where the module
/// already offers the name. The module stays that of its crate, and its
/// mark stays as it is.
#[verifier::external_body]
fn add_stoi(module: &mut rune::Module) -> (added: Result<(), rune::ContextError>)
    ensures
        module_crate(*final(module)) == module_crate(*old(module)),
        module_marked(*final(module)) == module_marked(*old(module)),
        added is Ok ==> module_functions(*final(module)) == module_functions(*old(module)).push(
            "stoi"@,
        ),
{
    module.function("stoi", |s: String| STDExtCrate::stoi_or_message(s)).build().map(|_| ())
}

/// Whether `byte` is an ASCII decimal digit.
pub open spec fn is_digit(byte: u8) -> bool {
    0x30 <= byte <= 0x39
}

/// The number that `digits` spell, read from the left, with its sign. The
/// first byte that is no digit, or that takes the number out of the range of
/// a 32-bit integer, decides the failure.
pub open spec fn parse_digits(digits: Seq<u8>, negative: bool) -> Result<int, ParseFailure>
    decreases digits.len(),
{
    if digits.len() == 0 {
        Ok(0)
    } else {
        match parse_digits(digits.drop_last(), negative) {
            Err(failure) => Err(failure),
            Ok(value) => {
                let digit = digits.last() - 0x30;
                let next = if negative {
                    value * 10 - digit
                } else {
                    value * 10 + digit
                };
                if !is_digit(digits.last()) {
                    Err(ParseFailure::InvalidDigit)
                } else if next > i32::MAX {
                    Err(ParseFailure::PosOverflow)
                } else if next < i32::MIN {
                    Err(ParseFailure::NegOverflow)
                } else {
                    Ok(next)
                }
            },
        }
    }
}

/// The 32-bit integer that `text` spells in decimal: an optional `+` or `-`,
/// then digits only, and at least one of them.
pub open spec fn parse_i32(text: Seq<u8>) -> Result<int, ParseFailure> {
    if text.len() == 0 {
        Err(ParseFailure::Empty)
    } else if text.len() == 1 && (text[0] == 0x2b || text[0] == 0x2d) {
        Err(ParseFailure::InvalidDigit)
    } else if text[0] == 0x2b {
        parse_digits(text.skip(1), false)
    } else if text[0] == 0x2d {
        parse_digits(text.skip(1), true)
    } else {
        parse_digits(text, false)
    }
}

/// The decimal digits of `n`, the highest first.
pub open spec fn digits_of(n: nat) -> Seq<u8>
    decreases n,
{
    if n < 10 {
        seq![(0x30 + n) as u8]
    } else {
        digits_of(n / 10).push((0x30 + n % 10) as u8)
    }
}

/// The decimal text of `n`: a `-` where it is negative, then its digits.
pub open spec fn decimal_text(n: int) -> Seq<u8> {
    if n < 0 {
        seq![0x2du8] + digits_of((-n) as nat)
    } else {
        digits_of(n as nat)
    }
}

/// The 32-bit integer that a text spells in decimal, read from its bytes.
pub open spec fn text_to_i32(text: Seq<char>) -> Result<int, ParseFailure> {
    parse_i32(encode_utf8(text))
}

/// The names of the functions that [`STDExtCrate::build`] offers.
pub open spec fn extension_functions() -> Seq<Seq<char>> {
    seq!["vtos"@, "itol"@, "ltoi"@, "stoi"@]
}

/// The "standard" functions added to the script's scope that compute on
/// integers and text.
pub struct STDExtCrate;

impl STDExtCrate {
    /// The name of the module in the script's scope.
    pub fn crate_name() -> (name: &'static str)
        ensures
            name@ == "std"@,
    {
        "std"
    }

    /// A value of the script as text, in the form that helps to debug.
    pub fn vtos(value: &rune::Value) -> (description: String) {
        value_debug(value)
    }

    /// Widens a 32-bit integer.
    pub fn itol(i: i32) -> (l: i64)
        ensures
            l == i,
    {
        i as i64
    }

    /// Narrows a 64-bit integer to its low 32 bits.
    pub fn ltoi(l: i64) -> (i: i32)
        ensures
            i == l as i32,
            i32::MIN <= l <= i32::MAX ==> i == l,
            (i as i64) & 0xffff_ffff == l & 0xffff_ffff,
    {
        assert(((l as i32) as i64) & 0xffff_ffff == l & 0xffff_ffff) by (bit_vector);
        #[verifier::truncate]
        (l as i32)
    }

    /// Reads `digits` as a decimal number with the given sign.
    fn digits_to_i32(digits: &[u8], negative: bool) -> (number: Result<i32, ParseFailure>)
        ensures
            match number {
                Ok(value) => parse_digits(digits@, negative) == Ok::<int, ParseFailure>(
                    value as int,
                ),
                Err(failure) => parse_digits(digits@, negative) == Err::<int, ParseFailure>(
                    failure,
                ),
            },
    {
        let mut value: i32 = 0;
        let mut index: usize = 0;
        while index < digits.len()
            invariant
                index <= digits.len(),
                parse_digits(digits@.take(index as int), negative) == Ok::<int, ParseFailure>(
                    value as int,
                ),
            decreases digits.len() - index,
        {
            let byte: u8 = digits[index];
            proof {
                let upto = digits@.take(index + 1);
                assert(upto.drop_last() == digits@.take(index as int));
                assert(upto.last() == byte);
                if parse_digits(upto, negative) is Err {
                    lemma_failure_stays(digits@, index + 1, negative);
                }
            }
            if byte < 0x30 || byte > 0x39 {
                return Err(ParseFailure::InvalidDigit);
            }
            let digit: i64 = (byte - 0x30) as i64;
            let next: i64 = if negative {
                value as i64 * 10 - digit
            } else {
                value as i64 * 10 + digit
            };
            if next > i32::MAX as i64 {
                return Err(ParseFailure::PosOverflow);
            }
            if next < i32::MIN as i64 {
                return Err(ParseFailure::NegOverflow);
            }
            value = next as i32;
            index += 1;
        }
        assert(digits@.take(index as int) == digits@);
        Ok(value)
    }

    /// Parses a text as a 32-bit integer in decimal.
    pub fn stoi(s: &str) -> (number: Result<i32, ParseFailure>)
        ensures
            match number {
                Ok(value) => text_to_i32(s@) == Ok::<int, ParseFailure>(value as int),
                Err(failure) => text_to_i32(s@) == Err::<int, ParseFailure>(failure),
            },
    {
        let bytes = s.as_bytes();
        if bytes.len() == 0 {
            return Err(ParseFailure::Empty);
        }
        let first: u8 = bytes[0];
        if bytes.len() == 1 && (first == 0x2b || first == 0x2d) {
            return Err(ParseFailure::InvalidDigit);
        }
        if first == 0x2b || first == 0x2d {
            let digits = vstd::slice::slice_subrange(bytes, 1, bytes.len());
            assert(digits@ == bytes@.skip(1));
            Self::digits_to_i32(digits, first == 0x2d)
        } else {
            Self::digits_to_i32(bytes, false)
        }
    }

    /// Parses a text as a 32-bit integer in decimal, with the failure in
    /// words.
    pub fn stoi_or_message(s: String) -> (number: Result<i32, String>)
        ensures
            match number {
                Ok(value) => text_to_i32(s@) == Ok::<int, ParseFailure>(value as int),
                Err(message) => text_to_i32(s@) matches Err(failure) && message@
                    == failure_message(failure),
            },
    {
        match Self::stoi(s.as_str()) {
            Ok(value) => Ok(value),
            Err(failure) => Err(failure.message()),
        }
    }

    /// Builds the module of the "standard" functions that compute on values,
    /// integers and text: a module for the crate `std` that offers `vtos`,
    /// `itol`, `ltoi` and `stoi`. It fails where rune cannot allocate.
    pub fn build() -> (module: Result<rune::Module, rune::ContextError>)
        ensures
            module matches Ok(m) ==> module_crate(m) == "std"@ && module_functions(m)
                == extension_functions() && !module_marked(m),
    {
        proof {
            reveal_strlit("std");
        }
        let mut module = module_with_crate(Self::crate_name())?;
        add_vtos(&mut module)?;
        add_itol(&mut module)?;
        add_ltoi(&mut module)?;
        add_stoi(&mut module)?;
        Ok(module)
    }
}

/// A failure within the first `upto` digits is the failure of the whole.
proof fn lemma_failure_stays(digits: Seq<u8>, upto: int, negative: bool)
    requires
        0 <= upto <= digits.len(),
        parse_digits(digits.take(upto), negative) is Err,
    ensures
        parse_digits(digits, negative) == parse_digits(digits.take(upto), negative),
    decreases digits.len() - upto,
{
    if upto == digits.len() {
        assert(digits.take(upto) == digits);
    } else {
        let longer = digits.take(upto + 1);
        assert(longer.drop_last() == digits.take(upto));
        lemma_failure_stays(digits, upto + 1, negative);
    }
}

/// The digits of a number spell that number, with either sign, as long as
/// it fits 32 bits.
proof fn lemma_digits_spell_the_number(n: nat, negative: bool)
    requires
        n <= if negative {
            0x8000_0000nat
        } else {
            0x7fff_ffffnat
        },
    ensures
        parse_digits(digits_of(n), negative) == Ok::<int, ParseFailure>(
            if negative {
                -(n as int)
            } else {
                n as int
            },
        ),
        digits_of(n).len() >= 1,
        is_digit(digits_of(n)[0]),
    decreases n,
{
    let digits = digits_of(n);
    if n < 10 {
        assert(digits.drop_last() == Seq::<u8>::empty());
        assert(parse_digits(digits.drop_last(), negative) == Ok::<int, ParseFailure>(0));
    } else {
        lemma_digits_spell_the_number(n / 10, negative);
        assert(digits.drop_last() == digits_of(n / 10));
        assert(digits[0] == digits_of(n / 10)[0]);
    }
}

/// What was written is read back: the decimal text of any 32-bit integer is
/// read as that integer.
pub proof fn law_decimal_text_is_read_back(n: i32, text: Seq<char>)
    requires
        encode_utf8(text) == decimal_text(n as int),
    ensures
        parse_i32(decimal_text(n as int)) == Ok::<int, ParseFailure>(n as int),
        text_to_i32(text) == Ok::<int, ParseFailure>(n as int),
{
    let bytes = decimal_text(n as int);
    if n < 0 {
        let digits = digits_of((-n) as nat);
        lemma_digits_spell_the_number((-n) as nat, true);
        assert(bytes.skip(1) == digits);
        assert(bytes[0] == 0x2d);
    } else {
        lemma_digits_spell_the_number(n as nat, false);
    }
}

} // verus!

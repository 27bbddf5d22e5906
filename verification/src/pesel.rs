//! Decoding of PESEL identity numbers.
//!
//! A PESEL number is a text of eleven decimal digits. The decoder reads the
//! holder's sex from the parity of the last digit, the birth month from the
//! third and fourth digit, and the birth year from the first two.
//!
//! The month and year rules are deliberately simple. Only the century offset
//! of twenty in the month field is undone, and the century of the year is
//! guessed from the two-digit year alone.

use vstd::prelude::*;
use vstd::string::*;

verus! {

/// Number of characters in a PESEL number.
pub const PESEL_LEN: usize = 11;

/// Sex of the holder of a PESEL number.
#[derive(Clone, Copy, Debug, PartialEq, Eq, Structural)]
pub enum Sex {
    Male,
    Female,
}

/// Why a text is not a PESEL number.
#[derive(Clone, Copy, Debug, PartialEq, Eq, Structural)]
pub enum PeselError {
    /// The text does not have exactly eleven characters.
    WrongLength,
    /// The text has eleven characters, and this is the first of them that is
    /// not a decimal digit.
    NotADigit(char),
}

/// What the decoder reads from a PESEL number.
#[derive(Debug)]
pub struct PeselInfo {
    pub sex: Sex,
    /// Birth month, as the text that `month_text` describes.
    pub month: String,
    pub year: u16,
}

/// `c` is one of `'0'` to `'9'`.
pub open spec fn is_digit(c: char) -> bool {
    '0' <= c && c <= '9'
}

/// The number that the digit `c` stands for.
pub open spec fn digit_value(c: char) -> u8
    recommends
        is_digit(c),
{
    (c as int - '0' as int) as u8
}

/// The character that writes the one-digit number `d`.
pub open spec fn digit_char(d: int) -> char
    recommends
        0 <= d < 10,
{
    ('0' as int + d) as char
}

/// Every character of `text` is a decimal digit.
pub open spec fn all_digits(text: Seq<char>) -> bool {
    forall|i: int| 0 <= i < text.len() ==> is_digit(#[trigger] text[i])
}

/// `text` is a PESEL number: eleven decimal digits.
pub open spec fn is_pesel(text: Seq<char>) -> bool {
    text.len() == PESEL_LEN && all_digits(text)
}

/// `i` is the position of the first character of `text` that is no digit.
pub open spec fn is_first_non_digit(text: Seq<char>, i: int) -> bool {
    &&& 0 <= i < text.len()
    &&& !is_digit(text[i])
    &&& all_digits(text.take(i))
}

/// The numbers that the digits of `text` stand for, in order.
pub open spec fn digits_of(text: Seq<char>) -> Seq<u8> {
    text.map_values(|c: char| digit_value(c))
}

/// `digits` are the eleven digits of a PESEL number.
pub open spec fn are_pesel_digits(digits: Seq<u8>) -> bool {
    &&& digits.len() == PESEL_LEN
    &&& forall|i: int| 0 <= i < digits.len() ==> #[trigger] digits[i] < 10
}

/// Sex by the last digit: even is male, odd is female.
pub open spec fn sex_of(digits: Seq<u8>) -> Sex
    recommends
        are_pesel_digits(digits),
{
    if digits[10] % 2 == 0 {
        Sex::Male
    } else {
        Sex::Female
    }
}

/// The first of the two numbers that make up the month.
///
/// Where the month field reads as more than twenty, twenty is taken from
/// ten times its first digit; otherwise it is the first digit itself.
pub open spec fn month_lead(digits: Seq<u8>) -> int
    recommends
        are_pesel_digits(digits),
{
    if digits[2] * 10 + digits[3] > 20 {
        digits[2] * 10 - 20
    } else {
        digits[2] as int
    }
}

/// The second of the two numbers that make up the month: the fourth digit.
pub open spec fn month_unit(digits: Seq<u8>) -> int
    recommends
        are_pesel_digits(digits),
{
    digits[3] as int
}

/// Decimal notation of a number below one hundred, without leading zeros.
pub open spec fn decimal_text(n: int) -> Seq<char>
    recommends
        0 <= n < 100,
{
    if n < 10 {
        seq![digit_char(n)]
    } else {
        seq![digit_char(n / 10), digit_char(n % 10)]
    }
}

/// The month as text: its two numbers in decimal, one after the other.
pub open spec fn month_text(digits: Seq<u8>) -> Seq<char>
    recommends
        are_pesel_digits(digits),
{
    decimal_text(month_lead(digits)) + decimal_text(month_unit(digits))
}

/// The birth year: a two-digit year below 22 lies in the 2000s, any other
/// in the 1900s.
pub open spec fn year_of(digits: Seq<u8>) -> int
    recommends
        are_pesel_digits(digits),
{
    let short = digits[0] * 10 + digits[1];
    if short < 22 {
        2000 + short
    } else {
        1900 + short
    }
}

/// A PESEL number that has passed validation: eleven decimal digits.
#[derive(Debug)]
pub struct PeselNumber {
    digits: Vec<u8>,
}

impl View for PeselNumber {
    type V = Seq<u8>;

    closed spec fn view(&self) -> Seq<u8> {
        self.digits@
    }
}

impl PeselNumber {
    #[verifier::type_invariant]
    spec fn digits_are_valid(&self) -> bool {
        are_pesel_digits(self.digits@)
    }

    /// The eleven digits, first to last.
    pub fn digits(&self) -> (res: &Vec<u8>)
        ensures
            res@ == self@,
            are_pesel_digits(self@),
    {
        proof {
            use_type_invariant(self);
        }
        &self.digits
    }

    /// Validates `text` and keeps its digits.
    ///
    /// The length is judged first: a text of any other length than eleven
    /// characters is rejected as such, whatever it holds. A text of eleven
    /// characters is rejected with the first character that is no digit.
    pub fn parse(text: &str) -> (res: Result<PeselNumber, PeselError>)
        ensures
            res.is_ok() <==> is_pesel(text@),
            match res {
                Ok(p) => p@ == digits_of(text@) && are_pesel_digits(p@),
                Err(PeselError::WrongLength) => text@.len() != PESEL_LEN,
                Err(PeselError::NotADigit(c)) => text@.len() == PESEL_LEN && exists|i: int|
                    is_first_non_digit(text@, i) && c == text@[i],
            },
    {
        if text.unicode_len() != PESEL_LEN {
            return Err(PeselError::WrongLength);
        }
        let mut digits: Vec<u8> = Vec::with_capacity(PESEL_LEN);
        let mut i: usize = 0;
        while i < PESEL_LEN
            invariant
                text@.len() == PESEL_LEN,
                i <= PESEL_LEN,
                digits@.len() == i,
                all_digits(text@.take(i as int)),
                digits@ == digits_of(text@.take(i as int)),
            decreases PESEL_LEN - i,
        {
            let c = text.get_char(i);
            if !(c >= '0' && c <= '9') {
                assert(is_first_non_digit(text@, i as int));
                return Err(PeselError::NotADigit(c));
            }
            let d: u8 = (c as u32 - '0' as u32) as u8;
            digits.push(d);
            proof {
                let before = text@.take(i as int);
                let after = text@.take(i + 1);
                assert(after == before.push(text@[i as int]));
                assert(digits@ =~= digits_of(after));
            }
            i += 1;
        }
        proof {
            assert(text@.take(PESEL_LEN as int) == text@);
            lemma_digits_of_digits(text@);
        }
        Ok(PeselNumber { digits })
    }

    /// The holder's sex.
    pub fn sex(&self) -> (res: Sex)
        ensures
            res == sex_of(self@),
    {
        proof {
            use_type_invariant(self);
        }
        if self.digits[10] % 2 == 0 {
            Sex::Male
        } else {
            Sex::Female
        }
    }

    /// The two numbers that make up the birth month.
    pub fn birth_month_parts(&self) -> (res: (u8, u8))
        ensures
            res.0 == month_lead(self@),
            res.1 == month_unit(self@),
    {
        proof {
            use_type_invariant(self);
        }
        let tens: u8 = self.digits[2];
        let unit: u8 = self.digits[3];
        if tens * 10 + unit > 20 {
            (tens * 10 - 20, unit)
        } else {
            (tens, unit)
        }
    }

    /// The birth month as text.
    pub fn birth_month(&self) -> (res: String)
        ensures
            res@ == month_text(self@),
    {
        proof {
            use_type_invariant(self);
        }
        let (lead, unit) = self.birth_month_parts();
        let mut text = decimal(lead);
        let unit_text = decimal(unit);
        text.append(unit_text.as_str());
        text
    }

    /// The birth year.
    pub fn birth_year(&self) -> (res: u16)
        ensures
            res == year_of(self@),
    {
        proof {
            use_type_invariant(self);
        }
        let short: u16 = self.digits[0] as u16 * 10 + self.digits[1] as u16;
        if short < 22 {
            2000 + short
        } else {
            1900 + short
        }
    }
}

/// The digits of a text of digits are all below ten.
pub proof fn lemma_digits_of_digits(text: Seq<char>)
    requires
        all_digits(text),
    ensures
        digits_of(text).len() == text.len(),
        forall|i: int| 0 <= i < text.len() ==> #[trigger] digits_of(text)[i] < 10,
{
    assert forall|i: int| 0 <= i < text.len() implies #[trigger] digits_of(text)[i] < 10 by {
        assert(is_digit(text[i]));
    }
}

/// A text has at most one first character that is no digit, so the
/// character that a rejection names is determined by the text.
pub proof fn lemma_first_non_digit_unique(text: Seq<char>, i: int, j: int)
    requires
        is_first_non_digit(text, i),
        is_first_non_digit(text, j),
    ensures
        i == j,
{
    if i < j {
        assert(text.take(j)[i] == text[i]);
    }
    if j < i {
        assert(text.take(i)[j] == text[j]);
    }
}

/// The text of one decimal digit.
fn digit_str(d: u8) -> (res: &'static str)
    requires
        d < 10,
    ensures
        res@ == seq![digit_char(d as int)],
{
    proof {
        reveal_strlit("0");
        reveal_strlit("1");
        reveal_strlit("2");
        reveal_strlit("3");
        reveal_strlit("4");
        reveal_strlit("5");
        reveal_strlit("6");
        reveal_strlit("7");
        reveal_strlit("8");
        reveal_strlit("9");
    }
    let res = match d {
        0 => "0",
        1 => "1",
        2 => "2",
        3 => "3",
        4 => "4",
        5 => "5",
        6 => "6",
        7 => "7",
        8 => "8",
        _ => "9",
    };
    assert(res@ =~= seq![digit_char(d as int)]);
    res
}

/// Writes a number below one hundred in decimal.
pub fn decimal(n: u8) -> (res: String)
    requires
        n < 100,
    ensures
        res@ == decimal_text(n as int),
{
    if n < 10 {
        String::from_str(digit_str(n))
    } else {
        let mut text = String::from_str(digit_str(n / 10));
        text.append(digit_str(n % 10));
        assert(text@ =~= decimal_text(n as int));
        text
    }
}

/// Decodes `text` as a PESEL number.
///
/// Succeeds exactly on a text of eleven decimal digits, and then reports
/// the sex, birth month and birth year that its digits give. Any other text
/// is rejected as `PeselNumber::parse` rejects it.
pub fn decode(text: &str) -> (res: Result<PeselInfo, PeselError>)
    ensures
        res.is_ok() <==> is_pesel(text@),
        match res {
            Ok(info) => {
                &&& info.sex == sex_of(digits_of(text@))
                &&& info.month@ == month_text(digits_of(text@))
                &&& info.year == year_of(digits_of(text@))
            },
            Err(PeselError::WrongLength) => text@.len() != PESEL_LEN,
            Err(PeselError::NotADigit(c)) => text@.len() == PESEL_LEN && exists|i: int|
                is_first_non_digit(text@, i) && c == text@[i],
        },
{
    match PeselNumber::parse(text) {
        Ok(number) => Ok(
            PeselInfo {
                sex: number.sex(),
                month: number.birth_month(),
                year: number.birth_year(),
            },
        ),
        Err(e) => Err(e),
    }
}

} // verus!

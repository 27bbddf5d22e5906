use formulas::pesel::{decimal, decode, PeselError, PeselNumber, Sex};

#[test]
fn decodes_a_number_from_the_last_century() {
    let info = decode("44051401359").unwrap();
    assert_eq!(info.sex, Sex::Female);
    assert_eq!(info.month, "05");
    assert_eq!(info.year, 1944);
}

#[test]
fn decodes_a_number_with_the_century_offset() {
    let info = decode("02251401358").unwrap();
    assert_eq!(info.sex, Sex::Male);
    assert_eq!(info.month, "05");
    assert_eq!(info.year, 2002);
}

#[test]
fn month_field_above_twenty_loses_twenty_from_its_tens() {
    let info = decode("44511401359").unwrap();
    assert_eq!(info.month, "301");
    let number = PeselNumber::parse("44511401359").ok().unwrap();
    assert_eq!(number.birth_month_parts(), (30, 1));
    assert_eq!(number.birth_month(), "301");
}

#[test]
fn month_field_of_exactly_twenty_is_kept() {
    assert_eq!(decode("44201401359").unwrap().month, "20");
    assert_eq!(decode("44211401359").unwrap().month, "01");
    assert_eq!(decode("44121401359").unwrap().month, "12");
    assert_eq!(decode("44321401359").unwrap().month, "102");
    assert_eq!(decode("44991401359").unwrap().month, "709");
    assert_eq!(decode("44001401359").unwrap().month, "00");
}

#[test]
fn year_turns_century_at_twenty_two() {
    assert_eq!(decode("21051401359").unwrap().year, 2021);
    assert_eq!(decode("22051401359").unwrap().year, 1922);
    assert_eq!(decode("00051401359").unwrap().year, 2000);
    assert_eq!(decode("99051401359").unwrap().year, 1999);
}

#[test]
fn sex_follows_the_parity_of_the_last_digit() {
    assert_eq!(decode("44051401350").unwrap().sex, Sex::Male);
    assert_eq!(decode("44051401351").unwrap().sex, Sex::Female);
    assert_eq!(decode("44051401358").unwrap().sex, Sex::Male);
    assert_eq!(decode("44051401359").unwrap().sex, Sex::Female);
}

#[test]
fn rejects_a_text_of_ten_characters() {
    assert_eq!(decode("4405140135").err(), Some(PeselError::WrongLength));
    assert_eq!(
        PeselNumber::parse("4405140135").err(),
        Some(PeselError::WrongLength)
    );
}

#[test]
fn rejects_other_lengths_whatever_they_hold() {
    assert_eq!(decode("").err(), Some(PeselError::WrongLength));
    assert_eq!(decode("440514013590").err(), Some(PeselError::WrongLength));
    assert_eq!(decode("abc").err(), Some(PeselError::WrongLength));
    assert_eq!(decode("44051401359 ").err(), Some(PeselError::WrongLength));
}

#[test]
fn rejects_a_letter_and_names_it() {
    assert_eq!(decode("4405140a359").err(), Some(PeselError::NotADigit('a')));
    assert_eq!(decode("x4051401359").err(), Some(PeselError::NotADigit('x')));
    assert_eq!(decode("4405140135Z").err(), Some(PeselError::NotADigit('Z')));
}

#[test]
fn names_the_first_of_several_offenders() {
    assert_eq!(decode("4b05c401359").err(), Some(PeselError::NotADigit('b')));
    assert_eq!(decode("-4051401359").err(), Some(PeselError::NotADigit('-')));
    assert_eq!(decode("44051 01+59").err(), Some(PeselError::NotADigit(' ')));
}

#[test]
fn counts_characters_and_accepts_plain_digits_only() {
    // Eleven characters, one of them outside ASCII.
    assert_eq!(
        decode("1234567890\u{e9}").err(),
        Some(PeselError::NotADigit('\u{e9}'))
    );
    // A digit of another script is no decimal digit here.
    assert_eq!(
        decode("1234567890\u{663}").err(),
        Some(PeselError::NotADigit('\u{663}'))
    );
    // The neighbours of '0' and '9' in the character table.
    assert_eq!(decode("/4051401359").err(), Some(PeselError::NotADigit('/')));
    assert_eq!(decode(":4051401359").err(), Some(PeselError::NotADigit(':')));
}

#[test]
fn parse_keeps_the_digits_in_order() {
    let number = PeselNumber::parse("44051401359").ok().unwrap();
    assert_eq!(number.digits(), &vec![4u8, 4, 0, 5, 1, 4, 0, 1, 3, 5, 9]);
    assert_eq!(number.sex(), Sex::Female);
    assert_eq!(number.birth_month_parts(), (0, 5));
    assert_eq!(number.birth_month(), "05");
    assert_eq!(number.birth_year(), 1944);
    let other = PeselNumber::parse("01234567890").ok().unwrap();
    assert_eq!(other.digits(), &vec![0u8, 1, 2, 3, 4, 5, 6, 7, 8, 9, 0]);
}

#[test]
fn decode_agrees_with_the_parsed_number() {
    for text in ["44051401359", "02251401358", "99321011110", "21200000007"] {
        let info = decode(text).unwrap();
        let number = PeselNumber::parse(text).ok().unwrap();
        assert_eq!(info.sex, number.sex());
        assert_eq!(info.month, number.birth_month());
        assert_eq!(info.year, number.birth_year());
    }
}

#[test]
fn writes_numbers_below_one_hundred_in_decimal() {
    assert_eq!(decimal(0), "0");
    assert_eq!(decimal(7), "7");
    assert_eq!(decimal(9), "9");
    assert_eq!(decimal(10), "10");
    assert_eq!(decimal(42), "42");
    assert_eq!(decimal(70), "70");
    assert_eq!(decimal(99), "99");
    for n in 0u8..100 {
        assert_eq!(decimal(n), format!("{}", n));
    }
}

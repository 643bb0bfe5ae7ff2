use arm11::text::{chars_of, number, run1, skip_run, CharClass};
use nom::character::complete::{
    alphanumeric0, alphanumeric1, digit0, digit1, hex_digit0, hex_digit1, space0, space1,
};
use nom::error::Error;
use nom::IResult;

const SAMPLES: [&str; 12] = [
    "",
    "123abc",
    "0x1fG",
    "abcXYZ789_",
    "  \t x",
    "\t\t",
    " \r\n",
    "deadBEEF!",
    "٣٤",
    "é1",
    "r12,",
    "9",
];

fn consumed(input: &str, rest: &str) -> usize {
    input.chars().count() - rest.chars().count()
}

#[test]
fn runs_of_digits_end_where_nom_ends_them() {
    for input in SAMPLES {
        let (rest, _) = digit0::<&str, Error<&str>>(input).expect("digit0 never fails");
        assert_eq!(
            skip_run(&chars_of(input), 0, CharClass::Digit),
            consumed(input, rest),
            "{:?}",
            input
        );
    }
}

#[test]
fn runs_of_hex_digits_end_where_nom_ends_them() {
    for input in SAMPLES {
        let (rest, _) = hex_digit0::<&str, Error<&str>>(input).expect("hex_digit0 never fails");
        assert_eq!(
            skip_run(&chars_of(input), 0, CharClass::HexDigit),
            consumed(input, rest),
            "{:?}",
            input
        );
    }
}

#[test]
fn runs_of_letters_and_digits_end_where_nom_ends_them() {
    for input in SAMPLES {
        let (rest, _) =
            alphanumeric0::<&str, Error<&str>>(input).expect("alphanumeric0 never fails");
        assert_eq!(
            skip_run(&chars_of(input), 0, CharClass::Alphanumeric),
            consumed(input, rest),
            "{:?}",
            input
        );
    }
}

#[test]
fn runs_of_spaces_end_where_nom_ends_them() {
    for input in SAMPLES {
        let (rest, _) = space0::<&str, Error<&str>>(input).expect("space0 never fails");
        assert_eq!(
            skip_run(&chars_of(input), 0, CharClass::Space),
            consumed(input, rest),
            "{:?}",
            input
        );
    }
}

fn same_end(input: &str, class: CharClass, theirs: IResult<&str, &str, Error<&str>>) {
    let ours = run1(&chars_of(input), 0, class);
    match theirs {
        Ok((rest, _)) => assert_eq!(ours, Ok(((), consumed(input, rest))), "{:?}", input),
        Err(_) => assert!(ours.is_err(), "{:?}", input),
    }
}

#[test]
fn runs_of_at_least_one_fail_where_nom_fails() {
    for input in SAMPLES {
        same_end(input, CharClass::Digit, digit1(input));
        same_end(input, CharClass::HexDigit, hex_digit1(input));
        same_end(input, CharClass::Alphanumeric, alphanumeric1(input));
        same_end(input, CharClass::Space, space1(input));
    }
}

#[test]
fn numbers_are_what_the_standard_library_reads() {
    let decimal = ["0", "7", "0012", "4294967295", "4294967296", "99999999999999999999"];
    for digits in decimal {
        let ours = number(&chars_of(digits), 0, 10).map(|(value, _)| value).ok();
        assert_eq!(ours, digits.parse::<u32>().ok(), "{:?}", digits);
    }
    let hex = ["0", "ff", "FF", "fFfFfFfF", "100000000", "deadbeef", "00000000000001"];
    for digits in hex {
        let ours = number(&chars_of(digits), 0, 16).map(|(value, _)| value).ok();
        assert_eq!(ours, u32::from_str_radix(digits, 16).ok(), "{:?}", digits);
    }
}

use dyn_error::{check_downcast, check_err_box, ErrBox, ErrBoxCheckFailure};
use std::error::Error;
use std::fmt::Display;

#[derive(Debug, PartialEq, Eq)]
struct MyErr(pub u8);

impl Display for MyErr {
    fn fmt(&self, f: &mut std::fmt::Formatter<'_>) -> std::fmt::Result {
        f.write_str(&format!("Custom error: {}", self.0))
    }
}

impl Error for MyErr {}

#[derive(Debug, PartialEq, Eq)]
struct AlphaErr(pub u8);

impl Display for AlphaErr {
    fn fmt(&self, f: &mut std::fmt::Formatter<'_>) -> std::fmt::Result {
        f.write_str(&format!("Alpha error: {}", self.0))
    }
}

impl Error for AlphaErr {}

#[derive(Debug, PartialEq, Eq)]
struct BetaErr(pub u8);

impl Display for BetaErr {
    fn fmt(&self, f: &mut std::fmt::Formatter<'_>) -> std::fmt::Result {
        f.write_str(&format!("Beta error: {}", self.0))
    }
}

impl Error for BetaErr {}

#[derive(Debug, PartialEq, Eq)]
struct Quoted(pub String);

impl Display for Quoted {
    fn fmt(&self, f: &mut std::fmt::Formatter<'_>) -> std::fmt::Result {
        f.write_str(&self.0)
    }
}

impl Error for Quoted {}

fn failing<E: Error + 'static>(error: E) -> Result<String, Box<dyn Error>> {
    Err(Box::new(error))
}

#[test]
fn equal_error_passes() {
    let result = failing(MyErr(90));
    assert_eq!(check_err_box(result.map_err(ErrBox), MyErr(90)), Ok(()));
}

#[test]
fn different_error_is_not_equal() {
    let result = failing(MyErr(90));
    assert_eq!(
        check_err_box(result.map_err(ErrBox), MyErr(7)),
        Err(ErrBoxCheckFailure::NotEqual {
            expected: "Custom error: 7".to_string(),
            actual: "Custom error: 90".to_string()
        })
    );
}

#[test]
fn unrelated_type_fails_the_downcast() {
    let result = failing(BetaErr(90));
    assert_eq!(
        check_err_box(result.map_err(ErrBox), AlphaErr(90)),
        Err(ErrBoxCheckFailure::DowncastFailed)
    );
}

#[test]
fn ok_result_is_not_err() {
    let result: Result<String, Box<dyn Error>> = Ok("Dodo".to_string());
    assert_eq!(
        check_err_box(result.map_err(ErrBox), MyErr(7)),
        Err(ErrBoxCheckFailure::ResultIsNotErr)
    );
}

#[test]
fn ok_result_whose_payload_reads_like_the_error_is_not_err() {
    let result: Result<String, ErrBox> = Ok("Custom error: 7".to_string());
    assert_eq!(
        check_err_box(result, MyErr(7)),
        Err(ErrBoxCheckFailure::ResultIsNotErr)
    );
}

#[test]
fn downcast_outcome_with_equal_error_passes() {
    let actual = MyErr(90);
    let outcome: Result<String, Option<&MyErr>> = Err(Some(&actual));
    assert_eq!(check_downcast(outcome, MyErr(90)), Ok(()));
}

#[test]
fn downcast_outcome_with_different_error_is_not_equal() {
    let actual = MyErr(90);
    let outcome: Result<String, Option<&MyErr>> = Err(Some(&actual));
    assert_eq!(
        check_downcast(outcome, MyErr(7)),
        Err(ErrBoxCheckFailure::NotEqual {
            expected: "Custom error: 7".to_string(),
            actual: "Custom error: 90".to_string()
        })
    );
}

#[test]
fn downcast_outcome_that_failed_is_downcast_failed() {
    let outcome: Result<String, Option<&AlphaErr>> = Err(None);
    assert_eq!(
        check_downcast(outcome, AlphaErr(90)),
        Err(ErrBoxCheckFailure::DowncastFailed)
    );
}

#[test]
fn downcast_outcome_of_ok_is_not_err() {
    let outcome: Result<String, Option<&MyErr>> = Ok("Dodo".to_string());
    assert_eq!(
        check_downcast(outcome, MyErr(7)),
        Err(ErrBoxCheckFailure::ResultIsNotErr)
    );
}

#[test]
fn verdicts_come_in_order() {
    for expected in 0..4u8 {
        let ok: Result<u8, ErrBox> = Ok(expected);
        assert_eq!(
            check_err_box(ok, MyErr(expected)),
            Err(ErrBoxCheckFailure::ResultIsNotErr)
        );

        let other_type: Result<u8, ErrBox> = Err(ErrBox(Box::new(AlphaErr(expected))));
        assert_eq!(
            check_err_box(other_type, MyErr(expected)),
            Err(ErrBoxCheckFailure::DowncastFailed)
        );

        for held in 0..4u8 {
            let result: Result<u8, ErrBox> = Err(ErrBox(Box::new(MyErr(held))));
            let verdict = check_err_box(result, MyErr(expected));
            if held == expected {
                assert_eq!(verdict, Ok(()));
            } else {
                assert!(matches!(
                    verdict,
                    Err(ErrBoxCheckFailure::NotEqual { .. })
                ));
            }
        }
    }
}

#[test]
fn texts_of_not_equal_are_the_errors_own() {
    let texts = [
        "it's",
        "'",
        "''",
        "\"quoted\"",
        "{}",
        "{0} {:?} %s \\n",
        "', actual error: '",
        "",
        "Expected error: 'a', actual error: 'b'.",
        "caf\u{e9} \u{1f980}",
    ];
    for expected in texts {
        for actual in texts {
            if expected == actual {
                continue;
            }
            let result: Result<(), ErrBox> = Err(ErrBox(Box::new(Quoted(actual.to_string()))));
            let verdict = check_err_box(result, Quoted(expected.to_string()));
            assert_eq!(
                verdict,
                Err(ErrBoxCheckFailure::NotEqual {
                    expected: expected.to_string(),
                    actual: actual.to_string()
                })
            );
            assert_eq!(
                verdict.unwrap_err().to_string(),
                format!("Expected error: '{}', actual error: '{}'.", expected, actual)
            );
        }
    }
}

#[derive(Debug)]
struct AtMost(u8);

impl PartialEq for AtMost {
    fn eq(&self, other: &Self) -> bool {
        self.0 <= other.0
    }
}

impl Display for AtMost {
    fn fmt(&self, f: &mut std::fmt::Formatter<'_>) -> std::fmt::Result {
        f.write_str(&format!("at most {}", self.0))
    }
}

impl Error for AtMost {}

#[test]
fn expected_error_is_the_left_operand() {
    let held_high: Result<(), ErrBox> = Err(ErrBox(Box::new(AtMost(2))));
    assert_eq!(check_err_box(held_high, AtMost(1)), Ok(()));

    let held_low: Result<(), ErrBox> = Err(ErrBox(Box::new(AtMost(1))));
    assert_eq!(
        check_err_box(held_low, AtMost(2)),
        Err(ErrBoxCheckFailure::NotEqual {
            expected: "at most 2".to_string(),
            actual: "at most 1".to_string()
        })
    );

    let low = AtMost(1);
    let outcome: Result<(), Option<&AtMost>> = Err(Some(&low));
    assert_eq!(
        check_downcast(outcome, AtMost(2)),
        Err(ErrBoxCheckFailure::NotEqual {
            expected: "at most 2".to_string(),
            actual: "at most 1".to_string()
        })
    );
}

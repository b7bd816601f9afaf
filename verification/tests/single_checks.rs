use fluent_guards::Bound;
use fluent_guards::Guards;
use std::borrow::Cow;

fn message(text: &str) -> Result<i32, String> {
    Err(String::from(text))
}

#[test]
fn is_equal_to_passes_only_on_the_same_value() {
    assert_eq!(Guards::is_equal_to(4, 5, "Value was not 5!"), message("Value was not 5!"));
    assert_eq!(Guards::is_equal_to(5, 5, "Value was not 5!"), Ok(5));
    assert_eq!(Guards::is_equal_to(6, 5, "Value was not 5!"), message("Value was not 5!"));
}

#[test]
fn is_not_equal_to_passes_on_every_other_value() {
    assert_eq!(Guards::is_not_equal_to(4, 5, "Value was 5!"), Ok(4));
    assert_eq!(Guards::is_not_equal_to(5, 5, "Value was 5!"), message("Value was 5!"));
    assert_eq!(Guards::is_not_equal_to(6, 5, "Value was 5!"), Ok(6));
}

#[test]
fn is_less_than_passes_below_only() {
    assert_eq!(Guards::is_less_than(4, 5, "Value was 5 or more!"), Ok(4));
    assert_eq!(Guards::is_less_than(5, 5, "Value was 5 or more!"), message("Value was 5 or more!"));
    assert_eq!(Guards::is_less_than(6, 5, "Value was 5 or more!"), message("Value was 5 or more!"));
}

#[test]
fn is_less_or_equal_passes_below_and_on() {
    assert_eq!(Guards::is_less_or_equal(4, 5, "Value was greater than 5!"), Ok(4));
    assert_eq!(Guards::is_less_or_equal(5, 5, "Value was greater than 5!"), Ok(5));
    assert_eq!(
        Guards::is_less_or_equal(6, 5, "Value was greater than 5!"),
        message("Value was greater than 5!")
    );
}

#[test]
fn is_greater_than_passes_above_only() {
    assert_eq!(Guards::is_greater_than(4, 5, "Value was 5 or less!"), message("Value was 5 or less!"));
    assert_eq!(Guards::is_greater_than(5, 5, "Value was 5 or less!"), message("Value was 5 or less!"));
    assert_eq!(Guards::is_greater_than(6, 5, "Value was 5 or less!"), Ok(6));
}

#[test]
fn is_greater_or_equal_passes_above_and_on() {
    assert_eq!(
        Guards::is_greater_or_equal(4, 5, "Value was less than 5!"),
        message("Value was less than 5!")
    );
    assert_eq!(Guards::is_greater_or_equal(5, 5, "Value was less than 5!"), Ok(5));
    assert_eq!(Guards::is_greater_or_equal(6, 5, "Value was less than 5!"), Ok(6));
}

#[test]
fn is_between_exclusive_leaves_the_bounds_out() {
    assert_eq!(Guards::is_between(3, 4, 6, Bound::Exclusive, "no"), message("no"));
    assert_eq!(Guards::is_between(4, 4, 6, Bound::Exclusive, "no"), message("no"));
    assert_eq!(Guards::is_between(5, 4, 6, Bound::Exclusive, "no"), Ok(5));
    assert_eq!(Guards::is_between(6, 4, 6, Bound::Exclusive, "no"), message("no"));
    assert_eq!(Guards::is_between(7, 4, 6, Bound::Exclusive, "no"), message("no"));
}

#[test]
fn is_between_inclusive_takes_the_bounds_in() {
    assert_eq!(Guards::is_between(3, 4, 6, Bound::Inclusive, "no"), message("no"));
    assert_eq!(Guards::is_between(4, 4, 6, Bound::Inclusive, "no"), Ok(4));
    assert_eq!(Guards::is_between(5, 4, 6, Bound::Inclusive, "no"), Ok(5));
    assert_eq!(Guards::is_between(6, 4, 6, Bound::Inclusive, "no"), Ok(6));
    assert_eq!(Guards::is_between(7, 4, 6, Bound::Inclusive, "no"), message("no"));
}

#[test]
fn is_outside_exclusive_takes_the_bounds_in() {
    assert_eq!(Guards::is_outside(3, 4, 6, Bound::Exclusive, "no"), Ok(3));
    assert_eq!(Guards::is_outside(4, 4, 6, Bound::Exclusive, "no"), Ok(4));
    assert_eq!(Guards::is_outside(5, 4, 6, Bound::Exclusive, "no"), message("no"));
    assert_eq!(Guards::is_outside(6, 4, 6, Bound::Exclusive, "no"), Ok(6));
    assert_eq!(Guards::is_outside(7, 4, 6, Bound::Exclusive, "no"), Ok(7));
}

#[test]
fn is_outside_inclusive_leaves_the_bounds_out() {
    assert_eq!(Guards::is_outside(3, 4, 6, Bound::Inclusive, "no"), Ok(3));
    assert_eq!(Guards::is_outside(4, 4, 6, Bound::Inclusive, "no"), message("no"));
    assert_eq!(Guards::is_outside(5, 4, 6, Bound::Inclusive, "no"), message("no"));
    assert_eq!(Guards::is_outside(6, 4, 6, Bound::Inclusive, "no"), message("no"));
    assert_eq!(Guards::is_outside(7, 4, 6, Bound::Inclusive, "no"), Ok(7));
}

#[test]
fn a_value_on_a_bound_is_between_inclusive_and_outside_exclusive_at_once() {
    for bound in [4, 6] {
        assert_eq!(Guards::is_between(bound, 4, 6, Bound::Inclusive, "no"), Ok(bound));
        assert_eq!(Guards::is_outside(bound, 4, 6, Bound::Exclusive, "no"), Ok(bound));
        assert_eq!(Guards::is_between(bound, 4, 6, Bound::Exclusive, "no"), message("no"));
        assert_eq!(Guards::is_outside(bound, 4, 6, Bound::Inclusive, "no"), message("no"));
    }
}

#[test]
fn a_value_on_the_lower_bound_but_above_the_upper_is_not_between() {
    assert_eq!(Guards::is_between(5, 5, 3, Bound::Inclusive, "no"), message("no"));
    assert_eq!(Guards::is_between(5, 5, 3, Bound::Exclusive, "no"), message("no"));
    assert_eq!(Guards::is_outside(5, 5, 3, Bound::Inclusive, "no"), Ok(5));
    assert_eq!(Guards::is_outside(5, 5, 3, Bound::Exclusive, "no"), Ok(5));
}

#[test]
fn a_value_on_the_upper_bound_but_below_the_lower_is_not_between() {
    assert_eq!(Guards::is_between(3, 5, 3, Bound::Inclusive, "no"), message("no"));
    assert_eq!(Guards::is_between(3, 5, 3, Bound::Exclusive, "no"), message("no"));
    assert_eq!(Guards::is_outside(3, 5, 3, Bound::Inclusive, "no"), Ok(3));
    assert_eq!(Guards::is_outside(3, 5, 3, Bound::Exclusive, "no"), Ok(3));
}

#[test]
fn equal_bounds_hold_one_value_inclusively_and_none_exclusively() {
    assert_eq!(Guards::is_between(5, 5, 5, Bound::Inclusive, "no"), Ok(5));
    assert_eq!(Guards::is_between(5, 5, 5, Bound::Exclusive, "no"), message("no"));
    assert_eq!(Guards::is_outside(5, 5, 5, Bound::Inclusive, "no"), message("no"));
    assert_eq!(Guards::is_outside(5, 5, 5, Bound::Exclusive, "no"), Ok(5));
}

#[test]
fn unordered_values_fail_every_condition_of_order() {
    let nan = f64::NAN;
    let no: Result<f64, String> = Err(String::from("no"));
    assert_eq!(Guards::is_equal_to(nan, nan, "no"), no);
    assert_eq!(Guards::is_equal_to(nan, 1.0, "no"), no);
    assert!(Guards::is_not_equal_to(nan, nan, "no").is_ok_and(|v| v.is_nan()));
    assert_eq!(Guards::is_less_than(nan, 1.0, "no"), no);
    assert_eq!(Guards::is_less_or_equal(nan, nan, "no"), no);
    assert_eq!(Guards::is_greater_than(1.0, nan, "no"), no);
    assert_eq!(Guards::is_greater_or_equal(nan, nan, "no"), no);
    assert_eq!(Guards::is_between(nan, 0.0, 2.0, Bound::Inclusive, "no"), no);
    assert_eq!(Guards::is_between(nan, 0.0, 2.0, Bound::Exclusive, "no"), no);
    assert_eq!(Guards::is_between(1.0, nan, 2.0, Bound::Inclusive, "no"), no);
    assert_eq!(Guards::is_between(1.0, 0.0, nan, Bound::Inclusive, "no"), no);
    assert_eq!(Guards::is_outside(nan, 0.0, 2.0, Bound::Inclusive, "no"), no);
    assert_eq!(Guards::is_outside(nan, 0.0, 2.0, Bound::Exclusive, "no"), no);
    assert_eq!(Guards::is_outside(3.0, nan, nan, Bound::Exclusive, "no"), no);
}

#[test]
fn floats_are_compared_as_floats() {
    assert_eq!(Guards::is_greater_or_equal(0.1_f32, 0.1, "low"), Ok(0.1));
    assert_eq!(Guards::is_greater_or_equal(0.05_f32, 0.1, "low"), Err(String::from("low")));
    assert_eq!(Guards::is_less_or_equal(1.1_f32, 1.0, "high"), Err(String::from("high")));
    assert_eq!(Guards::is_between(0.5_f64, 0.0, 1.0, Bound::Exclusive, "no"), Ok(0.5));
}

#[test]
fn the_value_comes_back_as_it_went_in() {
    let value = vec![String::from("a"), String::from("b")];
    let same = value.clone();
    let low = vec![String::from("a")];
    assert_eq!(Guards::is_greater_than(value, low, "no"), Ok(same));
    assert_eq!(Guards::is_equal_to("text", "text", "no"), Ok("text"));
    assert_eq!(Guards::is_less_than((1, 'a'), (1, 'b'), "no"), Ok((1, 'a')));
}

#[test]
fn the_message_comes_back_word_for_word() {
    let text = "  Value: {} was\tnot \"5\"!\n";
    assert_eq!(Guards::is_equal_to(4, 5, text), message(text));
    assert_eq!(Guards::is_equal_to(4, 5, ""), message(""));
    assert_eq!(Guards::is_less_than(9, 5, "größer"), message("größer"));
}

#[test]
fn the_message_may_be_any_text_like_value() {
    assert_eq!(Guards::is_equal_to(4, 5, String::from("owned")), message("owned"));
    assert_eq!(Guards::is_equal_to(4, 5, format!("{} != {}", 4, 5)), message("4 != 5"));
    assert_eq!(Guards::is_equal_to(4, 5, 'c'), message("c"));
    assert_eq!(Guards::is_equal_to(4, 5, Box::<str>::from("boxed")), message("boxed"));
    assert_eq!(Guards::is_equal_to(4, 5, Cow::Borrowed("cow")), message("cow"));
    assert_eq!(Guards::is_equal_to(4, 5, &String::from("borrowed")), message("borrowed"));
}

#[test]
fn a_single_check_asked_twice_answers_alike() {
    for value in 0..10 {
        for mode in [true, false] {
            let first = Guards::is_between(
                value,
                3,
                7,
                if mode { Bound::Inclusive } else { Bound::Exclusive },
                "no",
            );
            let second = Guards::is_between(
                value,
                3,
                7,
                if mode { Bound::Inclusive } else { Bound::Exclusive },
                "no",
            );
            assert_eq!(first, second);
        }
    }
}

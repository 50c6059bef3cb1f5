use ratios::entry::Entry;
use ratios::input::Input;
use ratios::number::Number;
use ratios::value::Value;

fn parts(argument: &str) -> (String, Option<String>) {
    let input = Input::from_str(argument);
    (input.value, input.name)
}

#[test]
fn argument_without_colon_has_no_label() {
    assert_eq!(parts("100"), ("100".to_string(), None));
    assert_eq!(parts("0.1"), ("0.1".to_string(), None));
    assert_eq!(parts("not a number"), ("not a number".to_string(), None));
}

#[test]
fn argument_with_colon_has_a_label() {
    assert_eq!(parts("100:grams"), ("100".to_string(), Some("grams".to_string())));
    assert_eq!(parts("0.2:percentage"), ("0.2".to_string(), Some("percentage".to_string())));
    assert_eq!(parts("210:sugar(grams)"), ("210".to_string(), Some("sugar(grams)".to_string())));
}

#[test]
fn argument_is_cut_at_the_second_colon() {
    assert_eq!(parts("1:a:b"), ("1".to_string(), Some("a".to_string())));
    assert_eq!(parts("1:a:b:c"), ("1".to_string(), Some("a".to_string())));
    assert_eq!(parts("1::b"), ("1".to_string(), Some(String::new())));
}

#[test]
fn empty_parts_of_an_argument_are_kept() {
    assert_eq!(parts(""), (String::new(), None));
    assert_eq!(parts(":"), (String::new(), Some(String::new())));
    assert_eq!(parts("5:"), ("5".to_string(), Some(String::new())));
    assert_eq!(parts(":x"), (String::new(), Some("x".to_string())));
}

#[test]
fn argument_may_hold_any_characters() {
    assert_eq!(parts("2:café"), ("2".to_string(), Some("café".to_string())));
    assert_eq!(parts("½:糖:x"), ("½".to_string(), Some("糖".to_string())));
    assert_eq!(parts("1 : a "), ("1 ".to_string(), Some(" a ".to_string())));
}

#[test]
fn argument_splits_as_std_does() {
    for argument in ["", ":", "::", "a", "a:", ":a", "a:b", "a:b:", "a::b", "1.5:x:y:z", "é:ü:ö"] {
        let pieces: Vec<&str> = argument.split(':').collect();
        let input = Input::from_str(argument);
        assert_eq!(input.value, pieces[0]);
        assert_eq!(input.name.as_deref(), pieces.get(1).copied());
    }
}

#[test]
fn value_takes_label_number_and_text() {
    let number = Number::from_bits(210.0f64.to_bits());
    let reading = Entry::new("210".to_string(), Some(number));
    let value = Value::from_input(Input::from_str("0210:sugar"), reading).unwrap();
    assert_eq!(value.name, Some("sugar".to_string()));
    assert_eq!(value.value, number);
    assert_eq!(value.text, "210");
}

#[test]
fn value_without_label() {
    let number = Number::from_bits(0.5f64.to_bits());
    let value = Value::from_input(Input::from_str(".5"), Entry::new("0.5".to_string(), Some(number))).unwrap();
    assert_eq!(value.name, None);
    assert_eq!(value.value, number);
    assert_eq!(value.text, "0.5");
}

#[test]
fn value_of_text_that_is_no_number_is_an_error() {
    let reading = Entry::new("ten".to_string(), None);
    let error = Value::from_input(Input::from_str("ten:apples"), reading).unwrap_err();
    assert_eq!(error.text, "ten");
    let error = Value::from_input(Input::from_str(""), Entry::new(String::new(), None)).unwrap_err();
    assert_eq!(error.text, "");
}

#[test]
fn value_may_be_infinite() {
    let number = Number::from_bits(f64::INFINITY.to_bits());
    let value = Value::from_input(Input::from_str("inf"), Entry::new("inf".to_string(), Some(number))).unwrap();
    assert_eq!(value.value, number);
}

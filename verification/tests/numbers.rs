use ratios::entry::Entry;
use ratios::item::Item;
use ratios::number::{Number, Ratio};
use ratios::style::{Border, Style};

fn number(x: f64) -> Number {
    Number::from_bits(x.to_bits())
}

#[test]
fn bits_go_in_and_out() {
    assert_eq!(Number::from_bits(0x3ff0_0000_0000_0000).to_bits(), 0x3ff0_0000_0000_0000);
    assert_eq!(number(1.0).to_bits(), 0x3ff0_0000_0000_0000);
    assert_eq!(number(-2.5).bits, (-2.5f64).to_bits());
}

#[test]
fn finite_numbers_are_finite() {
    for x in [0.0, -0.0, 1.0, -1.0, 0.002, 1e300, -1e-300, f64::MAX, f64::MIN, f64::MIN_POSITIVE, 5e-324, f64::EPSILON] {
        assert!(number(x).is_finite());
    }
}

#[test]
fn infinities_and_nan_are_not_finite() {
    assert!(!number(f64::INFINITY).is_finite());
    assert!(!number(f64::NEG_INFINITY).is_finite());
    assert!(!number(f64::NAN).is_finite());
    assert!(!number(-f64::NAN).is_finite());
    assert!(!Number::from_bits(0x7ff0_0000_0000_0001).is_finite());
    assert!(!Number::from_bits(0xffff_ffff_ffff_ffff).is_finite());
}

#[test]
fn finite_agrees_with_the_machine() {
    let mut bits: u64 = 0x0123_4567_89ab_cdef;
    for _ in 0..10_000 {
        bits = bits.wrapping_mul(6364136223846793005).wrapping_add(1442695040888963407);
        let x = f64::from_bits(bits);
        assert_eq!(Number::from_bits(bits).is_finite(), x.is_finite());
        assert_eq!(Number::from_bits(bits).is_zero(), x == 0.0);
        let top = bits | 0x7ff0_0000_0000_0000;
        assert_eq!(Number::from_bits(top).is_finite(), f64::from_bits(top).is_finite());
        let low = bits & 0x8000_0000_0000_0003;
        assert_eq!(Number::from_bits(low).is_zero(), f64::from_bits(low) == 0.0);
    }
}

#[test]
fn only_the_zeros_are_zero() {
    assert!(number(0.0).is_zero());
    assert!(number(-0.0).is_zero());
    assert!(Number::from_bits(0).is_zero());
    assert!(Number::from_bits(0x8000_0000_0000_0000).is_zero());
    for x in [5e-324, -5e-324, f64::MIN_POSITIVE, 1.0, -1.0, f64::INFINITY, f64::NAN] {
        assert!(!number(x).is_zero());
    }
    assert!(!Number::from_bits(0x0010_0000_0000_0000).is_zero());
    assert!(!Number::from_bits(1).is_zero());
}

#[test]
fn entry_is_valid_when_it_reads_as_a_finite_number() {
    assert!(Entry::new("1".to_string(), Some(number(1.0))).is_valid());
    assert!(Entry::new("0".to_string(), Some(number(0.0))).is_valid());
    assert!(!Entry::new("inf".to_string(), Some(number(f64::INFINITY))).is_valid());
    assert!(!Entry::new("NaN".to_string(), Some(number(f64::NAN))).is_valid());
    assert!(!Entry::new("1x".to_string(), None).is_valid());
    assert!(!Entry::new(String::new(), None).is_valid());
}

#[test]
fn item_holds_what_it_was_made_with() {
    let ratio = Ratio { numerator: number(50.0), denominator: number(100.0) };
    let item = Item::new(ratio, Some("half".to_string()), Entry::new("50".to_string(), Some(number(50.0))));
    assert_eq!(item.ratio(), ratio);
    assert_eq!(item.label(), "half");
    assert_eq!(item.text(), "50");
    assert_eq!(item.value(), Some(number(50.0)));
    assert!(item.is_valid());
    assert_eq!(item.get_value(), number(50.0));
}

#[test]
fn item_takes_a_new_entry_and_keeps_the_rest() {
    let ratio = Ratio { numerator: number(2.0), denominator: number(1.0) };
    let mut item = Item::new(ratio, None, Entry::new("2".to_string(), Some(number(2.0))));
    item.set_new_value(Entry::new("4x".to_string(), None));
    assert_eq!(item.text(), "4x");
    assert_eq!(item.value(), None);
    assert!(!item.is_valid());
    assert_eq!(item.ratio(), ratio);
    assert_eq!(item.label(), "");
    item.set_new_value(Entry::new("8".to_string(), Some(number(8.0))));
    assert_eq!(item.text(), "8");
    assert!(item.is_valid());
    assert_eq!(item.get_value(), number(8.0));
}

#[test]
fn item_is_decorated_in_three_ways() {
    let ratio = Ratio { numerator: number(1.0), denominator: number(1.0) };
    let item = Item::new(ratio, Some("grams".to_string()), Entry::new("1".to_string(), Some(number(1.0))));
    let focussed = item.style_focussed();
    assert_eq!(focussed.style, Style::Focussed);
    assert!(focussed.underlined);
    assert_eq!(focussed.border, Border::LightGreen);
    assert_eq!(focussed.title, "grams");
    let invalid = item.style_invalid();
    assert_eq!(invalid.style, Style::Invalid);
    assert!(invalid.underlined);
    assert_eq!(invalid.border, Border::Red);
    assert_eq!(invalid.title, "Not a valid number");
    let unfocussed = item.style_unfocussed();
    assert_eq!(unfocussed.style, Style::Unfocussed);
    assert!(!unfocussed.underlined);
    assert_eq!(unfocussed.border, Border::Plain);
    assert_eq!(unfocussed.title, "grams");
}

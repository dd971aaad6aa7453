use shared_counter::person::Person;
use shared_counter::text::longest;
use shared_counter::text::u32_to_decimal;

#[test]
fn decimal_of_zero() {
    assert_eq!(u32_to_decimal(0), "0");
}

#[test]
fn decimal_of_single_digit() {
    assert_eq!(u32_to_decimal(7), "7");
}

#[test]
fn decimal_of_ten() {
    assert_eq!(u32_to_decimal(10), "10");
}

#[test]
fn decimal_of_round_number() {
    assert_eq!(u32_to_decimal(100000), "100000");
}

#[test]
fn decimal_of_mixed_digits() {
    assert_eq!(u32_to_decimal(90210), "90210");
}

#[test]
fn decimal_of_largest_u32() {
    assert_eq!(u32_to_decimal(u32::MAX), "4294967295");
}

#[test]
fn longest_picks_the_longer_second() {
    let string1 = String::from("short");
    let string2 = String::from("longer");
    assert_eq!(longest(string1.as_str(), string2.as_str()), "longer");
}

#[test]
fn longest_picks_the_longer_first() {
    assert_eq!(longest("a much longer one", "tiny"), "a much longer one");
}

#[test]
fn longest_returns_the_second_on_a_tie() {
    assert_eq!(longest("abc", "xyz"), "xyz");
}

#[test]
fn describe_renders_name_and_age() {
    let person = Person::new(String::from("Alice"), 30);
    assert_eq!(person.describe(), "Alice is 30 years old");
}

#[test]
fn describe_renders_age_zero() {
    let person = Person::new(String::from("Bob"), 0);
    assert_eq!(person.describe(), "Bob is 0 years old");
}

#[test]
fn new_keeps_name_and_age() {
    let person = Person::new(String::from("Carol"), 44);
    assert_eq!(person.name, "Carol");
    assert_eq!(person.age, 44);
}

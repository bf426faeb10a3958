use strawberry_core_rs::host::attr_candidates;
use strawberry_core_rs::names::camel_to_snake;

#[test]
fn translates_lower_camel_to_snake() {
    assert_eq!(camel_to_snake("fullName"), "full_name");
    assert_eq!(camel_to_snake("homeCityName"), "home_city_name");
}

#[test]
fn leading_uppercase_gets_no_leading_underscore() {
    assert_eq!(camel_to_snake("XValue"), "x_value");
    assert_eq!(camel_to_snake("Name"), "name");
}

#[test]
fn consecutive_uppercase_each_get_underscores() {
    assert_eq!(camel_to_snake("HTTPServer"), "h_t_t_p_server");
}

#[test]
fn digits_and_underscores_pass_through() {
    assert_eq!(camel_to_snake("field1"), "field1");
    assert_eq!(camel_to_snake("a_b2"), "a_b2");
}

#[test]
fn identity_on_already_snake_case() {
    assert_eq!(camel_to_snake("full_name"), "full_name");
    assert_eq!(camel_to_snake("hello"), "hello");
    assert_eq!(camel_to_snake(""), "");
}

#[test]
fn translating_twice_equals_translating_once() {
    let once = camel_to_snake("someFieldName");
    let twice = camel_to_snake(&once);
    assert_eq!(once, twice);
}

#[test]
fn candidates_are_verbatim_then_snake() {
    let (primary, fallback) = attr_candidates("fullName");
    assert_eq!(primary, "fullName");
    assert_eq!(fallback, "full_name");
}

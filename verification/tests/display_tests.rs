use ddf_bot::utils::get_remaining_lives_string;
use ddf_bot::utils::MissingRole;

#[test]
fn remaining_lives_string_formats() {
    assert_eq!(get_remaining_lives_string(3), "3 \u{2764}");
    assert_eq!(get_remaining_lives_string(0), "0 \u{2764}");
    assert_eq!(get_remaining_lives_string(10), "10 \u{2764}");
    assert_eq!(get_remaining_lives_string(-2), "-2 \u{2764}");
    assert_eq!(get_remaining_lives_string(2147483647), "2147483647 \u{2764}");
    assert_eq!(get_remaining_lives_string(-2147483648), "-2147483648 \u{2764}");
}

#[test]
fn missing_role_carries_the_role_id() {
    let err = MissingRole(42);
    assert_eq!(err.0, 42);
    assert_eq!(err, MissingRole(42));
}

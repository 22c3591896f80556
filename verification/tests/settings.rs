use truncatable::Direction;
use truncatable::Truncatable;

#[test]
fn new_text_has_default_settings() {
    let trunc = Truncatable::new(String::from("Test_Truncatable"));
    assert_eq!(trunc.value(), "Test_Truncatable");
    assert_eq!(trunc.marker(), "...");
    assert_eq!(trunc.direction(), Direction::LeftToRight);
}

#[test]
fn conversions_agree_with_new() {
    let made = Truncatable::new(String::from("Test_Truncatable"));
    let owned = Truncatable::from(String::from("Test_Truncatable"));
    let borrowed = Truncatable::from("Test_Truncatable");
    for other in [owned, borrowed] {
        assert_eq!(other.value(), made.value());
        assert_eq!(other.marker(), made.marker());
        assert_eq!(other.direction(), made.direction());
        assert_eq!(other.truncate(4), made.truncate(4));
    }
}

#[test]
fn empty_text_is_accepted() {
    let trunc = Truncatable::from("");
    assert_eq!(trunc.value(), "");
    assert_eq!(trunc.truncate(0), "");
    assert_eq!(trunc.truncate(7), "");
}

#[test]
fn marker_and_direction_are_independent() {
    let trunc = Truncatable::from("Test_Truncatable").rtl().truncator("~".into());
    assert_eq!(trunc.direction(), Direction::RightToLeft);
    assert_eq!(trunc.marker(), "~");
    assert_eq!(trunc.value(), "Test_Truncatable");

    let trunc = trunc.ltr();
    assert_eq!(trunc.direction(), Direction::LeftToRight);
    assert_eq!(trunc.marker(), "~");
    assert_eq!(trunc.value(), "Test_Truncatable");
}

#[test]
fn settings_commute() {
    let one = Truncatable::from("Test_Truncatable").rtl().truncator("~".into());
    let other = Truncatable::from("Test_Truncatable").truncator("~".into()).rtl();
    assert_eq!(one.marker(), other.marker());
    assert_eq!(one.direction(), other.direction());
    assert_eq!(one.truncate(4), "~able");
    assert_eq!(other.truncate(4), "~able");
}

#[test]
fn repeated_setting_changes_nothing() {
    let once = Truncatable::from("Test_Truncatable").truncator("~".into()).rtl();
    let twice = Truncatable::from("Test_Truncatable")
        .truncator("~".into())
        .truncator("~".into())
        .rtl()
        .rtl();
    assert_eq!(once.marker(), twice.marker());
    assert_eq!(once.direction(), twice.direction());
    assert_eq!(once.truncate(5), twice.truncate(5));

    let back = Truncatable::from("Test_Truncatable").ltr().ltr();
    assert_eq!(back.direction(), Direction::LeftToRight);
    assert_eq!(back.truncate(4), "Test...");
}

#[test]
fn last_setting_stands() {
    let trunc = Truncatable::from("Test_Truncatable")
        .truncator("first".into())
        .rtl()
        .truncator("last".into())
        .ltr();
    assert_eq!(trunc.marker(), "last");
    assert_eq!(trunc.direction(), Direction::LeftToRight);
    assert_eq!(trunc.truncate(4), "Testlast");
}

#[test]
fn clone_is_an_equal_text() {
    let trunc = Truncatable::from("Test_Truncatable").truncator("~".into()).rtl();
    let copy = trunc.clone();
    assert_eq!(copy.value(), trunc.value());
    assert_eq!(copy.marker(), trunc.marker());
    assert_eq!(copy.direction(), trunc.direction());
    assert_eq!(copy.truncate(3), "~ble");
}

use radiors::Orientation;
use radiors::Size;
use radiors::Type;

#[test]
fn orientation_horizontal_style() {
    assert_eq!(
        Orientation::Horizontal.to_style(),
        "display: flex; flex-direction: row; gap: 16px;"
    );
}

#[test]
fn orientation_vertical_style() {
    assert_eq!(
        Orientation::Vertical.to_style(),
        "display: flex; flex-direction: column; gap: 16px;"
    );
}

#[test]
fn orientation_defaults_to_vertical() {
    let o = Orientation::default();
    assert_eq!(o, Orientation::Vertical);
    assert!(o.to_style().contains("flex-direction: column"));
}

#[test]
fn size_preset_styles() {
    assert_eq!(Size::XSmall.to_style(), "padding: 5px;");
    assert_eq!(Size::Small.to_style(), "padding: 7px;");
    assert_eq!(Size::Medium.to_style(), "padding: 10px;");
    assert_eq!(Size::Large.to_style(), "padding: 20px;");
    assert_eq!(Size::XLarge.to_style(), "padding: 25px;");
    assert_eq!(Size::XXLarge.to_style(), "padding: 30px;");
}

#[test]
fn size_custom_style_interpolates_twice() {
    let s = Size::Custom("42px".to_string());
    assert_eq!(s.to_style(), "padding: 42px;  width: 42px;");
}

#[test]
fn size_defaults_to_xsmall() {
    assert_eq!(Size::default(), Size::XSmall);
}

#[test]
fn type_preset_styles() {
    assert_eq!(
        Type::Primary.to_style(),
        "background-color: #007bff; color: white;"
    );
    assert_eq!(
        Type::Secondary.to_style(),
        "background-color: #6c757d; color: white;"
    );
    assert_eq!(
        Type::Success.to_style(),
        "background-color: #28a745; color: white;"
    );
    assert_eq!(
        Type::Info.to_style(),
        "background-color: #17a2b8; color: white;"
    );
    assert_eq!(
        Type::Warning.to_style(),
        "background-color: #ffc107; color: white;"
    );
    assert_eq!(
        Type::Danger.to_style(),
        "background-color: #dc3545; color: white;"
    );
}

#[test]
fn type_plain_style_is_empty() {
    assert_eq!(Type::Plain.to_style(), "");
}

#[test]
fn type_custom_style_interpolates() {
    let t = Type::Custom("teal".to_string());
    assert_eq!(t.to_style(), "background-color: teal; color: white;");
}

#[test]
fn type_defaults_to_plain() {
    assert_eq!(Type::default(), Type::Plain);
}

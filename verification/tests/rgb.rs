use css_colors::RGB;

#[test]
fn can_clone() {
    let color = RGB { r: 5, g: 10, b: 15 };

    assert_eq!(color, color.clone());
}

#[test]
fn can_copy() {
    let color = RGB { r: 5, g: 10, b: 15 };
    let copied_color = color;

    assert_eq!(color, copied_color);
}

#[test]
fn can_debug() {
    let color = RGB { r: 5, g: 10, b: 15 };
    let value = format!("{:?}", color);

    assert_eq!(value, "RGB { r: 5, g: 10, b: 15 }");
}

#[test]
fn can_convert_to_css() {
    let color = RGB { r: 5, g: 10, b: 255 };

    assert_eq!(color.to_css(), "rgb(5, 10, 255)");
}

#[test]
fn can_print_in_css() {
    let color = RGB { r: 5, g: 10, b: 255 };
    let printed = color.to_display_string();

    assert_eq!(printed, "rgb(5, 10, 255)");
}

#[test]
fn can_be_displayed() {
    let color = RGB { r: 5, g: 10, b: 255 };

    assert_eq!("rgb(5, 10, 255)".to_owned(), color.to_display_string());
}

#[test]
fn can_be_stringified() {
    let color = RGB { r: 5, g: 10, b: 255 };
    let color_string = String::from("rgb(5, 10, 255)");

    assert_eq!(color_string, color.to_display_string());
}

#[test]
fn equals_same_channels() {
    let first = RGB { r: 5, g: 10, b: 15 };
    let second = RGB { r: 5, g: 10, b: 15 };

    assert!(first.equals(&second));
    assert!(first.equals(&first));
}

#[test]
fn equals_different_channels() {
    let color = RGB { r: 5, g: 10, b: 15 };

    assert!(!color.equals(&RGB { r: 6, g: 10, b: 15 }));
    assert!(!color.equals(&RGB { r: 5, g: 11, b: 15 }));
    assert!(!color.equals(&RGB { r: 5, g: 10, b: 16 }));
}

#[test]
fn duplicate_equals_original() {
    let color = RGB { r: 250, g: 128, b: 114 };
    let copy = color.duplicate();

    assert!(copy.equals(&color));
    assert_eq!(copy, color);
}

#[test]
fn display_string_agrees_with_css() {
    let colors = vec![
        RGB { r: 0, g: 0, b: 0 },
        RGB { r: 5, g: 10, b: 15 },
        RGB { r: 100, g: 199, b: 200 },
        RGB { r: 255, g: 255, b: 255 },
    ];

    for color in colors {
        assert_eq!(color.to_css(), color.to_display_string());
    }
}

#[test]
fn css_concrete_values() {
    assert_eq!(RGB { r: 5, g: 10, b: 15 }.to_css(), "rgb(5, 10, 15)");
    assert_eq!(RGB { r: 250, g: 128, b: 114 }.to_css(), "rgb(250, 128, 114)");
}

#[test]
fn css_boundary_values() {
    assert_eq!(RGB { r: 0, g: 0, b: 0 }.to_css(), "rgb(0, 0, 0)");
    assert_eq!(RGB { r: 255, g: 255, b: 255 }.to_css(), "rgb(255, 255, 255)");
}

#[test]
fn css_digit_count_edges() {
    assert_eq!(RGB { r: 9, g: 10, b: 99 }.to_css(), "rgb(9, 10, 99)");
    assert_eq!(RGB { r: 100, g: 199, b: 201 }.to_css(), "rgb(100, 199, 201)");
}

#[test]
fn debug_representation_concrete_value() {
    let color = RGB { r: 5, g: 10, b: 15 };

    assert_eq!(color.debug_representation(), "RGB { r: 5, g: 10, b: 15 }");
}

#[test]
fn debug_representation_matches_derived_debug() {
    let colors = vec![
        RGB { r: 0, g: 0, b: 0 },
        RGB { r: 9, g: 99, b: 100 },
        RGB { r: 255, g: 128, b: 1 },
    ];

    for color in colors {
        assert_eq!(color.debug_representation(), format!("{:?}", color));
    }
}

use tuxedo_kbd::schema::{attribute_path, encode_read_value, is_hex_field, schema, Field};

#[test]
fn schema_has_all_fields_in_order() {
    let fields = schema();
    assert_eq!(
        fields,
        vec![
            Field::Brightness,
            Field::ColorLeft,
            Field::ColorCenter,
            Field::ColorRight,
            Field::ColorExtra,
            Field::Mode,
            Field::State,
        ]
    );
}

#[test]
fn field_names_match_attribute_files() {
    assert_eq!(Field::Brightness.name(), "brightness");
    assert_eq!(Field::ColorLeft.name(), "color_left");
    assert_eq!(Field::ColorCenter.name(), "color_center");
    assert_eq!(Field::ColorRight.name(), "color_right");
    assert_eq!(Field::ColorExtra.name(), "color_extra");
    assert_eq!(Field::Mode.name(), "mode");
    assert_eq!(Field::State.name(), "state");
}

#[test]
fn hex_subset_is_the_color_fields() {
    assert!(is_hex_field(Field::ColorLeft));
    assert!(is_hex_field(Field::ColorCenter));
    assert!(is_hex_field(Field::ColorRight));
    assert!(is_hex_field(Field::ColorExtra));
    assert!(!is_hex_field(Field::Brightness));
    assert!(!is_hex_field(Field::Mode));
    assert!(!is_hex_field(Field::State));
}

#[test]
fn hex_fields_read_with_prefix() {
    assert_eq!(encode_read_value(Field::ColorLeft, "ab"), "0xab");
    assert_eq!(encode_read_value(Field::ColorCenter, "ffffff"), "0xffffff");
    assert_eq!(encode_read_value(Field::ColorRight, ""), "0x");
    assert_eq!(encode_read_value(Field::ColorExtra, "00ff00\n"), "0x00ff00\n");
}

#[test]
fn plain_fields_read_verbatim() {
    assert_eq!(encode_read_value(Field::Brightness, "100"), "100");
    assert_eq!(encode_read_value(Field::Mode, "0\n"), "0\n");
    assert_eq!(encode_read_value(Field::State, ""), "");
}

#[test]
fn attribute_path_joins_root_and_name() {
    assert_eq!(
        attribute_path("/sys/devices/platform/tuxedo_keyboard/", Field::Brightness),
        "/sys/devices/platform/tuxedo_keyboard/brightness"
    );
    assert_eq!(attribute_path("", Field::Mode), "mode");
    assert_eq!(attribute_path("/tmp/dev/", Field::ColorLeft), "/tmp/dev/color_left");
}

use fp_bindgen::casing::Casing;

#[test]
fn original_casing_leaves_the_identifier_alone() {
    assert_eq!(Casing::Original.format_string("my_field_name"), "my_field_name");
    assert_eq!(Casing::Original.format_string("WeIrD_mix"), "WeIrD_mix");
}

#[test]
fn camel_casing_transforms_snake_case() {
    assert_eq!(Casing::CamelCase.format_string("my_field_name"), "myFieldName");
    assert_eq!(Casing::CamelCase.format_string("Ok"), "ok");
}

#[test]
fn pascal_casing_transforms_snake_case() {
    assert_eq!(Casing::PascalCase.format_string("my_field_name"), "MyFieldName");
}

#[test]
fn snake_casing_transforms_camel_case() {
    assert_eq!(Casing::SnakeCase.format_string("myFieldName"), "my_field_name");
}

#[test]
fn screaming_snake_casing_transforms_camel_case() {
    assert_eq!(
        Casing::ScreamingSnakeCase.format_string("myFieldName"),
        "MY_FIELD_NAME"
    );
}

#[test]
fn empty_identifier_stays_empty_under_every_convention() {
    for casing in [
        Casing::Original,
        Casing::CamelCase,
        Casing::PascalCase,
        Casing::SnakeCase,
        Casing::ScreamingSnakeCase,
    ] {
        assert_eq!(casing.format_string(""), "");
    }
}

use dispatchrr::domain::InputField;
use dispatchrr::editor::{cycle_choice_backward, cycle_choice_forward, erase_char, type_char};

fn field(name: &str, kind: &str, value: &str, options: &[&str]) -> InputField {
    InputField {
        name: name.to_string(),
        description: String::new(),
        input_type: kind.to_string(),
        required: false,
        default_value: value.to_string(),
        options: options.iter().map(|s| s.to_string()).collect(),
        value: value.to_string(),
    }
}

#[test]
fn boolean_field_toggles_on_any_character() {
    let mut fields = vec![field("debug", "boolean", "false", &[])];
    type_char(&mut fields, 0, 'x');
    assert_eq!(fields[0].value, "true");
    type_char(&mut fields, 0, 'q');
    assert_eq!(fields[0].value, "false");
}

#[test]
fn boolean_field_ignores_backspace() {
    let mut fields = vec![field("debug", "boolean", "true", &[])];
    erase_char(&mut fields, 0);
    assert_eq!(fields[0].value, "true");
}

#[test]
fn choice_cycles_forward_and_wraps() {
    let mut fields = vec![field("env", "choice", "staging", &["dev", "staging", "prod"])];
    cycle_choice_forward(&mut fields, 0);
    assert_eq!(fields[0].value, "prod");
    cycle_choice_forward(&mut fields, 0);
    assert_eq!(fields[0].value, "dev");
}

#[test]
fn choice_cycles_backward_and_wraps() {
    let mut fields = vec![field("env", "choice", "dev", &["dev", "staging", "prod"])];
    cycle_choice_backward(&mut fields, 0);
    assert_eq!(fields[0].value, "prod");
    cycle_choice_backward(&mut fields, 0);
    assert_eq!(fields[0].value, "staging");
}

#[test]
fn choice_with_unknown_value_starts_at_ends() {
    let mut fields = vec![field("env", "choice", "qa", &["dev", "prod"])];
    cycle_choice_forward(&mut fields, 0);
    assert_eq!(fields[0].value, "dev");
    fields[0].value = "qa".to_string();
    cycle_choice_backward(&mut fields, 0);
    assert_eq!(fields[0].value, "prod");
}

#[test]
fn choice_ignores_typing() {
    let mut fields = vec![field("env", "choice", "dev", &["dev", "prod"])];
    type_char(&mut fields, 0, 'z');
    erase_char(&mut fields, 0);
    assert_eq!(fields[0].value, "dev");
}

#[test]
fn string_field_appends_and_erases() {
    let mut fields = vec![field("tag", "string", "v", &[])];
    type_char(&mut fields, 0, '1');
    assert_eq!(fields[0].value, "v1");
    erase_char(&mut fields, 0);
    erase_char(&mut fields, 0);
    erase_char(&mut fields, 0);
    assert_eq!(fields[0].value, "");
}

#[test]
fn editing_out_of_range_changes_nothing() {
    let mut fields = vec![field("tag", "environment", "x", &[])];
    type_char(&mut fields, 3, 'y');
    cycle_choice_forward(&mut fields, 3);
    assert_eq!(fields[0].value, "x");
}

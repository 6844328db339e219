use axiom_mcp_context::args::command_args;
use axiom_mcp_context::decimal::i32_text;
use axiom_mcp_context::launch::{build_launch_spec, ConfigError, LaunchSpec};
use axiom_mcp_context::settings::{
    resolve_settings, ParseError, RawFields, RawNumber, RawSettings, RawValue, ResolvedSettings,
    SettingsField,
};

fn no_fields() -> RawFields {
    RawFields {
        config_file: None,
        datasets_burst: None,
        datasets_rate: None,
        query_burst: None,
        query_rate: None,
        token: None,
        url: None,
    }
}

fn text(s: &str) -> Option<RawValue> {
    Some(RawValue::Text(s.to_string()))
}

fn integer(i: i128) -> Option<RawValue> {
    Some(RawValue::Number(RawNumber { integer: Some(i), decimal: (i as f64).to_string() }))
}

fn float(x: f64) -> Option<RawValue> {
    Some(RawValue::Number(RawNumber { integer: None, decimal: x.to_string() }))
}

fn launch(fields: RawFields) -> Result<LaunchSpec, ConfigError> {
    build_launch_spec(Some(RawSettings::Object(fields)), Some("/work/project".to_string()))
}

fn args_of(fields: RawFields) -> Vec<String> {
    launch(fields).ok().expect("settings should be accepted").args
}

fn malformed(fields: RawFields) -> ParseError {
    match launch(fields) {
        Err(ConfigError::Malformed(e)) => e,
        _ => panic!("settings should be malformed"),
    }
}

#[test]
fn minimal_settings_give_token_only() {
    let mut f = no_fields();
    f.token = text("t");
    assert_eq!(args_of(f), vec!["-token", "t"]);
}

#[test]
fn end_to_end_rate_and_burst() {
    let mut f = no_fields();
    f.token = text("abc123");
    f.query_rate = float(1.0);
    f.query_burst = integer(5);
    assert_eq!(args_of(f), vec!["-token", "abc123", "-query-rate", "1", "-query-burst", "5"]);
}

#[test]
fn rate_and_burst_rendering() {
    let mut f = no_fields();
    f.token = text("k");
    f.query_rate = float(2.5);
    f.query_burst = integer(10);
    assert_eq!(args_of(f), vec!["-token", "k", "-query-rate", "2.5", "-query-burst", "10"]);
}

#[test]
fn integer_rate_is_accepted() {
    let mut f = no_fields();
    f.token = text("k");
    f.datasets_rate = integer(3);
    assert_eq!(args_of(f), vec!["-token", "k", "-datasets-rate", "3"]);
}

#[test]
fn all_fields_in_fixed_order() {
    let mut f = no_fields();
    f.token = text("T");
    f.url = text("https://api.example.com");
    f.query_rate = float(0.5);
    f.query_burst = integer(7);
    f.datasets_rate = float(1.25);
    f.datasets_burst = integer(-3);
    f.config_file = text("/etc/axiom.toml");
    assert_eq!(
        args_of(f),
        vec![
            "-token",
            "T",
            "-url",
            "https://api.example.com",
            "-query-rate",
            "0.5",
            "-query-burst",
            "7",
            "-datasets-rate",
            "1.25",
            "-datasets-burst",
            "-3",
            "-config",
            "/etc/axiom.toml",
        ]
    );
}

#[test]
fn omitted_field_removes_its_pair() {
    let mut f = no_fields();
    f.token = text("T");
    f.query_rate = float(0.5);
    f.query_burst = integer(7);
    f.datasets_rate = float(1.25);
    f.datasets_burst = integer(8);
    f.config_file = text("c.toml");
    assert_eq!(
        args_of(f),
        vec![
            "-token",
            "T",
            "-query-rate",
            "0.5",
            "-query-burst",
            "7",
            "-datasets-rate",
            "1.25",
            "-datasets-burst",
            "8",
            "-config",
            "c.toml",
        ]
    );
}

#[test]
fn null_fields_count_as_unset() {
    let mut f = no_fields();
    f.token = text("T");
    f.url = Some(RawValue::Null);
    f.query_burst = Some(RawValue::Null);
    f.query_rate = Some(RawValue::Null);
    assert_eq!(args_of(f), vec!["-token", "T"]);
}

#[test]
fn empty_token_is_accepted() {
    let mut f = no_fields();
    f.token = text("");
    assert_eq!(args_of(f), vec!["-token", ""]);
}

#[test]
fn token_that_looks_like_a_flag_stays_a_value() {
    let mut f = no_fields();
    f.token = text("-url");
    assert_eq!(args_of(f), vec!["-token", "-url"]);
}

#[test]
fn absent_settings_are_missing() {
    let r = build_launch_spec(None, Some("/work".to_string()));
    assert!(matches!(r, Err(ConfigError::Missing)));
    let r = build_launch_spec(None, None);
    assert!(matches!(r, Err(ConfigError::Missing)));
}

#[test]
fn absent_token_is_malformed() {
    let mut f = no_fields();
    f.url = text("https://x");
    f.query_burst = integer(2);
    assert_eq!(malformed(f), ParseError::MissingField(SettingsField::Token));
}

#[test]
fn null_token_is_malformed() {
    let mut f = no_fields();
    f.token = Some(RawValue::Null);
    assert_eq!(malformed(f), ParseError::InvalidType(SettingsField::Token));
}

#[test]
fn non_object_settings_are_malformed() {
    let r = build_launch_spec(Some(RawSettings::NotAnObject), Some("/w".to_string()));
    assert!(matches!(r, Err(ConfigError::Malformed(ParseError::NotAnObject))));
}

#[test]
fn burst_given_as_string_is_malformed() {
    let mut f = no_fields();
    f.token = text("T");
    f.query_burst = text("10");
    assert_eq!(malformed(f), ParseError::InvalidType(SettingsField::QueryBurst));
}

#[test]
fn fractional_burst_is_malformed() {
    let mut f = no_fields();
    f.token = text("T");
    f.datasets_burst = float(2.5);
    assert_eq!(malformed(f), ParseError::InvalidType(SettingsField::DatasetsBurst));
}

#[test]
fn burst_out_of_range_is_malformed() {
    let mut f = no_fields();
    f.token = text("T");
    f.query_burst = integer(3_000_000_000);
    assert_eq!(malformed(f), ParseError::OutOfRange(SettingsField::QueryBurst));
    let mut f = no_fields();
    f.token = text("T");
    f.query_burst = integer(-2_147_483_649);
    assert_eq!(malformed(f), ParseError::OutOfRange(SettingsField::QueryBurst));
}

#[test]
fn burst_at_the_limits_is_accepted() {
    let mut f = no_fields();
    f.token = text("T");
    f.query_burst = integer(2_147_483_647);
    f.datasets_burst = integer(-2_147_483_648);
    assert_eq!(
        args_of(f),
        vec!["-token", "T", "-query-burst", "2147483647", "-datasets-burst", "-2147483648"]
    );
}

#[test]
fn rate_given_as_string_is_malformed() {
    let mut f = no_fields();
    f.token = text("T");
    f.query_rate = text("fast");
    assert_eq!(malformed(f), ParseError::InvalidType(SettingsField::QueryRate));
}

#[test]
fn text_fields_of_wrong_type_are_malformed() {
    let mut f = no_fields();
    f.token = text("T");
    f.url = Some(RawValue::Bool(true));
    assert_eq!(malformed(f), ParseError::InvalidType(SettingsField::Url));
    let mut f = no_fields();
    f.token = Some(RawValue::Array);
    assert_eq!(malformed(f), ParseError::InvalidType(SettingsField::Token));
    let mut f = no_fields();
    f.token = text("T");
    f.config_file = Some(RawValue::Object);
    assert_eq!(malformed(f), ParseError::InvalidType(SettingsField::ConfigFile));
}

#[test]
fn first_fault_in_key_order_is_reported() {
    let mut f = no_fields();
    f.token = text("T");
    f.url = integer(1);
    f.config_file = integer(1);
    assert_eq!(malformed(f), ParseError::InvalidType(SettingsField::ConfigFile));
    let mut f = no_fields();
    f.url = integer(1);
    assert_eq!(malformed(f), ParseError::InvalidType(SettingsField::Url));
}

#[test]
fn missing_working_directory_is_reported_last() {
    let mut f = no_fields();
    f.token = text("T");
    let r = build_launch_spec(Some(RawSettings::Object(f)), None);
    assert!(matches!(r, Err(ConfigError::WorkingDirectoryUnavailable)));
    let r = build_launch_spec(Some(RawSettings::Object(no_fields())), None);
    assert!(matches!(r, Err(ConfigError::Malformed(ParseError::MissingField(SettingsField::Token)))));
}

#[test]
fn command_is_helper_inside_working_directory() {
    let mut f = no_fields();
    f.token = text("T");
    let spec = launch(f).ok().unwrap();
    let expected = std::path::Path::new("/work/project").join("axiom-mcp");
    assert_eq!(spec.command, expected.to_string_lossy().to_string());
    assert_ne!(spec.command, "/work/project");
    assert!(spec.command.ends_with("axiom-mcp"));
    assert!(spec.env.is_empty());
}

#[test]
fn resolved_settings_keep_their_values() {
    let mut f = no_fields();
    f.token = text("T");
    f.query_burst = integer(4);
    f.datasets_rate = float(0.25);
    let s = resolve_settings(&RawSettings::Object(f)).ok().unwrap();
    assert_eq!(s.token, "T");
    assert_eq!(s.query_burst, Some(4));
    assert_eq!(s.datasets_rate, Some("0.25".to_string()));
    assert_eq!(s.url, None);
}

#[test]
fn command_args_from_typed_settings() {
    let s = ResolvedSettings {
        token: "tok".to_string(),
        url: None,
        query_rate: None,
        query_burst: None,
        datasets_rate: None,
        datasets_burst: Some(12),
        config_file: Some("f".to_string()),
    };
    assert_eq!(command_args(&s), vec!["-token", "tok", "-datasets-burst", "12", "-config", "f"]);
}

#[test]
fn integers_render_in_base_ten() {
    assert_eq!(i32_text(0), "0");
    assert_eq!(i32_text(10), "10");
    assert_eq!(i32_text(-45), "-45");
    assert_eq!(i32_text(i32::MAX), "2147483647");
    assert_eq!(i32_text(i32::MIN), "-2147483648");
}

#[test]
fn error_messages() {
    assert_eq!(ConfigError::Missing.message(), "missing Axiom settings");
    assert_eq!(
        ConfigError::Malformed(ParseError::MissingField(SettingsField::Token)).message(),
        "missing field `token`"
    );
    assert_eq!(
        ConfigError::Malformed(ParseError::InvalidType(SettingsField::QueryBurst)).message(),
        "invalid type for field `query_burst`"
    );
    assert_eq!(
        ConfigError::Malformed(ParseError::OutOfRange(SettingsField::DatasetsBurst)).message(),
        "integer out of range for field `datasets_burst`"
    );
    assert_eq!(
        ConfigError::Malformed(ParseError::NotAnObject).message(),
        "invalid type: expected an object"
    );
    assert_eq!(
        ConfigError::WorkingDirectoryUnavailable.message(),
        "current working directory unavailable"
    );
}

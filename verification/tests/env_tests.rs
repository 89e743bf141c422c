use logtura_cf_tail::config::ConfigError;
use logtura_cf_tail::env::{interpolate_env, EnvVar};

fn env(pairs: &[(&str, &str)]) -> Vec<EnvVar> {
    pairs
        .iter()
        .map(|(n, v)| EnvVar { name: n.to_string(), value: v.to_string() })
        .collect()
}

fn missing(r: Result<String, ConfigError>) -> Vec<String> {
    match r {
        Err(ConfigError::MissingEnvVars(names)) => names,
        other => panic!("expected missing variables, got {:?}", other),
    }
}

#[test]
fn set_variable_is_substituted() {
    let e = env(&[("CLOUDFLARE_ACCOUNT_ID", "abc123")]);
    let out = interpolate_env("account_id = \"${CLOUDFLARE_ACCOUNT_ID}\"\n", &e).unwrap();
    assert_eq!(out, "account_id = \"abc123\"\n");
}

#[test]
fn default_is_used_when_unset() {
    let out = interpolate_env("x = \"${NOPE:-fallback value}\"", &env(&[])).unwrap();
    assert_eq!(out, "x = \"fallback value\"");
}

#[test]
fn value_wins_over_default() {
    let out = interpolate_env("${A:-d}", &env(&[("A", "v")])).unwrap();
    assert_eq!(out, "v");
}

#[test]
fn empty_default_is_allowed() {
    let out = interpolate_env("[${A:-}]", &env(&[])).unwrap();
    assert_eq!(out, "[]");
}

#[test]
fn missing_variables_are_listed_in_order_with_repeats() {
    let names = missing(interpolate_env("${B} ${A} ${B} ${C:-c}", &env(&[])));
    assert_eq!(names, vec!["B", "A", "B"]);
}

#[test]
fn missing_variable_error_message() {
    let err = interpolate_env("${X}${Y}", &env(&[])).unwrap_err();
    assert_eq!(err.message(), "missing env vars referenced in config: X, Y");
}

#[test]
fn text_without_references_is_unchanged() {
    let text = "plain = \"text { with } braces : and - dashes\"";
    assert_eq!(interpolate_env(text, &env(&[("X", "1")])).unwrap(), text);
}

#[test]
fn lower_case_and_digit_names_are_not_references() {
    let text = "${lower} ${1ABC} ${} $ {A}";
    assert_eq!(interpolate_env(text, &env(&[("lower", "x"), ("1ABC", "y")])).unwrap(), text);
}

#[test]
fn unterminated_reference_is_left_alone() {
    assert_eq!(interpolate_env("${A", &env(&[("A", "v")])).unwrap(), "${A");
    assert_eq!(interpolate_env("${A:-x", &env(&[])).unwrap(), "${A:-x");
    assert_eq!(interpolate_env("${A:x}", &env(&[])).unwrap(), "${A:x}");
}

#[test]
fn default_ends_at_first_brace() {
    let out = interpolate_env("${A:-x}y}", &env(&[])).unwrap();
    assert_eq!(out, "xy}");
}

#[test]
fn default_may_span_lines_and_hold_dollars() {
    let out = interpolate_env("${A:-line1\n$line2}", &env(&[])).unwrap();
    assert_eq!(out, "line1\n$line2");
}

#[test]
fn scan_restarts_after_a_dollar() {
    let out = interpolate_env("$${A}", &env(&[("A", "v")])).unwrap();
    assert_eq!(out, "$v");
}

#[test]
fn substituted_values_are_not_expanded_again() {
    let out = interpolate_env("${A}", &env(&[("A", "${B}"), ("B", "no")])).unwrap();
    assert_eq!(out, "${B}");
}

#[test]
fn first_matching_variable_wins() {
    let out = interpolate_env("${A}", &env(&[("A", "first"), ("A", "second")])).unwrap();
    assert_eq!(out, "first");
}

#[test]
fn non_ascii_text_is_kept() {
    let out = interpolate_env("é ${A} ü", &env(&[("A", "ß")])).unwrap();
    assert_eq!(out, "é ß ü");
}

use cargo_backend::errors::Error;
use cargo_backend::registry::{build_index_path, get_crate_url, resolve_registry_body};
use cargo_backend::source::{classify, SourceKind};

#[test]
fn index_path_one_char() {
    assert_eq!(build_index_path("a"), "https://index.crates.io/1/a");
    assert_eq!(get_crate_url("a"), Ok("https://index.crates.io/1/a".to_string()));
}

#[test]
fn index_path_two_chars() {
    assert_eq!(build_index_path("ab"), "https://index.crates.io/2/ab");
    assert_eq!(get_crate_url("ab"), Ok("https://index.crates.io/2/ab".to_string()));
}

#[test]
fn index_path_three_chars() {
    assert_eq!(build_index_path("abc"), "https://index.crates.io/3/a/abc");
    assert_eq!(get_crate_url("abc"), Ok("https://index.crates.io/3/a/abc".to_string()));
}

#[test]
fn index_path_four_or_more_chars() {
    assert_eq!(build_index_path("serde"), "https://index.crates.io/se/rd/serde");
    assert_eq!(
        get_crate_url("serde"),
        Ok("https://index.crates.io/se/rd/serde".to_string())
    );
    assert_eq!(
        get_crate_url("tokio-util"),
        Ok("https://index.crates.io/to/ki/tokio-util".to_string())
    );
}

#[test]
fn index_path_lowercases_the_name() {
    assert_eq!(
        get_crate_url("SERDE"),
        Ok("https://index.crates.io/se/rd/serde".to_string())
    );
    assert_eq!(get_crate_url("A"), Ok("https://index.crates.io/1/a".to_string()));
}

#[test]
fn resolve_excludes_yanked_and_keeps_order() {
    let body = r#"{"vers":"1.0.0","yanked":false}
{"vers":"1.0.1","yanked":true}"#;
    assert_eq!(resolve_registry_body(body), Ok(vec!["1.0.0".to_string()]));
}

#[test]
fn resolve_keeps_order_of_remaining_entries() {
    let body = r#"{"vers":"0.1.0","yanked":false}
{"vers":"0.2.0","yanked":true}
{"vers":"0.3.0","yanked":false}
{"vers":"0.4.0","yanked":false}"#;
    assert_eq!(
        resolve_registry_body(body),
        Ok(vec![
            "0.1.0".to_string(),
            "0.3.0".to_string(),
            "0.4.0".to_string()
        ])
    );
}

#[test]
fn resolve_tolerates_whitespace_only_separation() {
    let body = "  {\"vers\":\"1.0.0\",\"yanked\":false}   {\"vers\":\"2.0.0\",\"yanked\":false}\t\n ";
    assert_eq!(
        resolve_registry_body(body),
        Ok(vec!["1.0.0".to_string(), "2.0.0".to_string()])
    );
}

#[test]
fn resolve_ignores_extra_record_fields() {
    let body = r#"{"name":"eza","vers":"0.18.0","deps":[],"yanked":false,"cksum":"0a1b2c"}"#;
    assert_eq!(resolve_registry_body(body), Ok(vec!["0.18.0".to_string()]));
}

#[test]
fn resolve_of_empty_document_is_an_empty_list() {
    assert_eq!(resolve_registry_body(""), Ok(vec![]));
    assert_eq!(resolve_registry_body("  \n "), Ok(vec![]));
}

#[test]
fn resolve_of_all_yanked_is_an_empty_list() {
    let body = r#"{"vers":"1.0.0","yanked":true}"#;
    assert_eq!(resolve_registry_body(body), Ok(vec![]));
}

#[test]
fn malformed_record_fails_the_whole_decode() {
    let body = "{\"vers\":\"1.0.0\",\"yanked\":false} {not json}";
    assert!(matches!(resolve_registry_body(body), Err(Error::DecodeFailure(_))));
}

#[test]
fn record_missing_a_field_fails_the_decode() {
    let body = r#"{"vers":"1.0.0"}"#;
    assert!(matches!(resolve_registry_body(body), Err(Error::DecodeFailure(_))));
    let body = r#"{"yanked":false}"#;
    assert!(matches!(resolve_registry_body(body), Err(Error::DecodeFailure(_))));
}

#[test]
fn record_with_wrongly_typed_field_fails_the_decode() {
    let body = r#"{"vers":"1.0.0","yanked":"no"}"#;
    assert!(matches!(resolve_registry_body(body), Err(Error::DecodeFailure(_))));
}

#[test]
fn classify_absolute_url_is_git() {
    assert_eq!(
        classify("https://gitlab.com/owner/tool.git"),
        SourceKind::GitRemote("https://gitlab.com/owner/tool.git".to_string())
    );
}

#[test]
fn classify_normalizes_the_url() {
    // The classifier returns the parsed URL's serialization, not the raw
    // input: scheme and host are lowercased.
    assert_eq!(
        classify("HTTPS://GitHub.COM/Owner/Tool"),
        SourceKind::GitRemote("https://github.com/Owner/Tool".to_string())
    );
}

#[test]
fn classify_user_repo_shorthand_synthesizes_github() {
    assert_eq!(
        classify("eza-community/eza"),
        SourceKind::GitRemote("https://github.com/eza-community/eza.git".to_string())
    );
}

#[test]
fn classify_plain_name_is_registry() {
    assert_eq!(classify("ripgrep"), SourceKind::Registry);
}

#[test]
fn classify_two_separators_is_registry() {
    assert_eq!(classify("a/b/c"), SourceKind::Registry);
}

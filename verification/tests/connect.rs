use zed_lib::connect::{apply_role, require_read_only_setting, DbRole, READ_ONLY_OPTIONS};
use zed_lib::error::RegistryError;

#[test]
fn read_only_appends_options_to_plain_url() {
    assert_eq!(
        apply_role("postgres://app@db/zed", DbRole::ReadOnly),
        "postgres://app@db/zed?options=-c%20default_transaction_read_only%3Don"
    );
}

#[test]
fn read_only_respects_existing_query_string() {
    assert_eq!(
        apply_role("postgres://app@db/zed?sslmode=require", DbRole::ReadOnly),
        "postgres://app@db/zed?sslmode=require&options=-c%20default_transaction_read_only%3Don"
    );
}

#[test]
fn read_write_passes_url_through() {
    let url = "postgres://app@db/zed?sslmode=require";
    assert_eq!(apply_role(url, DbRole::ReadWrite), url);
}

#[test]
fn read_only_url_keeps_the_given_url_as_prefix() {
    for url in ["", "postgres://a", "postgres://a?x=1", "é?"] {
        let applied = apply_role(url, DbRole::ReadOnly);
        assert!(applied.starts_with(url));
        assert!(applied.ends_with(READ_ONLY_OPTIONS));
        assert_eq!(applied.len(), url.len() + 1 + READ_ONLY_OPTIONS.len());
    }
    assert_eq!(apply_role("", DbRole::ReadOnly), format!("?{READ_ONLY_OPTIONS}"));
}

#[test]
fn read_only_setting_must_be_on() {
    assert_eq!(require_read_only_setting("on"), Ok(()));
    assert_eq!(
        require_read_only_setting("off"),
        Err(RegistryError::NotReadOnly("off".to_string()))
    );
    assert_eq!(
        require_read_only_setting("ON"),
        Err(RegistryError::NotReadOnly("ON".to_string()))
    );
}

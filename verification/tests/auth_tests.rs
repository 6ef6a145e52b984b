use txtcv::auth::{resolve_token, ConfigRead, CredentialFault};
use txtcv::config::AppConfig;
use txtcv::text::trim_text;

fn loaded(token: &str) -> ConfigRead {
    ConfigRead::Loaded(AppConfig {
        version: 0,
        personal_access_token: String::from(token),
    })
}

#[test]
fn environment_override_wins_over_stored_token() {
    let r = resolve_token(Some(String::from("env-tok")), &loaded("stored-tok"));
    assert_eq!(r.unwrap(), Some(String::from("env-tok")));
}

#[test]
fn environment_override_wins_even_when_config_is_unreadable() {
    let r = resolve_token(Some(String::from("env-tok")), &ConfigRead::Unreadable);
    assert_eq!(r.unwrap(), Some(String::from("env-tok")));
}

#[test]
fn environment_value_is_returned_verbatim() {
    let r = resolve_token(Some(String::from(" spaced \n")), &loaded("stored-tok"));
    assert_eq!(r.unwrap(), Some(String::from(" spaced \n")));
    let r2 = resolve_token(Some(String::from("")), &loaded("stored-tok"));
    assert_eq!(r2.unwrap(), Some(String::from("")));
}

#[test]
fn stored_token_is_trimmed() {
    let r = resolve_token(None, &loaded("  tok-123\n"));
    assert_eq!(r.unwrap(), Some(String::from("tok-123")));
}

#[test]
fn absent_when_stored_token_is_blank() {
    assert_eq!(resolve_token(None, &loaded("")).unwrap(), None);
    assert_eq!(resolve_token(None, &loaded("   \t\r\n")).unwrap(), None);
}

#[test]
fn unreadable_config_is_an_error_not_absence() {
    let r = resolve_token(None, &ConfigRead::Unreadable);
    assert!(matches!(r, Err(CredentialFault::ConfigUnreadable)));
}

#[test]
fn login_stores_the_trimmed_line() {
    let cfg = AppConfig::default();
    let after = cfg.with_login("tok-123\n");
    assert_eq!(after.personal_access_token, "tok-123");
    assert_eq!(after.version, 0);
    let r = resolve_token(None, &ConfigRead::Loaded(after));
    assert_eq!(r.unwrap(), Some(String::from("tok-123")));
}

#[test]
fn logout_clears_the_stored_token() {
    let cfg = AppConfig::default().with_login("tok-123\n");
    let after = cfg.with_logout();
    assert_eq!(after.personal_access_token, "");
    let r = resolve_token(None, &ConfigRead::Loaded(after));
    assert_eq!(r.unwrap(), None);
}

#[test]
fn trimming_removes_surrounding_whitespace_only() {
    assert_eq!(trim_text("  a b\t\n"), "a b");
    assert_eq!(trim_text(""), "");
    assert_eq!(trim_text(" \t\r\n"), "");
    assert_eq!(trim_text("plain"), "plain");
}

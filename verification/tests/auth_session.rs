use telegram_onedrive::client::{AuthAction, OneDriveClient, TokenResponse};
use telegram_onedrive::error::AuthError;
use telegram_onedrive::session::SessionStore;

fn client() -> OneDriveClient {
    OneDriveClient::new(
        "CID".to_string(),
        "https://localhost:8080/auth".to_string(),
        "/drive".to_string(),
        SessionStore::new(),
    )
}

fn tokens(access: &str, refresh: Option<&str>, expires_in_secs: u64) -> TokenResponse {
    TokenResponse {
        access_token: access.to_string(),
        refresh_token: refresh.map(|r| r.to_string()),
        expires_in_secs,
    }
}

#[test]
fn auth_url_carries_client_id_scopes_and_redirect() {
    let c = client();
    assert_eq!(
        c.get_auth_url(),
        "https://login.microsoftonline.com/common/oauth2/v2.0/authorize?client_id=CID\
         &scope=Files.ReadWrite.All%20offline_access&response_type=code\
         &redirect_uri=https://localhost:8080/auth"
    );
}

#[test]
fn login_without_refresh_token_changes_nothing() {
    let mut c = client();
    let r = c.login("alice".to_string(), tokens("tokA", None, 3600), 1000);
    assert_eq!(r, Err(AuthError::MissingRefreshToken));
    assert!(c.current().is_none());
    assert_eq!(c.client_token(), "");
}

#[test]
fn login_installs_session_and_client_handle() {
    let mut c = client();
    c.login("alice".to_string(), tokens("tokA", Some("r1"), 3600), 1000).unwrap();
    let s = c.current().unwrap();
    assert_eq!(s.username, "alice");
    assert_eq!(s.access_token, "tokA");
    assert_eq!(s.refresh_token, "r1");
    assert_eq!(s.expiration_timestamp, 4600);
    assert_eq!(s.root_path, "/drive");
    assert_eq!(c.client_token(), "tokA");
}

#[test]
fn second_login_of_same_user_overwrites_in_place() {
    let mut c = client();
    c.login("alice".to_string(), tokens("tokA", Some("r1"), 3600), 1000).unwrap();
    c.login("alice".to_string(), tokens("tokC", Some("r2"), 3600), 2000).unwrap();
    let s = c.current().unwrap();
    assert_eq!(s.username, "alice");
    assert_eq!(s.access_token, "tokC");
    assert_eq!(s.expiration_timestamp, 5600);
    assert_eq!(c.client_token(), "tokC");
    assert!(c.logout(None).is_err());
}

#[test]
fn refresh_is_a_no_op_while_token_is_valid() {
    let mut c = client();
    c.login("alice".to_string(), tokens("tokA", Some("r1"), 3600), 1000).unwrap();
    assert!(matches!(c.refresh_step(2000), AuthAction::NoCall));
    assert!(matches!(c.refresh_step(4599), AuthAction::NoCall));
}

#[test]
fn refresh_exchanges_the_stored_token_once_expired() {
    let mut c = client();
    c.login("alice".to_string(), tokens("tokA", Some("r1"), 3600), 1000).unwrap();
    match c.refresh_step(4600) {
        AuthAction::ExchangeRefreshToken { refresh_token } => assert_eq!(refresh_token, "r1"),
        AuthAction::NoCall => panic!("refresh was due"),
    }
    c.refresh_access_token(tokens("tokB", Some("r2"), 3600), 4600).unwrap();
    let s = c.current().unwrap();
    assert_eq!(s.access_token, "tokB");
    assert_eq!(s.refresh_token, "r2");
    assert_eq!(s.expiration_timestamp, 8200);
    assert_eq!(c.client_token(), "tokB");
}

#[test]
fn refresh_without_new_refresh_token_changes_nothing() {
    let mut c = client();
    c.login("alice".to_string(), tokens("tokA", Some("r1"), 3600), 1000).unwrap();
    let r = c.refresh_access_token(tokens("tokB", None, 3600), 4600);
    assert_eq!(r, Err(AuthError::MissingRefreshToken));
    assert_eq!(c.current().unwrap().access_token, "tokA");
    assert_eq!(c.client_token(), "tokA");
}

#[test]
fn refresh_step_without_any_session_makes_no_call() {
    let c = client();
    assert!(matches!(c.refresh_step(0), AuthAction::NoCall));
}

#[test]
fn logout_of_current_user_rebuilds_handle_from_remaining_user() {
    let mut c = client();
    c.login("alice".to_string(), tokens("tokA", Some("r1"), 3600), 1000).unwrap();
    c.login("bob".to_string(), tokens("tokB", Some("r2"), 3600), 1000).unwrap();
    assert_eq!(c.current().unwrap().username, "bob");
    c.logout(None).unwrap();
    assert_eq!(c.current().unwrap().username, "alice");
    assert_eq!(c.client_token(), "tokA");
}

#[test]
fn logout_of_last_user_fails_with_no_user_left() {
    let mut c = client();
    c.login("alice".to_string(), tokens("tokA", Some("r1"), 3600), 1000).unwrap();
    assert_eq!(c.logout(None), Err(AuthError::NoUserLeft));
    assert_eq!(c.current().unwrap().username, "alice");
    assert_eq!(c.client_token(), "tokA");
}

#[test]
fn logout_of_unknown_user_fails() {
    let mut c = client();
    c.login("alice".to_string(), tokens("tokA", Some("r1"), 3600), 1000).unwrap();
    c.login("bob".to_string(), tokens("tokB", Some("r2"), 3600), 1000).unwrap();
    assert_eq!(c.logout(Some("carol".to_string())), Err(AuthError::UserNotFound));
}

#[test]
fn logout_of_other_user_keeps_current_one() {
    let mut c = client();
    c.login("alice".to_string(), tokens("tokA", Some("r1"), 3600), 1000).unwrap();
    c.login("bob".to_string(), tokens("tokB", Some("r2"), 3600), 1000).unwrap();
    c.logout(Some("alice".to_string())).unwrap();
    assert_eq!(c.current().unwrap().username, "bob");
    assert_eq!(c.client_token(), "tokB");
}

#[test]
fn switching_current_user() {
    let mut c = client();
    c.login("alice".to_string(), tokens("tokA", Some("r1"), 3600), 1000).unwrap();
    c.login("bob".to_string(), tokens("tokB", Some("r2"), 3600), 1000).unwrap();
    c.set_current_user(&"alice".to_string()).unwrap();
    assert_eq!(c.current().unwrap().username, "alice");
    assert_eq!(c.set_current_user(&"carol".to_string()), Err(AuthError::UserNotFound));
}

#[test]
fn session_expiry_is_a_timestamp_comparison() {
    let mut c = client();
    c.login("alice".to_string(), tokens("tokA", Some("r1"), 3600), 1000).unwrap();
    let s = c.current().unwrap();
    assert!(!s.is_expired(4599));
    assert!(s.is_expired(4600));
    assert!(s.is_expired(9999));
}

#[test]
fn temp_root_path_overrides_default_until_cleared() {
    let mut c = client();
    assert_eq!(c.get_root_path(true), "/drive");
    c.set_temp_root_path("/tmpdir".to_string());
    assert_eq!(c.get_root_path(true), "/tmpdir");
    assert_eq!(c.get_root_path(false), "/drive");
    c.clear_temp_root_path();
    assert_eq!(c.get_root_path(true), "/drive");
}

#[test]
fn setting_the_root_path_changes_the_destination() {
    let mut c = client();
    c.set_root_path("/media".to_string());
    assert_eq!(c.get_root_path(true), "/media");
    c.set_temp_root_path("/once".to_string());
    assert_eq!(c.get_root_path(true), "/once");
    assert_eq!(c.get_root_path(false), "/media");
}

#[test]
fn login_failure_holds_for_any_expiry_values() {
    let mut c = client();
    let r = c.login("alice".to_string(), tokens("tokA", None, u64::MAX), u64::MAX);
    assert_eq!(r, Err(AuthError::MissingRefreshToken));
    assert!(c.current().is_none());
    assert_eq!(c.client_token(), "");
}

#[test]
fn interactive_login_skipped_only_when_already_usable() {
    assert!(OneDriveClient::login_can_be_skipped(false, true, false));
    assert!(OneDriveClient::login_can_be_skipped(false, false, true));
    assert!(!OneDriveClient::login_can_be_skipped(false, false, false));
    assert!(!OneDriveClient::login_can_be_skipped(true, true, true));
}

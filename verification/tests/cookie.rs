use plugin_bootstrap::cookie::{MagicCookie, validate};
use plugin_bootstrap::error::Error;

fn cookie() -> MagicCookie {
    MagicCookie { name: "PLUGIN_MAGIC_COOKIE".to_string(), value: "hello-plugin".to_string() }
}

#[test]
fn validate_accepts_exact_match() {
    let env = Some("hello-plugin".to_string());
    assert!(validate(&cookie(), env.as_ref()).is_ok());
}

#[test]
fn validate_rejects_wrong_value() {
    let env = Some("hello-Plugin".to_string());
    let r = validate(&cookie(), env.as_ref());
    assert!(matches!(r, Err(Error::GRPCHandshakeMagicCookieValueMismatch)));
}

#[test]
fn validate_is_whitespace_sensitive() {
    let env = Some("hello-plugin ".to_string());
    let r = validate(&cookie(), env.as_ref());
    assert!(matches!(r, Err(Error::GRPCHandshakeMagicCookieValueMismatch)));
    let env2 = Some(" hello-plugin".to_string());
    let r2 = validate(&cookie(), env2.as_ref());
    assert!(matches!(r2, Err(Error::GRPCHandshakeMagicCookieValueMismatch)));
}

#[test]
fn validate_rejects_empty_value() {
    let env = Some(String::new());
    let r = validate(&cookie(), env.as_ref());
    assert!(matches!(r, Err(Error::GRPCHandshakeMagicCookieValueMismatch)));
}

#[test]
fn validate_rejects_absent_variable() {
    let r = validate(&cookie(), None);
    assert!(matches!(r, Err(Error::GRPCHandshakeMagicCookieValueMismatch)));
}

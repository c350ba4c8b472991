use catalog_resolver::error::ResolveError;
use catalog_resolver::session::{welcome, ViewerContext};

#[test]
fn new_context_has_no_session() {
    let context: ViewerContext<u32> = ViewerContext::new();
    assert!(!context.is_authenticated());
    assert_eq!(context.require_session(), Err(ResolveError::NotAuthenticated));
}

#[test]
fn login_replaces_session_and_greets_with_contact() {
    let mut context: ViewerContext<u32> = ViewerContext::new();
    let message = context.login("ann", Ok((7, "ann@example.org".to_string())));
    assert_eq!(message, Ok("Welcome ann, you have logged in. ann@example.org ".to_string()));
    assert_eq!(context.require_session(), Ok(&7));
    let again = context.login("bob", Ok((8, "bob@example.org".to_string())));
    assert_eq!(again, Ok("Welcome bob, you have logged in. bob@example.org ".to_string()));
    assert_eq!(context.session, Some(8));
}

#[test]
fn failed_login_leaves_session_unset() {
    let mut context: ViewerContext<u32> = ViewerContext::new();
    let message = context.login("ann", Err("invalid credentials".to_string()));
    assert_eq!(message, Err(ResolveError::AuthFailure("invalid credentials".to_string())));
    assert!(!context.is_authenticated());
    assert_eq!(context.session, None);
}

#[test]
fn failed_login_keeps_an_earlier_session() {
    let mut context: ViewerContext<u32> = ViewerContext::new();
    assert!(context.login_anonymous(Ok(1)).is_ok());
    assert!(context.login("ann", Err("no".to_string())).is_err());
    assert_eq!(context.session, Some(1));
}

#[test]
fn anonymous_login_greets_anon() {
    let mut context: ViewerContext<u32> = ViewerContext::new();
    assert_eq!(
        context.login_anonymous(Ok(5)),
        Ok("Welcome Anon, you have logged in.".to_string())
    );
    assert_eq!(context.require_session(), Ok(&5));
}

#[test]
fn failed_anonymous_login_reports_detail() {
    let mut context: ViewerContext<u32> = ViewerContext::new();
    assert_eq!(
        context.login_anonymous(Err("offline".to_string())),
        Err(ResolveError::AuthFailure("offline".to_string()))
    );
    assert!(!context.is_authenticated());
}

#[test]
fn welcome_text_is_exact() {
    assert_eq!(welcome("u", "c"), "Welcome u, you have logged in. c ");
    assert_eq!(welcome("", ""), "Welcome , you have logged in.  ");
}

#[test]
fn error_messages_are_short_strings() {
    assert_eq!(ResolveError::NotAuthenticated.message(), "You are not logged in.");
    assert_eq!(
        ResolveError::AuthFailure("bad password".to_string()).message(),
        "Failed to log in.bad password"
    );
    assert_eq!(ResolveError::NotFound.message(), "Not found.");
    assert_eq!(
        ResolveError::RemoteUnavailable("streams".to_string()).message(),
        "Remote fetch failed: streams"
    );
    assert_eq!(
        ResolveError::MalformedCatalogData("ep9".to_string()).message(),
        "Malformed catalog data: ep9"
    );
}

#[test]
fn error_duplicate_equals_its_source() {
    let e = ResolveError::MalformedCatalogData("x".to_string());
    assert_eq!(e.duplicate(), e);
    assert_eq!(ResolveError::NotFound.duplicate(), ResolveError::NotFound);
}

use secret_bridge::bridge::{
    Bridge, Handler, InvocationRequest, InvokeError, RegistrationError,
};
use secret_bridge::secret::{get_secret, BuildError, SecretResolver};

fn bound(value: &str) -> SecretResolver {
    match SecretResolver::bind(Some(String::from(value))) {
        Ok(resolver) => resolver,
        Err(_) => panic!("a present binding must produce a resolver"),
    }
}

#[test]
fn bound_secret_is_returned_verbatim() {
    let bridge = Bridge::with_get_secret(bound("abc123"));
    assert_eq!(bridge.dispatch("get_secret"), Ok(String::from("abc123")));
}

#[test]
fn absent_binding_fails_before_any_artifact() {
    match SecretResolver::bind(None) {
        Ok(_) => panic!("an absent binding must not produce a resolver"),
        Err(e) => assert_eq!(e, BuildError::MissingSecretBinding),
    }
}

#[test]
fn resolve_reads_the_bound_constant() {
    let resolver = bound("s3cr3t-token");
    assert_eq!(resolver.resolve(), String::from("s3cr3t-token"));
    assert_eq!(get_secret(&resolver), String::from("s3cr3t-token"));
}

#[test]
fn repeated_invocations_return_identical_value() {
    let bridge = Bridge::with_get_secret(bound("abc123"));
    let first = bridge.dispatch("get_secret");
    for _ in 0..5 {
        assert_eq!(bridge.dispatch("get_secret"), first);
    }
    assert_eq!(first, Ok(String::from("abc123")));
}

#[test]
fn unknown_command_is_rejected_not_crashed() {
    let bridge = Bridge::with_get_secret(bound("abc123"));
    assert_eq!(
        bridge.dispatch("get_password"),
        Err(InvokeError::UnknownCommand)
    );
    assert_eq!(bridge.dispatch(""), Err(InvokeError::UnknownCommand));
    assert_eq!(
        bridge.dispatch("GET_SECRET"),
        Err(InvokeError::UnknownCommand)
    );
    // the bridge still serves after a rejection
    assert_eq!(bridge.dispatch("get_secret"), Ok(String::from("abc123")));
}

#[test]
fn overlapping_invocations_do_not_interfere() {
    // several invocations issued before any result is inspected: each is
    // answered from the invoked name alone
    let bridge = Bridge::with_get_secret(bound("abc123"));
    let a = bridge.dispatch("get_secret");
    let b = bridge.dispatch("other");
    let c = bridge.dispatch("get_secret");
    let d = bridge.dispatch("get_secret");
    assert_eq!(a, Ok(String::from("abc123")));
    assert_eq!(b, Err(InvokeError::UnknownCommand));
    assert_eq!(c, Ok(String::from("abc123")));
    assert_eq!(d, Ok(String::from("abc123")));
}

#[test]
fn empty_secret_is_returned_verbatim() {
    let bridge = Bridge::with_get_secret(bound(""));
    assert_eq!(bridge.dispatch("get_secret"), Ok(String::from("")));
}

#[test]
fn unicode_secret_is_returned_verbatim() {
    let bridge = Bridge::with_get_secret(bound("pässwörter \u{1F511} 秘密"));
    assert_eq!(
        bridge.dispatch("get_secret"),
        Ok(String::from("pässwörter \u{1F511} 秘密"))
    );
}

#[test]
fn empty_bridge_knows_no_command() {
    let bridge = Bridge::new(bound("abc123"));
    assert_eq!(
        bridge.dispatch("get_secret"),
        Err(InvokeError::UnknownCommand)
    );
}

#[test]
fn registration_builds_the_capability_surface() {
    let mut bridge = Bridge::new(bound("abc123"));
    assert_eq!(
        bridge.register(String::from("get_secret"), Handler::GetSecret),
        Ok(())
    );
    assert_eq!(bridge.dispatch("get_secret"), Ok(String::from("abc123")));
}

#[test]
fn duplicate_registration_is_rejected() {
    let mut bridge = Bridge::new(bound("abc123"));
    assert_eq!(
        bridge.register(String::from("get_secret"), Handler::GetSecret),
        Ok(())
    );
    assert_eq!(
        bridge.register(String::from("get_secret"), Handler::GetSecret),
        Err(RegistrationError::DuplicateCommandName)
    );
    // the rejected registration left the table as it was
    assert_eq!(bridge.dispatch("get_secret"), Ok(String::from("abc123")));
}

#[test]
fn handle_serves_one_request_response_cycle() {
    let bridge = Bridge::with_get_secret(bound("abc123"));
    let known = InvocationRequest {
        command: String::from("get_secret"),
    };
    let unknown = InvocationRequest {
        command: String::from("shut_down"),
    };
    assert_eq!(bridge.handle(&known), Ok(String::from("abc123")));
    assert_eq!(bridge.handle(&unknown), Err(InvokeError::UnknownCommand));
}

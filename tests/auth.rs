use scalar_surreal::auth::{authenticate_outcome, signin_outcome, AuthError, Failure, FailureKind};

#[test]
fn garbage_token_is_bad_token() {
    let r = authenticate_outcome::<u32>(Err(Failure { kind: FailureKind::InvalidAuth, error: 1 }));
    assert!(matches!(r, Err(AuthError::BadToken)));
    let r = authenticate_outcome::<u32>(Err(Failure { kind: FailureKind::InvalidQuery, error: 2 }));
    assert!(matches!(r, Err(AuthError::BadToken)));
}

#[test]
fn invalid_credentials_are_bad_credentials() {
    let r = signin_outcome::<u32>(Err(Failure { kind: FailureKind::InvalidAuth, error: 1 }));
    assert!(matches!(r, Err(AuthError::BadCredentials)));
    let r = signin_outcome::<u32>(Err(Failure { kind: FailureKind::InvalidQuery, error: 2 }));
    assert!(matches!(r, Err(AuthError::BadCredentials)));
}

#[test]
fn other_failures_pass_through() {
    let r = authenticate_outcome::<u32>(Err(Failure { kind: FailureKind::Other, error: 7 }));
    assert!(matches!(r, Err(AuthError::Other(7))));
    let r = signin_outcome::<u32>(Err(Failure { kind: FailureKind::Other, error: 8 }));
    assert!(matches!(r, Err(AuthError::Other(8))));
}

#[test]
fn successes_pass_through() {
    assert!(matches!(authenticate_outcome::<u32>(Ok(())), Ok(())));
    let r = signin_outcome::<u32>(Ok("tok".to_string()));
    assert_eq!(r.ok().unwrap(), "tok");
}

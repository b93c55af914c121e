use fabrexlens::auth::{
    AuthError, CachedToken, CredentialDomain, CredentialKey, CredentialManager, CredentialSecret,
    CredentialStore, MemoryCredentialStore,
};

fn secret(username: &str, password: &str, api_token: Option<&str>) -> CredentialSecret {
    CredentialSecret {
        username: username.into(),
        password: password.into(),
        api_token: api_token.map(|t| t.to_string()),
    }
}

#[test]
fn auth_context_returns_none_when_missing() {
    let mut manager = CredentialManager::new(MemoryCredentialStore::new());
    let key = CredentialKey::default(CredentialDomain::FabreX);
    assert!(manager.auth_context(&key).unwrap().is_none());
}

#[test]
fn auth_context_uses_api_token_when_available() {
    let mut manager = CredentialManager::new(MemoryCredentialStore::new());
    let key = CredentialKey::default(CredentialDomain::FabreX);
    let secret = CredentialSecret {
        username: "user".into(),
        password: "pass".into(),
        api_token: Some("token-123".into()),
    };
    manager.set_credentials(&key, &secret).unwrap();

    let ctx = manager.auth_context(&key).unwrap().unwrap();
    assert_eq!(ctx.bearer_token.as_deref(), Some("token-123"));
    assert!(ctx.basic.is_none());
}

#[test]
fn auth_context_falls_back_to_basic_auth() {
    let mut manager = CredentialManager::new(MemoryCredentialStore::new());
    let key = CredentialKey::default(CredentialDomain::FabreX);
    let secret = CredentialSecret {
        username: "user".into(),
        password: "pass".into(),
        api_token: None,
    };
    manager.set_credentials(&key, &secret).unwrap();

    let ctx = manager.auth_context(&key).unwrap().unwrap();
    assert!(ctx.bearer_token.is_none());
    assert_eq!(ctx.basic.as_ref().unwrap().0, "user");
}

#[test]
fn auth_context_prefers_cached_token() {
    let mut manager = CredentialManager::new(MemoryCredentialStore::new());
    let key = CredentialKey::default(CredentialDomain::FabreX);
    let secret = CredentialSecret {
        username: "user".into(),
        password: "pass".into(),
        api_token: None,
    };
    manager.set_credentials(&key, &secret).unwrap();
    manager.cache_token(key.clone(), CachedToken::new("cached-token", Some(60_000)));

    let ctx = manager.auth_context(&key).unwrap().unwrap();
    assert_eq!(ctx.bearer_token.as_deref(), Some("cached-token"));
    assert!(ctx.basic.is_none());
}

#[test]
fn auth_context_basic_carries_the_password() {
    let mut manager = CredentialManager::new(MemoryCredentialStore::new());
    let key = CredentialKey::default(CredentialDomain::Gryf);
    manager.set_credentials(&key, &secret("ops", "hunter2", None)).unwrap();
    let ctx = manager.auth_context_at(&key, 10).unwrap().unwrap();
    assert_eq!(ctx.basic, Some(("ops".to_string(), "hunter2".to_string())));
    assert_eq!(ctx.bearer_token, None);
}

#[test]
fn auth_context_ignores_an_expired_cached_token() {
    let mut manager = CredentialManager::new(MemoryCredentialStore::new());
    let key = CredentialKey::default(CredentialDomain::FabreX);
    manager.set_credentials(&key, &secret("user", "pass", None)).unwrap();
    manager.cache_token(key.clone(), CachedToken::issued_at("old", Some(5), 100));
    let ctx = manager.auth_context_at(&key, 105).unwrap().unwrap();
    assert!(ctx.bearer_token.is_none());
    assert_eq!(ctx.basic.as_ref().unwrap().1, "pass");
    assert_eq!(manager.cached_token_at(&key, 0), None);
}

#[test]
fn auth_context_keeps_domains_apart() {
    let mut manager = CredentialManager::new(MemoryCredentialStore::new());
    let fabrex = CredentialKey::default(CredentialDomain::FabreX);
    let gryf = CredentialKey::default(CredentialDomain::Gryf);
    manager.set_credentials(&fabrex, &secret("user", "pass", Some("tok"))).unwrap();
    assert!(manager.auth_context(&gryf).unwrap().is_none());
    assert!(manager.auth_context(&fabrex).unwrap().is_some());
}

#[test]
fn has_credentials_follows_the_store() {
    let mut manager = CredentialManager::new(MemoryCredentialStore::new());
    let key = CredentialKey::new(CredentialDomain::Supernode, "lab");
    assert_eq!(manager.has_credentials(&key).unwrap(), false);
    manager.set_credentials(&key, &secret("u", "p", None)).unwrap();
    assert_eq!(manager.has_credentials(&key).unwrap(), true);
    assert_eq!(manager.get_credentials(&key).unwrap(), Some(secret("u", "p", None)));
    manager.delete_credentials(&key).unwrap();
    assert_eq!(manager.has_credentials(&key).unwrap(), false);
    manager.delete_credentials(&key).unwrap();
}

#[test]
fn ensure_credentials_returns_the_stored_secret_without_asking() {
    let mut manager = CredentialManager::new(MemoryCredentialStore::new());
    let key = CredentialKey::default(CredentialDomain::Redfish);
    manager.set_credentials(&key, &secret("root", "pw", None)).unwrap();
    let got = manager
        .ensure_credentials(&key, |_| panic!("the operator must not be asked"))
        .unwrap();
    assert_eq!(got, secret("root", "pw", None));
}

#[test]
fn ensure_credentials_fails_when_asking_is_off() {
    let mut manager =
        CredentialManager::new(MemoryCredentialStore::new()).with_interactive(false);
    let key = CredentialKey::new(CredentialDomain::Gryf, "staging");
    let err = manager
        .ensure_credentials(&key, |_| panic!("the operator must not be asked"))
        .unwrap_err();
    assert!(matches!(&err, AuthError::InteractiveDisabled(label) if label == "Gryf [staging]"));
    assert_eq!(
        err.to_string(),
        "interactive prompts disabled; cannot create credentials for Gryf [staging]"
    );
    assert_eq!(manager.has_credentials(&key).unwrap(), false);
}

#[test]
fn ensure_credentials_stores_what_the_operator_gives() {
    let mut manager = CredentialManager::new(MemoryCredentialStore::new());
    let key = CredentialKey::default(CredentialDomain::FabreX);
    let got = manager
        .ensure_credentials(&key, |k| {
            assert_eq!(k.to_string(), "FabreX [default]");
            Ok(secret("typed", "pw", Some("t")))
        })
        .unwrap();
    assert_eq!(got, secret("typed", "pw", Some("t")));
    assert_eq!(manager.get_credentials(&key).unwrap(), Some(secret("typed", "pw", Some("t"))));
}

#[test]
fn ensure_credentials_passes_a_prompt_failure_on() {
    let mut manager = CredentialManager::new(MemoryCredentialStore::new());
    let key = CredentialKey::default(CredentialDomain::FabreX);
    let err = manager
        .ensure_credentials(&key, |_| Err(AuthError::InteractiveDisabled("x".into())))
        .unwrap_err();
    assert!(matches!(err, AuthError::InteractiveDisabled(_)));
    assert_eq!(manager.has_credentials(&key).unwrap(), false);
}

#[test]
fn clear_cache_drops_every_token() {
    let mut manager = CredentialManager::new(MemoryCredentialStore::new());
    let a = CredentialKey::default(CredentialDomain::FabreX);
    let b = CredentialKey::default(CredentialDomain::Gryf);
    manager.cache_token(a.clone(), CachedToken::new("a", None));
    manager.cache_token(b.clone(), CachedToken::new("b", None));
    assert_eq!(manager.cached_token(&a), Some("a".to_string()));
    manager.clear_cache();
    assert_eq!(manager.cached_token(&a), None);
    assert_eq!(manager.cached_token(&b), None);
}

#[test]
fn memory_store_save_get_delete() {
    let mut store = MemoryCredentialStore::new();
    let key = CredentialKey::new(CredentialDomain::FabreX, "a");
    let other = CredentialKey::new(CredentialDomain::FabreX, "b");
    assert_eq!(store.get(&key).unwrap(), None);
    store.delete(&key).unwrap();
    store.save(&key, &secret("first", "pw-a", None)).unwrap();
    store.save(&other, &secret("second", "pw-b", Some("tok-b"))).unwrap();
    assert_eq!(store.get(&key).unwrap(), Some(secret("first", "pw-a", None)));
    store.save(&key, &secret("third", "pw-c", None)).unwrap();
    assert_eq!(store.get(&key).unwrap(), Some(secret("third", "pw-c", None)));
    store.delete(&key).unwrap();
    assert_eq!(store.get(&key).unwrap(), None);
    assert_eq!(store.get(&other).unwrap(), Some(secret("second", "pw-b", Some("tok-b"))));
}

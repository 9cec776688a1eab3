use home_temperature_statusbar::credentials::{
    on_lookup, on_prompt, on_store, CredentialAction, CredentialError, Lookup,
};
use std::collections::HashMap;

fn is_err(action: &CredentialAction, e: CredentialError) -> bool {
    match action {
        CredentialAction::Finish(Err(got)) => *got == e,
        _ => false,
    }
}

#[test]
fn stored_secret_is_used() {
    match on_lookup(Lookup::Found("pw".to_string())) {
        CredentialAction::Finish(Ok(s)) => assert_eq!(s, "pw"),
        _ => panic!("expected the stored secret"),
    }
}

#[test]
fn missing_entry_prompts() {
    assert!(matches!(on_lookup(Lookup::Missing), CredentialAction::Prompt));
}

#[test]
fn ambiguous_entry_fails_without_prompt() {
    assert!(is_err(&on_lookup(Lookup::Ambiguous), CredentialError::Ambiguous));
}

#[test]
fn unavailable_store_fails() {
    assert!(is_err(&on_lookup(Lookup::Unavailable), CredentialError::StoreUnavailable));
}

#[test]
fn entered_secret_is_stored() {
    match on_prompt(Some("typed".to_string())) {
        CredentialAction::Store(s) => assert_eq!(s, "typed"),
        _ => panic!("expected a store action"),
    }
    assert!(is_err(&on_prompt(None), CredentialError::PromptFailed));
}

#[test]
fn store_outcome() {
    assert_eq!(on_store("typed".to_string(), true).ok(), Some("typed".to_string()));
    assert!(on_store("typed".to_string(), false) == Err(CredentialError::StoreUnavailable));
}

// Drives the decisions against an in-memory store, as the program does
// against the platform keyring.
fn resolve(store: &mut HashMap<String, String>, user: &str, typed: &str, prompts: &mut u32) -> Result<String, CredentialError> {
    let lookup = match store.get(user) {
        Some(s) => Lookup::Found(s.clone()),
        None => Lookup::Missing,
    };
    match on_lookup(lookup) {
        CredentialAction::Finish(r) => r,
        CredentialAction::Store(_) => panic!("no store before a prompt"),
        CredentialAction::Prompt => {
            *prompts += 1;
            match on_prompt(Some(typed.to_string())) {
                CredentialAction::Store(s) => {
                    store.insert(user.to_string(), s.clone());
                    on_store(s, true)
                }
                CredentialAction::Finish(r) => r,
                CredentialAction::Prompt => panic!("prompted twice"),
            }
        }
    }
}

#[test]
fn fresh_account_prompts_once_then_never() {
    let mut store = HashMap::new();
    store.insert("other".to_string(), "x".to_string());
    let mut prompts = 0;
    let first = resolve(&mut store, "me", "secret", &mut prompts);
    assert_eq!(first.ok(), Some("secret".to_string()));
    assert_eq!(prompts, 1);
    assert_eq!(store.len(), 2);
    let second = resolve(&mut store, "me", "different", &mut prompts);
    assert_eq!(second.ok(), Some("secret".to_string()));
    assert_eq!(prompts, 1);
    assert_eq!(store.len(), 2);
    assert_eq!(store.get("me"), Some(&"secret".to_string()));
}

use vstd::prelude::*;

verus! {

/// What the secret store said when asked for the account's entry.
pub enum Lookup {
    /// The entry exists and holds this secret.
    Found(String),
    /// There is no entry for the account.
    Missing,
    /// The account maps to more than one entry.
    Ambiguous,
    /// The store failed in some other way.
    Unavailable,
}

/// Why no secret could be had for the account.
#[derive(PartialEq, Eq, Structural)]
pub enum CredentialError {
    /// The account maps to more than one entry of the secret store.
    Ambiguous,
    /// The secret store could not be read or written.
    StoreUnavailable,
    /// The interactive prompt was cancelled or failed.
    PromptFailed,
}

/// The next thing to do while resolving a secret.
pub enum CredentialAction {
    /// Ask the user for the secret, masked and with confirmation.
    Prompt,
    /// Write this secret to the store under the account.
    Store(String),
    /// Resolution is over, with this outcome.
    Finish(Result<String, CredentialError>),
}

/// The action that follows a lookup.
pub open spec fn after_lookup(lookup: Lookup) -> CredentialAction {
    match lookup {
        Lookup::Found(s) => CredentialAction::Finish(Ok(s)),
        Lookup::Missing => CredentialAction::Prompt,
        Lookup::Ambiguous => CredentialAction::Finish(Err(CredentialError::Ambiguous)),
        Lookup::Unavailable => CredentialAction::Finish(Err(CredentialError::StoreUnavailable)),
    }
}

/// The action that follows the prompt; `None` when it failed.
pub open spec fn after_prompt(entered: Option<String>) -> CredentialAction {
    match entered {
        Some(s) => CredentialAction::Store(s),
        None => CredentialAction::Finish(Err(CredentialError::PromptFailed)),
    }
}

/// The outcome once the store was asked to keep `secret`.
pub open spec fn after_store(secret: String, stored: bool) -> Result<String, CredentialError> {
    if stored {
        Ok(secret)
    } else {
        Err(CredentialError::StoreUnavailable)
    }
}

/// Decides what follows a lookup: a stored secret is used as it is, a missing
/// one is asked for, and an ambiguous entry or a failing store ends resolution
/// without a prompt.
pub fn on_lookup(lookup: Lookup) -> (r: CredentialAction)
    ensures
        r == after_lookup(lookup),
{
    match lookup {
        Lookup::Found(s) => CredentialAction::Finish(Ok(s)),
        Lookup::Missing => CredentialAction::Prompt,
        Lookup::Ambiguous => CredentialAction::Finish(Err(CredentialError::Ambiguous)),
        Lookup::Unavailable => CredentialAction::Finish(Err(CredentialError::StoreUnavailable)),
    }
}

/// Decides what follows the prompt: an entered secret is written to the store;
/// a failed prompt ends resolution.
pub fn on_prompt(entered: Option<String>) -> (r: CredentialAction)
    ensures
        r == after_prompt(entered),
{
    match entered {
        Some(s) => CredentialAction::Store(s),
        None => CredentialAction::Finish(Err(CredentialError::PromptFailed)),
    }
}

/// Decides the outcome once the store was asked to keep `secret`.
pub fn on_store(secret: String, stored: bool) -> (r: Result<String, CredentialError>)
    ensures
        r == after_store(secret, stored),
{
    if stored {
        Ok(secret)
    } else {
        Err(CredentialError::StoreUnavailable)
    }
}

/// One resolution against a store that holds at most one entry per account
/// and never fails: its outcome, the store afterwards, and how many times the
/// user was prompted. `typed` is what the user enters if prompted.
pub struct ResolveRun {
    pub outcome: Result<String, CredentialError>,
    pub store: Map<Seq<char>, String>,
    pub prompts: nat,
}

/// Runs the three decisions against `store` for the account `user`.
pub open spec fn resolve_run(store: Map<Seq<char>, String>, user: Seq<char>, typed: String) -> ResolveRun {
    let lookup = if store.contains_key(user) { Lookup::Found(store[user]) } else { Lookup::Missing };
    match after_lookup(lookup) {
        CredentialAction::Prompt => match after_prompt(Some(typed)) {
            CredentialAction::Store(s) => ResolveRun {
                outcome: after_store(s, true),
                store: store.insert(user, s),
                prompts: 1,
            },
            _ => ResolveRun { outcome: Err(CredentialError::PromptFailed), store, prompts: 1 },
        },
        CredentialAction::Finish(outcome) => ResolveRun { outcome, store, prompts: 0 },
        CredentialAction::Store(s) => ResolveRun {
            outcome: after_store(s, true),
            store: store.insert(user, s),
            prompts: 0,
        },
    }
}

/// On an account the store has never seen, resolution prompts once, adds
/// exactly one entry (the entered secret, under that account) and returns it;
/// a second resolution for the same account prompts no more, leaves the store
/// as it is and returns the same secret.
pub proof fn lemma_first_use_prompts_once(
    store: Map<Seq<char>, String>,
    user: Seq<char>,
    typed: String,
    typed_again: String,
)
    requires
        store.dom().finite(),
        !store.contains_key(user),
    ensures
        ({
            let first = resolve_run(store, user, typed);
            let second = resolve_run(first.store, user, typed_again);
            &&& first.prompts == 1
            &&& first.outcome == Ok::<String, CredentialError>(typed)
            &&& first.store == store.insert(user, typed)
            &&& first.store.dom().len() == store.dom().len() + 1
            &&& second.prompts == 0
            &&& second.store == first.store
            &&& second.outcome == Ok::<String, CredentialError>(typed)
        }),
{
}

/// An account the store already holds is never prompted for and its entry is
/// never overwritten.
pub proof fn lemma_known_account_untouched(
    store: Map<Seq<char>, String>,
    user: Seq<char>,
    typed: String,
)
    requires
        store.contains_key(user),
    ensures
        ({
            let run = resolve_run(store, user, typed);
            &&& run.prompts == 0
            &&& run.store == store
            &&& run.outcome == Ok::<String, CredentialError>(store[user])
        }),
{
}

} // verus!

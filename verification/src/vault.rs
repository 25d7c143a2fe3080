//! A facade over the operating system's credential store: named secrets are
//! set, read and deleted, and every operation answers with the same shape of
//! reply, so that a caller never has to interpret a storage error.

use crate::text::join2;
use vstd::prelude::*;

verus! {

/// The reply to a vault operation: whether it succeeded, the secret that was
/// read (if the operation reads one and the entry exists), and a readable
/// message where it failed.
#[derive(Clone, Debug, PartialEq, Eq)]
pub struct KeychainResult {
    pub success: bool,
    pub value: Option<String>,
    pub error: Option<String>,
}

/// What a [`KeychainResult`] holds, as plain text.
pub struct KeychainResultView {
    pub success: bool,
    pub value: Option<Seq<char>>,
    pub error: Option<Seq<char>>,
}

impl View for KeychainResult {
    type V = KeychainResultView;

    open spec fn view(&self) -> KeychainResultView {
        KeychainResultView {
            success: self.success,
            value: self.value.deep_view(),
            error: self.error.deep_view(),
        }
    }
}

/// What the vault reads of a failure of the credential store: whether the
/// store reported that no entry exists, and the store's own description.
#[derive(Clone, Debug, PartialEq, Eq)]
pub struct StoreError {
    pub no_entry: bool,
    pub message: String,
}

/// What a [`StoreError`] holds, as plain text.
pub struct StoreErrorView {
    pub no_entry: bool,
    pub message: Seq<char>,
}

impl View for StoreError {
    type V = StoreErrorView;

    open spec fn view(&self) -> StoreErrorView {
        StoreErrorView { no_entry: self.no_entry, message: self.message@ }
    }
}

/// The namespace that every identifier of this application starts with.
pub open spec fn namespace() -> Seq<char> {
    "worldmirror"@
}

/// The identifier under which the secret `key` of `service` is stored:
/// namespace, service and key, separated by dots.
pub open spec fn entry_name_of(service: Seq<char>, key: Seq<char>) -> Seq<char> {
    namespace() + "."@ + service + "."@ + key
}

/// A reply that reports success, with the secret that was read, if any.
pub open spec fn succeeded(value: Option<Seq<char>>) -> KeychainResultView {
    KeychainResultView { success: true, value, error: None }
}

/// A reply that reports failure: no value, and `context` followed by the
/// store's description.
pub open spec fn failed(context: Seq<char>, reason: StoreErrorView) -> KeychainResultView {
    KeychainResultView { success: false, value: None, error: Some(context + reason.message) }
}

/// The reply where the store could not even make the entry.
pub open spec fn create_failure_reply(reason: StoreErrorView) -> KeychainResultView {
    failed("Failed to create keychain entry: "@, reason)
}

/// The reply to `set`: success without a value, or the failure.
pub open spec fn set_reply(outcome: Result<(), StoreErrorView>) -> KeychainResultView {
    match outcome {
        Ok(_) => succeeded(None),
        Err(reason) => failed("Failed to set keychain entry: "@, reason),
    }
}

/// The reply to `get`: the secret; success without a value where no entry
/// exists; the failure otherwise.
pub open spec fn get_reply(outcome: Result<Seq<char>, StoreErrorView>) -> KeychainResultView {
    match outcome {
        Ok(secret) => succeeded(Some(secret)),
        Err(reason) => if reason.no_entry {
            succeeded(None)
        } else {
            failed("Failed to get keychain entry: "@, reason)
        },
    }
}

/// The reply to `delete`: success where the entry was removed and where there
/// was none to remove; the failure otherwise.
pub open spec fn delete_reply(outcome: Result<(), StoreErrorView>) -> KeychainResultView {
    match outcome {
        Ok(_) => succeeded(None),
        Err(reason) => if reason.no_entry {
            succeeded(None)
        } else {
            failed("Failed to delete keychain entry: "@, reason)
        },
    }
}

/// Builds the identifier of a secret.
pub fn entry_name(service: &str, key: &str) -> (name: String)
    ensures
        name@ == entry_name_of(service@, key@),
{
    let mut name: String = String::from_str("worldmirror");
    name.append(".");
    name.append(service);
    name.append(".");
    name.append(key);
    name
}

fn success_reply(value: Option<String>) -> (r: KeychainResult)
    ensures
        r@ == succeeded(value.deep_view()),
{
    KeychainResult { success: true, value, error: None }
}

fn failure_reply(context: &str, reason: &StoreError) -> (r: KeychainResult)
    ensures
        r@ == failed(context@, reason@),
{
    KeychainResult {
        success: false,
        value: None,
        error: Some(join2(context, reason.message.as_str())),
    }
}

/// Answers a `set` whose entry could not be made.
pub fn reply_to_create_failure(reason: &StoreError) -> (r: KeychainResult)
    ensures
        r@ == create_failure_reply(reason@),
{
    failure_reply("Failed to create keychain entry: ", reason)
}

/// An entry of the credential store, as the `keyring` crate hands it out.
#[verifier::external_type_specification]
#[verifier::external_body]
pub struct ExEntry(keyring::Entry);

/// A failure of the credential store, as the `keyring` crate reports it.
#[verifier::external_type_specification]
#[verifier::external_body]
pub struct ExError(keyring::Error);

/// `keyring::Entry::new` makes the entry for a service and a user, or reports
/// why the store refuses them. Nothing is claimed of which of the two happens.
/// (The call panics only where the crate's own lock around its store was
/// poisoned by a panic elsewhere.)
pub assume_specification[ keyring::Entry::new ](service: &str, user: &str) -> (entry:
    keyring::Result<keyring::Entry>)
;

/// `keyring::Entry::set_password` stores a secret in the entry. Whether it
/// succeeds is the store's matter: nothing is claimed of the result.
pub assume_specification[ keyring::Entry::set_password ](
    entry: &keyring::Entry,
    password: &str,
) -> (done: keyring::Result<()>)
;

/// `keyring::Entry::get_password` reads the entry's secret. What comes back
/// depends on what the store holds: nothing is claimed of the result.
pub assume_specification[ keyring::Entry::get_password ](entry: &keyring::Entry) -> (secret:
    keyring::Result<String>)
;

/// `keyring::Entry::delete_credential` removes the entry's credential from the
/// store. What comes back depends on what the store holds: nothing is claimed
/// of the result.
pub assume_specification[ keyring::Entry::delete_credential ](entry: &keyring::Entry) -> (done:
    keyring::Result<()>)
;

/// Tells the `NoEntry` variant of `keyring::Error` from all the others.
/// Nothing is claimed of the answer: the callers are verified for both.
#[verifier::external_body]
fn is_no_entry(error: &keyring::Error) -> (absent: bool) {
    matches!(error, keyring::Error::NoEntry)
}

/// Reads off a store failure what the vault's replies depend on. The message
/// is the text that the failure displays as; whether it is the `NoEntry`
/// variant is the store's answer, of which nothing is known.
fn describe(error: &keyring::Error) -> (reason: StoreError)
    ensures
        vstd::string::to_string_from_display_ensures::<keyring::Error>(error, reason.message),
{
    StoreError { no_entry: is_no_entry(error), message: error.to_string() }
}

/// Answers a `set`, given what the store did with it.
pub fn reply_to_set(outcome: Result<(), StoreError>) -> (r: KeychainResult)
    ensures
        r@ == set_reply(
            match outcome {
                Ok(_) => Ok(()),
                Err(reason) => Err(reason@),
            },
        ),
{
    match outcome {
        Ok(_) => success_reply(None),
        Err(reason) => failure_reply("Failed to set keychain entry: ", &reason),
    }
}

/// Answers a `get`, given what the store did with it. That no entry exists is
/// no failure: the reply then reports success and holds no value.
pub fn reply_to_get(outcome: Result<String, StoreError>) -> (r: KeychainResult)
    ensures
        r@ == get_reply(
            match outcome {
                Ok(secret) => Ok(secret@),
                Err(reason) => Err(reason@),
            },
        ),
        outcome matches Err(reason) && reason.no_entry ==> r@ == succeeded(None),
{
    match outcome {
        Ok(secret) => success_reply(Some(secret)),
        Err(reason) => {
            if reason.no_entry {
                success_reply(None)
            } else {
                failure_reply("Failed to get keychain entry: ", &reason)
            }
        },
    }
}

/// Answers a `delete`, given what the store did with it. That there was no
/// entry to remove is no failure: the reply then reports success.
pub fn reply_to_delete(outcome: Result<(), StoreError>) -> (r: KeychainResult)
    ensures
        r@ == delete_reply(
            match outcome {
                Ok(_) => Ok(()),
                Err(reason) => Err(reason@),
            },
        ),
        outcome matches Err(reason) && reason.no_entry ==> r@ == succeeded(None),
{
    match outcome {
        Ok(_) => success_reply(None),
        Err(reason) => {
            if reason.no_entry {
                success_reply(None)
            } else {
                failure_reply("Failed to delete keychain entry: ", &reason)
            }
        },
    }
}

/// Whether `r` is a reply that `set` can give: the reply to some outcome of
/// the store, or to an entry that could not be made.
pub open spec fn is_set_reply(r: KeychainResultView) -> bool {
    ||| exists|reason: StoreErrorView| r == #[trigger] create_failure_reply(reason)
    ||| exists|outcome: Result<(), StoreErrorView>| r == #[trigger] set_reply(outcome)
}

/// Whether `r` is a reply that `get` can give.
pub open spec fn is_get_reply(r: KeychainResultView) -> bool {
    ||| exists|reason: StoreErrorView| r == #[trigger] create_failure_reply(reason)
    ||| exists|outcome: Result<Seq<char>, StoreErrorView>| r == #[trigger] get_reply(outcome)
}

/// Whether `r` is a reply that `delete` can give.
pub open spec fn is_delete_reply(r: KeychainResultView) -> bool {
    ||| exists|reason: StoreErrorView| r == #[trigger] create_failure_reply(reason)
    ||| exists|outcome: Result<(), StoreErrorView>| r == #[trigger] delete_reply(outcome)
}

/// Every reply has one shape: it reports success or holds a message, never
/// both and never neither; a failure holds no value; and only `get` ever
/// holds one.
pub proof fn lemma_reply_shape(r: KeychainResultView)
    requires
        is_set_reply(r) || is_get_reply(r) || is_delete_reply(r),
    ensures
        r.success <==> r.error is None,
        !r.success ==> r.value is None,
        is_set_reply(r) || is_delete_reply(r) ==> r.value is None,
{
}

/// Stores `value` as the secret `key` of `service`, creating or overwriting
/// the entry. What the store does decides the reply; whatever it does, the
/// reply is the one that [`reply_to_set`] or [`reply_to_create_failure`]
/// gives for it.
pub fn keychain_set(service: &str, key: &str, value: &str) -> (r: KeychainResult)
    ensures
        is_set_reply(r@),
{
    let name: String = entry_name(service, key);
    match keyring::Entry::new(name.as_str(), "worldmirror") {
        Ok(entry) => {
            let outcome: Result<(), StoreError> = match entry.set_password(value) {
                Ok(_) => Ok(()),
                Err(error) => Err(describe(&error)),
            };
            reply_to_set(outcome)
        },
        Err(error) => reply_to_create_failure(&describe(&error)),
    }
}

/// Reads the secret `key` of `service`. What the store holds decides the
/// reply; whatever it holds, the reply is the one that [`reply_to_get`] or
/// [`reply_to_create_failure`] gives for it.
pub fn keychain_get(service: &str, key: &str) -> (r: KeychainResult)
    ensures
        is_get_reply(r@),
{
    let name: String = entry_name(service, key);
    match keyring::Entry::new(name.as_str(), "worldmirror") {
        Ok(entry) => {
            let outcome: Result<String, StoreError> = match entry.get_password() {
                Ok(secret) => Ok(secret),
                Err(error) => Err(describe(&error)),
            };
            reply_to_get(outcome)
        },
        Err(error) => reply_to_create_failure(&describe(&error)),
    }
}

/// Removes the secret `key` of `service`. What the store holds decides the
/// reply; whatever it holds, the reply is the one that [`reply_to_delete`] or
/// [`reply_to_create_failure`] gives for it.
pub fn keychain_delete(service: &str, key: &str) -> (r: KeychainResult)
    ensures
        is_delete_reply(r@),
{
    let name: String = entry_name(service, key);
    match keyring::Entry::new(name.as_str(), "worldmirror") {
        Ok(entry) => {
            let outcome: Result<(), StoreError> = match entry.delete_credential() {
                Ok(_) => Ok(()),
                Err(error) => Err(describe(&error)),
            };
            reply_to_delete(outcome)
        },
        Err(error) => reply_to_create_failure(&describe(&error)),
    }
}

} // verus!

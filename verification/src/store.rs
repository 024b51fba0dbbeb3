//! Credential storage.
//!
//! `CredentialStore` is the sequential value of the store: four string fields
//! with exact read/write contracts. `AuthState` is the shared, process-wide
//! holder: one `parking_lot` mutex per field, so that every read and write of
//! a field is atomic under concurrent callers; its contents are outside what
//! the verifier can see, so the lifecycle functions state their contracts on
//! `CredentialStore` values and `AuthState` only holds them.

use vstd::prelude::*;

verus! {

/// Selects one of the four credential fields.
#[derive(Clone, Copy, PartialEq, Eq, Structural, Debug)]
pub enum Token {
    AccessToken,
    RefreshToken,
    TokenDuration,
    StateToken,
}

/// The abstract value of a credential store: the contents of the four fields.
#[verifier::ext_equal]
pub struct StoreModel {
    pub access_token: Seq<char>,
    pub refresh_token: Seq<char>,
    pub token_duration: Seq<char>,
    pub csrf_state: Seq<char>,
}

impl StoreModel {
    /// The store in which every field is empty: unauthenticated, nothing in flight.
    pub open spec fn empty() -> StoreModel {
        StoreModel {
            access_token: Seq::empty(),
            refresh_token: Seq::empty(),
            token_duration: Seq::empty(),
            csrf_state: Seq::empty(),
        }
    }

    /// The content of the selected field.
    pub open spec fn field(self, t: Token) -> Seq<char> {
        match t {
            Token::AccessToken => self.access_token,
            Token::RefreshToken => self.refresh_token,
            Token::TokenDuration => self.token_duration,
            Token::StateToken => self.csrf_state,
        }
    }

    /// The store with the selected field fully replaced by `v`.
    pub open spec fn with_field(self, t: Token, v: Seq<char>) -> StoreModel {
        match t {
            Token::AccessToken => StoreModel { access_token: v, ..self },
            Token::RefreshToken => StoreModel { refresh_token: v, ..self },
            Token::TokenDuration => StoreModel { token_duration: v, ..self },
            Token::StateToken => StoreModel { csrf_state: v, ..self },
        }
    }
}

/// Law: a write fully replaces the chosen field and nothing else, so a read
/// of that field after the write yields exactly the written value, and a read
/// of any other field yields that field's prior value.
pub proof fn lemma_store_write_read(m: StoreModel, t: Token, u: Token, v: Seq<char>)
    ensures
        m.with_field(t, v).field(t) == v,
        t != u ==> m.with_field(t, v).field(u) == m.field(u),
{
}

/// One set of credentials as a plain sequential value.
///
/// `access_token` empty means "unauthenticated"; `csrf_state` empty means
/// "no authorization in flight".
#[derive(Clone, Debug)]
pub struct CredentialStore {
    pub access_token: String,
    pub refresh_token: String,
    pub token_duration: String,
    pub csrf_state: String,
}

impl View for CredentialStore {
    type V = StoreModel;

    open spec fn view(&self) -> StoreModel {
        StoreModel {
            access_token: self.access_token@,
            refresh_token: self.refresh_token@,
            token_duration: self.token_duration@,
            csrf_state: self.csrf_state@,
        }
    }
}

impl CredentialStore {
    /// The store at startup: every field empty.
    pub fn new() -> (r: CredentialStore)
        ensures
            r@ == StoreModel::empty(),
    {
        let r = CredentialStore {
            access_token: String::new(),
            refresh_token: String::new(),
            token_duration: String::new(),
            csrf_state: String::new(),
        };
        proof {
            assert(r@ =~= StoreModel::empty());
        }
        r
    }

    /// Reads the selected field.
    pub fn retrieve(&self, t: Token) -> (r: String)
        ensures
            r@ == self@.field(t),
    {
        match t {
            Token::AccessToken => self.access_token.clone(),
            Token::RefreshToken => self.refresh_token.clone(),
            Token::TokenDuration => self.token_duration.clone(),
            Token::StateToken => self.csrf_state.clone(),
        }
    }

    /// Fully replaces the selected field with `s`; no merging, no other field
    /// is touched.
    pub fn write(&mut self, t: Token, s: String)
        ensures
            final(self)@ == old(self)@.with_field(t, s@),
    {
        match t {
            Token::AccessToken => {
                self.access_token = s;
            },
            Token::RefreshToken => {
                self.refresh_token = s;
            },
            Token::TokenDuration => {
                self.token_duration = s;
            },
            Token::StateToken => {
                self.csrf_state = s;
            },
        }
        proof {
            assert(self@ =~= old(self)@.with_field(t, s@));
        }
    }
}

#[verifier::external_type_specification]
#[verifier::external_body]
pub struct ExRawMutex(parking_lot::RawMutex);

#[verifier::external_type_specification]
#[verifier::external_body]
#[verifier::reject_recursive_types(R)]
#[verifier::reject_recursive_types(T)]
pub struct ExLockApiMutex<R, T: ?Sized>(parking_lot::lock_api::Mutex<R, T>);

/// Relies on parking_lot::Mutex::new: makes a lock that holds the given string.
#[verifier::external_body]
fn new_locked_field(s: String) -> parking_lot::Mutex<String> {
    parking_lot::Mutex::new(s)
}

/// Relies on parking_lot::Mutex::lock: returns a copy of the string currently
/// under the lock. The value depends on what other threads wrote last, so
/// nothing more can be said of it; the lock makes the read atomic per field.
#[verifier::external_body]
fn read_locked_field(m: &parking_lot::Mutex<String>) -> String {
    m.lock().clone()
}

/// Relies on parking_lot::Mutex::lock: fully replaces the string under the
/// lock with `s`; the lock makes the write atomic per field, so no reader
/// observes a partially written value.
#[verifier::external_body]
fn write_locked_field(m: &parking_lot::Mutex<String>, s: String) {
    *m.lock() = s;
}

/// The shared credential store: one mutex per field, created once at startup
/// and shared for the process lifetime. Each field is independently read- and
/// write-atomic; no cross-field atomicity is promised. What a read returns
/// under concurrency is outside the verifier's view, so the exact contracts
/// live on `CredentialStore`, whose values flow in and out of this holder.
pub struct AuthState {
    pub access_token: parking_lot::Mutex<String>,
    pub refresh_token: parking_lot::Mutex<String>,
    pub token_duration: parking_lot::Mutex<String>,
    pub state_state: parking_lot::Mutex<String>,
}

impl AuthState {
    /// The shared store at startup: every field empty.
    pub fn new() -> AuthState {
        AuthState {
            access_token: new_locked_field(String::new()),
            refresh_token: new_locked_field(String::new()),
            token_duration: new_locked_field(String::new()),
            state_state: new_locked_field(String::new()),
        }
    }

    /// Reads the selected field atomically.
    pub fn retrieve(&self, t: Token) -> String {
        match t {
            Token::AccessToken => read_locked_field(&self.access_token),
            Token::RefreshToken => read_locked_field(&self.refresh_token),
            Token::TokenDuration => read_locked_field(&self.token_duration),
            Token::StateToken => read_locked_field(&self.state_state),
        }
    }

    /// Atomically replaces the selected field with `s`.
    pub fn write(&self, t: Token, s: String) {
        match t {
            Token::AccessToken => write_locked_field(&self.access_token, s),
            Token::RefreshToken => write_locked_field(&self.refresh_token, s),
            Token::TokenDuration => write_locked_field(&self.token_duration, s),
            Token::StateToken => write_locked_field(&self.state_state, s),
        }
    }

    /// Reads all four fields into a plain value, field by field; the reads are
    /// atomic each on its own, not jointly.
    pub fn snapshot(&self) -> CredentialStore {
        CredentialStore {
            access_token: self.retrieve(Token::AccessToken),
            refresh_token: self.retrieve(Token::RefreshToken),
            token_duration: self.retrieve(Token::TokenDuration),
            csrf_state: self.retrieve(Token::StateToken),
        }
    }
}

} // verus!

//! Credential storage: one access/refresh pair with its absolute expiry,
//! held in memory and mirrored to a file by the caller.
use vstd::prelude::*;

verus! {

/// An access credential with the refresh credential that renews it and the
/// instant, in seconds since the Unix epoch, at which it stops being valid.
pub struct Token {
    pub access_token: String,
    pub refresh_token: String,
    pub expires: u64,
}

impl Token {
    /// A token is expired once `now` has reached its expiry: only an expiry
    /// strictly after `now` counts as alive.
    pub open spec fn expired_at(&self, now: u64) -> bool {
        self.expires <= now
    }

    pub fn is_expired(&self, now: u64) -> (r: bool)
        ensures
            r == self.expired_at(now),
    {
        self.expires <= now
    }

    /// A field-for-field copy.
    pub fn duplicate(&self) -> (r: Token)
        ensures
            r == *self,
    {
        Token {
            access_token: self.access_token.clone(),
            refresh_token: self.refresh_token.clone(),
            expires: self.expires,
        }
    }
}

/// Where a client keeps its credential.
pub trait TokenStorage {
    /// The credential held, if any.
    spec fn stored(&self) -> Option<Token>;

    fn get(&self) -> (r: Option<Token>)
        ensures
            r == self.stored(),
    ;

    /// Replaces the held credential wholesale.
    fn update(&mut self, token: Token)
        ensures
            final(self).stored() == Some(token),
    ;
}

/// A credential held in process memory only.
pub struct InMemoryTokenStorage {
    pub token: Option<Token>,
}

impl Default for InMemoryTokenStorage {
    fn default() -> (r: Self)
        ensures
            r.token is None,
    {
        InMemoryTokenStorage { token: None }
    }
}

impl TokenStorage for InMemoryTokenStorage {
    open spec fn stored(&self) -> Option<Token> {
        self.token
    }

    fn get(&self) -> (r: Option<Token>) {
        match &self.token {
            Some(t) => Some(t.duplicate()),
            None => None,
        }
    }

    fn update(&mut self, token: Token) {
        self.token = Some(token);
    }
}

/// A credential mirrored to the file at `path`: the caller reads the file
/// once at startup and writes it after each update; the value in memory is
/// the one in effect.
pub struct FileTokenStorage {
    pub path: String,
    pub memory: InMemoryTokenStorage,
}

impl FileTokenStorage {
    /// The store for `path`, holding what was read from it: `None` where the
    /// file was missing or did not parse, which means "not yet authorized".
    pub fn load_or_create(path: String, loaded: Option<Token>) -> (r: Self)
        ensures
            r.path == path,
            r.stored() == loaded,
    {
        FileTokenStorage { path, memory: InMemoryTokenStorage { token: loaded } }
    }
}

impl TokenStorage for FileTokenStorage {
    open spec fn stored(&self) -> Option<Token> {
        self.memory.token
    }

    fn get(&self) -> (r: Option<Token>) {
        self.memory.get()
    }

    fn update(&mut self, token: Token) {
        self.memory.update(token);
    }
}

} // verus!

//! The single-slot credential cache, shared across duplicates.
//!
//! At most one token is cached at a time.  The slot starts empty, is filled
//! by the first successful refresh, and is replaced wholesale on every
//! later one; it is never partially updated.  The slot sits behind a
//! reference-counted reader-writer lock, so duplicating a [`TokenCache`]
//! (and with it an identity method or a client) duplicates the handle, not
//! the credential state: a `set` through one handle is observed by every
//! later read through any other.  Because other handles may write between
//! two operations, each read returns, beside its result, a ghost
//! observation of the slot value it read, and its contract ties the two
//! together exactly.

use vstd::prelude::*;

use std::sync::Arc;
use vstd::rwlock::{RwLock, RwLockPredicate};

use crate::catalog::{CatalogRecord, CatalogRecordView};

verus! {

/// Minimum remaining validity, in seconds, below which a cached token no
/// longer counts as valid (ten minutes).
pub const TOKEN_MIN_VALIDITY_SECS: i64 = 600;

/// The abstract value of a [`Token`].
pub struct TokenView {
    pub value: Seq<char>,
    pub expires_at: i64,
    pub catalog: Seq<CatalogRecordView>,
}

/// An issued credential: the opaque token value, its expiry as seconds since
/// the epoch, and the service catalog issued alongside it.  Immutable once
/// issued; a refresh replaces the whole token.
pub struct Token {
    pub value: String,
    pub expires_at: i64,
    pub catalog: Vec<CatalogRecord>,
}

impl View for Token {
    type V = TokenView;

    open spec fn view(&self) -> TokenView {
        TokenView {
            value: self.value@,
            expires_at: self.expires_at,
            catalog: self.catalog.deep_view(),
        }
    }
}

impl Clone for Token {
    fn clone(&self) -> (r: Token)
        ensures
            r@ == self@,
    {
        let mut catalog: Vec<CatalogRecord> = Vec::new();
        let mut i: usize = 0;
        while i < self.catalog.len()
            invariant
                i <= self.catalog.len(),
                catalog.len() == i,
                forall|j: int|
                    0 <= j < i ==> catalog.deep_view()[j] == self.catalog.deep_view()[j],
            decreases self.catalog.len() - i,
        {
            let ghost prev = catalog@;
            let ghost before = catalog.deep_view();
            catalog.push(self.catalog[i].clone());
            proof {
                assert forall|j: int| 0 <= j < i + 1 implies catalog.deep_view()[j]
                    == self.catalog.deep_view()[j] by {
                    assert(catalog.deep_view()[j] == catalog@[j].deep_view());
                    if j < i as int {
                        assert(catalog@[j] == prev[j]);
                        assert(before[j] == prev[j].deep_view());
                    }
                }
            }
            i = i + 1;
        }
        proof {
            assert(catalog.deep_view() =~= self.catalog.deep_view());
        }
        Token { value: self.value.clone(), expires_at: self.expires_at, catalog }
    }
}

/// Whether a slot holding `slot` is valid at time `now`: a token is present
/// and expires more than [`TOKEN_MIN_VALIDITY_SECS`] after `now`.
pub open spec fn valid_at(slot: Option<TokenView>, now: int) -> bool {
    match slot {
        Some(t) => t.expires_at - now > TOKEN_MIN_VALIDITY_SECS,
        None => false,
    }
}

/// The predicate guarding the shared slot: any credential (or none) may
/// rest in it — validity is time-dependent and judged at each read.
pub struct SlotInv;

impl RwLockPredicate<Option<Token>> for SlotInv {
    open spec fn inv(self, v: Option<Token>) -> bool {
        true
    }
}

/// The abstract value of one observed slot state.
pub open spec fn slot_view(v: Option<Token>) -> Option<TokenView> {
    match v {
        Some(t) => Some(t@),
        None => None,
    }
}

/// A handle to the single shared credential slot.
pub struct TokenCache {
    slot: Arc<RwLock<Option<Token>, SlotInv>>,
}

impl Clone for TokenCache {
    /// Duplicate the handle.  The slot itself is shared, not copied: a
    /// [`TokenCache::set`] through either handle is observed by later
    /// reads through the other.
    fn clone(&self) -> TokenCache {
        TokenCache { slot: Arc::clone(&self.slot) }
    }
}

impl TokenCache {
    /// A fresh slot, starting empty, not shared with any existing handle.
    pub fn new() -> TokenCache {
        TokenCache { slot: Arc::new(RwLock::new(None, Ghost(SlotInv))) }
    }

    /// Whether the credential in the slot is valid at time `now`, without
    /// exposing the credential itself.  The second component is the ghost
    /// observation of the slot value the answer is about.
    pub fn validate(&self, now: i64) -> (r: (bool, Ghost<Option<TokenView>>))
        ensures
            r.0 == valid_at(r.1@, now as int),
    {
        let handle = self.slot.acquire_read();
        let result = {
            let current = handle.borrow();
            let ghost obs = slot_view(*current);
            let valid = match current {
                Some(t) => (t.expires_at as i128) - (now as i128) > TOKEN_MIN_VALIDITY_SECS
                    as i128,
                None => false,
            };
            (valid, Ghost(obs))
        };
        handle.release_read();
        result
    }

    /// The token value in the slot, when one is present, with the ghost
    /// observation it was read from.
    pub fn extract_value(&self) -> (r: (Option<String>, Ghost<Option<TokenView>>))
        ensures
            match r.0 {
                Some(v) => r.1@ is Some && v@ == r.1@->0.value,
                None => r.1@ is None,
            },
    {
        let handle = self.slot.acquire_read();
        let result = {
            let current = handle.borrow();
            let ghost obs = slot_view(*current);
            let value = match current {
                Some(t) => Some(t.value.clone()),
                None => None,
            };
            (value, Ghost(obs))
        };
        handle.release_read();
        result
    }

    /// The catalog issued with the token in the slot, when one is present,
    /// with the ghost observation it was read from.
    pub fn extract_catalog(&self) -> (r: (Option<Vec<CatalogRecord>>, Ghost<Option<TokenView>>))
        ensures
            match r.0 {
                Some(c) => r.1@ is Some && c.deep_view() == r.1@->0.catalog,
                None => r.1@ is None,
            },
    {
        let handle = self.slot.acquire_read();
        let result = {
            let current = handle.borrow();
            let ghost obs = slot_view(*current);
            let catalog = match current {
                Some(t) => {
                    let copy = t.clone();
                    Some(copy.catalog)
                },
                None => None,
            };
            (catalog, Ghost(obs))
        };
        handle.release_read();
        result
    }

    /// Replace the slot with a freshly issued token.  The replacement is
    /// wholesale and exclusive: until the next `set`, every handle sharing
    /// this slot reads the new credential.
    pub fn set(&self, token: Token) {
        let (_previous, handle) = self.slot.acquire_write();
        handle.release_write(Some(token));
    }
}

} // verus!

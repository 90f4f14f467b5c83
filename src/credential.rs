//! The resolved credential, and the cache that holds it for the life of the
//! service: filled once, read-only afterwards.
use crate::resolve::{ResolveError, Source};
use vstd::prelude::*;

verus! {

/// The outcome of resolution as the service keeps it: the secret when one was
/// found, where it came from, and when it was resolved (seconds since the epoch).
pub struct ResolvedCredential {
    pub secret: Option<String>,
    pub source: Option<Source>,
    pub resolved_at: u64,
}

impl ResolvedCredential {
    /// Records an outcome of resolution; a failure leaves no secret and no source.
    pub fn from_outcome(outcome: Result<(String, Source), ResolveError>, resolved_at: u64) -> (r:
        ResolvedCredential)
        ensures
            r.resolved_at == resolved_at,
            match outcome {
                Ok((k, s)) => r.secret == Some(k) && r.source == Some(s),
                Err(_) => r.secret is None && r.source is None,
            },
    {
        match outcome {
            Ok((k, s)) => ResolvedCredential { secret: Some(k), source: Some(s), resolved_at },
            Err(_) => ResolvedCredential { secret: None, source: None, resolved_at },
        }
    }

    /// Whether a secret was resolved (its value is never shown).
    pub fn is_enabled(&self) -> (r: bool)
        ensures
            r == self.secret is Some,
    {
        self.secret.is_some()
    }
}

/// Holds at most one resolved credential. The first value stored stays.
pub struct CredentialCache {
    slot: Option<ResolvedCredential>,
}

impl View for CredentialCache {
    type V = Option<ResolvedCredential>;

    closed spec fn view(&self) -> Option<ResolvedCredential> {
        self.slot
    }
}

impl CredentialCache {
    pub fn new() -> (r: CredentialCache)
        ensures
            r@ is None,
    {
        CredentialCache { slot: None }
    }

    /// The stored credential, if resolution has already happened.
    pub fn get(&self) -> (r: Option<&ResolvedCredential>)
        ensures
            match self@ {
                Some(c) => r == Some(&c),
                None => r is None,
            },
    {
        match &self.slot {
            Some(c) => Some(c),
            None => None,
        }
    }

    /// Stores `value` when the cache is empty, and reports whether it did; a
    /// filled cache keeps what it holds.
    pub fn fill(&mut self, value: ResolvedCredential) -> (r: bool)
        ensures
            r == old(self)@ is None,
            final(self)@ == if r {
                Some(value)
            } else {
                old(self)@
            },
    {
        if self.slot.is_some() {
            return false;
        }
        self.slot = Some(value);
        true
    }
}

/// The cache after a sequence of fills: the first value stored.
pub open spec fn after_fills(
    start: Option<ResolvedCredential>,
    values: Seq<ResolvedCredential>,
) -> Option<ResolvedCredential>
    decreases values.len(),
{
    if values.len() == 0 {
        start
    } else {
        let before = after_fills(start, values.drop_last());
        if before is None {
            Some(values.last())
        } else {
            before
        }
    }
}

/// However many callers fill the cache, and in whatever order, all of them then
/// read the value that the first one stored.
pub proof fn lemma_first_fill_wins(values: Seq<ResolvedCredential>)
    requires
        values.len() > 0,
    ensures
        after_fills(None, values) == Some(values[0]),
    decreases values.len(),
{
    if values.len() > 1 {
        lemma_first_fill_wins(values.drop_last());
        assert(values.drop_last()[0] == values[0]);
    } else {
        assert(values.drop_last().len() == 0);
        assert(after_fills(None, values.drop_last()) is None);
        assert(values.last() == values[0]);
    }
}

/// Once filled, the cache never changes.
pub proof fn lemma_filled_stays(c: ResolvedCredential, values: Seq<ResolvedCredential>)
    ensures
        after_fills(Some(c), values) == Some(c),
    decreases values.len(),
{
    if values.len() > 0 {
        lemma_filled_stays(c, values.drop_last());
    }
}

} // verus!

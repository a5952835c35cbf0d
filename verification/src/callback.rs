//! The bridge from "register a callback that fires once" to "await one
//! result": a table of pending completion records, each reached by a token.
//!
//! A record holds the sink that takes the result to the caller who awaits
//! it. The token is what travels to the protocol engine as the context of
//! the callback; no reference to the record ever does.

use std::collections::HashMap;
use vstd::prelude::*;
use vstd::std_specs::hash::*;

verus! {

broadcast use group_hash_axioms;

/// Opaque handle of one pending completion record.
#[derive(Clone, Copy, Debug, PartialEq, Eq, Structural)]
pub struct Token {
    pub raw: u64,
}

/// The sink that a callback for `token` finds, if there is a record for it.
pub open spec fn sink_of<F>(sinks: Map<u64, F>, token: u64) -> Option<F> {
    if sinks.contains_key(token) {
        Some(sinks[token])
    } else {
        None
    }
}

/// The records after a callback fired for `token`.
pub open spec fn fired<F>(sinks: Map<u64, F>, token: u64) -> Map<u64, F> {
    sinks.remove(token)
}

/// The pending completion records of one process.
pub struct CallbackOnce<F> {
    next: u64,
    sinks: HashMap<u64, F>,
}

impl<F> View for CallbackOnce<F> {
    type V = Map<u64, F>;

    closed spec fn view(&self) -> Map<u64, F> {
        self.sinks@
    }
}

impl<F> CallbackOnce<F> {
    /// Number of tokens handed out so far.
    pub closed spec fn issued(&self) -> u64 {
        self.next
    }

    /// Every record belongs to a token that was handed out.
    pub closed spec fn well_formed(&self) -> bool {
        forall|token: u64| self.sinks@.contains_key(token) ==> token < self.next
    }

    /// The table without records.
    pub fn new() -> (table: Self)
        ensures
            table.well_formed(),
            table@ == Map::<u64, F>::empty(),
            table.issued() == 0,
    {
        CallbackOnce { next: 0, sinks: HashMap::new() }
    }

    /// Number of records in the table.
    pub fn pending(&self) -> (count: usize)
        ensures
            count == self@.len(),
    {
        self.sinks.len()
    }

    /// Whether the table holds a record for `token`.
    pub fn is_pending(&self, token: Token) -> (pending: bool)
        ensures
            pending == self@.contains_key(token.raw),
    {
        self.sinks.contains_key(&token.raw)
    }

    /// Allocates a record that holds `sink`, under a token that was never
    /// handed out before. Once all tokens are used up, the sink comes back
    /// and the table stays as it is.
    pub fn prepare(&mut self, sink: F) -> (token: Result<Token, F>)
        requires
            old(self).well_formed(),
        ensures
            final(self).well_formed(),
            old(self).issued() == u64::MAX ==> token == Err::<Token, F>(sink) && final(self)@
                == old(self)@ && final(self).issued() == old(self).issued(),
            old(self).issued() < u64::MAX ==> token == Ok::<Token, F>(
                Token { raw: old(self).issued() },
            ) && !old(self)@.contains_key(old(self).issued()) && final(self)@ == old(self)@.insert(
                old(self).issued(),
                sink,
            ) && final(self).issued() == old(self).issued() + 1,
    {
        if self.next == u64::MAX {
            return Err(sink);
        }
        let raw = self.next;
        self.sinks.insert(raw, sink);
        self.next = raw + 1;
        Ok(Token { raw })
    }

    /// Fires the callback of `token`: takes the sink out of the table, for
    /// the caller to hand it the result. The record goes with it, so that a
    /// second call for the same token, and a call for an unknown token, finds
    /// nothing and changes nothing.
    pub fn execute(&mut self, token: Token) -> (sink: Option<F>)
        requires
            old(self).well_formed(),
        ensures
            final(self).well_formed(),
            sink == sink_of(old(self)@, token.raw),
            final(self)@ == fired(old(self)@, token.raw),
            final(self).issued() == old(self).issued(),
    {
        self.sinks.remove(&token.raw)
    }
}

/// A callback finds the sink of its token at most once: after it fired, no
/// record is left for the token, a second callback finds nothing and leaves
/// the table as it is.
pub proof fn law_callback_fires_at_most_once<F>(sinks: Map<u64, F>, token: u64)
    ensures
        !fired(sinks, token).contains_key(token),
        sink_of(fired(sinks, token), token) is None,
        fired(fired(sinks, token), token) == fired(sinks, token),
{
    assert(fired(fired(sinks, token), token) =~= fired(sinks, token));
}

/// A callback for a token without record finds nothing and changes nothing.
pub proof fn law_unknown_token_changes_nothing<F>(sinks: Map<u64, F>, token: u64)
    requires
        !sinks.contains_key(token),
    ensures
        sink_of(sinks, token) is None,
        fired(sinks, token) == sinks,
{
    assert(fired(sinks, token) =~= sinks);
}

/// A record that was prepared is found by the first callback for its token,
/// whatever happened to other tokens in between, and takes nothing else with
/// it.
pub proof fn law_prepared_sink_is_found<F>(sinks: Map<u64, F>, token: u64, other: u64, sink: F)
    requires
        !sinks.contains_key(token),
        other != token,
    ensures
        sink_of(sinks.insert(token, sink), token) == Some(sink),
        sink_of(fired(sinks.insert(token, sink), other), token) == Some(sink),
        fired(sinks.insert(token, sink), token) == sinks,
{
    assert(fired(sinks.insert(token, sink), token) =~= sinks);
}

/// What happens to one token's record leaves every other record as it was.
pub proof fn law_other_records_are_untouched<F>(sinks: Map<u64, F>, token: u64, other: u64)
    requires
        other != token,
    ensures
        sink_of(fired(sinks, token), other) == sink_of(sinks, other),
{
}

} // verus!

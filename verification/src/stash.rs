//! The request stash: a keyed store bridging the two observation points
//! of one request. A record is written when the request is first seen
//! and consumed exactly once when its response completes.

use vstd::prelude::*;
use std::collections::HashMap;
use crate::meta::RequestMeta;

verus! {

broadcast use vstd::std_specs::hash::group_hash_axioms;

/// A mapping from per-request correlation keys to the records captured
/// at request time. Entries are removed when read back, so a record is
/// consumed at most once and a completed request leaves nothing behind.
pub struct RequestStash {
    entries: HashMap<u128, RequestMeta>,
}

impl RequestStash {
    /// The stash seen as a mathematical map from keys to records.
    pub closed spec fn view(&self) -> Map<u128, RequestMeta> {
        self.entries@
    }

    /// An empty stash.
    pub fn new() -> (s: Self)
        ensures
            s@ == Map::<u128, RequestMeta>::empty(),
    {
        RequestStash { entries: HashMap::new() }
    }

    /// Insert a record under `key`, overwriting any record already
    /// stashed there. Never fails.
    pub fn put(&mut self, key: u128, meta: RequestMeta)
        ensures
            final(self)@ == old(self)@.insert(key, meta),
    {
        self.entries.insert(key, meta);
    }

    /// Read out and remove the record stashed under `key`. A missing
    /// key is reported as `None` rather than failing, so a pairing
    /// miss can only skip one request's telemetry.
    pub fn take(&mut self, key: u128) -> (r: Option<RequestMeta>)
        ensures
            old(self)@.contains_key(key) ==> r == Some(old(self)@[key]) && final(self)@ == old(
                self,
            )@.remove(key),
            !old(self)@.contains_key(key) ==> r is None && final(self)@ == old(self)@,
    {
        let r = self.entries.remove(&key);
        proof {
            if !old(self)@.contains_key(key) {
                assert(self@ =~= old(self)@);
            }
        }
        r
    }

    /// How many requests are currently awaiting their response.
    pub fn len(&self) -> (n: usize)
        ensures
            n == self@.dom().len(),
    {
        self.entries.len()
    }
}

/// A record put into the stash is read back unchanged by a take with
/// the same key: the read observes exactly the record that was
/// written, with no field altered in between.
pub proof fn lemma_put_then_take(stash: Map<u128, RequestMeta>, key: u128, meta: RequestMeta)
    ensures
        stash.insert(key, meta).contains_key(key),
        stash.insert(key, meta)[key] == meta,
        !stash.contains_key(key) ==> stash.insert(key, meta).remove(key) =~= stash,
{
}

} // verus!

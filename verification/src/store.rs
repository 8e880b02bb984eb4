//! The durable config store: one record, keyed by a constant identifier,
//! held in the host's stable memory through a B-tree map of
//! `ic_stable_structures`.
//!
//! The map itself is an outside collection whose type Verus cannot read
//! (its bounds name outside traits), so it sits in a private field of an
//! opaque struct; [`store_contents`] names what it holds and every method
//! the relay calls goes through a small trusted wrapper that states, over
//! that name, what the crate's source shows.

use vstd::prelude::*;

use crate::codec::{decode_hook, encode_hook, hook_bytes, lemma_hook_round_trip, parse_hook};
use crate::config::{HookConfig, HookModel};

verus! {

/// The key under which the singleton hook record is stored.
pub const HOOK_KEY: u64 = 0;

/// A durable map from record key to record bytes, backed by the host's
/// default memory: stable memory on the canister host, a plain in-process
/// buffer elsewhere. Opaque to Verus; [`store_contents`] names its contents.
///
/// The contracts below read each store as owning its memory. Natively every
/// [`store_init`] gets a fresh buffer, but on the canister target all of
/// them attach to the one stable memory, so a process must hold a single
/// store (the host layer holds a single relay); two stores over the same
/// memory would alias.
#[verifier::external_body]
pub struct StableStore {
    map: ic_stable_structures::BTreeMap<
        u64,
        std::vec::Vec<u8>,
        ic_stable_structures::DefaultMemoryImpl,
    >,
}

/// What the durable map holds: record bytes by key.
pub uninterp spec fn store_contents(s: StableStore) -> Map<u64, Seq<u8>>;

/// Relies on `BTreeMap::init` of `ic_stable_structures`: it attaches to the
/// given memory and loads whatever records it already holds, so nothing is
/// promised of the initial contents.
#[verifier::external_body]
fn store_init() -> (s: StableStore) {
    StableStore {
        map: ic_stable_structures::BTreeMap::init(
            ic_stable_structures::DefaultMemoryImpl::default(),
        ),
    }
}

/// Relies on `BTreeMap::insert` of `ic_stable_structures`: it maps `key` to
/// `value` and returns the value the key held before, if any.
#[verifier::external_body]
fn store_insert(s: &mut StableStore, key: u64, value: Vec<u8>) -> (prev: Option<Vec<u8>>)
    ensures
        store_contents(*final(s)) == store_contents(*old(s)).insert(key, value@),
        match prev {
            Some(v) => store_contents(*old(s)).contains_key(key) && v@ == store_contents(
                *old(s),
            )[key],
            None => !store_contents(*old(s)).contains_key(key),
        },
{
    s.map.insert(key, value)
}

/// Relies on `BTreeMap::get` of `ic_stable_structures`: it returns the value
/// held under `key`, if any.
#[verifier::external_body]
fn store_get(s: &StableStore, key: u64) -> (r: Option<Vec<u8>>)
    ensures
        match r {
            Some(v) => store_contents(*s).contains_key(key) && v@ == store_contents(*s)[key],
            None => !store_contents(*s).contains_key(key),
        },
{
    s.map.get(&key)
}

/// The hook's durable home: the one record under [`HOOK_KEY`], written as
/// the codec's byte format and read back through it.
pub struct HookStore {
    raw: StableStore,
}

impl HookStore {
    /// The raw records the store holds.
    pub closed spec fn records(self) -> Map<u64, Seq<u8>> {
        store_contents(self.raw)
    }

    /// The configuration the store holds: the record under [`HOOK_KEY`],
    /// read through the codec. `None` when no record is stored, or when the
    /// stored bytes are no well-formed record.
    pub open spec fn hook(self) -> Option<HookModel> {
        if self.records().contains_key(HOOK_KEY) {
            parse_hook(self.records()[HOOK_KEY])
        } else {
            None
        }
    }

    /// Attaches to the host's durable memory. On a fresh memory the store
    /// is empty; after a restart it still holds what was persisted, which
    /// is the whole point — so nothing is promised of the initial contents.
    pub fn load() -> HookStore {
        HookStore { raw: store_init() }
    }

    /// Persists `c` as the singleton record, replacing any prior value.
    /// The write is synchronous: when `put` returns, the record is in the
    /// durable map. The record is stored as an unbounded byte value; the
    /// versioned codec, not a size cap, is what keeps stored records
    /// readable across revisions.
    pub fn put(&mut self, c: &HookConfig)
        requires
            c.valid(),
        ensures
            final(self).records() == old(self).records().insert(HOOK_KEY, hook_bytes(c@)),
            final(self).hook() == Some(c@),
    {
        let bytes = encode_hook(c);
        let total = bytes.len();
        proof {
            // The record fits in memory, so each length field fits in u64
            // and the round trip applies.
            assert(total == 33 + vstd::utf8::encode_utf8(c@.rpc_endpoint).len()
                + vstd::utf8::encode_utf8(c@.contract_address).len() + vstd::utf8::encode_utf8(
                c@.callback_url,
            ).len());
            lemma_hook_round_trip(c@);
        }
        let _ = store_insert(&mut self.raw, HOOK_KEY, bytes);
    }

    /// Reads the configuration back, exactly as [`Self::hook`] describes.
    pub fn get(&self) -> (r: Option<HookConfig>)
        ensures
            match r {
                Some(c) => self.hook() == Some(c@) && c.valid(),
                None => self.hook() is None,
            },
    {
        match store_get(&self.raw, HOOK_KEY) {
            Some(bytes) => decode_hook(bytes.as_slice()),
            None => None,
        }
    }
}

} // verus!

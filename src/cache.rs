//! The identity cache: which public key belongs to which private-key
//! locator, built once from the configured locator pairs.

use vstd::prelude::*;
use vstd::utf8::encode_utf8;

use crate::codec::decode_public_key;
use crate::codec::encode_blob;
use crate::codec::encode_public_key;
use crate::codec::key_wf;
use crate::codec::text_key;
use crate::codec::CanonicalPublicKey;
use crate::codec::KeyModel;

verus! {

/// Where the two halves of one key pair are kept in the secret store.
#[derive(Debug)]
pub struct KeyLocatorPair {
    pub private_key_locator: String,
    pub public_key_locator: String,
}

/// A public key as the agent protocol lists it.
#[derive(Debug)]
pub struct Identity {
    pub public_key_blob: Vec<u8>,
    pub comment: String,
}

/// The key that a fetched public-key text holds, if it was fetched and
/// decodes.
pub open spec fn key_of_text(text: Option<Seq<char>>) -> Option<KeyModel> {
    match text {
        Some(t) => match text_key(encode_utf8(t)) {
            Ok(k) => Some(k),
            Err(_) => None,
        },
        None => None,
    }
}

/// The first entry at or after `i` whose key is `k`, or -1.
pub open spec fn find_from(es: Seq<(KeyModel, Seq<char>)>, k: KeyModel, i: int) -> int
    decreases es.len() - i,
{
    if i < 0 || i >= es.len() {
        -1
    } else if es[i].0 == k {
        i
    } else {
        find_from(es, k, i + 1)
    }
}

/// The entry for key `k`, or -1.
pub open spec fn find_key(es: Seq<(KeyModel, Seq<char>)>, k: KeyModel) -> int {
    find_from(es, k, 0)
}

/// Records that `k` belongs to `loc`: a key already present keeps its place
/// and takes the new locator; a new key goes at the end.
pub open spec fn insert_entry(es: Seq<(KeyModel, Seq<char>)>, k: KeyModel, loc: Seq<char>) -> Seq<
    (KeyModel, Seq<char>),
> {
    if find_key(es, k) >= 0 {
        es.update(find_key(es, k), (k, loc))
    } else {
        es.push((k, loc))
    }
}

/// The entries built from the first `n` pairs, given each pair's private
/// locator and the key its public text decoded to. A pair whose public key
/// could not be had is left out; the others stand.
pub open spec fn entries_from(locs: Seq<Seq<char>>, keys: Seq<Option<KeyModel>>, n: int) -> Seq<
    (KeyModel, Seq<char>),
>
    decreases n,
{
    if n <= 0 {
        seq![]
    } else {
        let prev = entries_from(locs, keys, n - 1);
        match keys[n - 1] {
            Some(k) => insert_entry(prev, k, locs[n - 1]),
            None => prev,
        }
    }
}

/// The positions, among the first `n`, of pairs whose public key could not
/// be had.
pub open spec fn failures_from(keys: Seq<Option<KeyModel>>, n: int) -> Seq<usize>
    decreases n,
{
    if n <= 0 {
        seq![]
    } else if keys[n - 1] is None {
        failures_from(keys, n - 1).push((n - 1) as usize)
    } else {
        failures_from(keys, n - 1)
    }
}

/// The private locators of the pairs.
pub open spec fn private_locators(pairs: Seq<KeyLocatorPair>) -> Seq<Seq<char>> {
    pairs.map_values(|p: KeyLocatorPair| p.private_key_locator@)
}

/// The public locators of the pairs.
pub open spec fn public_locators(pairs: Seq<KeyLocatorPair>) -> Seq<Seq<char>> {
    pairs.map_values(|p: KeyLocatorPair| p.public_key_locator@)
}

/// The locators to fetch to build the cache: the public locator of each
/// pair, once per pair, in order. `IdentityCache::build` takes the fetched
/// texts in the same order.
pub fn locators_to_fetch(pairs: &Vec<KeyLocatorPair>) -> (r: Vec<String>)
    ensures
        r@.len() == pairs@.len(),
        forall|i: int| 0 <= i < r@.len() ==> #[trigger] r@[i]@ == public_locators(pairs@)[i],
{
    let mut r: Vec<String> = Vec::new();
    let mut i: usize = 0;
    while i < pairs.len()
        invariant
            i <= pairs@.len(),
            r@.len() == i,
            forall|j: int| 0 <= j < i ==> #[trigger] r@[j]@ == public_locators(pairs@)[j],
        decreases pairs@.len() - i,
    {
        r.push(pairs[i].public_key_locator.clone());
        i = i + 1;
    }
    r
}

/// The key that each fetched public text decodes to.
pub open spec fn fetched_keys(texts: Seq<Option<String>>) -> Seq<Option<KeyModel>> {
    texts.map_values(
        |t: Option<String>|
            match t {
                Some(s) => key_of_text(Some(s@)),
                None => None,
            },
    )
}

/// Whether `cache` is what building from `pairs` and the fetched public
/// texts gives.
pub open spec fn built_from(cache: &IdentityCache, pairs: Seq<KeyLocatorPair>, texts: Seq<Option<String>>) -> bool {
    &&& cache.wf()
    &&& cache.model() == entries_from(private_locators(pairs), fetched_keys(texts), pairs.len() as int)
    &&& cache.failures() == failures_from(fetched_keys(texts), pairs.len() as int)
}

/// The identities answer lists, in order, the wire blob of each cached key
/// with an empty comment.
pub open spec fn lists_cache(ids: Seq<Identity>, cache: &IdentityCache) -> bool {
    &&& ids.len() == cache.model().len()
    &&& forall|i: int|
        0 <= i < ids.len() ==> (#[trigger] ids[i]).public_key_blob@ == encode_blob(
            cache.model()[i].0,
        ) && ids[i].comment@.len() == 0
}

/// Whoever builds the cache, from the same pairs and the same fetched texts
/// it lists the same identities.
pub proof fn lemma_identities_independent_of_builder(
    c1: &IdentityCache,
    c2: &IdentityCache,
    pairs: Seq<KeyLocatorPair>,
    texts: Seq<Option<String>>,
    ids1: Seq<Identity>,
    ids2: Seq<Identity>,
)
    requires
        built_from(c1, pairs, texts),
        built_from(c2, pairs, texts),
        lists_cache(ids1, c1),
        lists_cache(ids2, c2),
    ensures
        ids1.len() == ids2.len(),
        forall|i: int| 0 <= i < ids1.len() ==> #[trigger] ids1[i].public_key_blob@ == ids2[i].public_key_blob@,
{
    assert forall|i: int| 0 <= i < ids1.len() implies #[trigger] ids1[i].public_key_blob@
        == ids2[i].public_key_blob@ by {
        assert(ids2[i].public_key_blob@ == encode_blob(c2.model()[i].0));
    }
}

/// The public keys of the configured pairs, each with the locator of its
/// private key. Built once; it does not change afterwards.
pub struct IdentityCache {
    entries: Vec<(CanonicalPublicKey, String)>,
    failed: Vec<usize>,
}

impl IdentityCache {
    /// The entries, as keys and locators.
    pub closed spec fn model(&self) -> Seq<(KeyModel, Seq<char>)> {
        self.entries@.map_values(|e: (CanonicalPublicKey, String)| (e.0@, e.1@))
    }

    /// The positions of the pairs that could not be used.
    pub closed spec fn failures(&self) -> Seq<usize> {
        self.failed@
    }

    /// Every key is well formed and appears once.
    pub open spec fn wf(&self) -> bool {
        &&& forall|i: int| 0 <= i < self.model().len() ==> key_wf(#[trigger] self.model()[i].0)
        &&& forall|i: int, j: int|
            0 <= i < j < self.model().len() ==> #[trigger] self.model()[i].0 != #[trigger] self.model()[j].0
    }

    /// A cache with no entries.
    pub fn new() -> (r: IdentityCache)
        ensures
            r.model() == Seq::<(KeyModel, Seq<char>)>::empty(),
            r.failures() == Seq::<usize>::empty(),
            r.wf(),
    {
        let r = IdentityCache { entries: Vec::new(), failed: Vec::new() };
        assert(r.model() =~= Seq::<(KeyModel, Seq<char>)>::empty());
        r
    }

    /// The position of the entry for `key`, if there is one.
    fn position(&self, key: &CanonicalPublicKey) -> (r: Option<usize>)
        ensures
            match r {
                Some(i) => find_key(self.model(), key@) == i && i < self.model().len()
                    && self.model()[i as int].0 == key@,
                None => find_key(self.model(), key@) == -1 && forall|j: int|
                    0 <= j < self.model().len() ==> #[trigger] self.model()[j].0 != key@,
            },
    {
        let mut i: usize = 0;
        while i < self.entries.len()
            invariant
                i <= self.model().len(),
                self.model().len() == self.entries@.len(),
                find_key(self.model(), key@) == find_from(self.model(), key@, i as int),
                forall|j: int| 0 <= j < i ==> #[trigger] self.model()[j].0 != key@,
            decreases self.entries@.len() - i,
        {
            if self.entries[i].0.same_key(key) {
                return Some(i);
            }
            i = i + 1;
        }
        None
    }

    /// Records that `key` belongs to the private key at `locator`.
    fn insert(&mut self, key: CanonicalPublicKey, locator: String)
        requires
            old(self).wf(),
            key_wf(key@),
        ensures
            final(self).wf(),
            final(self).model() == insert_entry(old(self).model(), key@, locator@),
            final(self).failures() == old(self).failures(),
    {
        let ghost k = key@;
        let ghost es = self.model();
        match self.position(&key) {
            Some(i) => {
                self.entries.set(i, (key, locator));
                assert(self.model() =~= es.update(i as int, (k, locator@)));
            },
            None => {
                self.entries.push((key, locator));
                assert(self.model() =~= es.push((k, locator@)));
            },
        }
    }

    /// Builds the cache from the configured pairs and, for each, the text
    /// fetched from its public-key locator (`None` where the fetch failed).
    /// Pairs are taken in order; one whose key cannot be had is recorded
    /// in `failures` and left out, and the others stand.
    pub fn build(pairs: &Vec<KeyLocatorPair>, public_texts: &Vec<Option<String>>) -> (r: IdentityCache)
        requires
            pairs@.len() == public_texts@.len(),
        ensures
            built_from(&r, pairs@, public_texts@),
    {
        let ghost locs = private_locators(pairs@);
        let ghost keys = fetched_keys(public_texts@);
        let mut cache = IdentityCache::new();
        let mut i: usize = 0;
        while i < pairs.len()
            invariant
                i <= pairs@.len() == public_texts@.len(),
                locs == private_locators(pairs@),
                keys == fetched_keys(public_texts@),
                cache.wf(),
                cache.model() == entries_from(locs, keys, i as int),
                cache.failures() == failures_from(keys, i as int),
            decreases pairs@.len() - i,
        {
            let decoded = match &public_texts[i] {
                Some(t) => match decode_public_key(t.as_str()) {
                    Ok(k) => Some(k),
                    Err(_) => None,
                },
                None => None,
            };
            assert(keys[i as int] == match decoded {
                Some(k) => Some(k@),
                None => None::<KeyModel>,
            });
            match decoded {
                Some(k) => {
                    let loc = pairs[i].private_key_locator.clone();
                    cache.insert(k, loc);
                },
                None => {
                    cache.failed.push(i);
                },
            }
            i = i + 1;
        }
        cache
    }

    /// The locator of the private key that belongs to `key`, if the cache
    /// holds it.
    pub fn lookup(&self, key: &CanonicalPublicKey) -> (r: Option<String>)
        ensures
            find_key(self.model(), key@) >= 0 ==> (r matches Some(loc) && loc@ == self.model()[find_key(
                self.model(),
                key@,
            )].1),
            find_key(self.model(), key@) < 0 ==> r is None,
    {
        match self.position(key) {
            Some(i) => Some(self.entries[i].1.clone()),
            None => None,
        }
    }

    /// The cached public keys as identities, in the order of the entries:
    /// each key's wire blob with an empty comment.
    pub fn get_identities(&self) -> (r: Vec<Identity>)
        requires
            self.wf(),
        ensures
            lists_cache(r@, self),
    {
        let mut r: Vec<Identity> = Vec::new();
        let mut i: usize = 0;
        while i < self.entries.len()
            invariant
                i <= self.entries@.len() == self.model().len(),
                self.wf(),
                r@.len() == i,
                forall|j: int|
                    0 <= j < i ==> (#[trigger] r@[j]).public_key_blob@ == encode_blob(
                        self.model()[j].0,
                    ) && r@[j].comment@.len() == 0,
            decreases self.entries@.len() - i,
        {
            assert(key_wf(self.model()[i as int].0));
            let blob = encode_public_key(&self.entries[i].0);
            let comment = String::new();
            r.push(Identity { public_key_blob: blob, comment });
            i = i + 1;
        }
        r
    }

    /// The positions, in the configuration, of the pairs that could not be
    /// used.
    pub fn failed_pairs(&self) -> (r: Vec<usize>)
        ensures
            r@ == self.failures(),
    {
        self.failed.clone()
    }

    /// The number of entries.
    pub fn len(&self) -> (r: usize)
        ensures
            r == self.model().len(),
    {
        self.entries.len()
    }
}


/// Where a cache is in its life.
pub enum Phase {
    Empty,
    Building,
    Built,
}

/// One caller arriving at a cache in phase `p`: the phase after it, and
/// whether that caller has to build.
pub open spec fn arrive(p: Phase) -> (Phase, bool) {
    match p {
        Phase::Empty => (Phase::Building, true),
        other => (other, false),
    }
}

/// How many of `n` callers, arriving one after another at a cache in phase
/// `p`, have to build it.
pub open spec fn builders(p: Phase, n: nat) -> nat
    decreases n,
{
    if n == 0 {
        0
    } else {
        let (q, b) = arrive(p);
        builders(q, (n - 1) as nat) + if b {
            1nat
        } else {
            0nat
        }
    }
}

/// However many callers arrive, an empty cache is built by exactly one of
/// them, and a cache that is building or built by none.
pub proof fn lemma_single_builder(p: Phase, n: nat)
    ensures
        builders(p, n) == (if p is Empty && n > 0 {
            1nat
        } else {
            0nat
        }),
    decreases n,
{
    if n > 0 {
        let (q, b) = arrive(p);
        lemma_single_builder(q, (n - 1) as nat);
    }
}

/// The life of a shared cache: empty, then being built by one caller, then
/// built for good.
pub enum CacheState {
    Empty,
    Building,
    Built(IdentityCache),
}

impl CacheState {
    /// The phase of the state.
    pub open spec fn phase(&self) -> Phase {
        match self {
            CacheState::Empty => Phase::Empty,
            CacheState::Building => Phase::Building,
            CacheState::Built(_) => Phase::Built,
        }
    }

    /// A built cache is well formed.
    pub open spec fn wf(&self) -> bool {
        match self {
            CacheState::Built(c) => c.wf(),
            _ => true,
        }
    }

    /// A state with no cache yet.
    pub fn new() -> (r: CacheState)
        ensures
            r is Empty,
            r.wf(),
    {
        CacheState::Empty
    }

    /// A caller arrives. The one that finds the cache empty is told to
    /// build it, and the state becomes `Building`; any other caller is told
    /// not to, and the state stays as it was.
    pub fn arrive(&mut self) -> (r: bool)
        requires
            old(self).wf(),
        ensures
            final(self).wf(),
            (final(self).phase(), r) == arrive(old(self).phase()),
            !r ==> *final(self) == *old(self),
    {
        match self {
            CacheState::Empty => {
                *self = CacheState::Building;
                true
            },
            _ => false,
        }
    }

    /// The builder hands over the finished cache.
    pub fn finish(&mut self, cache: IdentityCache)
        requires
            *old(self) is Building,
            cache.wf(),
        ensures
            final(self).wf(),
            *final(self) == CacheState::Built(cache),
    {
        *self = CacheState::Built(cache);
    }

    /// The cache, once built.
    pub fn built(&self) -> (r: Option<&IdentityCache>)
        requires
            self.wf(),
        ensures
            r matches Some(c) ==> c.wf(),
            match self {
                CacheState::Built(c) => r == Some(c),
                _ => r is None,
            },
    {
        match self {
            CacheState::Built(c) => Some(c),
            _ => None,
        }
    }
}

} // verus!

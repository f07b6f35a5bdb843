//! The asset manifest of one build, and the store that holds the current
//! one.

use vstd::hash_map::StringHashMap;
use vstd::prelude::*;

verus! {

/// The artifacts of one build: from a URL path without its leading slash
/// to the file that serves it.
pub struct AssetManifest {
    mapping: StringHashMap<String>,
}

impl View for AssetManifest {
    type V = Map<Seq<char>, Seq<char>>;

    closed spec fn view(&self) -> Map<Seq<char>, Seq<char>> {
        self.mapping@.map_values(|path: String| path@)
    }
}

impl AssetManifest {
    /// A manifest without artifacts.
    pub fn new() -> (manifest: Self)
        ensures
            manifest@ == Map::<Seq<char>, Seq<char>>::empty(),
    {
        let manifest = AssetManifest { mapping: StringHashMap::new() };
        assert(manifest@ =~= Map::<Seq<char>, Seq<char>>::empty());
        manifest
    }

    /// Records that `url` is served by the file at `path`, in place of
    /// what served it before.
    pub fn insert(&mut self, url: String, path: String)
        ensures
            final(self)@ == old(self)@.insert(url@, path@),
    {
        self.mapping.insert(url, path);
        assert(self@ =~= old(self)@.insert(url@, path@));
    }

    /// The file that serves `url`, if the build produced one.
    pub fn get(&self, url: &str) -> (path: Option<&String>)
        ensures
            match path {
                Some(p) => self@.contains_key(url@) && p@ == self@[url@],
                None => !self@.contains_key(url@),
            },
    {
        self.mapping.get(url)
    }

    /// Number of artifacts.
    pub fn len(&self) -> (n: usize)
        ensures
            n == self@.len(),
    {
        broadcast use vstd::hash_map::group_hash_map_axioms;

        assert(self@.dom() =~= self.mapping@.dom());
        self.mapping.len()
    }
}

impl Default for AssetManifest {
    fn default() -> (manifest: Self)
        ensures
            manifest@ == Map::<Seq<char>, Seq<char>>::empty(),
    {
        AssetManifest::new()
    }
}

/// What a store holds after a build ended with `outcome`: the new
/// manifest after a success, what it held before after a failure.
pub open spec fn after_build(
    current: Map<Seq<char>, Seq<char>>,
    outcome: Result<Map<Seq<char>, Seq<char>>, Seq<char>>,
) -> Map<Seq<char>, Seq<char>> {
    match outcome {
        Ok(manifest) => manifest,
        Err(_) => current,
    }
}

/// What a store that held `initial` holds after the builds that ended with
/// `outcomes`, in that order.
pub open spec fn after_builds(
    initial: Map<Seq<char>, Seq<char>>,
    outcomes: Seq<Result<Map<Seq<char>, Seq<char>>, Seq<char>>>,
) -> Map<Seq<char>, Seq<char>>
    decreases outcomes.len(),
{
    if outcomes.len() == 0 {
        initial
    } else {
        after_build(after_builds(initial, outcomes.drop_last()), outcomes.last())
    }
}

/// Holder of the current manifest. Whoever has `&mut` access replaces the
/// manifest whole; whoever has `&` access reads one whole manifest.
pub struct ManifestStore {
    current: AssetManifest,
}

impl View for ManifestStore {
    type V = Map<Seq<char>, Seq<char>>;

    closed spec fn view(&self) -> Map<Seq<char>, Seq<char>> {
        self.current@
    }
}

impl ManifestStore {
    /// A store that holds the empty manifest.
    pub fn new() -> (store: Self)
        ensures
            store@ == Map::<Seq<char>, Seq<char>>::empty(),
    {
        ManifestStore { current: AssetManifest::new() }
    }

    /// The current manifest.
    pub fn get(&self) -> (manifest: &AssetManifest)
        ensures
            manifest@ == self@,
    {
        &self.current
    }

    /// Replaces the current manifest by `manifest`.
    pub fn set(&mut self, manifest: AssetManifest)
        ensures
            final(self)@ == manifest@,
    {
        self.current = manifest;
    }
}

/// A failed build leaves the store as it was.
pub proof fn lemma_failed_build_keeps_manifest(
    current: Map<Seq<char>, Seq<char>>,
    error: Seq<char>,
)
    ensures
        after_build(current, Err(error)) == current,
{
}

/// After any run of builds the store holds the manifest of the latest
/// build that succeeded, and what it held at first if none did.
pub proof fn lemma_store_holds_latest_success(
    initial: Map<Seq<char>, Seq<char>>,
    outcomes: Seq<Result<Map<Seq<char>, Seq<char>>, Seq<char>>>,
)
    ensures
        (forall|i: int| 0 <= i < outcomes.len() ==> outcomes[i] is Err) ==> after_builds(
            initial,
            outcomes,
        ) == initial,
        forall|i: int|
            0 <= i < outcomes.len() && outcomes[i] is Ok && (forall|j: int|
                i < j < outcomes.len() ==> outcomes[j] is Err) ==> after_builds(initial, outcomes)
                == outcomes[i]->Ok_0,
    decreases outcomes.len(),
{
    if outcomes.len() > 0 {
        let front = outcomes.drop_last();
        lemma_store_holds_latest_success(initial, front);
        assert forall|i: int|
            0 <= i < outcomes.len() && outcomes[i] is Ok && (forall|j: int|
                i < j < outcomes.len() ==> outcomes[j] is Err) implies after_builds(
            initial,
            outcomes,
        ) == outcomes[i]->Ok_0 by {
            if i < front.len() {
                assert(outcomes[outcomes.len() - 1] is Err);
                assert(front[i] == outcomes[i]);
                assert forall|j: int| i < j < front.len() implies front[j] is Err by {
                    assert(front[j] == outcomes[j]);
                }
            }
        }
        if forall|i: int| 0 <= i < outcomes.len() ==> outcomes[i] is Err {
            assert(outcomes[outcomes.len() - 1] is Err);
            assert forall|i: int| 0 <= i < front.len() implies front[i] is Err by {
                assert(front[i] == outcomes[i]);
            }
        }
    }
}

/// A store never holds anything but what it held at first or a manifest
/// that a build handed over.
pub proof fn lemma_store_holds_a_built_manifest(
    initial: Map<Seq<char>, Seq<char>>,
    outcomes: Seq<Result<Map<Seq<char>, Seq<char>>, Seq<char>>>,
)
    ensures
        after_builds(initial, outcomes) == initial || exists|i: int|
            0 <= i < outcomes.len() && #[trigger] outcomes[i] == Ok::<
                Map<Seq<char>, Seq<char>>,
                Seq<char>,
            >(after_builds(initial, outcomes)),
    decreases outcomes.len(),
{
    if outcomes.len() > 0 {
        let front = outcomes.drop_last();
        lemma_store_holds_a_built_manifest(initial, front);
        let last = outcomes.len() - 1;
        match outcomes.last() {
            Ok(manifest) => {
                assert(outcomes[last] == Ok::<Map<Seq<char>, Seq<char>>, Seq<char>>(manifest));
            },
            Err(_) => {
                if after_builds(initial, front) != initial {
                    let i = choose|i: int|
                        0 <= i < front.len() && #[trigger] front[i] == Ok::<
                            Map<Seq<char>, Seq<char>>,
                            Seq<char>,
                        >(after_builds(initial, front));
                    assert(outcomes[i] == front[i]);
                }
            },
        }
    }
}

} // verus!

//! Persistent user preferences: for each Electron application (keyed by
//! bundle id) whether to relaunch it with a DevTools port.
use vstd::prelude::*;
use crate::text::str_eq;

verus! {

/// What to do when an Electron application without a DevTools port is picked.
#[derive(Debug, Clone, Copy, PartialEq, Eq, Structural)]
pub enum ElectronRelaunchPref {
    /// Ask before quitting and relaunching.
    Ask,
    /// Quit and relaunch without asking.
    AlwaysYes,
    /// Never relaunch.
    AlwaysNo,
}

impl Default for ElectronRelaunchPref {
    fn default() -> (r: Self)
        ensures
            r == ElectronRelaunchPref::Ask,
    {
        ElectronRelaunchPref::Ask
    }
}

/// All persisted preferences. Each bundle id has at most one entry.
#[derive(Debug, Clone)]
pub struct VibeExtractSettings {
    electron_relaunch: Vec<(String, ElectronRelaunchPref)>,
}

/// The map an entry list stands for; a later entry for a key wins.
pub open spec fn entries_map(e: Seq<(String, ElectronRelaunchPref)>) -> Map<Seq<char>, ElectronRelaunchPref>
    decreases e.len(),
{
    if e.len() == 0 {
        Map::empty()
    } else {
        entries_map(e.drop_last()).insert(e.last().0@, e.last().1)
    }
}

/// The preference recorded for `id`, `Ask` when none is.
pub open spec fn pref_of(m: Map<Seq<char>, ElectronRelaunchPref>, id: Seq<char>) -> ElectronRelaunchPref {
    if m.contains_key(id) { m[id] } else { ElectronRelaunchPref::Ask }
}

impl VibeExtractSettings {
    /// The preferences as a map from bundle id to preference.
    pub closed spec fn view_map(&self) -> Map<Seq<char>, ElectronRelaunchPref> {
        entries_map(self.electron_relaunch@)
    }

    /// No bundle id has two entries.
    pub closed spec fn wf(&self) -> bool {
        forall|i: int, j: int|
            0 <= i < j < self.electron_relaunch@.len()
                ==> #[trigger] self.electron_relaunch@[i].0@ != #[trigger] self.electron_relaunch@[j].0@
    }

    /// Settings with no preference recorded.
    pub fn new() -> (r: Self)
        ensures
            r.wf(),
            r.view_map() == Map::<Seq<char>, ElectronRelaunchPref>::empty(),
    {
        VibeExtractSettings { electron_relaunch: Vec::new() }
    }

    /// Number of bundle ids with a recorded preference.
    pub fn len(&self) -> (r: usize)
        requires
            self.wf(),
        ensures
            r == self.view_map().dom().len(),
    {
        proof { self.lemma_dom_len(); }
        self.electron_relaunch.len()
    }

    proof fn lemma_map_prefix(e: Seq<(String, ElectronRelaunchPref)>, id: Seq<char>)
        requires
            forall|i: int, j: int| 0 <= i < j < e.len() ==> #[trigger] e[i].0@ != #[trigger] e[j].0@,
        ensures
            entries_map(e).dom().finite(),
            entries_map(e).dom().len() == e.len(),
            entries_map(e).contains_key(id) <==> exists|i: int| 0 <= i < e.len() && #[trigger] e[i].0@ == id,
            forall|i: int| 0 <= i < e.len() ==> entries_map(e)[#[trigger] e[i].0@] == e[i].1,
        decreases e.len(),
    {
        if e.len() > 0 {
            let p = e.drop_last();
            assert forall|i: int, j: int| 0 <= i < j < p.len() implies #[trigger] p[i].0@ != #[trigger] p[j].0@ by {
                assert(p[i] == e[i] && p[j] == e[j]);
            }
            Self::lemma_map_prefix(p, id);
            Self::lemma_map_prefix(p, e.last().0@);
            assert(!entries_map(p).contains_key(e.last().0@)) by {
                if entries_map(p).contains_key(e.last().0@) {
                    let i = choose|i: int| 0 <= i < p.len() && #[trigger] p[i].0@ == e.last().0@;
                    assert(e[i].0@ != e[e.len() - 1].0@);
                }
            }
            assert forall|i: int| 0 <= i < e.len() implies entries_map(e)[#[trigger] e[i].0@] == e[i].1 by {
                if i < e.len() - 1 {
                    assert(p[i] == e[i]);
                    assert(e[i].0@ != e[e.len() - 1].0@);
                    Self::lemma_map_prefix(p, e[i].0@);
                }
            }
            if exists|i: int| 0 <= i < e.len() && #[trigger] e[i].0@ == id {
                let i = choose|i: int| 0 <= i < e.len() && #[trigger] e[i].0@ == id;
                if i < e.len() - 1 {
                    assert(p[i] == e[i]);
                }
            }
            if exists|i: int| 0 <= i < p.len() && #[trigger] p[i].0@ == id {
                let i = choose|i: int| 0 <= i < p.len() && #[trigger] p[i].0@ == id;
                assert(e[i] == p[i]);
            }
        }
    }

    proof fn lemma_dom_len(&self)
        requires
            self.wf(),
        ensures
            self.view_map().dom().len() == self.electron_relaunch@.len(),
    {
        Self::lemma_map_prefix(self.electron_relaunch@, Seq::empty());
    }

    /// Index of the entry for `bundle_id`, if there is one.
    fn position(&self, bundle_id: &str) -> (r: Option<usize>)
        requires
            self.wf(),
        ensures
            match r {
                Some(i) => i < self.electron_relaunch@.len() && self.electron_relaunch@[i as int].0@ == bundle_id@,
                None => !self.view_map().contains_key(bundle_id@),
            },
    {
        let mut i: usize = 0;
        while i < self.electron_relaunch.len()
            invariant
                i <= self.electron_relaunch@.len(),
                forall|j: int| 0 <= j < i ==> #[trigger] self.electron_relaunch@[j].0@ != bundle_id@,
            decreases self.electron_relaunch.len() - i,
        {
            if str_eq(self.electron_relaunch[i].0.as_str(), bundle_id) {
                return Some(i);
            }
            i = i + 1;
        }
        proof { Self::lemma_map_prefix(self.electron_relaunch@, bundle_id@); }
        None
    }
}

/// The preference recorded for a bundle id; `Ask` when there is none.
pub fn get_electron_pref(settings: &VibeExtractSettings, bundle_id: &str) -> (r: ElectronRelaunchPref)
    requires
        settings.wf(),
    ensures
        r == pref_of(settings.view_map(), bundle_id@),
{
    match settings.position(bundle_id) {
        Some(i) => {
            proof { VibeExtractSettings::lemma_map_prefix(settings.electron_relaunch@, bundle_id@); }
            settings.electron_relaunch[i].1
        },
        None => ElectronRelaunchPref::Ask,
    }
}

/// Records the preference for a bundle id, replacing any earlier one.
pub fn set_electron_pref(settings: &mut VibeExtractSettings, bundle_id: &str, pref: ElectronRelaunchPref)
    requires
        old(settings).wf(),
    ensures
        final(settings).wf(),
        final(settings).view_map() == old(settings).view_map().insert(bundle_id@, pref),
{
    let ghost before = settings.electron_relaunch@;
    proof { VibeExtractSettings::lemma_map_prefix(before, bundle_id@); }
    match settings.position(bundle_id) {
        Some(i) => {
            let key = settings.electron_relaunch[i].0.clone();
            settings.electron_relaunch.set(i, (key, pref));
            proof {
                let after = settings.electron_relaunch@;
                assert forall|a: int, b: int| 0 <= a < b < after.len() implies #[trigger] after[a].0@ != #[trigger] after[b].0@ by {
                    assert(after[a].0@ == before[a].0@ && after[b].0@ == before[b].0@);
                }
                VibeExtractSettings::lemma_map_prefix(after, bundle_id@);
                assert forall|k: Seq<char>| #[trigger] entries_map(after).contains_key(k)
                    <==> entries_map(before).insert(bundle_id@, pref).contains_key(k) by {
                    VibeExtractSettings::lemma_map_prefix(after, k);
                    VibeExtractSettings::lemma_map_prefix(before, k);
                    if exists|x: int| 0 <= x < before.len() && #[trigger] before[x].0@ == k {
                        let x = choose|x: int| 0 <= x < before.len() && #[trigger] before[x].0@ == k;
                        assert(after[x].0@ == k);
                    }
                    if exists|x: int| 0 <= x < after.len() && #[trigger] after[x].0@ == k {
                        let x = choose|x: int| 0 <= x < after.len() && #[trigger] after[x].0@ == k;
                        assert(before[x].0@ == k);
                    }
                }
                assert forall|k: Seq<char>| #[trigger] entries_map(after).contains_key(k)
                    implies entries_map(after)[k] == entries_map(before).insert(bundle_id@, pref)[k] by {
                    VibeExtractSettings::lemma_map_prefix(after, k);
                    VibeExtractSettings::lemma_map_prefix(before, k);
                    let x = choose|x: int| 0 <= x < after.len() && #[trigger] after[x].0@ == k;
                    assert(after[x].0@ == before[x].0@);
                    if x != i {
                        assert(after[x] == before[x]);
                        assert(before[x].0@ != before[i as int].0@);
                    }
                }
                assert(entries_map(after) =~= entries_map(before).insert(bundle_id@, pref));
            }
        },
        None => {
            let key = crate::text::to_owned_string(bundle_id);
            settings.electron_relaunch.push((key, pref));
            proof {
                let after = settings.electron_relaunch@;
                assert(after.drop_last() == before);
                assert forall|a: int, b: int| 0 <= a < b < after.len() implies #[trigger] after[a].0@ != #[trigger] after[b].0@ by {
                    if b == after.len() - 1 {
                        assert(after[a] == before[a]);
                    } else {
                        assert(after[a] == before[a] && after[b] == before[b]);
                    }
                }
            }
        },
    }
}


impl VibeExtractSettings {
    /// Settings holding the given (bundle id, preference) pairs; when a bundle
    /// id repeats, the later pair wins.
    pub fn from_entries(e: &Vec<(String, ElectronRelaunchPref)>) -> (r: Self)
        ensures
            r.wf(),
            r.view_map() == entries_map(e@),
    {
        let mut r = VibeExtractSettings::new();
        let mut i: usize = 0;
        while i < e.len()
            invariant
                i <= e@.len(),
                r.wf(),
                r.view_map() == entries_map(e@.take(i as int)),
            decreases e.len() - i,
        {
            set_electron_pref(&mut r, e[i].0.as_str(), e[i].1);
            proof {
                assert(e@.take(i + 1).drop_last() == e@.take(i as int));
                assert(e@.take(i + 1).last() == e@[i as int]);
            }
            i = i + 1;
        }
        proof { assert(e@.take(e@.len() as int) == e@); }
        r
    }

    /// The recorded (bundle id, preference) pairs, one per bundle id.
    pub fn entries(&self) -> (r: Vec<(String, ElectronRelaunchPref)>)
        requires
            self.wf(),
        ensures
            entries_map(r@) == self.view_map(),
            r@.len() == self.view_map().dom().len(),
    {
        let mut out: Vec<(String, ElectronRelaunchPref)> = Vec::new();
        let mut i: usize = 0;
        while i < self.electron_relaunch.len()
            invariant
                i <= self.electron_relaunch@.len(),
                out@.len() == i,
                forall|j: int| 0 <= j < i ==> (#[trigger] out@[j]).0@ == self.electron_relaunch@[j].0@
                    && out@[j].1 == self.electron_relaunch@[j].1,
            decreases self.electron_relaunch.len() - i,
        {
            let k = self.electron_relaunch[i].0.clone();
            out.push((k, self.electron_relaunch[i].1));
            i = i + 1;
        }
        proof {
            Self::lemma_same_keys(out@, self.electron_relaunch@);
            self.lemma_dom_len();
        }
        out
    }

    proof fn lemma_same_keys(a: Seq<(String, ElectronRelaunchPref)>, b: Seq<(String, ElectronRelaunchPref)>)
        requires
            a.len() == b.len(),
            forall|j: int| 0 <= j < a.len() ==> (#[trigger] a[j]).0@ == b[j].0@ && a[j].1 == b[j].1,
        ensures
            entries_map(a) == entries_map(b),
        decreases a.len(),
    {
        if a.len() > 0 {
            assert forall|j: int| 0 <= j < a.drop_last().len() implies (#[trigger] a.drop_last()[j]).0@
                == b.drop_last()[j].0@ && a.drop_last()[j].1 == b.drop_last()[j].1 by {
                assert(a.drop_last()[j] == a[j] && b.drop_last()[j] == b[j]);
            }
            Self::lemma_same_keys(a.drop_last(), b.drop_last());
        }
    }
}

/// With nothing recorded, every bundle id's preference is `Ask`.
pub proof fn law_unset_pref_is_ask(id: Seq<char>)
    ensures
        pref_of(Map::<Seq<char>, ElectronRelaunchPref>::empty(), id) == ElectronRelaunchPref::Ask,
{
}

/// Reading a bundle id's preference after setting it gives what was set.
pub proof fn law_get_after_set(m: Map<Seq<char>, ElectronRelaunchPref>, id: Seq<char>, p: ElectronRelaunchPref)
    ensures
        pref_of(m.insert(id, p), id) == p,
{
}

/// Setting one bundle id's preference leaves every other bundle id's as it was.
pub proof fn law_set_keeps_others(
    m: Map<Seq<char>, ElectronRelaunchPref>,
    id: Seq<char>,
    other: Seq<char>,
    p: ElectronRelaunchPref,
)
    requires
        other != id,
    ensures
        pref_of(m.insert(id, p), other) == pref_of(m, other),
{
}

} // verus!

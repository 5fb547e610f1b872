use vstd::prelude::*;
use crate::bytes::{bytes_eq, copy_bytes};

verus! {

// Per-theme local metadata: a screenshot URL and a description, keyed by the
// theme's name.  A theme that was never annotated has no record, and loading
// it yields the fixed default; saving upserts the record.

/// The locally kept metadata of one theme.
#[derive(PartialEq, Eq, Debug)]
pub struct ThemeLocalMetadata {
    pub screenshot: Vec<u8>,
    pub description: Vec<u8>,
}

/// The metadata record fetched from the server during a download; its fields
/// are copied into the local record and it is not retained.
#[derive(PartialEq, Eq, Debug)]
pub struct MetaRes {
    pub screen: Vec<u8>,
    pub description: Vec<u8>,
}

/// The mathematical value of a metadata record.
pub ghost struct MetaView {
    pub screenshot: Seq<u8>,
    pub description: Seq<u8>,
}

impl View for ThemeLocalMetadata {
    type V = MetaView;

    open spec fn view(&self) -> MetaView {
        MetaView { screenshot: self.screenshot@, description: self.description@ }
    }
}

/// The sentinel for a theme with no stored record: no screenshot, no
/// description, both empty.
pub open spec fn default_meta_view() -> MetaView {
    MetaView { screenshot: Seq::empty(), description: Seq::empty() }
}

/// What loading a theme's record from a store yields: the record when there
/// is one, the default otherwise.
pub open spec fn spec_load(m: Map<Seq<u8>, MetaView>, name: Seq<u8>) -> MetaView {
    if m.contains_key(name) {
        m[name]
    } else {
        default_meta_view()
    }
}

/// The record a theme has before anything was stored for it.
pub fn default_theme_metadata() -> (r: ThemeLocalMetadata)
    ensures
        r@ == default_meta_view(),
{
    let r = ThemeLocalMetadata { screenshot: Vec::new(), description: Vec::new() };
    proof {
        assert(r@.screenshot =~= default_meta_view().screenshot);
        assert(r@.description =~= default_meta_view().description);
    }
    r
}

/// Merging a fetched record into the local one replaces both fields, so the
/// result is the fetched record alone.
pub fn merge_remote_metadata(local: ThemeLocalMetadata, remote: &MetaRes) -> (r: ThemeLocalMetadata)
    ensures
        r@.screenshot == remote.screen@,
        r@.description == remote.description@,
{
    let mut merged = local;
    merged.screenshot = copy_bytes(&remote.screen);
    merged.description = copy_bytes(&remote.description);
    merged
}

/// The map a record list stands for, later entries shadowing earlier ones;
/// a well-formed store has no two entries with one key, so nothing shadows.
pub open spec fn records_map(s: Seq<(Vec<u8>, ThemeLocalMetadata)>) -> Map<Seq<u8>, MetaView>
    decreases s.len(),
{
    if s.len() == 0 {
        Map::empty()
    } else {
        records_map(s.drop_last()).insert(s.last().0@, s.last().1@)
    }
}

proof fn lemma_records_map_entry(s: Seq<(Vec<u8>, ThemeLocalMetadata)>, i: int)
    requires
        0 <= i < s.len(),
        forall|m: int, n: int| 0 <= m < n < s.len() ==> s[m].0@ != s[n].0@,
    ensures
        records_map(s).contains_key(s[i].0@),
        records_map(s)[s[i].0@] == s[i].1@,
    decreases s.len(),
{
    if i < s.len() - 1 {
        lemma_records_map_entry(s.drop_last(), i);
    }
}

proof fn lemma_records_map_absent(s: Seq<(Vec<u8>, ThemeLocalMetadata)>, k: Seq<u8>)
    requires
        forall|m: int| 0 <= m < s.len() ==> s[m].0@ != k,
    ensures
        !records_map(s).contains_key(k),
    decreases s.len(),
{
    if s.len() > 0 {
        lemma_records_map_absent(s.drop_last(), k);
    }
}

proof fn lemma_records_map_update(s: Seq<(Vec<u8>, ThemeLocalMetadata)>, i: int, e: (
    Vec<u8>,
    ThemeLocalMetadata,
))
    requires
        0 <= i < s.len(),
        forall|m: int, n: int| 0 <= m < n < s.len() ==> s[m].0@ != s[n].0@,
        e.0@ == s[i].0@,
    ensures
        records_map(s.update(i, e)) == records_map(s).insert(e.0@, e.1@),
    decreases s.len(),
{
    if i == s.len() - 1 {
        assert(s.update(i, e).drop_last() =~= s.drop_last());
        assert(records_map(s.update(i, e)) =~= records_map(s).insert(e.0@, e.1@));
    } else {
        lemma_records_map_update(s.drop_last(), i, e);
        assert(s.update(i, e).drop_last() =~= s.drop_last().update(i, e));
        assert(s.update(i, e).last() == s.last());
        assert(records_map(s.update(i, e)) =~= records_map(s).insert(e.0@, e.1@));
    }
}

proof fn lemma_records_map_dom(s: Seq<(Vec<u8>, ThemeLocalMetadata)>, k: Seq<u8>)
    requires
        records_map(s).contains_key(k),
    ensures
        exists|i: int| 0 <= i < s.len() && #[trigger] s[i].0@ == k,
    decreases s.len(),
{
    if s.len() > 0 {
        if s.last().0@ == k {
            assert(s[s.len() - 1].0@ == k);
        } else {
            lemma_records_map_dom(s.drop_last(), k);
            let i = choose|i: int| 0 <= i < s.drop_last().len() && #[trigger] s.drop_last()[i].0@
                == k;
            assert(s[i].0@ == k);
        }
    }
}

/// The keyed store of every locally annotated theme.
pub struct MetadataStore {
    records: Vec<(Vec<u8>, ThemeLocalMetadata)>,
}

impl MetadataStore {
    /// No two records share a key.
    pub closed spec fn wf(&self) -> bool {
        forall|m: int, n: int|
            0 <= m < n < self.records@.len() ==> self.records@[m].0@ != self.records@[n].0@
    }

    pub closed spec fn view(&self) -> Map<Seq<u8>, MetaView> {
        records_map(self.records@)
    }

    /// An empty store: no theme has a record.
    pub fn new() -> (r: Self)
        ensures
            r.wf(),
            r@ == Map::<Seq<u8>, MetaView>::empty(),
    {
        MetadataStore { records: Vec::new() }
    }

    /// The records as pairs, for persisting the store.
    pub fn records(&self) -> (r: &Vec<(Vec<u8>, ThemeLocalMetadata)>)
        requires
            self.wf(),
        ensures
            r@.len() == 0 <==> self@ == Map::<Seq<u8>, MetaView>::empty(),
            forall|i: int|
                0 <= i < r@.len() ==> self@.contains_key(#[trigger] r@[i].0@) && self@[r@[i].0@]
                    == r@[i].1@,
            forall|k: Seq<u8>|
                self@.contains_key(k) ==> exists|i: int|
                    0 <= i < r@.len() && #[trigger] r@[i].0@ == k,
    {
        proof {
            if self.records@.len() == 0 {
                assert(self@ =~= Map::<Seq<u8>, MetaView>::empty());
            } else {
                assert(self@.contains_key(self.records@.last().0@));
                assert(!Map::<Seq<u8>, MetaView>::empty().contains_key(
                    self.records@.last().0@,
                ));
            }
            assert forall|i: int| 0 <= i < self.records@.len() implies self@.contains_key(
                #[trigger] self.records@[i].0@,
            ) && self@[self.records@[i].0@] == self.records@[i].1@ by {
                lemma_records_map_entry(self.records@, i);
            }
            assert forall|k: Seq<u8>| self@.contains_key(k) implies exists|i: int|
                0 <= i < self.records@.len() && #[trigger] self.records@[i].0@ == k by {
                lemma_records_map_dom(self.records@, k);
            }
        }
        &self.records
    }

    /// Loads a theme's record; a theme with no stored record yields the
    /// default, and loading never fails.
    pub fn load_theme_metadata(&self, name: &Vec<u8>) -> (r: ThemeLocalMetadata)
        requires
            self.wf(),
        ensures
            r@ == spec_load(self@, name@),
    {
        let n = self.records.len();
        let mut i: usize = 0;
        while i < n
            invariant
                n == self.records@.len(),
                i <= n,
                self.wf(),
                forall|m: int| 0 <= m < i ==> self.records@[m].0@ != name@,
            decreases n - i,
        {
            if bytes_eq(&self.records[i].0, name) {
                proof {
                    lemma_records_map_entry(self.records@, i as int);
                }
                let rec = &self.records[i].1;
                return ThemeLocalMetadata {
                    screenshot: copy_bytes(&rec.screenshot),
                    description: copy_bytes(&rec.description),
                };
            }
            i = i + 1;
        }
        proof {
            lemma_records_map_absent(self.records@, name@);
        }
        default_theme_metadata()
    }

    /// Stores a theme's record, replacing any record the theme had.
    pub fn save_theme_metadata(&mut self, name: Vec<u8>, meta: ThemeLocalMetadata)
        requires
            old(self).wf(),
        ensures
            final(self).wf(),
            final(self)@ == old(self)@.insert(name@, meta@),
    {
        let n = self.records.len();
        let mut i: usize = 0;
        while i < n
            invariant
                n == self.records@.len(),
                i <= n,
                self.wf(),
                self == old(self),
                forall|m: int| 0 <= m < i ==> self.records@[m].0@ != name@,
            decreases n - i,
        {
            if bytes_eq(&self.records[i].0, &name) {
                proof {
                    lemma_records_map_update(self.records@, i as int, (name, meta));
                }
                self.records[i] = (name, meta);
                proof {
                    assert forall|m: int, n: int|
                        0 <= m < n < self.records@.len() implies self.records@[m].0@
                        != self.records@[n].0@ by {
                        assert(old(self).records@[m].0@ != old(self).records@[n].0@);
                    }
                }
                return ;
            }
            i = i + 1;
        }
        self.records.push((name, meta));
        proof {
            assert(self.records@.drop_last() =~= old(self).records@);
        }
    }
}

/// Loading the record of a theme that has none always yields one and the
/// same default value, whatever the store holds and whichever theme it is.
pub proof fn lemma_missing_record_load_is_constant(
    m1: Map<Seq<u8>, MetaView>,
    n1: Seq<u8>,
    m2: Map<Seq<u8>, MetaView>,
    n2: Seq<u8>,
)
    requires
        !m1.contains_key(n1),
        !m2.contains_key(n2),
    ensures
        spec_load(m1, n1) == spec_load(m2, n2),
        spec_load(m1, n1) == default_meta_view(),
{
}

} // verus!

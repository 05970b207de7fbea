//! The route table: the gateway's one piece of shared mutable state, a mapping
//! from URL path to route metadata. All changes go through [`RouteTable::replace`],
//! which installs a whole new entry set at once; readers use [`RouteTable::lookup`]
//! and [`RouteTable::snapshot`]. The table's view is the mathematical map the
//! current entries denote, so a caller can state exactly which entry set any
//! read observes. (The process serializes access with a lock held only for the
//! duration of a copy or swap, never across I/O.)

use vstd::prelude::*;
use crate::text::str_eq;

verus! {

/// Metadata of one ingestion route: the analytics-store table (equally, the
/// broker topic) it writes to, the defining file, and an optional
/// materialized-view name.
#[derive(Debug, Clone)]
pub struct RouteMeta {
    pub original_file_path: String,
    pub table_name: String,
    pub view_name: Option<String>,
}

/// Spec-level image of a [`RouteMeta`].
pub struct RouteMetaView {
    pub original_file_path: Seq<char>,
    pub table_name: Seq<char>,
    pub view_name: Option<Seq<char>>,
}

impl View for RouteMeta {
    type V = RouteMetaView;

    open spec fn view(&self) -> RouteMetaView {
        RouteMetaView {
            original_file_path: self.original_file_path@,
            table_name: self.table_name@,
            view_name: match self.view_name {
                Option::Some(v) => Option::Some(v@),
                Option::None => Option::None,
            },
        }
    }
}

impl RouteMeta {
    pub fn new(original_file_path: String, table_name: String, view_name: Option<String>) -> (m:
        RouteMeta)
        ensures
            m@ == (RouteMetaView {
                original_file_path: original_file_path@,
                table_name: table_name@,
                view_name: match view_name {
                    Option::Some(v) => Option::Some(v@),
                    Option::None => Option::None::<Seq<char>>,
                },
            }),
    {
        RouteMeta { original_file_path, table_name, view_name }
    }

    /// A field-for-field copy.
    pub fn duplicate(&self) -> (r: RouteMeta)
        ensures
            r@ == self@,
    {
        let view_name = match &self.view_name {
            Option::Some(v) => Option::Some(v.clone()),
            Option::None => Option::None,
        };
        RouteMeta {
            original_file_path: self.original_file_path.clone(),
            table_name: self.table_name.clone(),
            view_name,
        }
    }
}

/// The views of an entry sequence.
pub open spec fn entry_views(s: Seq<(String, RouteMeta)>) -> Seq<(Seq<char>, RouteMetaView)> {
    s.map_values(|e: (String, RouteMeta)| (e.0@, e.1@))
}

/// No path occurs twice.
pub open spec fn unique_keys(s: Seq<(Seq<char>, RouteMetaView)>) -> bool {
    forall|i: int, j: int| 0 <= i < j < s.len() ==> (#[trigger] s[i].0) != (#[trigger] s[j].0)
}

/// The mapping an entry sequence denotes (later entries win, though a
/// well-formed table never repeats a path).
pub open spec fn pairs_map(s: Seq<(Seq<char>, RouteMetaView)>) -> Map<Seq<char>, RouteMetaView>
    decreases s.len(),
{
    if s.len() == 0 {
        Map::empty()
    } else {
        pairs_map(s.drop_last()).insert(s.last().0, s.last().1)
    }
}

/// A path is in the denoted mapping exactly when some entry carries it.
pub proof fn lemma_pairs_map_dom(s: Seq<(Seq<char>, RouteMetaView)>, p: Seq<char>)
    ensures
        pairs_map(s).dom().contains(p) <==> exists|i: int|
            0 <= i < s.len() && (#[trigger] s[i].0) == p,
    decreases s.len(),
{
    if s.len() > 0 {
        lemma_pairs_map_dom(s.drop_last(), p);
        if s.last().0 == p {
            assert(s[s.len() - 1].0 == p);
        } else {
            assert(forall|i: int|
                0 <= i < s.len() - 1 ==> (#[trigger] s[i].0) == s.drop_last()[i].0);
        }
    }
}

/// With unique paths, the denoted mapping sends each entry's path to exactly
/// that entry's metadata.
pub proof fn lemma_pairs_map_at(s: Seq<(Seq<char>, RouteMetaView)>, i: int)
    requires
        unique_keys(s),
        0 <= i < s.len(),
    ensures
        pairs_map(s).dom().contains(s[i].0),
        pairs_map(s)[s[i].0] == s[i].1,
    decreases s.len(),
{
    if i == s.len() - 1 {
    } else {
        assert(unique_keys(s.drop_last())) by {
            assert(forall|k: int|
                0 <= k < s.len() - 1 ==> (#[trigger] s.drop_last()[k]) == s[k]);
        }
        lemma_pairs_map_at(s.drop_last(), i);
        assert(s[i].0 != s.last().0);
    }
}

/// The table: a unique-pathed entry list, viewed as the mapping it denotes.
#[derive(Debug)]
pub struct RouteTable {
    entries: Vec<(String, RouteMeta)>,
}

impl View for RouteTable {
    type V = Map<Seq<char>, RouteMetaView>;

    closed spec fn view(&self) -> Map<Seq<char>, RouteMetaView> {
        pairs_map(entry_views(self.entries@))
    }
}

impl RouteTable {
    /// The entries in table order, by view.
    pub closed spec fn entry_seq(self) -> Seq<(Seq<char>, RouteMetaView)> {
        entry_views(self.entries@)
    }

    #[verifier::type_invariant]
    closed spec fn wf(self) -> bool {
        unique_keys(entry_views(self.entries@))
    }

    /// The table's mapping is exactly the one its entry sequence denotes.
    pub proof fn lemma_view_is_entries(&self)
        ensures
            self@ == pairs_map(self.entry_seq()),
    {
    }

    /// An empty table.
    pub fn new() -> (t: RouteTable)
        ensures
            t@ == Map::<Seq<char>, RouteMetaView>::empty(),
            t.entry_seq() == Seq::<(Seq<char>, RouteMetaView)>::empty(),
    {
        let t = RouteTable { entries: Vec::new() };
        proof {
            assert(entry_views(t.entries@) =~= Seq::<(Seq<char>, RouteMetaView)>::empty());
        }
        t
    }

    /// Swaps in a whole new entry set. The table afterwards denotes the new
    /// entries alone — nothing of the old mapping survives, so a reader
    /// serialized before or after the swap sees one complete entry set.
    pub fn replace(&mut self, entries: Vec<(String, RouteMeta)>)
        requires
            unique_keys(entry_views(entries@)),
        ensures
            final(self).entry_seq() == entry_views(entries@),
            final(self)@ == pairs_map(entry_views(entries@)),
    {
        self.entries = entries;
    }

    /// Exact-match lookup: `Some` with the path's metadata exactly when the
    /// path is in the table.
    pub fn lookup(&self, path: &str) -> (r: Option<RouteMeta>)
        ensures
            r is Some <==> self@.dom().contains(path@),
            r matches Some(m) ==> self@[path@] == m@,
    {
        proof {
            use_type_invariant(self);
        }
        let n = self.entries.len();
        let mut i: usize = 0;
        while i < n
            invariant
                n == self.entries@.len(),
                i <= n,
                unique_keys(entry_views(self.entries@)),
                forall|k: int| 0 <= k < i ==> (#[trigger] self.entries@[k].0@) != path@,
            decreases n - i,
        {
            if str_eq(self.entries[i].0.as_str(), path) {
                let m = self.entries[i].1.duplicate();
                proof {
                    assert(entry_views(self.entries@)[i as int].0 == path@);
                    lemma_pairs_map_at(entry_views(self.entries@), i as int);
                }
                return Some(m);
            }
            i = i + 1;
        }
        proof {
            lemma_pairs_map_dom(entry_views(self.entries@), path@);
            assert(forall|k: int|
                0 <= k < self.entries@.len() ==> (#[trigger] entry_views(self.entries@)[k].0)
                    == self.entries@[k].0@);
        }
        None
    }

    /// An ordered copy of the entries, for the console; the table itself is
    /// untouched.
    pub fn snapshot(&self) -> (r: Vec<(String, RouteMeta)>)
        ensures
            entry_views(r@) == self.entry_seq(),
    {
        let n = self.entries.len();
        let mut r: Vec<(String, RouteMeta)> = Vec::new();
        let mut i: usize = 0;
        while i < n
            invariant
                n == self.entries@.len(),
                i <= n,
                r@.len() == i,
                forall|k: int|
                    0 <= k < i ==> (#[trigger] entry_views(r@)[k]) == entry_views(
                        self.entries@,
                    )[k],
            decreases n - i,
        {
            let path = self.entries[i].0.clone();
            let meta = self.entries[i].1.duplicate();
            let ghost old_r = r@;
            r.push((path, meta));
            proof {
                assert forall|k: int| 0 <= k < i + 1 implies (#[trigger] entry_views(r@)[k])
                    == entry_views(self.entries@)[k] by {
                    if k < i {
                        assert(r@[k] == old_r[k]);
                        assert(entry_views(old_r)[k] == entry_views(self.entries@)[k]);
                    } else {
                        assert(r@[k].0@ == self.entries@[k].0@);
                        assert(r@[k].1@ == self.entries@[k].1@);
                    }
                }
            }
            i = i + 1;
        }
        proof {
            assert(entry_views(r@) =~= entry_views(self.entries@));
        }
        r
    }
}

/// The law behind atomic replacement: after a replace installs entries `es`,
/// every lookup is resolved by `es` alone — a present path resolves to the
/// metadata of its (unique) entry in `es`, and a path absent from `es` is
/// absent from the table, whatever the table held before. Together with
/// [`RouteTable::replace`]'s contract (the new mapping does not depend on the
/// old one), a reader serialized around a replace observes either the entry
/// set before it or the entry set after it, never a mixture.
pub proof fn lemma_replace_atomic(es: Seq<(Seq<char>, RouteMetaView)>, p: Seq<char>)
    requires
        unique_keys(es),
    ensures
        pairs_map(es).dom().contains(p) <==> exists|i: int|
            0 <= i < es.len() && (#[trigger] es[i].0) == p,
        forall|i: int|
            0 <= i < es.len() && (#[trigger] es[i].0) == p ==> pairs_map(es)[p] == es[i].1,
{
    lemma_pairs_map_dom(es, p);
    assert forall|i: int| 0 <= i < es.len() && (#[trigger] es[i].0) == p implies pairs_map(es)[p]
        == es[i].1 by {
        lemma_pairs_map_at(es, i);
    }
}

} // verus!

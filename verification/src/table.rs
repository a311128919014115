use vstd::prelude::*;
use crate::id::ToolchainId;

verus! {

/// The mathematical content of a sequence of key/path entries: the map
/// binding each listed key to its path. With pairwise distinct keys the
/// entry order is irrelevant.
pub open spec fn map_of(entries: Seq<(Seq<char>, Seq<char>)>) -> Map<Seq<char>, Seq<char>>
    decreases entries.len(),
{
    if entries.len() == 0 {
        Map::empty()
    } else {
        map_of(entries.drop_last()).insert(entries.last().0, entries.last().1)
    }
}

/// No key occurs twice among the entries.
pub open spec fn unique_keys(entries: Seq<(Seq<char>, Seq<char>)>) -> bool {
    forall|i: int, j: int| 0 <= i < j < entries.len() ==> entries[i].0 != entries[j].0
}

/// Raw character data of typed table entries, in storage order.
pub open spec fn entry_views(entries: Seq<(ToolchainId, String)>) -> Seq<(Seq<char>, Seq<char>)> {
    entries.map_values(|p: (ToolchainId, String)| (p.0@, p.1@))
}

/// The domain of `map_of(entries)` is exactly the set of listed keys, and
/// it is finite.
pub proof fn lemma_map_of_dom(entries: Seq<(Seq<char>, Seq<char>)>)
    ensures
        forall|k: Seq<char>| #[trigger]
            map_of(entries).dom().contains(k) <==> (exists|i: int|
                0 <= i < entries.len() && entries[i].0 == k),
        map_of(entries).dom().finite(),
    decreases entries.len(),
{
    if entries.len() > 0 {
        lemma_map_of_dom(entries.drop_last());
        assert forall|k: Seq<char>| #[trigger] map_of(entries).dom().contains(k) implies (exists|
            i: int,
        |
            0 <= i < entries.len() && entries[i].0 == k) by {
            if k == entries.last().0 {
                assert(entries[entries.len() - 1].0 == k);
            } else {
                let i = choose|i: int|
                    0 <= i < entries.drop_last().len() && entries.drop_last()[i].0 == k;
                assert(entries[i].0 == k);
            }
        }
        assert forall|k: Seq<char>|
            (exists|i: int|
                0 <= i < entries.len() && entries[i].0 == k) implies #[trigger] map_of(
            entries,
        ).dom().contains(k) by {
            let i = choose|i: int| 0 <= i < entries.len() && entries[i].0 == k;
            if i < entries.len() - 1 {
                assert(entries.drop_last()[i].0 == k);
            }
        }
    }
}

/// With pairwise distinct keys, each entry is bound in the map exactly as
/// listed, and the map has as many bindings as there are entries.
pub proof fn lemma_map_of_unique(entries: Seq<(Seq<char>, Seq<char>)>)
    requires
        unique_keys(entries),
    ensures
        forall|i: int|
            0 <= i < entries.len() ==> map_of(entries)[#[trigger] entries[i].0] == entries[i].1,
        map_of(entries).dom().len() == entries.len(),
    decreases entries.len(),
{
    lemma_map_of_dom(entries);
    if entries.len() > 0 {
        let prefix = entries.drop_last();
        lemma_map_of_dom(prefix);
        lemma_map_of_unique(prefix);
        assert forall|i: int|
            0 <= i < entries.len() implies map_of(entries)[#[trigger] entries[i].0]
            == entries[i].1 by {
            if i < entries.len() - 1 {
                assert(entries[i].0 != entries.last().0);
                assert(prefix[i].0 == entries[i].0 && prefix[i].1 == entries[i].1);
            }
        }
        assert(!map_of(prefix).dom().contains(entries.last().0));
        assert(map_of(entries).dom() =~= map_of(prefix).dom().insert(entries.last().0));
        vstd::set::axiom_set_insert_len(map_of(prefix).dom(), entries.last().0);
    }
}

/// An immutable table of validated toolchains: each name the naming policy
/// accepted, bound to the path of that toolchain's root. Built in one piece
/// by the loader and owned by the caller afterwards; keys are unique, and
/// the view is the map from name to path.
pub struct Toolchains {
    entries: Vec<(ToolchainId, String)>,
}

impl View for Toolchains {
    type V = Map<Seq<char>, Seq<char>>;

    closed spec fn view(&self) -> Map<Seq<char>, Seq<char>> {
        map_of(entry_views(self.entries@))
    }
}

impl Toolchains {
    #[verifier::type_invariant]
    spec fn inv(self) -> bool {
        unique_keys(entry_views(self.entries@))
    }

    /// Builds a table from already-validated entries with pairwise distinct
    /// names.
    pub(crate) fn from_entries(entries: Vec<(ToolchainId, String)>) -> (r: Toolchains)
        requires
            unique_keys(entry_views(entries@)),
        ensures
            r@ == map_of(entry_views(entries@)),
    {
        Toolchains { entries }
    }

    /// How many toolchains the table holds; every name is counted once.
    pub fn len(&self) -> (n: usize)
        ensures
            n == self@.dom().len(),
    {
        proof {
            use_type_invariant(self);
            lemma_map_of_unique(entry_views(self.entries@));
        }
        self.entries.len()
    }

    /// The path bound to `name`, if the table holds that name.
    pub fn get(&self, name: &str) -> (r: Option<&String>)
        ensures
            match r {
                Some(p) => self@.dom().contains(name@) && self@[name@] == p@,
                None => !self@.dom().contains(name@),
            },
    {
        proof {
            use_type_invariant(self);
            lemma_map_of_dom(entry_views(self.entries@));
            lemma_map_of_unique(entry_views(self.entries@));
        }
        let name_owned = String::from_str(name);
        let mut i: usize = 0;
        while i < self.entries.len()
            invariant
                i <= self.entries.len(),
                name_owned@ == name@,
                forall|j: int| 0 <= j < i ==> entry_views(self.entries@)[j].0 != name@,
            decreases self.entries.len() - i,
        {
            if *self.entries[i].0.name() == name_owned {
                proof {
                    use_type_invariant(self);
                    assert(entry_views(self.entries@)[i as int] == (
                        self.entries@[i as int].0@,
                        self.entries@[i as int].1@,
                    ));
                    assert(entry_views(self.entries@)[i as int].0 == name@);
                    lemma_map_of_dom(entry_views(self.entries@));
                    lemma_map_of_unique(entry_views(self.entries@));
                }
                return Some(&self.entries[i].1);
            }
            i = i + 1;
        }
        proof {
            use_type_invariant(self);
            lemma_map_of_dom(entry_views(self.entries@));
        }
        None
    }
}

} // verus!

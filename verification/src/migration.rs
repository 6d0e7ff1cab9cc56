//! Duplicate-name bookkeeping of the database migration: which configuration names occur
//! more than once, with the ids that carry them, and how many rows the cleanup removes.
use vstd::prelude::*;
use crate::text::{chars_of, parse_i64_chars, spec_parse_i64, spec_split, split_chars, views};

verus! {

/// The ids found under each duplicated name, in the order the names were recorded.
/// Each name occurs once.
pub struct DuplicateIds {
    entries: Vec<(String, Vec<i64>)>,
}

/// Whether no name occurs twice.
pub open spec fn names_distinct(e: Seq<(Seq<char>, Seq<i64>)>) -> bool {
    forall|i: int, j: int| 0 <= i < j < e.len() ==> #[trigger] e[i].0 != #[trigger] e[j].0
}

/// The index of `name` in an entry list, if it occurs.
pub open spec fn find_name(e: Seq<(Seq<char>, Seq<i64>)>, name: Seq<char>) -> Option<int> {
    if exists|i: int| 0 <= i < e.len() && e[i].0 == name {
        Some(choose|i: int| 0 <= i < e.len() && e[i].0 == name)
    } else {
        None
    }
}

/// The entry list after recording `ids` under `name`: replaces the ids of a recorded name,
/// appends a new name.
pub open spec fn spec_insert(e: Seq<(Seq<char>, Seq<i64>)>, name: Seq<char>, ids: Seq<i64>) -> Seq<(Seq<char>, Seq<i64>)> {
    match find_name(e, name) {
        Some(i) => e.update(i, (name, ids)),
        None => e.push((name, ids)),
    }
}

/// Rows removed for one name: all but the one that is kept.
pub open spec fn spec_excess(n: nat) -> nat {
    if n > 1 { (n - 1) as nat } else { 0 }
}

/// Rows removed for all names of an entry list.
pub open spec fn spec_total_excess(e: Seq<(Seq<char>, Seq<i64>)>) -> nat
    decreases e.len(),
{
    if e.len() == 0 {
        0
    } else {
        spec_total_excess(e.drop_last()) + spec_excess(e.last().1.len())
    }
}

impl View for DuplicateIds {
    type V = Seq<(Seq<char>, Seq<i64>)>;

    /// The recorded names with their ids, in recording order.
    closed spec fn view(&self) -> Seq<(Seq<char>, Seq<i64>)> {
        self.entries@.map_values(|p: (String, Vec<i64>)| (p.0@, p.1@))
    }
}

impl DuplicateIds {
    #[verifier::type_invariant]
    spec fn inv(self) -> bool {
        names_distinct(self@)
    }

    /// No names recorded.
    pub fn new() -> (r: DuplicateIds)
        ensures
            r@ == Seq::<(Seq<char>, Seq<i64>)>::empty(),
    {
        let r = DuplicateIds { entries: Vec::new() };
        assert(r@ =~= Seq::<(Seq<char>, Seq<i64>)>::empty());
        r
    }

    /// Whether no name is recorded.
    pub fn is_empty(&self) -> (r: bool)
        ensures
            r == (self@.len() == 0),
    {
        self.entries.len() == 0
    }

    /// The number of recorded names.
    pub fn len(&self) -> (r: usize)
        ensures
            r == self@.len(),
    {
        self.entries.len()
    }

    /// Records `ids` under `name`, returning the ids recorded before under that name.
    pub fn insert(&mut self, name: String, ids: Vec<i64>) -> (r: Option<Vec<i64>>)
        ensures
            final(self)@ == spec_insert(old(self)@, name@, ids@),
            match find_name(old(self)@, name@) {
                Some(i) => r matches Some(v) && v@ == old(self)@[i].1,
                None => r is None,
            },
    {
        proof { use_type_invariant(&*self); }
        let ghost before = self@;
        let found = self.position(name.as_str());
        let mut entries = Vec::new();
        std::mem::swap(&mut entries, &mut self.entries);
        match found {
            Some(i) => {
                let (_old_name, old_ids) = entries.remove(i);
                entries.insert(i, (name, ids));
                let ghost e = entries@.map_values(|p: (String, Vec<i64>)| (p.0@, p.1@));
                assert(e =~= before.update(i as int, (name@, ids@)));
                proof {
                    assert forall|a: int, b: int| 0 <= a < b < e.len() implies
                        #[trigger] e[a].0 != #[trigger] e[b].0 by {
                        assert(e[a].0 == before[a].0);
                        assert(e[b].0 == before[b].0);
                    }
                }
                self.entries = entries;
                Some(old_ids)
            },
            None => {
                entries.push((name, ids));
                let ghost e = entries@.map_values(|p: (String, Vec<i64>)| (p.0@, p.1@));
                assert(e =~= before.push((name@, ids@)));
                proof {
                    assert forall|a: int, b: int| 0 <= a < b < e.len() implies
                        #[trigger] e[a].0 != #[trigger] e[b].0 by {
                        assert(e[a].0 == before[a].0);
                        if b < before.len() {
                            assert(e[b].0 == before[b].0);
                        }
                    }
                }
                self.entries = entries;
                None
            },
        }
    }

    /// The index of the entry recorded under `name`, if any.
    fn position(&self, name: &str) -> (r: Option<usize>)
        ensures
            r is None <==> find_name(self@, name@) is None,
            r matches Some(i) ==> i < self@.len() && find_name(self@, name@) == Some(i as int),
    {
        proof { use_type_invariant(self); }
        let ghost e = self@;
        let key = String::from_str(name);
        let mut i: usize = 0;
        while i < self.entries.len()
            invariant
                e == self@,
                names_distinct(e),
                key@ == name@,
                i <= e.len(),
                e.len() == self.entries@.len(),
                forall|k: int| 0 <= k < i ==> e[k].0 != name@,
            decreases e.len() - i,
        {
            if self.entries[i].0 == key {
                assert(e[i as int].0 == name@);
                assert(find_name(e, name@) == Some(i as int)) by {
                    let j = choose|j: int| 0 <= j < e.len() && e[j].0 == name@;
                    if j != i {
                        assert(e[j].0 == e[i as int].0);
                    }
                }
                return Some(i);
            }
            i = i + 1;
        }
        None
    }

    /// The ids recorded under `name`, if any.
    pub fn get(&self, name: &str) -> (r: Option<&Vec<i64>>)
        ensures
            match find_name(self@, name@) {
                Some(i) => r matches Some(v) && v@ == self@[i].1,
                None => r is None,
            },
    {
        match self.position(name) {
            Some(i) => {
                assert(self.entries@[i as int].1@ == self@[i as int].1);
                Some(&self.entries[i].1)
            },
            None => None,
        }
    }

    /// The number of rows the cleanup removes: for each name, all ids but one.
    pub fn total_excess(&self) -> (r: usize)
        requires
            spec_total_excess(self@) <= usize::MAX,
        ensures
            r == spec_total_excess(self@),
    {
        let ghost e = self@;
        let mut total: usize = 0;
        let mut i: usize = 0;
        while i < self.entries.len()
            invariant
                e == self@,
                e.len() == self.entries@.len(),
                i <= e.len(),
                total == spec_total_excess(e.take(i as int)),
                spec_total_excess(e) <= usize::MAX,
            decreases e.len() - i,
        {
            let n = self.entries[i].1.len();
            let x: usize = if n > 1 { n - 1 } else { 0 };
            proof {
                assert(e.take(i + 1).drop_last() =~= e.take(i as int));
                assert(e.take(i + 1).last() == e[i as int]);
                lemma_total_excess_prefix(e, i + 1);
            }
            total = total + x;
            i = i + 1;
        }
        assert(e.take(e.len() as int) =~= e);
        total
    }
}

/// The rows removed for a prefix of an entry list are at most those for the whole list.
pub proof fn lemma_total_excess_prefix(e: Seq<(Seq<char>, Seq<i64>)>, n: int)
    requires
        0 <= n <= e.len(),
    ensures
        spec_total_excess(e.take(n)) <= spec_total_excess(e),
    decreases e.len() - n,
{
    if n < e.len() {
        lemma_total_excess_prefix(e, n + 1);
        assert(e.take(n + 1).drop_last() =~= e.take(n));
    } else {
        assert(e.take(n) =~= e);
    }
}

/// The duplicated names found in each configuration table before unique constraints are
/// applied.
pub struct DuplicateReport {
    pub server_duplicates: DuplicateIds,
    pub scheduler_duplicates: DuplicateIds,
    pub handler_duplicates: DuplicateIds,
}

impl DuplicateReport {
    /// An empty report.
    pub fn new() -> (r: DuplicateReport)
        ensures
            r.server_duplicates@.len() == 0,
            r.scheduler_duplicates@.len() == 0,
            r.handler_duplicates@.len() == 0,
    {
        DuplicateReport {
            server_duplicates: DuplicateIds::new(),
            scheduler_duplicates: DuplicateIds::new(),
            handler_duplicates: DuplicateIds::new(),
        }
    }

    /// Whether any table had a duplicated name.
    pub fn has_duplicates(&self) -> (r: bool)
        ensures
            r == (self.server_duplicates@.len() > 0 || self.scheduler_duplicates@.len() > 0
                || self.handler_duplicates@.len() > 0),
    {
        !self.server_duplicates.is_empty() || !self.scheduler_duplicates.is_empty()
            || !self.handler_duplicates.is_empty()
    }

    /// The number of rows the cleanup removes over all tables: for each duplicated name all
    /// rows but one.
    pub fn total_duplicates_cleaned(&self) -> (r: usize)
        requires
            spec_total_excess(self.server_duplicates@) + spec_total_excess(self.scheduler_duplicates@)
                + spec_total_excess(self.handler_duplicates@) <= usize::MAX,
        ensures
            r == spec_total_excess(self.server_duplicates@) + spec_total_excess(self.scheduler_duplicates@)
                + spec_total_excess(self.handler_duplicates@),
    {
        let a = self.server_duplicates.total_excess();
        let b = self.scheduler_duplicates.total_excess();
        let c = self.handler_duplicates.total_excess();
        a + b + c
    }
}

/// The ids of a comma-separated id list (as `GROUP_CONCAT` gives it): the pieces that parse,
/// in order; the others are skipped.
pub open spec fn spec_parse_ids(pieces: Seq<Seq<char>>) -> Seq<i64>
    decreases pieces.len(),
{
    if pieces.len() == 0 {
        Seq::empty()
    } else {
        let rest = spec_parse_ids(pieces.drop_last());
        match spec_parse_i64(pieces.last()) {
            Some(v) => rest.push(v),
            None => rest,
        }
    }
}

/// Parses a comma-separated id list, skipping pieces that are no `i64`.
pub fn parse_group_ids(ids_str: &str) -> (r: Vec<i64>)
    ensures
        r@ == spec_parse_ids(spec_split(ids_str@, ',')),
{
    let cs = chars_of(ids_str);
    let pieces = split_chars(&cs, ',');
    let ghost pv = views(pieces@);
    let mut out: Vec<i64> = Vec::new();
    let mut i: usize = 0;
    while i < pieces.len()
        invariant
            pv == views(pieces@),
            i <= pieces@.len(),
            out@ == spec_parse_ids(pv.take(i as int)),
        decreases pieces@.len() - i,
    {
        proof {
            assert(pv.take(i + 1).drop_last() =~= pv.take(i as int));
            assert(pv.take(i + 1).last() == pieces@[i as int]@);
        }
        match parse_i64_chars(&pieces[i]) {
            Some(v) => out.push(v),
            None => {},
        }
        i = i + 1;
    }
    assert(pv.take(pieces@.len() as int) =~= pv);
    out
}

/// Whether ids are in ascending order.
pub open spec fn is_sorted(s: Seq<i64>) -> bool {
    forall|i: int, j: int| 0 <= i <= j < s.len() ==> s[i] <= s[j]
}

/// `slice::sort` on ids: ascending order, same ids.
#[verifier::external_body]
fn sort_ids(v: &mut Vec<i64>)
    ensures
        is_sorted(final(v)@),
        final(v)@.to_multiset() == old(v)@.to_multiset(),
{
    v.sort();
}

/// The ids removed for one duplicated name: all but the highest (the latest row is kept),
/// in ascending order; nothing when there is at most one id.
pub fn ids_to_delete(ids: &Vec<i64>) -> (r: Vec<i64>)
    ensures
        ids@.len() <= 1 ==> r@.len() == 0,
        ids@.len() > 1 ==> exists|s: Seq<i64>| is_sorted(s) && s.to_multiset() == ids@.to_multiset() && r@ == s.drop_last(),
{
    if ids.len() <= 1 {
        return Vec::new();
    }
    let mut sorted = ids.clone();
    assert(sorted@ == ids@);
    sort_ids(&mut sorted);
    proof {
        sorted@.to_multiset_ensures();
        ids@.to_multiset_ensures();
        assert(sorted@.len() == ids@.len()) by {
            assert(sorted@.to_multiset().len() == ids@.to_multiset().len());
        }
    }
    let n = sorted.len();
    let mut out: Vec<i64> = Vec::new();
    let mut i: usize = 0;
    while i + 1 < n
        invariant
            n == sorted@.len(),
            n > 1,
            i + 1 <= n,
            out@ == sorted@.take(i as int),
        decreases n - i,
    {
        out.push(sorted[i]);
        assert(out@ =~= sorted@.take(i + 1));
        i = i + 1;
    }
    assert(out@ =~= sorted@.drop_last());
    out
}

/// The duplicate list built from `(name, comma-separated ids)` rows, one insert per row.
pub open spec fn spec_duplicates_from_rows(rows: Seq<(Seq<char>, Seq<char>)>) -> Seq<(Seq<char>, Seq<i64>)>
    decreases rows.len(),
{
    if rows.len() == 0 {
        Seq::empty()
    } else {
        spec_insert(spec_duplicates_from_rows(rows.drop_last()), rows.last().0, spec_parse_ids(spec_split(rows.last().1, ',')))
    }
}

impl DuplicateIds {
    /// The duplicates of the rows of a `GROUP BY name HAVING COUNT(*) > 1` query: each row's
    /// name with the ids of its id list.
    pub fn from_rows(rows: Vec<(String, String)>) -> (r: DuplicateIds)
        ensures
            r@ == spec_duplicates_from_rows(rows@.map_values(|x: (String, String)| (x.0@, x.1@))),
    {
        let ghost rv = rows@.map_values(|x: (String, String)| (x.0@, x.1@));
        let mut d = DuplicateIds::new();
        let mut i: usize = 0;
        while i < rows.len()
            invariant
                rv == rows@.map_values(|x: (String, String)| (x.0@, x.1@)),
                i <= rows@.len(),
                d@ == spec_duplicates_from_rows(rv.take(i as int)),
            decreases rows@.len() - i,
        {
            proof {
                assert(rv.take(i + 1).drop_last() =~= rv.take(i as int));
                assert(rv.take(i + 1).last() == rv[i as int]);
            }
            let ids = parse_group_ids(rows[i].1.as_str());
            let _ = d.insert(rows[i].0.clone(), ids);
            i = i + 1;
        }
        assert(rv.take(rows@.len() as int) =~= rv);
        d
    }

    /// The recorded names and ids, in recording order.
    pub fn entries(&self) -> (r: &Vec<(String, Vec<i64>)>)
        ensures
            r@.map_values(|p: (String, Vec<i64>)| (p.0@, p.1@)) == self@,
    {
        &self.entries
    }
}

} // verus!

//! The file-list model: the ordered entry sequence, its renderable view
//! with conflict parts hidden, and the conflict reconciler.

use crate::svn::error::Error;
use crate::svn::state::State;
use crate::svn::{
    create_empty_text_conflict, entries_view, is_conflict_part, parse_conflict_part,
    parse_svn_status, parsed_entries, spec_conflict_part, spec_empty_conflict, spec_set_part,
    spec_trim_conflict_suffix, status_parseable, trim_conflict_suffix, Conflict, ConflictView,
    ParsedStatusLine,
};
use crate::text::str_eq;
use vstd::prelude::*;

verus! {

/// The renderable subsequence of an entry sequence: conflict-part
/// pseudo-entries removed, order preserved.
pub open spec fn spec_renderable(es: Seq<(State, Seq<char>)>) -> Seq<(State, Seq<char>)>
    decreases es.len(),
{
    if es.len() == 0 {
        es
    } else {
        let prev = spec_renderable(es.drop_last());
        if spec_conflict_part(es.last().1) is None {
            prev.push(es.last())
        } else {
            prev
        }
    }
}

/// The renderable view of a prefix is a prefix of the renderable view.
pub proof fn lemma_renderable_prefix(es: Seq<(State, Seq<char>)>, i: int)
    requires
        0 <= i <= es.len(),
    ensures
        spec_renderable(es.take(i)).is_prefix_of(spec_renderable(es)),
    decreases es.len() - i,
{
    if i == es.len() {
        assert(es.take(i) =~= es);
        assert(spec_renderable(es).is_prefix_of(spec_renderable(es)));
    } else {
        lemma_renderable_prefix(es, i + 1);
        assert(es.take(i + 1).drop_last() =~= es.take(i));
        assert(es.take(i + 1).last() == es[i]);
        let prev = spec_renderable(es.take(i));
        let next = spec_renderable(es.take(i + 1));
        if spec_conflict_part(es[i].1) is None {
            assert(next == prev.push(es[i]));
            assert(prev.is_prefix_of(next));
        } else {
            assert(next == prev);
        }
        assert(prev.is_prefix_of(spec_renderable(es)));
    }
}

/// Some entry is in the `Conflicting` state.
pub open spec fn spec_has_conflicts(es: Seq<(State, Seq<char>)>) -> bool {
    exists|i: int| 0 <= i < es.len() && (#[trigger] es[i]).0 == State::Conflicting
}

/// A key is present in a conflict-record association sequence.
pub open spec fn assoc_has_key(m: Seq<(Seq<char>, ConflictView)>, k: Seq<char>) -> bool {
    exists|i: int| 0 <= i < m.len() && (#[trigger] m[i]).0 == k
}

/// The first index holding key `k`, or the length when `k` is absent.
pub open spec fn assoc_index(m: Seq<(Seq<char>, ConflictView)>, k: Seq<char>) -> int
    decreases m.len(),
{
    if m.len() == 0 {
        0
    } else if m[0].0 == k {
        0
    } else {
        1 + assoc_index(m.drop_first(), k)
    }
}

/// `assoc_index` names the first index holding `k`, or the length.
pub proof fn lemma_assoc_index(m: Seq<(Seq<char>, ConflictView)>, k: Seq<char>)
    ensures
        assoc_has_key(m, k) ==> 0 <= assoc_index(m, k) < m.len() && m[assoc_index(m, k)].0 == k
            && forall|j: int| 0 <= j < assoc_index(m, k) ==> (#[trigger] m[j]).0 != k,
        !assoc_has_key(m, k) ==> assoc_index(m, k) == m.len(),
    decreases m.len(),
{
    if m.len() == 0 {
    } else if m[0].0 == k {
        assert(assoc_has_key(m, k));
    } else {
        let t = m.drop_first();
        lemma_assoc_index(t, k);
        if assoc_has_key(m, k) {
            let w = choose|i: int| 0 <= i < m.len() && (#[trigger] m[i]).0 == k;
            assert(t[w - 1].0 == k);
            assert(assoc_has_key(t, k));
            let x = assoc_index(t, k);
            assert(m[x + 1].0 == k);
            assert forall|j: int| 0 <= j < assoc_index(m, k) implies (#[trigger] m[j]).0 != k by {
                if j >= 1 {
                    assert(t[j - 1].0 != k);
                }
            }
        } else {
            assert(!assoc_has_key(t, k)) by {
                if assoc_has_key(t, k) {
                    let w = choose|i: int| 0 <= i < t.len() && (#[trigger] t[i]).0 == k;
                    assert(m[w + 1].0 == k);
                }
            }
        }
    }
}

/// One step of the reconciler: how one entry changes the association of
/// conflict keys to records.  A `Conflicting` entry opens a record under
/// its own path; an `Unversioned` conflict part populates the record
/// under its trimmed key, opening one if needed.
pub open spec fn reconcile_step(
    m: Seq<(Seq<char>, ConflictView)>,
    e: (State, Seq<char>),
) -> Seq<(Seq<char>, ConflictView)> {
    if e.0 == State::Conflicting && !assoc_has_key(m, e.1) {
        m.push((e.1, spec_empty_conflict(e.1)))
    } else {
        match spec_conflict_part(e.1) {
            Some(part) => if e.0 == State::Unversioned {
                let k = spec_trim_conflict_suffix(e.1);
                if assoc_has_key(m, k) {
                    let i = assoc_index(m, k);
                    m.update(i, (k, spec_set_part(m[i].1, part, e.1)))
                } else {
                    m.push((k, spec_set_part(spec_empty_conflict(e.1), part, e.1)))
                }
            } else {
                m
            },
            None => m,
        }
    }
}

/// The reconciler over a whole entry sequence, one pass in order.
pub open spec fn reconcile(es: Seq<(State, Seq<char>)>) -> Seq<(Seq<char>, ConflictView)>
    decreases es.len(),
{
    if es.len() == 0 {
        Seq::empty()
    } else {
        reconcile_step(reconcile(es.drop_last()), es.last())
    }
}

/// The conflict records of an entry sequence, in the order their keys
/// were first seen.
pub open spec fn spec_conflicts(es: Seq<(State, Seq<char>)>) -> Seq<ConflictView> {
    reconcile(es).map_values(|p: (Seq<char>, ConflictView)| p.1)
}

/// One reconciler step never drops a key: a record once opened stays.
pub proof fn lemma_step_preserves_key(
    m: Seq<(Seq<char>, ConflictView)>,
    e: (State, Seq<char>),
    k: Seq<char>,
)
    requires
        assoc_has_key(m, k),
    ensures
        assoc_has_key(reconcile_step(m, e), k),
{
    let m2 = reconcile_step(m, e);
    let w = choose|i: int| 0 <= i < m.len() && (#[trigger] m[i]).0 == k;
    if e.0 == State::Conflicting && !assoc_has_key(m, e.1) {
        assert(m2[w].0 == k);
    } else {
        match spec_conflict_part(e.1) {
            Some(part) => {
                if e.0 == State::Unversioned {
                    let key = spec_trim_conflict_suffix(e.1);
                    if assoc_has_key(m, key) {
                        lemma_assoc_index(m, key);
                        let a = assoc_index(m, key);
                        if w == a {
                            assert(m2[a].0 == key && m[a].0 == key);
                        } else {
                            assert(m2[w].0 == k);
                        }
                    } else {
                        assert(m2[w].0 == k);
                    }
                } else {
                    assert(m2[w].0 == k);
                }
            },
            None => {
                assert(m2[w].0 == k);
            },
        }
    }
}

/// The reconciled association holds each conflict key once: no entry
/// ever opens a second record for a key that already has one.
pub proof fn lemma_reconcile_keys_distinct(es: Seq<(State, Seq<char>)>)
    ensures
        forall|i: int, j: int|
            0 <= i < j < reconcile(es).len() ==> (#[trigger] reconcile(es)[i]).0 != (
            #[trigger] reconcile(es)[j]).0,
    decreases es.len(),
{
    if es.len() == 0 {
    } else {
        lemma_reconcile_keys_distinct(es.drop_last());
        let m0 = reconcile(es.drop_last());
        let e = es.last();
        let m = reconcile(es);
        assert(m == reconcile_step(m0, e));
        assert(forall|x: int, y: int|
            0 <= x < y < m0.len() ==> (#[trigger] m0[x]).0 != (#[trigger] m0[y]).0);
        assert forall|i: int, j: int| 0 <= i < j < m.len() implies (#[trigger] m[i]).0 != (
        #[trigger] m[j]).0 by {
            if e.0 == State::Conflicting && !assoc_has_key(m0, e.1) {
                // a push: the new key was absent from every old entry
                if j == m0.len() {
                    if m0[i].0 == e.1 {
                        assert(assoc_has_key(m0, e.1));
                    }
                } else {
                    assert(m0[i].0 != m0[j].0);
                }
            } else {
                match spec_conflict_part(e.1) {
                    Some(part) => {
                        if e.0 == State::Unversioned {
                            let key = spec_trim_conflict_suffix(e.1);
                            if assoc_has_key(m0, key) {
                                lemma_assoc_index(m0, key);
                                let a = assoc_index(m0, key);
                                assert(m[a].0 == m0[a].0);
                                assert(m[i].0 == m0[i].0 && m[j].0 == m0[j].0);
                                assert(m0[i].0 != m0[j].0);
                            } else {
                                if j == m0.len() {
                                    if m0[i].0 == key {
                                        assert(assoc_has_key(m0, key));
                                    }
                                } else {
                                    assert(m0[i].0 != m0[j].0);
                                }
                            }
                        } else {
                            assert(m0[i].0 != m0[j].0);
                        }
                    },
                    None => {
                        assert(m0[i].0 != m0[j].0);
                    },
                }
            }
        }
    }
}

/// Every `Conflicting` entry yields a record under its own path: the
/// reconciled association always carries its key.
pub proof fn lemma_conflicting_entry_has_record(es: Seq<(State, Seq<char>)>, i: int)
    requires
        0 <= i < es.len(),
        es[i].0 == State::Conflicting,
    ensures
        assoc_has_key(reconcile(es), es[i].1),
    decreases es.len(),
{
    let m0 = reconcile(es.drop_last());
    let e = es.last();
    if i == es.len() - 1 {
        if assoc_has_key(m0, e.1) {
            lemma_step_preserves_key(m0, e, e.1);
        } else {
            let m = reconcile_step(m0, e);
            assert(m == m0.push((e.1, spec_empty_conflict(e.1))));
            assert(m[m.len() - 1].0 == e.1);
        }
    } else {
        assert(es.drop_last()[i] == es[i]);
        lemma_conflicting_entry_has_record(es.drop_last(), i);
        lemma_step_preserves_key(m0, e, es[i].1);
    }
}

/// The ordered list of parsed status entries, replaced wholesale on each
/// refresh.
#[derive(Debug, Clone, PartialEq)]
pub struct FileList {
    pub list: Vec<ParsedStatusLine>,
}

impl View for FileList {
    type V = Seq<(State, Seq<char>)>;

    open spec fn view(&self) -> Seq<(State, Seq<char>)> {
        entries_view(self.list@)
    }
}

/// Find the first index whose key equals `k`.
fn find_key(keys: &Vec<String>, k: &str) -> (r: Option<usize>)
    ensures
        match r {
            Some(j) => j < keys@.len() && keys@[j as int]@ == k@ && forall|x: int|
                0 <= x < j ==> (#[trigger] keys@[x])@ != k@,
            None => forall|x: int| 0 <= x < keys@.len() ==> (#[trigger] keys@[x])@ != k@,
        },
{
    let mut j: usize = 0;
    while j < keys.len()
        invariant
            j <= keys@.len(),
            forall|x: int| 0 <= x < j ==> (#[trigger] keys@[x])@ != k@,
        decreases keys@.len() - j,
    {
        if str_eq(keys[j].as_str(), k) {
            return Some(j);
        }
        j = j + 1;
    }
    None
}

impl FileList {
    /// The underlying entry sequence, in status-output order.
    pub fn list(&self) -> (r: &Vec<ParsedStatusLine>)
        ensures
            r == &self.list,
            entries_view(r@) == self@,
    {
        &self.list
    }

    /// Mutable access to the underlying entry sequence.
    pub fn list_mut(&mut self) -> (r: &mut Vec<ParsedStatusLine>)
        ensures
            *r == old(self).list,
            final(self).list == *final(r),
    {
        &mut self.list
    }

    /// An empty file list.
    pub fn empty() -> (r: FileList)
        ensures
            r@ =~= Seq::<(State, Seq<char>)>::empty(),
            r.list@.len() == 0,
    {
        FileList { list: Vec::new() }
    }

    /// Replace the whole list with the entries parsed from a status dump.
    pub fn populate_from_svn_status(&mut self, svn_status: &str) -> (r: Result<(), Error>)
        requires
            status_parseable(svn_status@),
        ensures
            r is Ok,
            final(self)@ == parsed_entries(svn_status@),
    {
        match parse_svn_status(svn_status) {
            Ok(v) => {
                self.list = v;
                Ok(())
            },
            Err(e) => {
                proof {
                    assert(false);
                }
                Err(e)
            },
        }
    }

    /// Whether any entry is in the `Conflicting` state.
    pub fn has_conflicts(&self) -> (b: bool)
        ensures
            b == spec_has_conflicts(self@),
    {
        let mut i: usize = 0;
        while i < self.list.len()
            invariant
                i <= self.list@.len(),
                self@.len() == self.list@.len(),
                forall|j: int| 0 <= j < i ==> (#[trigger] self@[j]).0 != State::Conflicting,
            decreases self.list@.len() - i,
        {
            let e = &self.list[i];
            if e.0 == State::Conflicting {
                proof {
                    assert(self@[i as int].0 == State::Conflicting);
                }
                return true;
            }
            proof {
                assert(self@[i as int].0 != State::Conflicting);
            }
            i = i + 1;
        }
        false
    }

    /// The `index`-th entry of the renderable view: conflict-part
    /// entries are skipped, so renderable and raw indices diverge.
    pub fn get(&self, index: usize) -> (r: Option<&ParsedStatusLine>)
        ensures
            match r {
                Some(e) => index < spec_renderable(self@).len() && (e.0, e.1@)
                    == spec_renderable(self@)[index as int],
                None => index >= spec_renderable(self@).len(),
            },
    {
        let ghost v = self@;
        let mut i: usize = 0;
        let mut k: usize = 0;
        proof {
            assert(v.take(0) =~= Seq::<(State, Seq<char>)>::empty());
        }
        while i < self.list.len()
            invariant
                i <= self.list@.len(),
                v == self@,
                v.len() == self.list@.len(),
                k == spec_renderable(v.take(i as int)).len(),
                k <= index,
            decreases self.list@.len() - i,
        {
            let e = &self.list[i];
            proof {
                assert(v[i as int] == (e.0, e.1@));
                assert(v.take(i as int + 1).drop_last() =~= v.take(i as int));
                assert(v.take(i as int + 1).last() == v[i as int]);
            }
            if !is_conflict_part(e.1.as_str()) {
                if k == index {
                    proof {
                        lemma_renderable_prefix(v, i as int + 1);
                        let pre = spec_renderable(v.take(i as int + 1));
                        assert(pre == spec_renderable(v.take(i as int)).push(v[i as int]));
                        assert(pre[index as int] == v[i as int]);
                        assert(pre == spec_renderable(v).subrange(0, pre.len() as int));
                        assert(spec_renderable(v)[index as int] == pre[index as int]);
                    }
                    return Some(e);
                }
                k = k + 1;
            }
            i = i + 1;
        }
        proof {
            assert(v.take(i as int) =~= v);
        }
        None
    }

    /// The renderable view: the entries that are not conflict parts, in
    /// their original order.
    pub fn renderable(&self) -> (r: Vec<&ParsedStatusLine>)
        ensures
            r@.len() == spec_renderable(self@).len(),
            forall|j: int| 0 <= j < r@.len() ==> ((#[trigger] r@[j]).0, r@[j].1@)
                == spec_renderable(self@)[j],
    {
        let ghost v = self@;
        let mut out: Vec<&ParsedStatusLine> = Vec::new();
        let mut i: usize = 0;
        proof {
            assert(v.take(0) =~= Seq::<(State, Seq<char>)>::empty());
        }
        while i < self.list.len()
            invariant
                i <= self.list@.len(),
                v == self@,
                v.len() == self.list@.len(),
                out@.len() == spec_renderable(v.take(i as int)).len(),
                forall|j: int| 0 <= j < out@.len() ==> ((#[trigger] out@[j]).0, out@[j].1@)
                    == spec_renderable(v.take(i as int))[j],
            decreases self.list@.len() - i,
        {
            let e = &self.list[i];
            proof {
                assert(v[i as int] == (e.0, e.1@));
                assert(v.take(i as int + 1).drop_last() =~= v.take(i as int));
                assert(v.take(i as int + 1).last() == v[i as int]);
            }
            if !is_conflict_part(e.1.as_str()) {
                out.push(e);
            }
            i = i + 1;
        }
        proof {
            assert(v.take(i as int) =~= v);
        }
        out
    }

    /// Reconstruct the conflict records from the current entries: one
    /// record per conflict key, parts populated from the matching
    /// `Unversioned` pseudo-entries, in first-seen key order.
    pub fn conflicts(&self) -> (r: Vec<Conflict>)
        ensures
            r@.len() == spec_conflicts(self@).len(),
            forall|j: int| 0 <= j < r@.len() ==> (#[trigger] r@[j])@ == spec_conflicts(self@)[j],
    {
        let ghost v = self@;
        let mut keys: Vec<String> = Vec::new();
        let mut recs: Vec<Conflict> = Vec::new();
        let mut i: usize = 0;
        proof {
            assert(v.take(0) =~= Seq::<(State, Seq<char>)>::empty());
        }
        while i < self.list.len()
            invariant
                i <= self.list@.len(),
                v == self@,
                v.len() == self.list@.len(),
                keys@.len() == reconcile(v.take(i as int)).len(),
                recs@.len() == reconcile(v.take(i as int)).len(),
                forall|j: int| 0 <= j < keys@.len() ==> (#[trigger] keys@[j])@ == reconcile(
                    v.take(i as int),
                )[j].0,
                forall|j: int| 0 <= j < recs@.len() ==> (#[trigger] recs@[j])@ == reconcile(
                    v.take(i as int),
                )[j].1,
            decreases self.list@.len() - i,
        {
            let ghost m = reconcile(v.take(i as int));
            let e = &self.list[i];
            proof {
                assert(v[i as int] == (e.0, e.1@));
                assert(v.take(i as int + 1).drop_last() =~= v.take(i as int));
                assert(v.take(i as int + 1).last() == v[i as int]);
                assert(reconcile(v.take(i as int + 1)) == reconcile_step(m, v[i as int]));
            }
            if e.0 == State::Conflicting {
                match find_key(&keys, e.1.as_str()) {
                    Some(_) => {
                        proof {
                            assert(assoc_has_key(m, e.1@));
                            assert(reconcile_step(m, v[i as int]) == m);
                        }
                    },
                    None => {
                        proof {
                            assert forall|x: int| 0 <= x < m.len() implies (#[trigger] m[x]).0
                                != e.1@ by {
                                assert(keys@[x]@ != e.1@);
                            }
                            assert(!assoc_has_key(m, e.1@));
                        }
                        keys.push(e.1.clone());
                        recs.push(create_empty_text_conflict(&e.1));
                    },
                }
            } else if e.0 == State::Unversioned {
                match parse_conflict_part(e.1.as_str()) {
                    Some(part) => {
                        let key = trim_conflict_suffix(e.1.as_str());
                        let ghost kv = spec_trim_conflict_suffix(e.1@);
                        match find_key(&keys, key) {
                            Some(j) => {
                                proof {
                                    assert(m[j as int].0 == kv);
                                    assert(assoc_has_key(m, kv));
                                    lemma_assoc_index(m, kv);
                                    let a = assoc_index(m, kv);
                                    if a < j as int {
                                        assert(keys@[a]@ == kv);
                                    }
                                    if a > j as int {
                                        assert(m[j as int].0 != kv);
                                    }
                                    assert(a == j as int);
                                }
                                let mut c = recs.remove(j);
                                c.set_part(part, &e.1);
                                recs.insert(j, c);
                            },
                            None => {
                                proof {
                                    assert forall|x: int| 0 <= x < m.len() implies (
                                    #[trigger] m[x]).0 != kv by {
                                        assert(keys@[x]@ != kv);
                                    }
                                    assert(!assoc_has_key(m, kv));
                                }
                                keys.push(String::from_str(key));
                                let mut c = create_empty_text_conflict(&e.1);
                                c.set_part(part, &e.1);
                                recs.push(c);
                            },
                        }
                    },
                    None => {
                        proof {
                            assert(reconcile_step(m, v[i as int]) == m);
                        }
                    },
                }
            } else {
                proof {
                    assert(reconcile_step(m, v[i as int]) == m);
                }
            }
            i = i + 1;
        }
        proof {
            assert(v.take(i as int) =~= v);
        }
        recs
    }
}

} // verus!

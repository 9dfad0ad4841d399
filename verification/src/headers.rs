//! A case-insensitive ordered multimap from header names to value lists.
//!
//! Names are stored case-folded and kept distinct; the values of one name
//! keep their insertion order. `insert` appends a value, `set` replaces all
//! values of a name, and every lookup folds its argument first, so lookups
//! are case-insensitive.

use vstd::prelude::*;

use crate::text::lemma_lower_idempotent;
use crate::text::lower_seq;
use crate::text::lower_str;

verus! {

/// The value list of the first entry whose name is `key`, if any.
pub open spec fn lookup(s: Seq<(String, Vec<String>)>, key: Seq<char>) -> Option<Seq<Seq<char>>>
    decreases s.len(),
{
    if s.len() == 0 {
        None
    } else if s[0].0@ == key {
        Some(s[0].1.deep_view())
    } else {
        lookup(s.drop_first(), key)
    }
}

/// Entry names are case-folded and pairwise distinct.
pub open spec fn wf_entries(s: Seq<(String, Vec<String>)>) -> bool {
    &&& forall|i: int, j: int| 0 <= i < j < s.len() ==> s[i].0@ != s[j].0@
    &&& forall|i: int| 0 <= i < s.len() ==> s[i].0@ == lower_seq(s[i].0@)
}

/// The value list after appending one value: a fresh singleton when the name
/// was absent, the old list plus the value when it was present.
pub open spec fn appended_values(vs: Option<Seq<Seq<char>>>, v: Seq<char>) -> Seq<Seq<char>> {
    match vs {
        None => seq![v],
        Some(l) => l.push(v),
    }
}

/// HTTP headers: a case-insensitive multimap from names to value lists.
#[derive(Debug)]
pub struct Headers {
    entries: Vec<(String, Vec<String>)>,
}

impl View for Headers {
    type V = Seq<(String, Vec<String>)>;

    closed spec fn view(&self) -> Seq<(String, Vec<String>)> {
        self.entries@
    }
}

proof fn lemma_lookup_at(s: Seq<(String, Vec<String>)>, key: Seq<char>, i: int)
    requires
        0 <= i < s.len(),
        s[i].0@ == key,
        forall|j: int| 0 <= j < i ==> s[j].0@ != key,
    ensures
        lookup(s, key) == Some(s[i].1.deep_view()),
    decreases i,
{
    if i > 0 {
        lemma_lookup_at(s.drop_first(), key, i - 1);
    }
}

proof fn lemma_lookup_none(s: Seq<(String, Vec<String>)>, key: Seq<char>)
    requires
        forall|j: int| 0 <= j < s.len() ==> s[j].0@ != key,
    ensures
        lookup(s, key) is None,
    decreases s.len(),
{
    if s.len() > 0 {
        lemma_lookup_none(s.drop_first(), key);
    }
}

proof fn lemma_lookup_update(s: Seq<(String, Vec<String>)>, i: int, e: (String, Vec<String>))
    requires
        0 <= i < s.len(),
        e.0@ == s[i].0@,
        forall|j: int| 0 <= j < i ==> s[j].0@ != s[i].0@,
    ensures
        lookup(s.update(i, e), s[i].0@) == Some(e.1.deep_view()),
        forall|k: Seq<char>| k != s[i].0@ ==> lookup(s.update(i, e), k) == lookup(s, k),
    decreases i,
{
    if i == 0 {
        assert(s.update(0, e)[0] == e);
        assert(s.update(0, e).drop_first() =~= s.drop_first());
        assert forall|k: Seq<char>| k != s[0].0@ implies lookup(s.update(0, e), k) == lookup(
            s,
            k,
        ) by {
            assert(lookup(s.update(0, e), k) == lookup(s.update(0, e).drop_first(), k));
            assert(lookup(s, k) == lookup(s.drop_first(), k));
        }
    } else {
        lemma_lookup_update(s.drop_first(), i - 1, e);
        assert(s.update(i, e)[0] == s[0]);
        assert(s.update(i, e).drop_first() =~= s.drop_first().update(i - 1, e));
        assert(s.drop_first()[i - 1] == s[i]);
        assert(lookup(s.update(i, e), s[i].0@) == Some(e.1.deep_view()));
        assert forall|k: Seq<char>| k != s[i].0@ implies lookup(s.update(i, e), k) == lookup(
            s,
            k,
        ) by {
            if s[0].0@ != k {
                assert(lookup(s.update(i, e), k) == lookup(s.drop_first().update(i - 1, e), k));
                assert(lookup(s, k) == lookup(s.drop_first(), k));
            }
        }
    }
}

proof fn lemma_lookup_push(s: Seq<(String, Vec<String>)>, e: (String, Vec<String>))
    requires
        forall|j: int| 0 <= j < s.len() ==> s[j].0@ != e.0@,
    ensures
        lookup(s.push(e), e.0@) == Some(e.1.deep_view()),
        forall|k: Seq<char>| k != e.0@ ==> lookup(s.push(e), k) == lookup(s, k),
    decreases s.len(),
{
    if s.len() == 0 {
        assert(s.push(e)[0] == e);
        assert(s.push(e).drop_first() =~= Seq::<(String, Vec<String>)>::empty());
        assert forall|k: Seq<char>| k != e.0@ implies lookup(s.push(e), k) == lookup(s, k) by {
            assert(lookup(s.push(e), k) == lookup(s.push(e).drop_first(), k));
        }
    } else {
        lemma_lookup_push(s.drop_first(), e);
        assert(s.push(e)[0] == s[0]);
        assert(s.push(e).drop_first() =~= s.drop_first().push(e));
        assert(lookup(s.push(e), e.0@) == Some(e.1.deep_view()));
        assert forall|k: Seq<char>| k != e.0@ implies lookup(s.push(e), k) == lookup(s, k) by {
            if s[0].0@ != k {
                assert(lookup(s.push(e), k) == lookup(s.drop_first().push(e), k));
                assert(lookup(s, k) == lookup(s.drop_first(), k));
            }
        }
    }
}

proof fn lemma_lookup_remove(s: Seq<(String, Vec<String>)>, i: int)
    requires
        0 <= i < s.len(),
        forall|j: int| 0 <= j < s.len() && j != i ==> s[j].0@ != s[i].0@,
    ensures
        lookup(s.remove(i), s[i].0@) is None,
        forall|k: Seq<char>| k != s[i].0@ ==> lookup(s.remove(i), k) == lookup(s, k),
    decreases i,
{
    if i == 0 {
        assert(s.remove(0) =~= s.drop_first());
        assert forall|j: int| 0 <= j < s.drop_first().len() implies s.drop_first()[j].0@
            != s[0].0@ by {
            assert(s.drop_first()[j] == s[j + 1]);
        }
        lemma_lookup_none(s.drop_first(), s[0].0@);
    } else {
        lemma_lookup_remove(s.drop_first(), i - 1);
        assert(s.remove(i)[0] == s[0]);
        assert(s.drop_first()[i - 1] == s[i]);
        assert(s.remove(i).drop_first() =~= s.drop_first().remove(i - 1));
        assert(lookup(s.remove(i), s[i].0@) is None);
        assert forall|k: Seq<char>| k != s[i].0@ implies lookup(s.remove(i), k) == lookup(
            s,
            k,
        ) by {
            if s[0].0@ != k {
                assert(lookup(s.remove(i), k) == lookup(s.drop_first().remove(i - 1), k));
                assert(lookup(s, k) == lookup(s.drop_first(), k));
            }
        }
    }
}

impl Headers {
    /// Entry names are case-folded and pairwise distinct.
    pub open spec fn wf(&self) -> bool {
        wf_entries(self@)
    }

    /// The value list stored under `name`, compared case-insensitively.
    pub open spec fn values_of(&self, name: Seq<char>) -> Option<Seq<Seq<char>>> {
        lookup(self@, lower_seq(name))
    }

    /// Creates an empty header collection.
    pub fn new() -> (r: Headers)
        ensures
            r.wf(),
            r@ == Seq::<(String, Vec<String>)>::empty(),
    {
        Headers { entries: Vec::new() }
    }

    /// The index of the entry whose name is `key`, which must already be
    /// case-folded.
    fn find(&self, key: &String) -> (r: Option<usize>)
        ensures
            match r {
                Some(i) => i < self@.len() && self@[i as int].0@ == key@ && forall|j: int|
                    0 <= j < i ==> self@[j].0@ != key@,
                None => forall|j: int| 0 <= j < self@.len() ==> self@[j].0@ != key@,
            },
    {
        let n = self.entries.len();
        let mut i: usize = 0;
        while i < n
            invariant
                i <= n,
                n == self@.len(),
                forall|j: int| 0 <= j < i ==> self@[j].0@ != key@,
            decreases n - i,
        {
            let e = &self.entries[i];
            if e.0 == *key {
                return Some(i);
            }
            i = i + 1;
        }
        None
    }

    /// Appends `value` to the values of `name`; other names are untouched.
    pub fn insert(&mut self, name: &str, value: &str)
        requires
            old(self).wf(),
        ensures
            final(self).wf(),
            final(self).values_of(name@) == Some(
                appended_values(old(self).values_of(name@), value@),
            ),
            forall|k: Seq<char>| k != lower_seq(name@) ==> lookup(final(self)@, k) == lookup(
                old(self)@,
                k,
            ),
    {
        let key = lower_str(name);
        proof {
            lemma_lower_idempotent(name@);
        }
        let v = String::from_str(value);
        match self.find(&key) {
            Some(i) => {
                let ghost s0 = self.entries@;
                let mut e = self.entries.remove(i);
                e.1.push(v);
                let ghost epost = e;
                self.entries.insert(i, e);
                proof {
                    assert(self.entries@ =~= s0.update(i as int, epost));
                    lemma_lookup_at(s0, key@, i as int);
                    lemma_lookup_update(s0, i as int, epost);
                    assert(epost.1.deep_view() =~= s0[i as int].1.deep_view().push(value@));
                }
            },
            None => {
                let mut vs: Vec<String> = Vec::new();
                vs.push(v);
                let ghost s0 = self.entries@;
                let ghost entry = (key, vs);
                proof {
                    assert(entry.1.deep_view() =~= seq![value@]);
                }
                self.entries.push((key, vs));
                proof {
                    lemma_lookup_none(s0, lower_seq(name@));
                    lemma_lookup_push(s0, entry);
                }
            },
        }
    }

    /// Replaces all values of `name` by the single `value`; other names are
    /// untouched.
    pub fn set(&mut self, name: &str, value: &str)
        requires
            old(self).wf(),
        ensures
            final(self).wf(),
            final(self).values_of(name@) == Some(seq![value@]),
            forall|k: Seq<char>| k != lower_seq(name@) ==> lookup(final(self)@, k) == lookup(
                old(self)@,
                k,
            ),
    {
        let key = lower_str(name);
        proof {
            lemma_lower_idempotent(name@);
        }
        let v = String::from_str(value);
        let mut vs: Vec<String> = Vec::new();
        vs.push(v);
        match self.find(&key) {
            Some(i) => {
                let ghost s0 = self.entries@;
                let _ = self.entries.remove(i);
                let ghost entry = (key, vs);
                self.entries.insert(i, (key, vs));
                proof {
                    assert(self.entries@ =~= s0.update(i as int, entry));
                    lemma_lookup_update(s0, i as int, entry);
                    assert(entry.1.deep_view() =~= seq![value@]);
                }
            },
            None => {
                let ghost s0 = self.entries@;
                let ghost entry = (key, vs);
                proof {
                    assert(entry.1.deep_view() =~= seq![value@]);
                }
                self.entries.push((key, vs));
                proof {
                    lemma_lookup_push(s0, entry);
                }
            },
        }
    }

    /// The values of `name`, compared case-insensitively.
    pub fn get(&self, name: &str) -> (r: Option<&Vec<String>>)
        ensures
            match r {
                Some(v) => self.values_of(name@) == Some(v.deep_view()),
                None => self.values_of(name@) is None,
            },
    {
        let key = lower_str(name);
        match self.find(&key) {
            Some(i) => {
                proof {
                    lemma_lookup_at(self@, key@, i as int);
                }
                Some(&self.entries[i].1)
            },
            None => {
                proof {
                    lemma_lookup_none(self@, key@);
                }
                None
            },
        }
    }

    /// The first value of `name`, compared case-insensitively.
    pub fn get_first(&self, name: &str) -> (r: Option<&str>)
        ensures
            match r {
                Some(fst) => (self.values_of(name@) matches Some(l) && l.len() > 0 && l[0]
                    == fst@),
                None => (self.values_of(name@) matches Some(l) ==> l.len() == 0),
            },
    {
        match self.get(name) {
            Some(v) => {
                if v.len() > 0 {
                    Some(v[0].as_str())
                } else {
                    None
                }
            },
            None => None,
        }
    }

    /// Deletes `name` and returns its prior values.
    pub fn remove(&mut self, name: &str) -> (r: Option<Vec<String>>)
        requires
            old(self).wf(),
        ensures
            final(self).wf(),
            final(self).values_of(name@) is None,
            match r {
                Some(v) => old(self).values_of(name@) == Some(v.deep_view()),
                None => old(self).values_of(name@) is None,
            },
            forall|k: Seq<char>| k != lower_seq(name@) ==> lookup(final(self)@, k) == lookup(
                old(self)@,
                k,
            ),
    {
        let key = lower_str(name);
        match self.find(&key) {
            Some(i) => {
                let ghost s0 = self.entries@;
                proof {
                    lemma_lookup_at(s0, key@, i as int);
                    lemma_lookup_remove(s0, i as int);
                }
                let e = self.entries.remove(i);
                Some(e.1)
            },
            None => {
                proof {
                    lemma_lookup_none(self@, key@);
                }
                None
            },
        }
    }

    /// Whether some value is stored under `name`, compared
    /// case-insensitively.
    pub fn contains(&self, name: &str) -> (r: bool)
        ensures
            r == (self.values_of(name@) is Some),
    {
        let key = lower_str(name);
        match self.find(&key) {
            Some(i) => {
                proof {
                    lemma_lookup_at(self@, key@, i as int);
                }
                true
            },
            None => {
                proof {
                    lemma_lookup_none(self@, key@);
                }
                false
            },
        }
    }

    /// All entries, each distinct name once with its full value list.
    pub fn iter(&self) -> (r: &Vec<(String, Vec<String>)>)
        ensures
            r@ == self@,
    {
        &self.entries
    }
}

/// Whether some entry of `s` has the name `k`.
pub open spec fn has_key(s: Seq<(String, Vec<String>)>, k: Seq<char>) -> bool {
    exists|j: int| 0 <= j < s.len() && #[trigger] s[j].0@ == k
}

/// One name's value lists merged: the values already present, then the
/// values brought in.
pub open spec fn opt_merged(a: Option<Seq<Seq<char>>>, b: Seq<Seq<char>>) -> Option<
    Seq<Seq<char>>,
> {
    if b.len() == 0 {
        a
    } else {
        match a {
            None => Some(b),
            Some(x) => Some(x + b),
        }
    }
}

/// Two entry sequences with the same names and the same value views have
/// the same lookups.
proof fn lemma_lookup_congruence(a: Seq<(String, Vec<String>)>, b: Seq<(String, Vec<String>)>)
    requires
        a.len() == b.len(),
        forall|i: int| 0 <= i < a.len() ==> #[trigger] a[i].0@ == b[i].0@ && a[i].1.deep_view()
            == b[i].1.deep_view(),
    ensures
        forall|k: Seq<char>| lookup(a, k) == lookup(b, k),
    decreases a.len(),
{
    if a.len() > 0 {
        assert forall|i: int| 0 <= i < a.drop_first().len() implies #[trigger] a.drop_first()[
            i
        ].0@ == b.drop_first()[i].0@ && a.drop_first()[i].1.deep_view() == b.drop_first()[
            i
        ].1.deep_view() by {
            assert(a.drop_first()[i] == a[i + 1]);
            assert(b.drop_first()[i] == b[i + 1]);
        }
        lemma_lookup_congruence(a.drop_first(), b.drop_first());
        assert forall|k: Seq<char>| lookup(a, k) == lookup(b, k) by {
            assert(a[0].0@ == b[0].0@);
            assert(a[0].1.deep_view() == b[0].1.deep_view());
            assert(lookup(a.drop_first(), k) == lookup(b.drop_first(), k));
        }
    }
}

impl Clone for Headers {
    /// An independent copy: the same names with the same value lists.
    fn clone(&self) -> (res: Self)
        ensures
            res@.len() == self@.len(),
            forall|i: int| 0 <= i < self@.len() ==> #[trigger] res@[i].0@ == self@[i].0@
                && res@[i].1.deep_view() == self@[i].1.deep_view(),
            forall|k: Seq<char>| lookup(res@, k) == lookup(self@, k),
            self.wf() ==> res.wf(),
    {
        let n = self.entries.len();
        let mut entries: Vec<(String, Vec<String>)> = Vec::new();
        let mut i: usize = 0;
        while i < n
            invariant
                i <= n,
                n == self.entries@.len(),
                entries@.len() == i,
                forall|l: int| 0 <= l < i ==> (#[trigger] entries@[l]).0 == self.entries@[l].0
                    && entries@[l].1@ == self.entries@[l].1@,
            decreases n - i,
        {
            let e = &self.entries[i];
            let k = e.0.clone();
            let mut vs: Vec<String> = Vec::new();
            let m = e.1.len();
            let mut j: usize = 0;
            while j < m
                invariant
                    j <= m,
                    m == e.1@.len(),
                    vs@ == e.1@.take(j as int),
                decreases m - j,
            {
                vs.push(e.1[j].clone());
                proof {
                    assert(vs@ =~= e.1@.take(j + 1));
                }
                j = j + 1;
            }
            proof {
                assert(vs@ =~= e.1@);
            }
            entries.push((k, vs));
            i = i + 1;
        }
        let ghost entries_snap = entries@;
        let res = Headers { entries };
        proof {
            assert(res@ == entries_snap);
            assert forall|i: int| 0 <= i < self@.len() implies #[trigger] res@[i].0@ == self@[
                i
            ].0@ && res@[i].1.deep_view() == self@[i].1.deep_view() by {
                assert(entries_snap[i].0 == self.entries@[i].0);
                assert(res@[i].1@ == self@[i].1@);
                assert(res@[i].1.deep_view() =~= self@[i].1.deep_view());
            }
            lemma_lookup_congruence(res@, self@);
        }
        res
    }
}

impl Headers {
    /// Appends every value of `other`, name by name in its entry order:
    /// after the merge a name holds its old values followed by the values of
    /// `other`.
    pub fn merge_from(&mut self, other: &Headers)
        requires
            old(self).wf(),
            other.wf(),
        ensures
            final(self).wf(),
            forall|j: int| 0 <= j < other@.len() ==> lookup(final(self)@, #[trigger] other@[j].0@)
                == opt_merged(lookup(old(self)@, other@[j].0@), other@[j].1.deep_view()),
            forall|k: Seq<char>| !has_key(other@, k) ==> lookup(final(self)@, k) == lookup(
                old(self)@,
                k,
            ),
    {
        let ghost orig = self@;
        let n = other.entries.len();
        let mut i: usize = 0;
        while i < n
            invariant
                i <= n,
                n == other@.len(),
                other.wf(),
                self.wf(),
                forall|j: int| 0 <= j < i ==> lookup(self@, #[trigger] other@[j].0@) == opt_merged(
                    lookup(orig, other@[j].0@),
                    other@[j].1.deep_view(),
                ),
                forall|k: Seq<char>| !has_key(other@.take(i as int), k) ==> lookup(self@, k)
                    == lookup(orig, k),
            decreases n - i,
        {
            let ghost snap = self@;
            let e = &other.entries[i];
            let ghost key = e.0@;
            proof {
                assert(!has_key(other@.take(i as int), key)) by {
                    assert forall|j: int| 0 <= j < i implies other@.take(i as int)[j].0@
                        != key by {}
                }
                assert(lookup(snap, key) == lookup(orig, key));
                assert(lower_seq(key) == key);
                assert(e.1.deep_view().take(0) =~= Seq::<Seq<char>>::empty());
            }
            let m = e.1.len();
            let mut j: usize = 0;
            while j < m
                invariant
                    j <= m,
                    m == e.1@.len(),
                    self.wf(),
                    key == e.0@,
                    lower_seq(key) == key,
                    lookup(self@, key) == opt_merged(
                        lookup(snap, key),
                        e.1.deep_view().take(j as int),
                    ),
                    forall|k: Seq<char>| k != key ==> lookup(self@, k) == lookup(snap, k),
                decreases m - j,
            {
                let ghost before = lookup(self@, key);
                self.insert(e.0.as_str(), e.1[j].as_str());
                proof {
                    assert(e.1.deep_view().take(j + 1) =~= e.1.deep_view().take(j as int).push(
                        e.1@[j as int]@,
                    ));
                    assert(appended_values(before, e.1@[j as int]@) =~= opt_merged(
                        lookup(snap, key),
                        e.1.deep_view().take(j + 1),
                    ).unwrap());
                }
                j = j + 1;
            }
            proof {
                assert(e.1.deep_view().take(m as int) =~= e.1.deep_view());
                assert forall|k: Seq<char>| !has_key(other@.take(i + 1), k) implies lookup(
                    self@,
                    k,
                ) == lookup(orig, k) by {
                    assert(!has_key(other@.take(i as int), k)) by {
                        if has_key(other@.take(i as int), k) {
                            let jj = choose|jj: int|
                                0 <= jj < i && #[trigger] other@.take(i as int)[jj].0@ == k;
                            assert(other@.take(i + 1)[jj].0@ == k);
                        }
                    }
                    assert(other@.take(i + 1)[i as int].0@ == key);
                    assert(k != key);
                }
                assert forall|j2: int| 0 <= j2 < i + 1 implies lookup(
                    self@,
                    #[trigger] other@[j2].0@,
                ) == opt_merged(lookup(orig, other@[j2].0@), other@[j2].1.deep_view()) by {
                    if j2 < i {
                        assert(other@[j2].0@ != key);
                    }
                }
            }
            i = i + 1;
        }
        proof {
            assert forall|k: Seq<char>| !has_key(other@, k) implies lookup(self@, k) == lookup(
                orig,
                k,
            ) by {
                assert(!has_key(other@.take(n as int), k)) by {
                    if has_key(other@.take(n as int), k) {
                        let jj = choose|jj: int|
                            0 <= jj < n && #[trigger] other@.take(n as int)[jj].0@ == k;
                        assert(other@[jj].0@ == k);
                    }
                }
            }
        }
    }
}

/// Lookups are case-insensitive: two names with the same case folding see
/// the same value list.
pub proof fn lemma_lookup_case_insensitive(h: &Headers, n1: Seq<char>, n2: Seq<char>)
    requires
        lower_seq(n1) == lower_seq(n2),
    ensures
        h.values_of(n1) == h.values_of(n2),
{
}

} // verus!

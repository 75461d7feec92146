use vstd::prelude::*;

verus! {

/// A query or form parameter value: JSON text or a JSON number.
#[derive(Debug, PartialEq, Eq)]
pub enum ParamValue {
    Text(String),
    Number(u64),
}

/// The mathematical value of a [`ParamValue`].
pub enum ParamModel {
    Text(Seq<char>),
    Number(u64),
}

impl View for ParamValue {
    type V = ParamModel;

    open spec fn view(&self) -> ParamModel {
        match self {
            ParamValue::Text(s) => ParamModel::Text(s@),
            ParamValue::Number(n) => ParamModel::Number(*n),
        }
    }
}

impl ParamValue {
    pub fn text(s: &str) -> (r: ParamValue)
        ensures
            r@ == ParamModel::Text(s@),
    {
        ParamValue::Text(String::from_str(s))
    }
}

/// The keys of an entry list, as sequences of characters.
pub open spec fn entry_key(e: Seq<(String, ParamValue)>, i: int) -> Seq<char> {
    e[i].0@
}

pub open spec fn keys_unique(e: Seq<(String, ParamValue)>) -> bool {
    forall|i: int, j: int|
        0 <= i < e.len() && 0 <= j < e.len() && i != j ==> entry_key(e, i) != entry_key(e, j)
}

pub open spec fn has_key(e: Seq<(String, ParamValue)>, k: Seq<char>) -> bool {
    exists|i: int| 0 <= i < e.len() && entry_key(e, i) == k
}

pub open spec fn index_of(e: Seq<(String, ParamValue)>, k: Seq<char>) -> int {
    choose|i: int| 0 <= i < e.len() && entry_key(e, i) == k
}

/// A parameter map that keeps the order in which keys were first set.
#[derive(Debug)]
pub struct Params {
    pub entries: Vec<(String, ParamValue)>,
}

impl View for Params {
    type V = Map<Seq<char>, ParamModel>;

    open spec fn view(&self) -> Map<Seq<char>, ParamModel> {
        Map::new(
            |k: Seq<char>| has_key(self.entries@, k),
            |k: Seq<char>| self.entries@[index_of(self.entries@, k)].1@,
        )
    }
}

impl Params {
    /// Each key occurs once.
    pub open spec fn wf(&self) -> bool {
        keys_unique(self.entries@)
    }

    pub fn new() -> (r: Params)
        ensures
            r.wf(),
            r@ == Map::<Seq<char>, ParamModel>::empty(),
    {
        let r = Params { entries: Vec::new() };
        assert(r@ =~= Map::<Seq<char>, ParamModel>::empty());
        r
    }

    /// Whether each key occurs once.
    pub fn check_wf(&self) -> (r: bool)
        ensures
            r == self.wf(),
    {
        let n = self.entries.len();
        let mut i: usize = 0;
        while i < n
            invariant
                n == self.entries@.len(),
                i <= n,
                forall|a: int, b: int|
                    0 <= a < i && 0 <= b < i && a != b ==> entry_key(self.entries@, a) != entry_key(
                        self.entries@,
                        b,
                    ),
            decreases n - i,
        {
            let mut j: usize = 0;
            while j < i
                invariant
                    n == self.entries@.len(),
                    i < n,
                    j <= i,
                    forall|b: int| 0 <= b < j ==> entry_key(self.entries@, b) != entry_key(self.entries@, i as int),
                decreases i - j,
            {
                if self.entries[j].0 == self.entries[i].0 {
                    assert(entry_key(self.entries@, j as int) == entry_key(self.entries@, i as int));
                    return false;
                }
                j = j + 1;
            }
            i = i + 1;
        }
        true
    }

    /// Position of `key`, if present.
    fn find(&self, key: &str) -> (r: Option<usize>)
        requires
            self.wf(),
        ensures
            match r {
                Some(i) => i < self.entries@.len() && entry_key(self.entries@, i as int) == key@,
                None => !has_key(self.entries@, key@),
            },
    {
        let wanted = String::from_str(key);
        let mut i: usize = 0;
        while i < self.entries.len()
            invariant
                i <= self.entries@.len(),
                wanted@ == key@,
                forall|j: int| 0 <= j < i ==> entry_key(self.entries@, j) != key@,
            decreases self.entries@.len() - i,
        {
            if self.entries[i].0 == wanted {
                return Some(i);
            }
            i = i + 1;
        }
        None
    }

    pub fn len(&self) -> (r: usize)
        requires
            self.wf(),
        ensures
            r == self@.dom().len(),
    {
        proof {
            self.lemma_dom_len();
        }
        self.entries.len()
    }

    proof fn lemma_dom_len(&self)
        requires
            self.wf(),
        ensures
            self@.dom().len() == self.entries@.len(),
        decreases self.entries@.len(),
    {
        let e = self.entries@;
        let keys = Seq::new(e.len(), |i: int| entry_key(e, i));
        assert(keys.no_duplicates());
        keys.unique_seq_to_set();
        assert(keys.to_set() =~= self@.dom()) by {
            assert forall|k: Seq<char>| keys.to_set().contains(k) implies self@.dom().contains(k) by {
                let i = choose|i: int| 0 <= i < keys.len() && keys[i] == k;
                assert(entry_key(e, i) == k);
            }
            assert forall|k: Seq<char>| self@.dom().contains(k) implies keys.to_set().contains(k) by {
                let i = choose|i: int| 0 <= i < e.len() && entry_key(e, i) == k;
                assert(keys[i] == k);
            }
        }
    }

    /// The value under `key`, if any.
    pub fn get(&self, key: &str) -> (r: Option<&ParamValue>)
        requires
            self.wf(),
        ensures
            r is Some <==> self@.contains_key(key@),
            r is Some ==> r->0@ == self@[key@],
    {
        match self.find(key) {
            Some(i) => {
                assert(self.entries@[index_of(self.entries@, key@)].0@ == key@);
                Some(&self.entries[i].1)
            },
            None => None,
        }
    }

    /// Sets `key` to `value`, replacing what it held.
    pub fn set(&mut self, key: &str, value: ParamValue)
        requires
            old(self).wf(),
        ensures
            final(self).wf(),
            final(self)@ == old(self)@.insert(key@, value@),
    {
        let ghost v = value@;
        let ghost before = self.entries@;
        match self.find(key) {
            Some(i) => {
                self.entries.set(i, (String::from_str(key), value));
                let ghost after = self.entries@;
                assert(forall|j: int| 0 <= j < after.len() && j != i ==> after[j] == before[j]);
                assert(entry_key(after, i as int) == key@);
                assert forall|j: int| 0 <= j < after.len() implies entry_key(after, j)
                    == entry_key(before, j) by {
                    if j == i {
                        assert(entry_key(before, i as int) == key@);
                    }
                }
                assert(keys_unique(after));
                assert forall|k: Seq<char>| #[trigger] has_key(after, k) == has_key(before, k) by {
                    if has_key(before, k) {
                        let j = choose|j: int| 0 <= j < before.len() && entry_key(before, j) == k;
                        assert(entry_key(after, j) == k);
                    }
                    if has_key(after, k) {
                        let j = choose|j: int| 0 <= j < after.len() && entry_key(after, j) == k;
                        assert(entry_key(before, j) == k);
                    }
                }
                assert(self@ =~= old(self)@.insert(key@, v)) by {
                    assert forall|k: Seq<char>| #[trigger] self@.contains_key(k) implies self@[k]
                        == old(self)@.insert(key@, v)[k] by {
                        let ia = index_of(after, k);
                        if k == key@ {
                            assert(ia == i);
                        } else {
                            let ib = index_of(before, k);
                            assert(entry_key(before, ia) == k);
                            assert(ia == ib);
                        }
                    }
                }
            },
            None => {
                self.entries.push((String::from_str(key), value));
                let ghost after = self.entries@;
                let ghost n = before.len() as int;
                assert(entry_key(after, n) == key@);
                assert(forall|j: int| 0 <= j < n ==> after[j] == before[j]);
                assert(forall|j: int| 0 <= j < n ==> entry_key(after, j) == entry_key(before, j));
                assert(keys_unique(after));
                assert forall|k: Seq<char>| #[trigger] has_key(after, k) == (has_key(before, k) || k
                    == key@) by {
                    if has_key(before, k) {
                        let j = choose|j: int| 0 <= j < before.len() && entry_key(before, j) == k;
                        assert(entry_key(after, j) == k);
                    }
                    if has_key(after, k) && k != key@ {
                        let j = choose|j: int| 0 <= j < after.len() && entry_key(after, j) == k;
                        assert(entry_key(before, j) == k);
                    }
                }
                assert(self@ =~= old(self)@.insert(key@, v)) by {
                    assert forall|k: Seq<char>| #[trigger] self@.contains_key(k) implies self@[k]
                        == old(self)@.insert(key@, v)[k] by {
                        let ia = index_of(after, k);
                        if k == key@ {
                            assert(ia == n);
                        } else {
                            let ib = index_of(before, k);
                            assert(entry_key(before, ia) == k);
                            assert(ia == ib);
                        }
                    }
                }
            },
        }
    }
}

} // verus!

use vstd::prelude::*;

verus! {

/// The keys of `s` are pairwise distinct.
pub open spec fn keys_unique(s: Seq<(String, String)>) -> bool {
    forall|i: int, j: int|
        0 <= i < s.len() && 0 <= j < s.len() && i != j ==> (#[trigger] s[i]).0@ != (#[trigger] s[j]).0@
}

/// The keys of `s` stand in strictly ascending order.
pub open spec fn keys_sorted(s: Seq<(String, String)>) -> bool {
    forall|i: int, j: int| 0 <= i < j < s.len() ==> text_lt((#[trigger] s[i]).0@, (#[trigger] s[j]).0@)
}

proof fn lemma_sorted_unique(s: Seq<(String, String)>)
    requires
        keys_sorted(s),
    ensures
        keys_unique(s),
{
    assert forall|i: int, j: int|
        0 <= i < s.len() && 0 <= j < s.len() && i != j implies (#[trigger] s[i]).0@ != (#[trigger] s[j]).0@ by {
        if i < j {
            lemma_text_lt_irreflexive(s[i].0@);
        } else {
            lemma_text_lt_irreflexive(s[j].0@);
        }
    }
}

/// The map that a list of entries stands for: a later entry wins over an earlier one.
pub open spec fn entries_map(s: Seq<(String, String)>) -> Map<Seq<char>, Seq<char>>
    decreases s.len(),
{
    if s.len() == 0 {
        Map::empty()
    } else {
        entries_map(s.drop_last()).insert(s.last().0@, s.last().1@)
    }
}

/// The keys of a list of entries, in order.
pub open spec fn entries_keys(s: Seq<(String, String)>) -> Seq<Seq<char>> {
    s.map_values(|e: (String, String)| e.0@)
}

proof fn lemma_entries_map(s: Seq<(String, String)>)
    requires
        keys_unique(s),
    ensures
        forall|k: Seq<char>|
            entries_map(s).contains_key(k) <==> exists|i: int| 0 <= i < s.len() && (#[trigger] s[i]).0@ == k,
        forall|i: int| 0 <= i < s.len() ==> entries_map(s)[(#[trigger] s[i]).0@] == s[i].1@,
    decreases s.len(),
{
    if s.len() > 0 {
        let t = s.drop_last();
        assert(keys_unique(t));
        lemma_entries_map(t);
        assert(entries_map(s) == entries_map(t).insert(s.last().0@, s.last().1@));
        assert forall|k: Seq<char>|
            entries_map(s).contains_key(k) <==> exists|i: int| 0 <= i < s.len() && (#[trigger] s[i]).0@ == k by {
            if entries_map(s).contains_key(k) && k != s.last().0@ {
                let i = choose|i: int| 0 <= i < t.len() && (#[trigger] t[i]).0@ == k;
                assert(s[i] == t[i]);
            }
            if exists|i: int| 0 <= i < s.len() && (#[trigger] s[i]).0@ == k {
                let i = choose|i: int| 0 <= i < s.len() && (#[trigger] s[i]).0@ == k;
                if i < t.len() {
                    assert(t[i] == s[i]);
                }
            }
        }
        assert forall|i: int| 0 <= i < s.len() implies entries_map(s)[(#[trigger] s[i]).0@] == s[i].1@ by {
            if i < t.len() {
                assert(t[i] == s[i]);
                assert(s[i].0@ != s[s.len() - 1].0@);
            }
        }
    }
}

/// Code point order on texts, shorter first where one is a prefix of the
/// other. UTF-8 keeps code point order, so this is the order of `String`'s `Ord`.
pub open spec fn text_lt(a: Seq<char>, b: Seq<char>) -> bool
    decreases a.len(),
{
    if a.len() == 0 {
        b.len() > 0
    } else if b.len() == 0 {
        false
    } else if a[0] != b[0] {
        a[0] < b[0]
    } else {
        text_lt(a.drop_first(), b.drop_first())
    }
}

pub proof fn lemma_text_lt_irreflexive(a: Seq<char>)
    ensures
        !text_lt(a, a),
    decreases a.len(),
{
    if a.len() > 0 {
        lemma_text_lt_irreflexive(a.drop_first());
    }
}

pub proof fn lemma_text_lt_total(a: Seq<char>, b: Seq<char>)
    ensures
        a != b ==> text_lt(a, b) || text_lt(b, a),
    decreases a.len(),
{
    if a.len() > 0 && b.len() > 0 && a[0] == b[0] {
        lemma_text_lt_total(a.drop_first(), b.drop_first());
        if a.drop_first() == b.drop_first() {
            assert(a =~= seq![a[0]] + a.drop_first());
            assert(b =~= seq![b[0]] + b.drop_first());
        }
    }
    if a.len() == 0 && b.len() == 0 {
        assert(a =~= b);
    }
}

pub proof fn lemma_text_lt_transitive(a: Seq<char>, b: Seq<char>, c: Seq<char>)
    requires
        text_lt(a, b),
        text_lt(b, c),
    ensures
        text_lt(a, c),
    decreases a.len(),
{
    if a.len() > 0 && b.len() > 0 && c.len() > 0 && a[0] == b[0] && b[0] == c[0] {
        lemma_text_lt_transitive(a.drop_first(), b.drop_first(), c.drop_first());
    }
}

/// Whether `a` comes before `b` in code point order.
pub fn text_less(a: &str, b: &str) -> (r: bool)
    ensures
        r == text_lt(a@, b@),
{
    let n = a.unicode_len();
    let m = b.unicode_len();
    let mut i: usize = 0;
    assert(a@.skip(0) =~= a@);
    assert(b@.skip(0) =~= b@);
    while i < n && i < m
        invariant
            n == a@.len(),
            m == b@.len(),
            i <= n,
            i <= m,
            text_lt(a@, b@) == text_lt(a@.skip(i as int), b@.skip(i as int)),
        decreases n - i,
    {
        let x = a.get_char(i);
        let y = b.get_char(i);
        if x != y {
            return x < y;
        }
        assert(a@.skip(i as int).drop_first() =~= a@.skip(i + 1));
        assert(b@.skip(i as int).drop_first() =~= b@.skip(i + 1));
        i = i + 1;
    }
    i < m
}

/// A table of string values under distinct string keys, kept in ascending
/// order of the keys.
pub struct Table {
    entries: Vec<(String, String)>,
}

impl View for Table {
    type V = Map<Seq<char>, Seq<char>>;

    closed spec fn view(&self) -> Map<Seq<char>, Seq<char>> {
        entries_map(self.entries@)
    }
}

impl Table {
    #[verifier::type_invariant]
    spec fn inv(&self) -> bool {
        keys_sorted(self.entries@)
    }

    /// The keys, in ascending order.
    pub closed spec fn key_seq(&self) -> Seq<Seq<char>> {
        entries_keys(self.entries@)
    }

    pub fn new() -> (r: Table)
        ensures
            r@ == Map::<Seq<char>, Seq<char>>::empty(),
            r.key_seq() == Seq::<Seq<char>>::empty(),
    {
        let r = Table { entries: Vec::new() };
        assert(r.key_seq() =~= Seq::<Seq<char>>::empty());
        r
    }

    fn find(&self, key: &String) -> (r: Option<usize>)
        ensures
            match r {
                Some(i) => i < self.entries@.len() && self.entries@[i as int].0@ == key@,
                None => forall|i: int| 0 <= i < self.entries@.len() ==> (#[trigger] self.entries@[i]).0@ != key@,
            },
    {
        let mut i: usize = 0;
        while i < self.entries.len()
            invariant
                i <= self.entries@.len(),
                forall|j: int| 0 <= j < i ==> (#[trigger] self.entries@[j]).0@ != key@,
            decreases self.entries@.len() - i,
        {
            if self.entries[i].0 == *key {
                return Some(i);
            }
            i = i + 1;
        }
        None
    }

    pub fn contains_key(&self, key: &String) -> (r: bool)
        ensures
            r == self@.contains_key(key@),
    {
        proof {
            use_type_invariant(self);
            lemma_sorted_unique(self.entries@);
            lemma_entries_map(self.entries@);
        }
        self.find(key).is_some()
    }

    pub fn get(&self, key: &String) -> (r: Option<String>)
        ensures
            match r {
                Some(v) => self@.contains_key(key@) && self@[key@] == v@,
                None => !self@.contains_key(key@),
            },
    {
        proof {
            use_type_invariant(self);
            lemma_sorted_unique(self.entries@);
            lemma_entries_map(self.entries@);
        }
        match self.find(key) {
            Some(i) => Some(self.entries[i].1.clone()),
            None => None,
        }
    }

    /// The place of `key` in the order: every key before it is smaller, and
    /// the key at it, if any, is not.
    fn locate(&self, key: &String) -> (r: usize)
        ensures
            r <= self.entries@.len(),
            forall|j: int| 0 <= j < r ==> text_lt((#[trigger] self.entries@[j]).0@, key@),
            r < self.entries@.len() ==> !text_lt(self.entries@[r as int].0@, key@),
    {
        let mut i: usize = 0;
        while i < self.entries.len() && text_less(self.entries[i].0.as_str(), key.as_str())
            invariant
                i <= self.entries@.len(),
                forall|j: int| 0 <= j < i ==> text_lt((#[trigger] self.entries@[j]).0@, key@),
            decreases self.entries@.len() - i,
        {
            i = i + 1;
        }
        i
    }

    /// Sets the value under `key`.
    pub fn insert(&mut self, key: String, val: String)
        ensures
            final(self)@ == old(self)@.insert(key@, val@),
    {
        proof {
            use_type_invariant(&*self);
            lemma_sorted_unique(self.entries@);
            lemma_entries_map(self.entries@);
        }
        let ghost s = self.entries@;
        let ghost k = key@;
        let ghost w = val@;
        let i = self.locate(&key);
        if i < self.entries.len() && self.entries[i].0 == key {
            let mut v: Vec<(String, String)> = Vec::new();
            std::mem::swap(&mut self.entries, &mut v);
            v.set(i, (key, val));
            proof {
                let t = v@;
                assert(keys_sorted(t)) by {
                    assert forall|a: int, b: int| 0 <= a < b < t.len() implies
                        text_lt((#[trigger] t[a]).0@, (#[trigger] t[b]).0@) by {
                        assert(t[a].0@ == s[a].0@ && t[b].0@ == s[b].0@);
                    }
                }
                lemma_sorted_unique(t);
                lemma_entries_map(t);
                assert(entries_map(t) =~= entries_map(s).insert(k, w)) by {
                    assert forall|q: Seq<char>| entries_map(t).contains_key(q) implies
                        entries_map(s).insert(k, w).contains_key(q)
                        && entries_map(t)[q] == entries_map(s).insert(k, w)[q] by {
                        let j = choose|j: int| 0 <= j < t.len() && (#[trigger] t[j]).0@ == q;
                        if j != i {
                            assert(t[j] == s[j]);
                        }
                    }
                    assert forall|q: Seq<char>| entries_map(s).insert(k, w).contains_key(q) implies
                        entries_map(t).contains_key(q) by {
                        if q != k {
                            let j = choose|j: int| 0 <= j < s.len() && (#[trigger] s[j]).0@ == q;
                            assert(t[j] == s[j]);
                        } else {
                            assert(t[i as int].0@ == q);
                        }
                    }
                }
            }
            self.entries = v;
        } else {
            let mut v: Vec<(String, String)> = Vec::new();
            std::mem::swap(&mut self.entries, &mut v);
            v.insert(i, (key, val));
            proof {
                let t = v@;
                assert(t =~= s.insert(i as int, t[i as int]));
                if i < s.len() {
                    lemma_text_lt_total(s[i as int].0@, k);
                }
                assert(keys_sorted(t)) by {
                    assert forall|a: int, b: int| 0 <= a < b < t.len() implies
                        text_lt((#[trigger] t[a]).0@, (#[trigger] t[b]).0@) by {
                        if b < i {
                            assert(t[a] == s[a] && t[b] == s[b]);
                        } else if b == i {
                            assert(t[a] == s[a]);
                        } else if a == i {
                            assert(t[b] == s[b - 1]);
                            if b - 1 > i {
                                lemma_text_lt_transitive(k, s[i as int].0@, s[b - 1].0@);
                            }
                        } else if a < i {
                            assert(t[a] == s[a] && t[b] == s[b - 1]);
                            if b - 1 >= i {
                                lemma_text_lt_transitive(s[a].0@, k, s[i as int].0@);
                                if b - 1 > i {
                                    lemma_text_lt_transitive(s[a].0@, s[i as int].0@, s[b - 1].0@);
                                }
                            }
                        } else {
                            assert(t[a] == s[a - 1] && t[b] == s[b - 1]);
                        }
                    }
                }
                lemma_sorted_unique(t);
                lemma_entries_map(t);
                assert(!entries_map(s).contains_key(k)) by {
                    if entries_map(s).contains_key(k) {
                        let j = choose|j: int| 0 <= j < s.len() && (#[trigger] s[j]).0@ == k;
                        if j < i {
                            lemma_text_lt_irreflexive(k);
                        } else if j > i {
                            lemma_text_lt_transitive(k, s[i as int].0@, s[j].0@);
                            lemma_text_lt_irreflexive(k);
                        }
                    }
                }
                assert(entries_map(t) =~= entries_map(s).insert(k, w)) by {
                    assert forall|q: Seq<char>| entries_map(t).contains_key(q) implies
                        entries_map(s).insert(k, w).contains_key(q)
                        && entries_map(t)[q] == entries_map(s).insert(k, w)[q] by {
                        let j = choose|j: int| 0 <= j < t.len() && (#[trigger] t[j]).0@ == q;
                        if j < i {
                            assert(t[j] == s[j]);
                        } else if j > i {
                            assert(t[j] == s[j - 1]);
                        }
                    }
                    assert forall|q: Seq<char>| entries_map(s).insert(k, w).contains_key(q) implies
                        entries_map(t).contains_key(q) by {
                        if q != k {
                            let j = choose|j: int| 0 <= j < s.len() && (#[trigger] s[j]).0@ == q;
                            if j < i {
                                assert(t[j] == s[j]);
                            } else {
                                assert(t[j + 1] == s[j]);
                            }
                        } else {
                            assert(t[i as int].0@ == q);
                        }
                    }
                }
            }
            self.entries = v;
        }
    }

    /// Takes `key` out, if it is there.
    pub fn remove(&mut self, key: &String)
        ensures
            final(self)@ == old(self)@.remove(key@),
    {
        proof {
            use_type_invariant(&*self);
            lemma_sorted_unique(self.entries@);
            lemma_entries_map(self.entries@);
        }
        let ghost s = self.entries@;
        let ghost k = key@;
        match self.find(key) {
            Some(i) => {
                let mut v: Vec<(String, String)> = Vec::new();
                std::mem::swap(&mut self.entries, &mut v);
                v.remove(i);
                self.entries = v;
                proof {
                    let t = self.entries@;
                    assert(t =~= s.remove(i as int));
                    assert(keys_unique(t));
                    lemma_entries_map(t);
                    assert(entries_map(t) =~= entries_map(s).remove(k)) by {
                        assert forall|q: Seq<char>| entries_map(t).contains_key(q) implies
                            entries_map(s).remove(k).contains_key(q)
                            && entries_map(t)[q] == entries_map(s).remove(k)[q] by {
                            let j = choose|j: int| 0 <= j < t.len() && (#[trigger] t[j]).0@ == q;
                            if j < i {
                                assert(t[j] == s[j]);
                            } else {
                                assert(t[j] == s[j + 1]);
                            }
                        }
                        assert forall|q: Seq<char>| entries_map(s).remove(k).contains_key(q) implies
                            entries_map(t).contains_key(q) by {
                            let j = choose|j: int| 0 <= j < s.len() && (#[trigger] s[j]).0@ == q;
                            if j < i {
                                assert(t[j] == s[j]);
                            } else {
                                assert(j != i);
                                assert(t[j - 1] == s[j]);
                            }
                        }
                    }
                }
            },
            None => {
                assert(entries_map(s).remove(k) =~= entries_map(s));
            },
        }
    }

    /// The keys, in ascending order.
    pub fn keys(&self) -> (r: Vec<String>)
        ensures
            r@.map_values(|e: String| e@) == self.key_seq(),
            forall|i: int, j: int| 0 <= i < j < r@.len() ==> r@[i]@ != r@[j]@,
            forall|i: int, j: int| 0 <= i < j < r@.len() ==> text_lt(self.key_seq()[i], self.key_seq()[j]),
            forall|k: Seq<char>| self@.contains_key(k) <==> self.key_seq().contains(k),
    {
        proof {
            use_type_invariant(self);
            lemma_sorted_unique(self.entries@);
            lemma_entries_map(self.entries@);
            let s = self.entries@;
            assert forall|k: Seq<char>| self@.contains_key(k) <==> self.key_seq().contains(k) by {
                if self@.contains_key(k) {
                    let i = choose|i: int| 0 <= i < s.len() && (#[trigger] s[i]).0@ == k;
                    assert(self.key_seq()[i] == k);
                }
                if self.key_seq().contains(k) {
                    let i = choose|i: int| 0 <= i < self.key_seq().len() && self.key_seq()[i] == k;
                    assert(s[i].0@ == k);
                }
            }
        }
        let mut r: Vec<String> = Vec::new();
        let mut i: usize = 0;
        while i < self.entries.len()
            invariant
                i <= self.entries@.len(),
                r@.len() == i,
                forall|j: int| 0 <= j < i ==> (#[trigger] r@[j])@ == self.entries@[j].0@,
            decreases self.entries@.len() - i,
        {
            r.push(self.entries[i].0.clone());
            i = i + 1;
        }
        proof {
            assert(r@.map_values(|e: String| e@) =~= entries_keys(self.entries@));
            assert forall|a: int, b: int| 0 <= a < b < r@.len() implies r@[a]@ != r@[b]@ by {
                assert(self.entries@[a].0@ != self.entries@[b].0@);
            }
        }
        r
    }

    /// The entries as key and value pairs, in ascending order of the keys.
    pub fn pairs(&self) -> (r: Vec<(String, String)>)
        ensures
            entries_map(r@) == self@,
            keys_unique(r@),
            entries_keys(r@) == self.key_seq(),
    {
        proof {
            use_type_invariant(self);
            lemma_sorted_unique(self.entries@);
        }
        let mut r: Vec<(String, String)> = Vec::new();
        let mut i: usize = 0;
        while i < self.entries.len()
            invariant
                i <= self.entries@.len(),
                keys_unique(self.entries@),
                r@.len() == i,
                forall|j: int| 0 <= j < i ==> (#[trigger] r@[j]).0@ == self.entries@[j].0@ && r@[j].1@ == self.entries@[j].1@,
            decreases self.entries@.len() - i,
        {
            let k = self.entries[i].0.clone();
            let v = self.entries[i].1.clone();
            r.push((k, v));
            i = i + 1;
        }
        proof {
            let s = self.entries@;
            let t = r@;
            assert(keys_unique(t)) by {
                assert forall|a: int, b: int| 0 <= a < t.len() && 0 <= b < t.len() && a != b implies
                    (#[trigger] t[a]).0@ != (#[trigger] t[b]).0@ by {
                    assert(s[a].0@ != s[b].0@);
                }
            }
            lemma_entries_map(s);
            lemma_entries_map(t);
            assert(entries_map(t) =~= entries_map(s)) by {
                assert forall|q: Seq<char>| entries_map(t).contains_key(q) implies
                    entries_map(s).contains_key(q) && entries_map(t)[q] == entries_map(s)[q] by {
                    let j = choose|j: int| 0 <= j < t.len() && (#[trigger] t[j]).0@ == q;
                    assert(s[j].0@ == q);
                }
                assert forall|q: Seq<char>| entries_map(s).contains_key(q) implies
                    entries_map(t).contains_key(q) by {
                    let j = choose|j: int| 0 <= j < s.len() && (#[trigger] s[j]).0@ == q;
                    assert(t[j].0@ == q);
                }
            }
            assert(entries_keys(t) =~= entries_keys(s));
        }
        r
    }

    pub fn len(&self) -> (r: usize)
        ensures
            r == self.key_seq().len(),
    {
        self.entries.len()
    }
}

} // verus!

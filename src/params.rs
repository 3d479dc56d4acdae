use vstd::prelude::*;
use vstd::string::*;

verus! {

/// The mapping that a sequence of key/value entries denotes; a later entry for a
/// key takes the place of an earlier one.
pub open spec fn map_of(s: Seq<(Seq<char>, Seq<char>)>) -> Map<Seq<char>, Seq<char>>
    decreases s.len(),
{
    if s.len() == 0 {
        Map::empty()
    } else {
        map_of(s.drop_last()).insert(s.last().0, s.last().1)
    }
}

/// No key occurs twice.
pub open spec fn keys_distinct(s: Seq<(Seq<char>, Seq<char>)>) -> bool {
    forall|i: int, j: int| 0 <= i < j < s.len() ==> s[i].0 != s[j].0
}

proof fn lemma_map_of_update(s: Seq<(Seq<char>, Seq<char>)>, i: int, v: Seq<char>)
    requires
        keys_distinct(s),
        0 <= i < s.len(),
    ensures
        map_of(s.update(i, (s[i].0, v))) == map_of(s).insert(s[i].0, v),
    decreases s.len(),
{
    let x = (s[i].0, v);
    let u = s.update(i, x);
    if i == s.len() - 1 {
        assert(u.drop_last() =~= s.drop_last());
        assert(map_of(u) =~= map_of(s).insert(s[i].0, v));
    } else {
        let t = s.drop_last();
        assert(keys_distinct(t));
        lemma_map_of_update(t, i, v);
        assert(u.drop_last() =~= t.update(i, x));
        assert(s.last().0 != s[i].0);
        assert(map_of(u) =~= map_of(s).insert(s[i].0, v));
    }
}

/// A bag of form parameters: each key at most once, in the order first set.
pub struct Params {
    entries: Vec<(String, String)>,
}

impl Params {
    /// The entries as pairs of character sequences.
    pub closed spec fn entry_seq(&self) -> Seq<(Seq<char>, Seq<char>)> {
        self.entries@.map_values(|e: (String, String)| (e.0@, e.1@))
    }

    /// The parameters as a mapping from key to value.
    pub closed spec fn view(&self) -> Map<Seq<char>, Seq<char>> {
        map_of(self.entry_seq())
    }

    /// Each key is held once.
    pub closed spec fn wf(&self) -> bool {
        keys_distinct(self.entry_seq())
    }

    /// An empty bag.
    pub fn new() -> (r: Params)
        ensures
            r.wf(),
            r@ == Map::<Seq<char>, Seq<char>>::empty(),
    {
        let r = Params { entries: Vec::new() };
        assert(r.entry_seq() =~= Seq::<(Seq<char>, Seq<char>)>::empty());
        r
    }

    /// Sets `key` to `value`, replacing an earlier value of the key.
    pub fn insert(&mut self, key: String, value: String)
        requires
            old(self).wf(),
        ensures
            final(self).wf(),
            final(self)@ == old(self)@.insert(key@, value@),
    {
        let ghost s0 = self.entry_seq();
        let n = self.entries.len();
        let mut i: usize = 0;
        while i < n
            invariant
                n == self.entries.len(),
                self.entry_seq() == s0,
                s0 == old(self).entry_seq(),
                keys_distinct(s0),
                0 <= i <= n,
                forall|j: int| 0 <= j < i ==> s0[j].0 != key@,
            decreases n - i,
        {
            if self.entries[i].0 == key {
                assert(s0[i as int].0 == self.entries@[i as int].0@);
                let ghost x = (s0[i as int].0, value@);
                self.entries.set(i, (key, value));
                proof {
                    assert(self.entry_seq() =~= s0.update(i as int, x));
                    lemma_map_of_update(s0, i as int, value@);
                                assert(self@ == map_of(s0).insert(key@, value@));
                    assert(keys_distinct(self.entry_seq()));
                }
                return;
            }
            i = i + 1;
        }
        let ghost kv = (key@, value@);
        self.entries.push((key, value));
        assert(self.entry_seq() =~= s0.push(kv));
        assert(self.entry_seq().drop_last() =~= s0);
    }

    /// The value set for `key`, if any.
    pub fn get(&self, key: &str) -> (r: Option<&String>)
        requires
            self.wf(),
        ensures
            r.is_some() == self@.contains_key(key@),
            r.is_some() ==> r.unwrap()@ == self@[key@],
    {
        proof { lemma_map_of_lookup(self.entry_seq()); }
        let wanted = String::from_str(key);
        let n = self.entries.len();
        let mut i: usize = 0;
        while i < n
            invariant
                n == self.entries.len(),
                0 <= i <= n,
                wanted@ == key@,
                self.wf(),
                forall|j: int| 0 <= j < i ==> self.entry_seq()[j].0 != key@,
            decreases n - i,
        {
            assert(self.entry_seq()[i as int] == (self.entries@[i as int].0@, self.entries@[i as int].1@));
            if self.entries[i].0 == wanted {
                proof { lemma_map_of_lookup(self.entry_seq()); }
                assert(self@.contains_key(self.entry_seq()[i as int].0));
                assert(self@[key@] == self.entries@[i as int].1@);
                return Some(&self.entries[i].1);
            }
            i = i + 1;
        }
        proof { lemma_map_of_lookup(self.entry_seq()); }
        None
    }

    /// Number of parameters.
    pub fn len(&self) -> (r: usize)
        requires
            self.wf(),
        ensures
            r == self@.len(),
    {
        proof { lemma_map_of_len(self.entry_seq()); }
        self.entries.len()
    }

    /// A copy of the bag.
    pub fn clone_params(&self) -> (r: Params)
        requires
            self.wf(),
        ensures
            r.wf(),
            r@ == self@,
    {
        let mut entries: Vec<(String, String)> = Vec::new();
        let mut i: usize = 0;
        while i < self.entries.len()
            invariant
                0 <= i <= self.entries.len(),
                entries@.len() == i,
                forall|j: int| 0 <= j < i ==> (entries@[j].0@, entries@[j].1@) == self.entry_seq()[j],
            decreases self.entries.len() - i,
        {
            let k = self.entries[i].0.clone();
            let v = self.entries[i].1.clone();
            entries.push((k, v));
            i = i + 1;
        }
        let r = Params { entries };
        assert(r.entry_seq() =~= self.entry_seq());
        r
    }

    /// The key/value pairs, each key once.
    pub fn entries(&self) -> (r: &Vec<(String, String)>)
        requires
            self.wf(),
        ensures
            keys_distinct(r@.map_values(|e: (String, String)| (e.0@, e.1@))),
            map_of(r@.map_values(|e: (String, String)| (e.0@, e.1@))) == self@,
    {
        &self.entries
    }
}

proof fn lemma_map_of_lookup(s: Seq<(Seq<char>, Seq<char>)>)
    requires
        keys_distinct(s),
    ensures
        forall|k: Seq<char>| map_of(s).contains_key(k) <==> exists|j: int| 0 <= j < s.len() && s[j].0 == k,
        forall|j: int| 0 <= j < s.len() ==> map_of(s).contains_key(#[trigger] s[j].0) && map_of(s)[s[j].0] == s[j].1,
    decreases s.len(),
{
    if s.len() > 0 {
        let t = s.drop_last();
        lemma_map_of_lookup(t);
        assert forall|k: Seq<char>| #[trigger] map_of(s).contains_key(k) implies exists|j: int| 0 <= j < s.len() && s[j].0 == k by {
            if k != s.last().0 {
                assert(map_of(t).contains_key(k));
                let j = choose|j: int| 0 <= j < t.len() && t[j].0 == k;
                assert(s[j].0 == k);
            } else {
                assert(s[s.len() - 1].0 == k);
            }
        }
        assert forall|j: int| 0 <= j < s.len() implies map_of(s).contains_key(s[j].0) && map_of(s)[s[j].0] == s[j].1 by {
            if j < s.len() - 1 {
                assert(t[j] == s[j]);
            }
        }
    }
}

proof fn lemma_map_of_len(s: Seq<(Seq<char>, Seq<char>)>)
    requires
        keys_distinct(s),
    ensures
        map_of(s).len() == s.len(),
        map_of(s).dom().finite(),
    decreases s.len(),
{
    if s.len() > 0 {
        let t = s.drop_last();
        lemma_map_of_len(t);
        lemma_map_of_lookup(t);
        if map_of(t).contains_key(s.last().0) {
            let j = choose|j: int| 0 <= j < t.len() && t[j].0 == s.last().0;
            assert(s[j].0 == s[s.len() - 1].0);
        }
    }
}

} // verus!

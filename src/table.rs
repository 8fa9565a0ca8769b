use vstd::prelude::*;
use vstd::string::*;

verus! {

/// The mapping that a sequence of (key, label) entries stands for: a later
/// entry overrides an earlier one with the same key.
pub open spec fn entries_map(s: Seq<(String, String)>) -> Map<Seq<char>, Seq<char>>
    decreases s.len(),
{
    if s.len() == 0 {
        Map::empty()
    } else {
        entries_map(s.drop_last()).insert(s.last().0@, s.last().1@)
    }
}

/// Entries past `n` whose keys differ from `k` leave the label of `k` as the
/// first `n` entries give it.
proof fn lemma_entries_map_prefix(s: Seq<(String, String)>, k: Seq<char>, n: int)
    requires
        0 <= n <= s.len(),
        forall|j: int| n <= j < s.len() ==> s[j].0@ != k,
    ensures
        entries_map(s).contains_key(k) == entries_map(s.subrange(0, n)).contains_key(k),
        entries_map(s).contains_key(k) ==> entries_map(s)[k] == entries_map(
            s.subrange(0, n),
        )[k],
    decreases s.len(),
{
    if n == s.len() {
        assert(s.subrange(0, n) =~= s);
    } else {
        let t = s.drop_last();
        assert(t.subrange(0, n) =~= s.subrange(0, n));
        lemma_entries_map_prefix(t, k, n);
    }
}

/// A fixed mapping from raw values to the labels shown for them. Keys are
/// matched exactly, with case.
pub struct StateTable {
    entries: Vec<(String, String)>,
}

impl View for StateTable {
    type V = Map<Seq<char>, Seq<char>>;

    closed spec fn view(&self) -> Map<Seq<char>, Seq<char>> {
        entries_map(self.entries@)
    }
}

impl StateTable {
    /// An empty table.
    pub fn new() -> (t: StateTable)
        ensures
            t@ == Map::<Seq<char>, Seq<char>>::empty(),
    {
        StateTable { entries: Vec::new() }
    }

    /// Maps `key` to `label`, in place of any label it had.
    pub fn insert(&mut self, key: &str, label: &str)
        ensures
            final(self)@ == old(self)@.insert(key@, label@),
    {
        let k = String::from_str(key);
        let l = String::from_str(label);
        self.entries.push((k, l));
        assert(self.entries@.drop_last() =~= old(self).entries@);
    }

    /// The label of `key`, if the table has one.
    pub fn get(&self, key: &String) -> (r: Option<String>)
        ensures
            match r {
                Some(l) => self@.contains_key(key@) && self@[key@] == l@,
                None => !self@.contains_key(key@),
            },
    {
        let mut i: usize = self.entries.len();
        while i > 0
            invariant
                i <= self.entries@.len(),
                forall|j: int| i <= j < self.entries@.len() ==> self.entries@[j].0@ != key@,
            decreases i,
        {
            if self.entries[i - 1].0 == *key {
                proof {
                    let s = self.entries@;
                    lemma_entries_map_prefix(s, key@, i as int);
                    assert(s.subrange(0, i as int).drop_last() =~= s.subrange(0, i - 1));
                }
                return Some(self.entries[i - 1].1.clone());
            }
            i = i - 1;
        }
        proof {
            lemma_entries_map_prefix(self.entries@, key@, 0);
        }
        None
    }
}

} // verus!

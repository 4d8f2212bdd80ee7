//! The shared-state registry.
//!
//! One value per registered kind, for the life of the bot. Each kind of
//! state is named by a tag the host assigns at build time; inserting under
//! a tag already on file replaces the value. The registry is filled while
//! the bot is built and only read afterwards.

use vstd::prelude::*;

verus! {

/// The map a tagged entry list stands for.
pub open spec fn state_map_of<V>(s: Seq<(u64, V)>) -> Map<u64, V>
    decreases s.len(),
{
    if s.len() == 0 {
        Map::empty()
    } else {
        state_map_of(s.drop_last()).insert(s.last().0, s.last().1)
    }
}

proof fn lemma_state_map_dom<V>(s: Seq<(u64, V)>)
    ensures
        forall|t: u64|
            state_map_of(s).contains_key(t) <==> exists|i: int|
                0 <= i < s.len() && #[trigger] s[i].0 == t,
    decreases s.len(),
{
    if s.len() > 0 {
        lemma_state_map_dom(s.drop_last());
        assert forall|t: u64| state_map_of(s).contains_key(t) implies exists|i: int|
            0 <= i < s.len() && #[trigger] s[i].0 == t by {
            if s.last().0 == t {
                assert(s[s.len() - 1].0 == t);
            } else {
                assert(state_map_of(s.drop_last()).contains_key(t));
                let i = choose|i: int| 0 <= i < s.drop_last().len() && #[trigger] s.drop_last()[i].0
                    == t;
                assert(s.drop_last()[i] == s[i]);
            }
        }
        assert forall|t: u64| (exists|i: int| 0 <= i < s.len() && #[trigger] s[i].0 == t)
            implies state_map_of(s).contains_key(t) by {
            let i = choose|i: int| 0 <= i < s.len() && #[trigger] s[i].0 == t;
            if i < s.len() - 1 {
                assert(s.drop_last()[i] == s[i]);
                assert(state_map_of(s.drop_last()).contains_key(t));
            } else {
                assert(s.last().0 == t);
            }
        }
    }
}

/// Distinct tags across the entry list.
pub open spec fn tags_distinct<V>(s: Seq<(u64, V)>) -> bool {
    forall|i: int, j: int| 0 <= i < j < s.len() ==> #[trigger] s[i].0 != #[trigger] s[j].0
}

proof fn lemma_state_map_index<V>(s: Seq<(u64, V)>, i: int)
    requires
        tags_distinct(s),
        0 <= i < s.len(),
    ensures
        state_map_of(s).contains_key(s[i].0),
        state_map_of(s)[s[i].0] == s[i].1,
    decreases s.len(),
{
    lemma_state_map_dom(s);
    if i < s.len() - 1 {
        assert(s.drop_last()[i] == s[i]);
        assert(tags_distinct(s.drop_last()));
        lemma_state_map_index(s.drop_last(), i);
        assert(s[i].0 != s.last().0);
    }
}

/// The registry: a tag names at most one shared value.
pub struct StateMap<V> {
    entries: Vec<(u64, V)>,
}

impl<V> View for StateMap<V> {
    type V = Map<u64, V>;

    closed spec fn view(&self) -> Map<u64, V> {
        state_map_of(self.entries@)
    }
}

impl<V> StateMap<V> {
    pub closed spec fn wf(&self) -> bool {
        tags_distinct(self.entries@)
    }

    pub fn new() -> (r: StateMap<V>)
        ensures
            r.wf(),
            r@ == Map::<u64, V>::empty(),
    {
        StateMap { entries: Vec::new() }
    }

    fn find(&self, tag: u64) -> (r: Option<usize>)
        ensures
            match r {
                Some(i) => i < self.entries@.len() && self.entries@[i as int].0 == tag,
                None => forall|j: int|
                    0 <= j < self.entries@.len() ==> #[trigger] self.entries@[j].0 != tag,
            },
    {
        let mut i: usize = 0;
        while i < self.entries.len()
            invariant
                i <= self.entries@.len(),
                forall|j: int| 0 <= j < i ==> #[trigger] self.entries@[j].0 != tag,
            decreases self.entries@.len() - i,
        {
            if self.entries[i].0 == tag {
                return Some(i);
            }
            i = i + 1;
        }
        None
    }

    /// Register a value under a tag; a value already there is replaced.
    pub fn insert(&mut self, tag: u64, value: V)
        requires
            old(self).wf(),
        ensures
            final(self).wf(),
            final(self)@ == old(self)@.insert(tag, value),
    {
        proof {
            lemma_state_map_dom(self.entries@);
        }
        match self.find(tag) {
            Some(i) => {
                proof {
                    lemma_remove_keeps_map(self.entries@, i as int);
                }
                let _ = self.entries.remove(i);
            },
            None => {},
        }
        proof {
            lemma_state_map_dom(self.entries@);
        }
        let ghost before = self.entries@;
        self.entries.push((tag, value));
        proof {
            assert(self.entries@.drop_last() =~= before);
            assert(self@ =~= old(self)@.insert(tag, value));
        }
    }

    /// The value registered under a tag, if one is.
    pub fn get(&self, tag: u64) -> (r: Option<&V>)
        requires
            self.wf(),
        ensures
            match r {
                Some(v) => self@.contains_key(tag) && *v == self@[tag],
                None => !self@.contains_key(tag),
            },
    {
        proof {
            lemma_state_map_dom(self.entries@);
        }
        match self.find(tag) {
            Some(i) => {
                proof {
                    lemma_state_map_index(self.entries@, i as int);
                }
                Some(&self.entries[i].1)
            },
            None => None,
        }
    }
}

proof fn lemma_remove_keeps_map<V>(s: Seq<(u64, V)>, k: int)
    requires
        tags_distinct(s),
        0 <= k < s.len(),
    ensures
        state_map_of(s.remove(k)) == state_map_of(s).remove(s[k].0),
        tags_distinct(s.remove(k)),
    decreases s.len(),
{
    lemma_state_map_dom(s.drop_last());
    if k == s.len() - 1 {
        assert(s.remove(k) =~= s.drop_last());
        assert(!state_map_of(s.drop_last()).contains_key(s[k].0));
        assert(state_map_of(s.drop_last()) =~= state_map_of(s.drop_last()).insert(
            s.last().0,
            s.last().1,
        ).remove(s[k].0));
    } else {
        assert(tags_distinct(s.drop_last()));
        lemma_remove_keeps_map(s.drop_last(), k);
        assert(s.remove(k).drop_last() =~= s.drop_last().remove(k));
        assert(s.remove(k).last() == s.last());
        assert(s[k].0 != s.last().0);
        assert(state_map_of(s.remove(k)) == state_map_of(s.drop_last().remove(k)).insert(
            s.last().0,
            s.last().1,
        ));
        assert(state_map_of(s.drop_last()).remove(s[k].0).insert(s.last().0, s.last().1)
            =~= state_map_of(s.drop_last()).insert(s.last().0, s.last().1).remove(s[k].0));
        assert(forall|i: int, j: int|
            0 <= i < j < s.remove(k).len() ==> #[trigger] s.remove(k)[i].0 != #[trigger] s.remove(
                k,
            )[j].0);
    }
}

} // verus!

//! The registry of games: one record per user, keys unique, order irrelevant.
use vstd::prelude::*;

use crate::ids::ActorId;
use crate::player::PlayerInfo;

verus! {

/// Whether some entry of `s` has the key `k`.
pub open spec fn has_key(s: Seq<(ActorId, PlayerInfo)>, k: ActorId) -> bool {
    exists|i: int| 0 <= i < s.len() && (#[trigger] s[i]).0 == k
}

/// Whether no two entries of `s` share a key.
pub open spec fn keys_unique(s: Seq<(ActorId, PlayerInfo)>) -> bool {
    forall|i: int, j: int|
        0 <= i < s.len() && 0 <= j < s.len() && (#[trigger] s[i]).0 == (#[trigger] s[j]).0 ==> i
            == j
}

/// The map that a sequence of entries with unique keys stands for.
pub open spec fn map_of_entries(s: Seq<(ActorId, PlayerInfo)>) -> Map<ActorId, PlayerInfo> {
    Map::new(
        |k: ActorId| has_key(s, k),
        |k: ActorId| s[choose|i: int| 0 <= i < s.len() && (#[trigger] s[i]).0 == k].1,
    )
}

proof fn lemma_entry_in_map(s: Seq<(ActorId, PlayerInfo)>, i: int)
    requires
        keys_unique(s),
        0 <= i < s.len(),
    ensures
        map_of_entries(s).contains_key(s[i].0),
        map_of_entries(s)[s[i].0] == s[i].1,
{
    let k = s[i].0;
    assert(has_key(s, k));
    let j = choose|j: int| 0 <= j < s.len() && (#[trigger] s[j]).0 == k;
    assert(s[j].0 == s[i].0);
}

/// Proves that replacing or appending the entry of `k` updates the map at `k` alone.
proof fn lemma_map_after_store(
    s: Seq<(ActorId, PlayerInfo)>,
    t: Seq<(ActorId, PlayerInfo)>,
    k: ActorId,
    v: PlayerInfo,
)
    requires
        keys_unique(s),
        keys_unique(t),
        forall|k2: ActorId| #[trigger] has_key(t, k2) <==> has_key(s, k2) || k2 == k,
        forall|i: int| 0 <= i < t.len() && (#[trigger] t[i]).0 == k ==> t[i].1 == v,
        forall|i: int|
            0 <= i < t.len() && (#[trigger] t[i]).0 != k ==> exists|j: int|
                0 <= j < s.len() && #[trigger] s[j] == t[i],
    ensures
        map_of_entries(t) =~= map_of_entries(s).insert(k, v),
{
    let m = map_of_entries(s);
    let n = map_of_entries(t);
    assert forall|k2: ActorId| n.contains_key(k2) implies n[k2] == m.insert(k, v)[k2] by {
        let i = choose|i: int| 0 <= i < t.len() && (#[trigger] t[i]).0 == k2;
        lemma_entry_in_map(t, i);
        if k2 != k {
            let j = choose|j: int| 0 <= j < s.len() && #[trigger] s[j] == t[i];
            lemma_entry_in_map(s, j);
        }
    }
}

/// The games, one per user.
#[derive(Clone, Debug)]
pub struct Players {
    entries: Vec<(ActorId, PlayerInfo)>,
}

impl View for Players {
    type V = Map<ActorId, PlayerInfo>;

    closed spec fn view(&self) -> Map<ActorId, PlayerInfo> {
        map_of_entries(self.entries@)
    }
}

impl Players {
    /// Whether the entries have unique keys.
    pub closed spec fn wf(&self) -> bool {
        keys_unique(self.entries@)
    }

    pub fn new() -> (r: Players)
        ensures
            r.wf(),
            r@ == Map::<ActorId, PlayerInfo>::empty(),
    {
        let r = Players { entries: Vec::new() };
        assert(r@ =~= Map::<ActorId, PlayerInfo>::empty());
        r
    }

    /// Every game with its user, each user once, in no particular order.
    pub fn into_entries(self) -> (r: Vec<(ActorId, PlayerInfo)>)
        requires
            self.wf(),
        ensures
            keys_unique(r@),
            map_of_entries(r@) == self@,
    {
        self.entries
    }

    /// The position of `user`'s entry, if it has one.
    fn find(&self, user: &ActorId) -> (r: Option<usize>)
        requires
            self.wf(),
        ensures
            match r {
                Some(i) => i < self.entries@.len() && self.entries@[i as int].0 == *user,
                None => !self@.contains_key(*user),
            },
    {
        let mut i: usize = 0;
        while i < self.entries.len()
            invariant
                0 <= i <= self.entries@.len(),
                forall|j: int| 0 <= j < i ==> (#[trigger] self.entries@[j]).0 != *user,
            decreases self.entries@.len() - i,
        {
            if self.entries[i].0 == *user {
                return Some(i);
            }
            i = i + 1;
        }
        None
    }

    pub fn contains_key(&self, user: &ActorId) -> (r: bool)
        requires
            self.wf(),
        ensures
            r == self@.contains_key(*user),
    {
        match self.find(user) {
            Some(i) => {
                proof {
                    lemma_entry_in_map(self.entries@, i as int);
                }
                true
            },
            None => false,
        }
    }

    pub fn get(&self, user: &ActorId) -> (r: Option<&PlayerInfo>)
        requires
            self.wf(),
        ensures
            match r {
                Some(info) => self@.contains_key(*user) && *info == self@[*user],
                None => !self@.contains_key(*user),
            },
    {
        match self.find(user) {
            Some(i) => {
                proof {
                    lemma_entry_in_map(self.entries@, i as int);
                }
                Some(&self.entries[i].1)
            },
            None => None,
        }
    }

    /// Stores `info` as `user`'s game and hands back the game it replaces.
    pub fn insert(&mut self, user: ActorId, info: PlayerInfo) -> (r: Option<PlayerInfo>)
        requires
            old(self).wf(),
        ensures
            final(self).wf(),
            final(self)@ == old(self)@.insert(user, info),
            r == (if old(self)@.contains_key(user) {
                Some(old(self)@[user])
            } else {
                None::<PlayerInfo>
            }),
    {
        let ghost s = self.entries@;
        match self.find(&user) {
            Some(i) => {
                proof {
                    lemma_entry_in_map(s, i as int);
                }
                self.entries.push((user, info));
                let (_, previous) = self.entries.swap_remove(i);
                proof {
                    let t = self.entries@;
                    assert(t =~= s.update(i as int, (user, info)));
                    assert forall|k2: ActorId| #[trigger] has_key(t, k2) <==> has_key(s, k2) || k2
                        == user by {
                        if has_key(s, k2) {
                            let j = choose|j: int| 0 <= j < s.len() && (#[trigger] s[j]).0 == k2;
                            assert(t[j].0 == k2);
                        }
                        if has_key(t, k2) {
                            let j = choose|j: int| 0 <= j < t.len() && (#[trigger] t[j]).0 == k2;
                            if j != i {
                                assert(s[j].0 == k2);
                            }
                        }
                    }
                    assert forall|a: int| 0 <= a < t.len() && (#[trigger] t[a]).0 != user implies exists|
                        j: int,
                    | 0 <= j < s.len() && #[trigger] s[j] == t[a] by {
                        assert(s[a] == t[a]);
                    }
                    lemma_map_after_store(s, t, user, info);
                }
                Some(previous)
            },
            None => {
                self.entries.push((user, info));
                proof {
                    let t = self.entries@;
                    assert forall|k2: ActorId| #[trigger] has_key(t, k2) <==> has_key(s, k2) || k2
                        == user by {
                        if has_key(s, k2) {
                            let j = choose|j: int| 0 <= j < s.len() && (#[trigger] s[j]).0 == k2;
                            assert(t[j].0 == k2);
                        }
                        if k2 == user {
                            assert(t[s.len() as int].0 == k2);
                        }
                    }
                    assert forall|a: int| 0 <= a < t.len() && (#[trigger] t[a]).0 != user implies exists|
                        j: int,
                    | 0 <= j < s.len() && #[trigger] s[j] == t[a] by {
                        assert(s[a] == t[a]);
                    }
                    assert forall|a: int, b: int|
                        0 <= a < t.len() && 0 <= b < t.len() && (#[trigger] t[a]).0 == (
                        #[trigger] t[b]).0 implies a == b by {
                        if a == s.len() as int && b < s.len() {
                            assert(has_key(s, user));
                        }
                        if b == s.len() as int && a < s.len() {
                            assert(has_key(s, user));
                        }
                    }
                    lemma_map_after_store(s, t, user, info);
                }
                None
            },
        }
    }
}

} // verus!

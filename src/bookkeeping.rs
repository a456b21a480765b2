use vstd::prelude::*;

use crate::cycle::{
    has_pending, names_of, pending_map, pending_unique, pending_value, GameState, PendingKick,
    RecordWeapon,
};
use crate::roster::ServerDetails;

verus! {

/// The value stored for the player of entry `i` is that entry's weapon.
proof fn lemma_pending_at(v: Seq<PendingKick>, i: int)
    requires
        pending_unique(v),
        0 <= i < v.len(),
    ensures
        pending_map(v).contains_key(v[i].player@),
        pending_map(v)[v[i].player@] == pending_value(v[i]),
{
    let k = v[i].player@;
    assert(has_pending(v, k));
    let j = choose|j: int| 0 <= j < v.len() && (#[trigger] v[j]).player@ == k;
    assert(j == i);
}

/// Two entry lists with the same players, entry for entry, have the same
/// keys; replacing one entry's weapon changes only that player's value.
proof fn lemma_pending_set(v: Seq<PendingKick>, i: int, e: PendingKick)
    requires
        pending_unique(v),
        0 <= i < v.len(),
        e.player@ == v[i].player@,
    ensures
        pending_unique(v.update(i, e)),
        pending_map(v.update(i, e)) == pending_map(v).insert(e.player@, pending_value(e)),
{
    let w = v.update(i, e);
    assert(pending_unique(w)) by {
        assert forall|a: int, b: int|
            0 <= a < w.len() && 0 <= b < w.len() && a != b implies (#[trigger] w[a]).player@ != (
            #[trigger] w[b]).player@ by {
            assert(w[a].player@ == v[a].player@);
            assert(w[b].player@ == v[b].player@);
        }
    }
    let m = pending_map(v).insert(e.player@, pending_value(e));
    assert forall|k: Seq<char>| #[trigger] pending_map(w).contains_key(k) <==> m.contains_key(k) by {
        if has_pending(w, k) {
            let j = choose|j: int| 0 <= j < w.len() && (#[trigger] w[j]).player@ == k;
            assert(v[j].player@ == k);
        }
        if has_pending(v, k) {
            let j = choose|j: int| 0 <= j < v.len() && (#[trigger] v[j]).player@ == k;
            assert(w[j].player@ == k);
        }
        if k == e.player@ {
            assert(w[i].player@ == k);
        }
    }
    assert forall|k: Seq<char>| #[trigger] pending_map(w).contains_key(k) implies pending_map(w)[k]
        == m[k] by {
        let j = choose|j: int| 0 <= j < w.len() && (#[trigger] w[j]).player@ == k;
        lemma_pending_at(w, j);
        if j != i {
            lemma_pending_at(v, j);
        }
    }
    assert(pending_map(w) =~= m);
}

/// Appending an entry for a new player adds that player.
proof fn lemma_pending_push(v: Seq<PendingKick>, e: PendingKick)
    requires
        pending_unique(v),
        !has_pending(v, e.player@),
    ensures
        pending_unique(v.push(e)),
        pending_map(v.push(e)) == pending_map(v).insert(e.player@, pending_value(e)),
{
    let w = v.push(e);
    let n = v.len() as int;
    assert(pending_unique(w)) by {
        assert forall|a: int, b: int|
            0 <= a < w.len() && 0 <= b < w.len() && a != b implies (#[trigger] w[a]).player@ != (
            #[trigger] w[b]).player@ by {
            if a < n && b < n {
                assert(w[a] == v[a] && w[b] == v[b]);
            } else if a < n {
                assert(w[a] == v[a]);
            } else {
                assert(w[b] == v[b]);
            }
        }
    }
    let m = pending_map(v).insert(e.player@, pending_value(e));
    assert forall|k: Seq<char>| #[trigger] pending_map(w).contains_key(k) <==> m.contains_key(k) by {
        if has_pending(w, k) {
            let j = choose|j: int| 0 <= j < w.len() && (#[trigger] w[j]).player@ == k;
            if j < n {
                assert(v[j] == w[j]);
            }
        }
        if has_pending(v, k) {
            let j = choose|j: int| 0 <= j < v.len() && (#[trigger] v[j]).player@ == k;
            assert(w[j] == v[j]);
        }
        if k == e.player@ {
            assert(w[n].player@ == k);
        }
    }
    assert forall|k: Seq<char>| #[trigger] pending_map(w).contains_key(k) implies pending_map(w)[k]
        == m[k] by {
        let j = choose|j: int| 0 <= j < w.len() && (#[trigger] w[j]).player@ == k;
        lemma_pending_at(w, j);
        if j < n {
            assert(w[j] == v[j]);
            lemma_pending_at(v, j);
        }
    }
    assert(pending_map(w) =~= m);
}

/// Removing the entry at `i` removes its player.
proof fn lemma_pending_remove(v: Seq<PendingKick>, i: int)
    requires
        pending_unique(v),
        0 <= i < v.len(),
    ensures
        pending_unique(v.remove(i)),
        pending_map(v.remove(i)) == pending_map(v).remove(v[i].player@),
{
    let w = v.remove(i);
    let key = v[i].player@;
    assert forall|j: int| 0 <= j < w.len() implies #[trigger] w[j] == if j < i {
        v[j]
    } else {
        v[j + 1]
    } by {}
    assert(pending_unique(w)) by {
        assert forall|a: int, b: int|
            0 <= a < w.len() && 0 <= b < w.len() && a != b implies (#[trigger] w[a]).player@ != (
            #[trigger] w[b]).player@ by {
            let a2 = if a < i {
                a
            } else {
                a + 1
            };
            let b2 = if b < i {
                b
            } else {
                b + 1
            };
            assert(w[a] == v[a2] && w[b] == v[b2]);
        }
    }
    let m = pending_map(v).remove(key);
    assert forall|k: Seq<char>| #[trigger] pending_map(w).contains_key(k) <==> m.contains_key(k) by {
        if has_pending(w, k) {
            let j = choose|j: int| 0 <= j < w.len() && (#[trigger] w[j]).player@ == k;
            let j2 = if j < i {
                j
            } else {
                j + 1
            };
            assert(w[j] == v[j2]);
            assert(v[j2].player@ == k);
        }
        if has_pending(v, k) && k != key {
            let j = choose|j: int| 0 <= j < v.len() && (#[trigger] v[j]).player@ == k;
            if j < i {
                assert(w[j] == v[j]);
            } else {
                assert(w[j - 1] == v[j]);
            }
        }
    }
    assert forall|k: Seq<char>| #[trigger] pending_map(w).contains_key(k) implies pending_map(w)[k]
        == m[k] by {
        let j = choose|j: int| 0 <= j < w.len() && (#[trigger] w[j]).player@ == k;
        lemma_pending_at(w, j);
        let j2 = if j < i {
            j
        } else {
            j + 1
        };
        assert(w[j] == v[j2]);
        lemma_pending_at(v, j2);
    }
    assert(pending_map(w) =~= m);
}

fn pending_index(v: &Vec<PendingKick>, name: &String) -> (r: Option<usize>)
    ensures
        r matches Some(i) ==> i < v@.len() && v@[i as int].player@ == name@,
        r is None ==> !has_pending(v@, name@),
{
    let mut i: usize = 0;
    while i < v.len()
        invariant
            i <= v@.len(),
            forall|j: int| 0 <= j < i ==> (#[trigger] v@[j]).player@ != name@,
        decreases v.len() - i,
    {
        if v[i].player == *name {
            return Some(i);
        }
        i = i + 1;
    }
    None
}

/// Whether some string of `v` is `name`.
fn contains_name(v: &Vec<String>, name: &String) -> (r: bool)
    ensures
        r == names_of(v@).contains(name@),
{
    let mut i: usize = 0;
    while i < v.len()
        invariant
            i <= v@.len(),
            forall|j: int| 0 <= j < i ==> (#[trigger] v@[j])@ != name@,
        decreases v.len() - i,
    {
        if v[i] == *name {
            proof {
                assert(names_of(v@)[i as int] == name@);
            }
            return true;
        }
        i = i + 1;
    }
    proof {
        if names_of(v@).contains(name@) {
            let j = choose|j: int| 0 <= j < names_of(v@).len() && names_of(v@)[j] == name@;
            assert(v@[j]@ == name@);
        }
    }
    false
}

impl GameState {
    pub fn is_kicked(&self, name: &String) -> (r: bool)
        ensures
            r == self.kicked().contains(name@),
    {
        contains_name(&self.already_kicked_list_players, name)
    }

    /// Records a kicked player.
    pub fn add_kicked(&mut self, name: String)
        requires
            old(self).wf(),
        ensures
            final(self).wf(),
            final(self).kicked() == old(self).kicked().insert(name@),
            final(self).pending_kick_players == old(self).pending_kick_players,
            final(self).rotation() == old(self).rotation(),
    {
        if contains_name(&self.already_kicked_list_players, &name) {
            assert(self.kicked() =~= old(self).kicked().insert(name@));
            return;
        }
        let ghost before = self.already_kicked_list_players@;
        let ghost n = name@;
        self.already_kicked_list_players.push(name);
        proof {
            let after = self.already_kicked_list_players@;
            assert(names_of(after) =~= names_of(before).push(n));
            assert forall|x: Seq<char>| #[trigger] names_of(after).contains(x) <==> names_of(
                before,
            ).contains(x) || x == n by {
                if names_of(before).contains(x) {
                    let j = choose|j: int|
                        0 <= j < names_of(before).len() && names_of(before)[j] == x;
                    assert(names_of(after)[j] == x);
                }
                if x == n {
                    assert(names_of(after)[before.len() as int] == x);
                }
                if names_of(after).contains(x) {
                    let j = choose|j: int|
                        0 <= j < names_of(after).len() && names_of(after)[j] == x;
                    if j < before.len() {
                        assert(names_of(before)[j] == x);
                    }
                }
            }
            assert(self.kicked() =~= old(self).kicked().insert(n));
        }
    }

    /// Queues a violator that the roster does not know yet, replacing an
    /// earlier entry for the same name.
    pub fn queue_pending(&mut self, player: String, weapon: RecordWeapon)
        requires
            old(self).wf(),
        ensures
            final(self).wf(),
            final(self).pending() == old(self).pending().insert(
                player@,
                (weapon.name@, weapon.category),
            ),
            final(self).already_kicked_list_players == old(self).already_kicked_list_players,
            final(self).rotation() == old(self).rotation(),
    {
        let entry = PendingKick { player, weapon };
        match pending_index(&self.pending_kick_players, &entry.player) {
            Some(i) => {
                proof {
                    lemma_pending_set(self.pending_kick_players@, i as int, entry);
                }
                self.pending_kick_players.set(i, entry);
            },
            None => {
                proof {
                    lemma_pending_push(self.pending_kick_players@, entry);
                }
                self.pending_kick_players.push(entry);
            },
        }
    }

    /// Forgets the pending entry for `player`, if any.
    pub fn drop_pending(&mut self, player: &String)
        requires
            old(self).wf(),
        ensures
            final(self).wf(),
            final(self).pending() == old(self).pending().remove(player@),
            final(self).already_kicked_list_players == old(self).already_kicked_list_players,
            final(self).rotation() == old(self).rotation(),
    {
        match pending_index(&self.pending_kick_players, player) {
            Some(i) => {
                proof {
                    lemma_pending_remove(self.pending_kick_players@, i as int);
                }
                self.pending_kick_players.remove(i);
            },
            None => {
                assert(self.pending() =~= old(self).pending().remove(player@));
            },
        }
    }

    /// Forgets kicked players that are no longer on either team, so that a
    /// player who left and came back (or a new player with the same name)
    /// is judged afresh.
    pub fn prune_already_kicked(&mut self, server: &ServerDetails)
        requires
            old(self).wf(),
        ensures
            final(self).wf(),
            final(self).kicked() == old(self).kicked().filter(
                |n: Seq<char>| server.spec_has_player(n),
            ),
            final(self).pending_kick_players == old(self).pending_kick_players,
            final(self).rotation() == old(self).rotation(),
    {
        let ghost old_names = names_of(self.already_kicked_list_players@);
        let mut kept: Vec<String> = Vec::new();
        let mut i: usize = 0;
        while i < self.already_kicked_list_players.len()
            invariant
                i <= self.already_kicked_list_players@.len(),
                old_names == names_of(self.already_kicked_list_players@),
                forall|x: Seq<char>|
                    #[trigger] names_of(kept@).contains(x) <==> (old_names.take(i as int).contains(x)
                        && server.spec_has_player(x)),
            decreases self.already_kicked_list_players.len() - i,
        {
            let name = &self.already_kicked_list_players[i];
            let ghost before = kept@;
            if server.has_player(name) {
                kept.push(name.clone());
            }
            proof {
                let n = self.already_kicked_list_players@[i as int]@;
                assert(old_names.take(i + 1) =~= old_names.take(i as int).push(n));
                assert forall|x: Seq<char>| #[trigger] names_of(kept@).contains(x) <==> (
                old_names.take(i + 1).contains(x) && server.spec_has_player(x)) by {
                    let t = old_names.take(i as int);
                    if t.contains(x) {
                        let j = choose|j: int| 0 <= j < t.len() && t[j] == x;
                        assert(old_names.take(i + 1)[j] == x);
                    }
                    if x == n {
                        assert(old_names.take(i + 1)[i as int] == x);
                    }
                    let t1 = old_names.take(i + 1);
                    if t1.contains(x) {
                        let j = choose|j: int| 0 <= j < t1.len() && t1[j] == x;
                        if j < i {
                            assert(t[j] == x);
                        }
                    }
                    if names_of(before).contains(x) {
                        let j = choose|j: int|
                            0 <= j < names_of(before).len() && names_of(before)[j] == x;
                        assert(names_of(kept@)[j] == x);
                    }
                    if names_of(kept@).contains(x) {
                        let j = choose|j: int|
                            0 <= j < names_of(kept@).len() && names_of(kept@)[j] == x;
                        if j < before.len() {
                            assert(names_of(before)[j] == x);
                        }
                    }
                    if x == n && server.spec_has_player(x) {
                        assert(names_of(kept@)[before.len() as int] == x);
                    }
                }
            }
            i = i + 1;
        }
        proof {
            assert(old_names.take(i as int) =~= old_names);
        }
        self.already_kicked_list_players = kept;
        assert(self.kicked() =~= old(self).kicked().filter(|n: Seq<char>| server.spec_has_player(n)));
    }
}

} // verus!

//! The inventory: which servers belong to which group.
//!
//! Servers and groups are known here by their ids alone. A server names its
//! group by the group's id; servers are referred to by their position in the
//! list that the caller holds.

use vstd::prelude::*;

verus! {

/// The positions, in rising order, of the servers whose group is `group`.
pub open spec fn members(server_groups: Seq<i64>, group: i64) -> Seq<int>
    decreases server_groups.len(),
{
    if server_groups.len() == 0 {
        Seq::empty()
    } else {
        let front = members(server_groups.drop_last(), group);
        if server_groups.last() == group {
            front.push(server_groups.len() - 1)
        } else {
            front
        }
    }
}

/// The positions that a vector of indices holds.
pub open spec fn positions(indices: Seq<usize>) -> Seq<int> {
    Seq::new(indices.len(), |i: int| indices[i] as int)
}

/// The members of each group, in the order of the groups.
pub open spec fn membership(groups: Seq<i64>, server_groups: Seq<i64>) -> Seq<Seq<int>> {
    Seq::new(groups.len(), |g: int| members(server_groups, groups[g]))
}

/// The positions that a table of indices holds.
pub open spec fn position_table(table: Seq<Vec<usize>>) -> Seq<Seq<int>> {
    Seq::new(table.len(), |g: int| positions(table[g]@))
}

/// The servers of one group: the positions in `server_groups` that hold
/// `group`, in rising order.
pub fn servers_of_group(server_groups: &Vec<i64>, group: i64) -> (found: Vec<usize>)
    ensures
        positions(found@) == members(server_groups@, group),
{
    let mut found: Vec<usize> = Vec::new();
    for i in 0..server_groups.len()
        invariant
            positions(found@) == members(server_groups@.take(i as int), group),
    {
        assert(server_groups@.take(i + 1).drop_last() =~= server_groups@.take(i as int));
        if server_groups[i] == group {
            found.push(i);
        }
    }
    assert(server_groups@.take(server_groups@.len() as int) =~= server_groups@);
    found
}

/// The servers of every group: for each group of `groups`, in order, the
/// positions of its servers.
pub fn servers_by_group(groups: &Vec<i64>, server_groups: &Vec<i64>) -> (table: Vec<Vec<usize>>)
    ensures
        position_table(table@) == membership(groups@, server_groups@),
{
    let mut table: Vec<Vec<usize>> = Vec::new();
    for g in 0..groups.len()
        invariant
            table@.len() == g,
            forall|k: int|
                0 <= k < g ==> positions(#[trigger] table@[k]@) == members(
                    server_groups@,
                    groups@[k],
                ),
    {
        let found = servers_of_group(server_groups, groups[g]);
        table.push(found);
    }
    table
}

/// A position is among the members of a group exactly when the server there
/// names the group, and the members stand in rising order.
pub proof fn lemma_members(server_groups: Seq<i64>, group: i64)
    ensures
        forall|i: int|
            0 <= i < server_groups.len() && server_groups[i] == group <==> members(
                server_groups,
                group,
            ).contains(i),
        forall|a: int, b: int|
            0 <= a < b < members(server_groups, group).len() ==> members(server_groups, group)[a]
                < members(server_groups, group)[b],
        forall|a: int|
            0 <= a < members(server_groups, group).len() ==> 0 <= #[trigger] members(
                server_groups,
                group,
            )[a] < server_groups.len(),
    decreases server_groups.len(),
{
    let all = members(server_groups, group);
    if server_groups.len() > 0 {
        let front_ids = server_groups.drop_last();
        let front = members(front_ids, group);
        let last = server_groups.len() - 1;
        lemma_members(front_ids, group);
        assert forall|i: int| 0 <= i < server_groups.len() && server_groups[i] == group implies all.contains(
            i,
        ) by {
            if i < last {
                assert(front_ids[i] == server_groups[i]);
                let k = choose|k: int| 0 <= k < front.len() && front[k] == i;
                assert(all[k] == i);
            } else {
                assert(all[all.len() - 1] == i);
            }
        }
        assert forall|i: int| all.contains(i) implies 0 <= i < server_groups.len()
            && server_groups[i] == group by {
            let k = choose|k: int| 0 <= k < all.len() && all[k] == i;
            if k < front.len() {
                assert(front_ids[i] == server_groups[i]);
            }
        }
    } else {
        assert forall|i: int| all.contains(i) implies false by {
            let k = choose|k: int| 0 <= k < all.len() && all[k] == i;
        }
    }
}

} // verus!

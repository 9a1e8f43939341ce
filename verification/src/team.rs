//! A team: an owned, ordered sequence of members, appended to one at a
//! time, together with the query for who is online at a given instant.

use crate::member::{Member, MemberView};
use crate::time::TimeOfDay;
use vstd::prelude::*;

verus! {

/// The members of `members` that are online at `t`, kept in their original
/// order: the sequence filtered by the online predicate.
pub open spec fn online_members(members: Seq<MemberView>, t: TimeOfDay) -> Seq<MemberView>
    decreases members.len(),
{
    if members.len() == 0 {
        Seq::empty()
    } else {
        let rest = online_members(members.drop_last(), t);
        if members.last().is_online(t) {
            rest.push(members.last())
        } else {
            rest
        }
    }
}

/// The member views of a sequence of member references, in order.
pub open spec fn member_views(members: Seq<&Member>) -> Seq<MemberView> {
    members.map_values(|m: &Member| m@)
}

/// A team of members. Insertion order is preserved and is the order
/// surfaced by the online query; `add_member` is the only mutation.
pub struct Team {
    members: Vec<Member>,
}

impl View for Team {
    type V = Seq<MemberView>;

    closed spec fn view(&self) -> Seq<MemberView> {
        self.members@.map_values(|m: Member| m@)
    }
}

impl Team {
    /// Builds a team with no members.
    pub fn new() -> (t: Team)
        ensures
            t@ == Seq::<MemberView>::empty(),
    {
        let t = Team { members: Vec::new() };
        proof {
            assert(t@ =~= Seq::<MemberView>::empty());
        }
        t
    }

    /// Appends a member at the end of the team; no deduplication, no
    /// validation beyond what member construction already enforces.
    pub fn add_member(&mut self, member: Member)
        ensures
            final(self)@ == old(self)@.push(member@),
    {
        let ghost mv = member@;
        self.members.push(member);
        proof {
            assert(self@ =~= old(self)@.push(mv));
        }
    }

    /// The team's members, in insertion order.
    pub fn members(&self) -> (m: &Vec<Member>)
        ensures
            m@.len() == self@.len(),
            forall|i: int| 0 <= i < m@.len() ==> (#[trigger] m@[i])@ == self@[i],
    {
        &self.members
    }

    /// The members online at `current_time`, in insertion order: the team's
    /// member sequence filtered by the online predicate, never reordered.
    pub fn members_online(&self, current_time: TimeOfDay) -> (r: Vec<&Member>)
        ensures
            member_views(r@) == online_members(self@, current_time),
    {
        let mut result: Vec<&Member> = Vec::new();
        let n = self.members.len();
        proof {
            assert(member_views(result@) =~= online_members(self@.take(0), current_time));
        }
        for i in 0..n
            invariant
                n == self.members@.len(),
                self@.len() == n,
                member_views(result@) == online_members(self@.take(i as int), current_time),
        {
            let ghost prefix = self@.take(i as int);
            let ghost old_result = result@;
            let online = self.members[i].is_online(current_time);
            if online {
                result.push(&self.members[i]);
            }
            proof {
                let next = self@.take(i + 1);
                assert(next.drop_last() =~= prefix);
                assert(next.last() == self@[i as int]);
                if online {
                    assert(member_views(result@) =~= member_views(old_result).push(
                        self@[i as int],
                    ));
                } else {
                    assert(member_views(result@) =~= member_views(old_result));
                }
            }
        }
        proof {
            assert(self@.take(n as int) =~= self@);
        }
        result
    }
}

/// A member view is in the online query's result exactly when it is one of
/// the given member views and is online at `t`. Duplicate members stand for
/// themselves: each occurrence is kept or dropped on the same test.
pub proof fn lemma_online_membership(members: Seq<MemberView>, t: TimeOfDay, mv: MemberView)
    ensures
        online_members(members, t).contains(mv) <==> members.contains(mv) && mv.is_online(t),
    decreases members.len(),
{
    if members.len() > 0 {
        let rest_m = members.drop_last();
        lemma_online_membership(rest_m, t, mv);
        let rest = online_members(rest_m, t);
        let last = members.last();
        assert(members.contains(mv) <==> rest_m.contains(mv) || last == mv) by {
            if members.contains(mv) {
                let i = choose|i: int| 0 <= i < members.len() && members[i] == mv;
                if i < members.len() - 1 {
                    assert(rest_m[i] == mv);
                }
            }
            if rest_m.contains(mv) {
                let i = choose|i: int| 0 <= i < rest_m.len() && rest_m[i] == mv;
                assert(members[i] == mv);
            }
            assert(members[members.len() - 1] == last);
        };
        if last.is_online(t) {
            assert(rest.push(last).contains(mv) <==> rest.contains(mv) || last == mv) by {
                if rest.push(last).contains(mv) {
                    let i = choose|i: int|
                        0 <= i < rest.push(last).len() && rest.push(last)[i] == mv;
                    if i < rest.len() {
                        assert(rest[i] == mv);
                    }
                }
                if rest.contains(mv) {
                    let i = choose|i: int| 0 <= i < rest.len() && rest[i] == mv;
                    assert(rest.push(last)[i] == mv);
                }
                assert(rest.push(last)[rest.len() as int] == last);
            };
        }
    }
}

/// The online query never reorders: appending a member to the team appends
/// that member at the end of the query's result when they are online at
/// `t`, and leaves the result unchanged when they are not. The result order
/// is therefore the insertion order, filtered.
pub proof fn lemma_online_append(members: Seq<MemberView>, added: MemberView, t: TimeOfDay)
    ensures
        online_members(members.push(added), t) == if added.is_online(t) {
            online_members(members, t).push(added)
        } else {
            online_members(members, t)
        },
{
    let appended = members.push(added);
    assert(appended.drop_last() =~= members);
    assert(appended.last() == added);
}

/// The online query is deterministic: on equal member sequences and equal
/// instants it yields equal results.
pub proof fn lemma_online_deterministic(
    members1: Seq<MemberView>,
    members2: Seq<MemberView>,
    t1: TimeOfDay,
    t2: TimeOfDay,
)
    requires
        members1 == members2,
        t1 == t2,
    ensures
        online_members(members1, t1) == online_members(members2, t2),
{
}

} // verus!

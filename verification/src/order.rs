//! Total orders over a closed enumeration, and the check that a given order
//! names every member exactly once.

use vstd::prelude::*;
use vstd::set_lib::{lemma_int_range, set_int_range};

verus! {

/// A closed enumeration whose members are numbered from zero.
pub trait OrderMember: Copy + Sized {
    /// How many members there are.
    spec fn spec_count() -> nat;

    /// The member's number.
    spec fn spec_ordinal(self) -> nat;

    /// The member with the given number.
    spec fn spec_member(ordinal: nat) -> Self;

    /// Numbers are below the count, and a member is found again by its number.
    proof fn lemma_ordinal(self)
        ensures
            self.spec_ordinal() < Self::spec_count(),
            Self::spec_member(self.spec_ordinal()) == self,
    ;

    /// A number below the count is the number of the member that it finds.
    proof fn lemma_member(ordinal: nat)
        requires
            ordinal < Self::spec_count(),
        ensures
            Self::spec_member(ordinal).spec_ordinal() == ordinal,
    ;

    /// How many members there are.
    fn count() -> (count: usize)
        ensures
            count == Self::spec_count(),
    ;

    /// The member's number.
    fn ordinal(self) -> (ordinal: usize)
        ensures
            ordinal == self.spec_ordinal(),
    ;

    /// The member with the given number, if the number is below the count.
    fn member(ordinal: usize) -> (member: Option<Self>)
        ensures
            ordinal < Self::spec_count() ==> member == Some(Self::spec_member(ordinal as nat)),
            ordinal >= Self::spec_count() ==> member is None,
    ;
}

/// What keeps an order from being a permutation of its enumeration.
#[derive(Debug, Clone, Copy, PartialEq, Eq)]
pub enum OrderDefect<T> {
    /// The member occurs more than once.
    Duplicate(T),
    /// The member does not occur.
    Missing(T),
}

/// Every member of the enumeration occurs in `order`.
pub open spec fn spec_covers<T: OrderMember>(order: Seq<T>) -> bool {
    forall|k: nat| k < T::spec_count() ==> order.contains(#[trigger] T::spec_member(k))
}

/// `order` names every member of its enumeration exactly once.
pub open spec fn spec_is_permutation<T: OrderMember>(order: Seq<T>) -> bool {
    order.no_duplicates() && spec_covers(order)
}

/// Position `at` holds the first repetition in `order`: nothing repeats
/// before it, and its member occurred before.
pub open spec fn spec_first_repeat_at<T>(order: Seq<T>, at: int) -> bool {
    &&& 0 <= at < order.len()
    &&& order.take(at).no_duplicates()
    &&& order.take(at).contains(order[at])
}

/// `ordinal` numbers the first member, by number, that `order` leaves out.
pub open spec fn spec_first_missing_at<T: OrderMember>(order: Seq<T>, ordinal: nat) -> bool {
    &&& ordinal < T::spec_count()
    &&& !order.contains(T::spec_member(ordinal))
    &&& forall|k: nat| k < ordinal ==> order.contains(#[trigger] T::spec_member(k))
}

/// `defect` is the defect to report for `order`: the member at the first
/// repetition, if anything repeats; else the first member left out.
pub open spec fn spec_is_defect_of<T: OrderMember>(order: Seq<T>, defect: OrderDefect<T>) -> bool {
    match defect {
        OrderDefect::Duplicate(member) => exists|at: int|
            spec_first_repeat_at(order, at) && order[at] == member,
        OrderDefect::Missing(member) => order.no_duplicates() && exists|ordinal: nat|
            spec_first_missing_at(order, ordinal) && T::spec_member(ordinal) == member,
    }
}

/// Whether a member numbered `ordinal` occurs among the first `upto` of `order`.
pub open spec fn spec_occurs_before<T: OrderMember>(
    order: Seq<T>,
    upto: int,
    ordinal: int,
) -> bool {
    exists|i: int|
        0 <= i < upto && i < order.len() && (#[trigger] order[i]).spec_ordinal() == ordinal
}

/// The defect of `order`, if it has one: `None` exactly for a permutation of
/// the enumeration. A repetition is reported before an omission.
pub fn order_defect<T: OrderMember>(order: &Vec<T>) -> (defect: Option<OrderDefect<T>>)
    ensures
        defect is None <==> spec_is_permutation(order@),
        defect matches Some(found) ==> spec_is_defect_of(order@, found),
        defect matches Some(OrderDefect::Duplicate(_)) <==> !order@.no_duplicates(),
{
    let count = T::count();
    let mut seen: Vec<bool> = Vec::new();
    let mut k: usize = 0;
    while k < count
        invariant
            k <= count,
            seen.len() == k,
            forall|m: int| 0 <= m < k ==> !seen@[m],
        decreases count - k,
    {
        seen.push(false);
        k += 1;
    }
    let mut at: usize = 0;
    while at < order.len()
        invariant
            at <= order.len(),
            count == T::spec_count(),
            seen.len() == count,
            order@.take(at as int).no_duplicates(),
            forall|m: int| 0 <= m < count ==> seen@[m] == spec_occurs_before(order@, at as int, m),
        decreases order.len() - at,
    {
        let member = order[at];
        proof {
            member.lemma_ordinal();
        }
        let ordinal = member.ordinal();
        if seen[ordinal] {
            proof {
                let i = choose|i: int|
                    0 <= i < at && i < order@.len() && (#[trigger] order@[i]).spec_ordinal()
                        == ordinal;
                order@[i].lemma_ordinal();
                assert(order@.take(at as int)[i] == member);
                assert(spec_first_repeat_at(order@, at as int));
                assert(order@[i] == order@[at as int] && i != at);
            }
            return Some(OrderDefect::Duplicate(member));
        }
        seen.set(ordinal, true);
        proof {
            let before = order@.take(at as int);
            let upto = order@.take(at + 1);
            assert forall|i: int, j: int|
                0 <= i < upto.len() && 0 <= j < upto.len() && i != j implies upto[i]
                != upto[j] by {
                assert(upto[i] == order@[i] && upto[j] == order@[j]);
                if i < at && j < at {
                    assert(before[i] == order@[i] && before[j] == order@[j]);
                } else if i == at {
                    assert(!spec_occurs_before(order@, at as int, ordinal as int));
                } else {
                    assert(!spec_occurs_before(order@, at as int, ordinal as int));
                }
            }
            assert forall|m: int| 0 <= m < count implies seen@[m] == spec_occurs_before(
                order@,
                at + 1,
                m,
            ) by {
                if m == ordinal {
                    assert(order@[at as int].spec_ordinal() == m);
                } else if spec_occurs_before(order@, at as int, m) {
                    let i = choose|i: int|
                        0 <= i < at && i < order@.len() && (#[trigger] order@[i]).spec_ordinal()
                            == m;
                    assert(order@[i].spec_ordinal() == m);
                } else if spec_occurs_before(order@, at + 1, m) {
                    let i = choose|i: int|
                        0 <= i < at + 1 && i < order@.len() && (
                        #[trigger] order@[i]).spec_ordinal() == m;
                    assert(i < at);
                    assert(order@[i].spec_ordinal() == m);
                }
            }
        }
        at += 1;
    }
    assert(order@.take(at as int) =~= order@);
    let mut ordinal: usize = 0;
    while ordinal < count
        invariant
            ordinal <= count,
            count == T::spec_count(),
            seen.len() == count,
            at == order.len(),
            order@.no_duplicates(),
            forall|m: int| 0 <= m < count ==> seen@[m] == spec_occurs_before(order@, at as int, m),
            forall|k: nat| k < ordinal ==> order@.contains(#[trigger] T::spec_member(k)),
        decreases count - ordinal,
    {
        let member = T::member(ordinal);
        if !seen[ordinal] {
            proof {
                let absent = T::spec_member(ordinal as nat);
                T::lemma_member(ordinal as nat);
                if order@.contains(absent) {
                    let i = choose|i: int| 0 <= i < order@.len() && order@[i] == absent;
                    assert(order@[i].spec_ordinal() == ordinal);
                    assert(spec_occurs_before(order@, at as int, ordinal as int));
                }
                assert(spec_first_missing_at(order@, ordinal as nat));
            }
            match member {
                Some(member) => {
                    return Some(OrderDefect::Missing(member));
                },
                None => {},
            }
        } else {
            proof {
                let i = choose|i: int|
                    0 <= i < at && i < order@.len() && (#[trigger] order@[i]).spec_ordinal()
                        == ordinal;
                order@[i].lemma_ordinal();
                assert(order@[i] == T::spec_member(ordinal as nat));
            }
        }
        ordinal += 1;
    }
    None
}

/// A permutation of an enumeration is as long as the enumeration has
/// members: with nothing repeated and nothing left out, every member occurs
/// exactly once.
pub proof fn law_permutation_length<T: OrderMember>(order: Seq<T>)
    requires
        spec_is_permutation(order),
    ensures
        order.len() == T::spec_count(),
{
    let ordinals = order.map_values(|member: T| member.spec_ordinal() as int);
    assert forall|i: int, j: int|
        0 <= i < ordinals.len() && 0 <= j < ordinals.len() && i != j implies ordinals[i]
        != ordinals[j] by {
        order[i].lemma_ordinal();
        order[j].lemma_ordinal();
    }
    ordinals.unique_seq_to_set();
    let all = set_int_range(0, T::spec_count() as int);
    assert forall|k: int| ordinals.to_set().contains(k) <==> all.contains(k) by {
        if ordinals.to_set().contains(k) {
            let i = choose|i: int| 0 <= i < ordinals.len() && ordinals[i] == k;
            order[i].lemma_ordinal();
        }
        if all.contains(k) {
            T::lemma_member(k as nat);
            let member = T::spec_member(k as nat);
            assert(order.contains(member));
            let i = choose|i: int| 0 <= i < order.len() && order[i] == member;
            assert(ordinals[i] == k);
        }
    }
    assert(ordinals.to_set() =~= all);
    lemma_int_range(0, T::spec_count() as int);
}

} // verus!

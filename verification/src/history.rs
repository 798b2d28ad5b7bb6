//! What a room lists after any history of additions and departures.
use crate::ids::{ParticipantId, ProducerId};
use crate::room::{
    client_listing, departed, distinct, is_at, lemma_departed_distinct, lemma_named_distinct,
    lemma_position, lemma_produced_distinct, listing, named, position, produced, producers_of,
    removal_events, ClientView, ListingView, Producer,
};
use vstd::multiset::*;
use vstd::prelude::*;
use vstd::seq_lib::*;

verus! {

/// One change to a room's entries.
pub enum RoomOp {
    /// A participant was given a display name.
    Named(ParticipantId, Seq<char>),
    /// A participant created a producer.
    Added(ParticipantId, Producer),
    /// A participant left.
    Removed(ParticipantId),
}

/// The entries `cs` after the change `op`.
pub open spec fn step(cs: Seq<ClientView>, op: RoomOp) -> Seq<ClientView> {
    match op {
        RoomOp::Named(pid, name) => named(cs, pid, name),
        RoomOp::Added(pid, p) => produced(cs, pid, p),
        RoomOp::Removed(pid) => departed(cs, pid),
    }
}

/// The entries of a room that was empty and has gone through `ops`.
pub open spec fn run(ops: Seq<RoomOp>) -> Seq<ClientView>
    decreases ops.len(),
{
    if ops.len() == 0 {
        Seq::empty()
    } else {
        step(run(ops.drop_last()), ops.last())
    }
}

/// The producers that `ops` leaves, each with its owner: every producer
/// that was added, less those whose owner left after they were added.
pub open spec fn surviving(ops: Seq<RoomOp>) -> Multiset<(ParticipantId, ProducerId)>
    decreases ops.len(),
{
    if ops.len() == 0 {
        Multiset::empty()
    } else {
        let before = surviving(ops.drop_last());
        match ops.last() {
            RoomOp::Named(_, _) => before,
            RoomOp::Added(pid, p) => before.insert((pid, p.id)),
            RoomOp::Removed(pid) => before.filter(|t: (ParticipantId, ProducerId)| t.0 != pid),
        }
    }
}

/// The owner and the producer of a listing line.
pub open spec fn owner_and_producer(line: ListingView) -> (ParticipantId, ProducerId) {
    (line.0, line.2)
}

/// The listing of `cs` without the names.
pub open spec fn owned(cs: Seq<ClientView>) -> Seq<(ParticipantId, ProducerId)> {
    listing(cs).map_values(|line: ListingView| owner_and_producer(line))
}

/// The producers `ps` as those of the owner `q`.
pub open spec fn pairs_of(q: ParticipantId, ps: Seq<Producer>) -> Seq<
    (ParticipantId, ProducerId),
> {
    Seq::new(ps.len(), |k: int| (q, ps[k].id))
}

/// How many of the producers `ps` carry the identifier `x`.
pub open spec fn times(ps: Seq<Producer>, x: ProducerId) -> nat
    decreases ps.len(),
{
    if ps.len() == 0 {
        0
    } else {
        times(ps.drop_last(), x) + if ps.last().id == x {
            1nat
        } else {
            0nat
        }
    }
}

proof fn lemma_owned_push(pre: Seq<ClientView>, c: ClientView)
    ensures
        owned(pre.push(c)) == owned(pre) + pairs_of(c.participant_id, c.producers),
{
    let cs = pre.push(c);
    assert(cs.drop_last() =~= pre);
    assert(cs.last() == c);
    assert(listing(cs) == listing(pre) + client_listing(c));
    assert(owned(cs) =~= owned(pre) + pairs_of(c.participant_id, c.producers));
}

proof fn lemma_empty_count<A>(t: A)
    ensures
        Seq::<A>::empty().to_multiset().count(t) == 0,
{
    broadcast use group_multiset_axioms;

    Seq::<A>::empty().to_multiset_ensures();
}

proof fn lemma_pairs_count(q: ParticipantId, ps: Seq<Producer>, pid: ParticipantId, x: ProducerId)
    ensures
        pairs_of(q, ps).to_multiset().count((pid, x)) == if q == pid {
            times(ps, x)
        } else {
            0
        },
    decreases ps.len(),
{
    broadcast use group_multiset_axioms;

    if ps.len() == 0 {
        assert(pairs_of(q, ps) =~= Seq::empty());
        lemma_empty_count((pid, x));
    } else {
        let pre = ps.drop_last();
        lemma_pairs_count(q, pre, pid, x);
        assert(pairs_of(q, ps) =~= pairs_of(q, pre).push((q, ps.last().id)));
        to_multiset_build(pairs_of(q, pre), (q, ps.last().id));
    }
}

proof fn lemma_position_push(pre: Seq<ClientView>, c: ClientView, pid: ParticipantId)
    requires
        distinct(pre.push(c)),
    ensures
        distinct(pre),
        producers_of(pre.push(c), pid) == if c.participant_id == pid {
            c.producers
        } else {
            producers_of(pre, pid)
        },
        c.participant_id == pid ==> position(pre, pid).is_none(),
{
    let cs = pre.push(c);
    assert forall|i: int, j: int| 0 <= i < j < pre.len() implies pre[i].participant_id
        != pre[j].participant_id by {
        assert(cs[i] == pre[i] && cs[j] == pre[j]);
    }
    if c.participant_id == pid {
        assert(is_at(cs, pid, pre.len() as int));
        lemma_position(cs, pid, pre.len() as int);
        assert forall|i: int| !is_at(pre, pid, i) by {
            if 0 <= i < pre.len() {
                assert(cs[i] == pre[i]);
                assert(cs[i].participant_id != cs[pre.len() as int].participant_id);
            }
        }
    } else {
        if exists|i: int| is_at(pre, pid, i) {
            let i = choose|i: int| is_at(pre, pid, i);
            assert(cs[i] == pre[i]);
            assert(is_at(cs, pid, i));
            lemma_position(cs, pid, i);
            lemma_position(pre, pid, i);
        } else {
            assert forall|i: int| !is_at(cs, pid, i) by {
                if 0 <= i < pre.len() {
                    assert(cs[i] == pre[i]);
                    assert(!is_at(pre, pid, i));
                }
            }
        }
    }
}

/// With distinct entries, a line of owner `pid` and producer `x` stands in
/// the listing as often as `pid`'s own producers carry `x`.
pub proof fn lemma_count(cs: Seq<ClientView>, pid: ParticipantId, x: ProducerId)
    requires
        distinct(cs),
    ensures
        owned(cs).to_multiset().count((pid, x)) == times(producers_of(cs, pid), x),
    decreases cs.len(),
{
    broadcast use group_multiset_axioms;

    if cs.len() == 0 {
        assert(owned(cs) =~= Seq::empty());
        lemma_empty_count((pid, x));
        assert forall|i: int| !is_at(cs, pid, i) by {}
    } else {
        let pre = cs.drop_last();
        let c = cs.last();
        assert(cs =~= pre.push(c));
        lemma_position_push(pre, c, pid);
        lemma_owned_push(pre, c);
        lemma_count(pre, pid, x);
        lemma_pairs_count(c.participant_id, c.producers, pid, x);
        lemma_multiset_commutative(owned(pre), pairs_of(c.participant_id, c.producers));
    }
}

/// A new producer is the last of its owner's producers and leaves those of
/// everybody else as they were.
pub proof fn lemma_producers_after_added(
    cs: Seq<ClientView>,
    pid: ParticipantId,
    p: Producer,
    q: ParticipantId,
)
    requires
        distinct(cs),
    ensures
        producers_of(produced(cs, pid, p), q) == if q == pid {
            producers_of(cs, pid).push(p)
        } else {
            producers_of(cs, q)
        },
{
    let after = produced(cs, pid, p);
    lemma_produced_distinct(cs, pid, p);
    match position(cs, pid) {
        Some(i) => {
            assert(is_at(cs, pid, i));
            if q == pid {
                assert(is_at(after, pid, i));
                lemma_position(after, pid, i);
            } else {
                lemma_elsewhere(cs, after, q);
            }
        },
        None => {
            if q == pid {
                assert(is_at(after, pid, cs.len() as int));
                lemma_position(after, pid, cs.len() as int);
                assert(seq![p] =~= Seq::<Producer>::empty().push(p));
            } else {
                lemma_elsewhere(cs, after, q);
            }
        },
    }
}

/// Where two lists of entries agree on every entry of `q`, place by place,
/// they agree on `q`'s producers.
proof fn lemma_elsewhere(cs: Seq<ClientView>, after: Seq<ClientView>, q: ParticipantId)
    requires
        distinct(cs),
        distinct(after),
        cs.len() <= after.len(),
        forall|k: int| 0 <= k < cs.len() ==> (cs[k] == after[k] || (cs[k].participant_id != q
            && after[k].participant_id != q)),
        forall|k: int| cs.len() <= k < after.len() ==> after[k].participant_id != q,
    ensures
        producers_of(after, q) == producers_of(cs, q),
{
    if exists|j: int| is_at(cs, q, j) {
        let j = choose|j: int| is_at(cs, q, j);
        assert(is_at(after, q, j));
        lemma_position(cs, q, j);
        lemma_position(after, q, j);
    } else {
        assert forall|k: int| !is_at(after, q, k) by {
            if 0 <= k < cs.len() {
                assert(!is_at(cs, q, k));
            }
        }
    }
}

/// A departure leaves nothing of the one who left and leaves the producers
/// of everybody else as they were.
pub proof fn lemma_producers_after_removed(cs: Seq<ClientView>, pid: ParticipantId, q: ParticipantId)
    requires
        distinct(cs),
    ensures
        producers_of(departed(cs, pid), q) == if q == pid {
            Seq::<Producer>::empty()
        } else {
            producers_of(cs, q)
        },
{
    let after = departed(cs, pid);
    lemma_departed_distinct(cs, pid);
    match position(cs, pid) {
        Some(i) => {
            assert(is_at(cs, pid, i));
            if q != pid {
                if exists|j: int| is_at(cs, q, j) {
                    let j = choose|j: int| is_at(cs, q, j);
                    let j1 = if j < i {
                        j
                    } else {
                        j - 1
                    };
                    assert(after[j1] == cs[j]);
                    assert(is_at(after, q, j1));
                    lemma_position(cs, q, j);
                    lemma_position(after, q, j1);
                } else {
                    assert forall|k: int| !is_at(after, q, k) by {
                        if 0 <= k < after.len() {
                            let k0 = if k < i {
                                k
                            } else {
                                k + 1
                            };
                            assert(after[k] == cs[k0]);
                            assert(!is_at(cs, q, k0));
                        }
                    }
                }
            }
        },
        None => {},
    }
}

/// A new name leaves everybody's producers as they were.
pub proof fn lemma_producers_after_named(
    cs: Seq<ClientView>,
    pid: ParticipantId,
    name: Seq<char>,
    q: ParticipantId,
)
    requires
        distinct(cs),
    ensures
        producers_of(named(cs, pid, name), q) == producers_of(cs, q),
{
    let after = named(cs, pid, name);
    lemma_named_distinct(cs, pid, name);
    match position(cs, pid) {
        Some(i) => {
            assert(is_at(cs, pid, i));
            if q == pid {
                assert(is_at(after, pid, i));
                lemma_position(after, pid, i);
            } else {
                lemma_elsewhere(cs, after, q);
            }
        },
        None => {
            if q == pid {
                assert(is_at(after, pid, cs.len() as int));
                lemma_position(after, pid, cs.len() as int);
            } else {
                lemma_elsewhere(cs, after, q);
            }
        },
    }
}

/// A new producer adds exactly one line to the listing, its own, and
/// takes none away.
pub proof fn lemma_listing_after_added(cs: Seq<ClientView>, pid: ParticipantId, p: Producer)
    requires
        distinct(cs),
    ensures
        owned(produced(cs, pid, p)).to_multiset() == owned(cs).to_multiset().insert((pid, p.id)),
{
    broadcast use group_multiset_axioms;

    let after = produced(cs, pid, p);
    lemma_produced_distinct(cs, pid, p);
    assert forall|t: (ParticipantId, ProducerId)|
        owned(after).to_multiset().count(t) == owned(cs).to_multiset().insert((pid, p.id)).count(
            t,
        ) by {
        lemma_count(cs, t.0, t.1);
        lemma_count(after, t.0, t.1);
        lemma_producers_after_added(cs, pid, p, t.0);
        if t.0 == pid {
            assert(producers_of(cs, pid).push(p).drop_last() =~= producers_of(cs, pid));
        }
    }
    assert(owned(after).to_multiset() =~= owned(cs).to_multiset().insert((pid, p.id)));
}

/// A departure takes exactly the lines of the one who left out of the
/// listing and leaves every other line, as often as it stood there.
pub proof fn lemma_listing_after_removed(cs: Seq<ClientView>, pid: ParticipantId)
    requires
        distinct(cs),
    ensures
        owned(departed(cs, pid)).to_multiset() == owned(cs).to_multiset().filter(
            |t: (ParticipantId, ProducerId)| t.0 != pid,
        ),
{
    broadcast use group_multiset_axioms;

    let after = departed(cs, pid);
    let kept = owned(cs).to_multiset().filter(|t: (ParticipantId, ProducerId)| t.0 != pid);
    lemma_departed_distinct(cs, pid);
    assert forall|t: (ParticipantId, ProducerId)|
        owned(after).to_multiset().count(t) == kept.count(t) by {
        lemma_count(cs, t.0, t.1);
        lemma_count(after, t.0, t.1);
        lemma_producers_after_removed(cs, pid, t.0);
    }
    assert(owned(after).to_multiset() =~= kept);
}

/// A new name changes no line's owner or producer.
pub proof fn lemma_listing_after_named(cs: Seq<ClientView>, pid: ParticipantId, name: Seq<char>)
    requires
        distinct(cs),
    ensures
        owned(named(cs, pid, name)).to_multiset() == owned(cs).to_multiset(),
{
    broadcast use group_multiset_axioms;

    let after = named(cs, pid, name);
    lemma_named_distinct(cs, pid, name);
    assert forall|t: (ParticipantId, ProducerId)|
        owned(after).to_multiset().count(t) == owned(cs).to_multiset().count(t) by {
        lemma_count(cs, t.0, t.1);
        lemma_count(after, t.0, t.1);
        lemma_producers_after_named(cs, pid, name, t.0);
    }
    assert(owned(after).to_multiset() =~= owned(cs).to_multiset());
}

/// Whatever additions, departures and namings an empty room goes through,
/// its entries stay distinct and its listing afterwards holds exactly the
/// producers that were added less those whose owner has left since, each as
/// often as it was added: none twice, none missing.
pub proof fn lemma_listing_is_what_survives(ops: Seq<RoomOp>)
    ensures
        distinct(run(ops)),
        owned(run(ops)).to_multiset() == surviving(ops),
    decreases ops.len(),
{
    if ops.len() == 0 {
        assert(owned(run(ops)) =~= Seq::empty());
        assert forall|t: (ParticipantId, ProducerId)|
            owned(run(ops)).to_multiset().count(t) == surviving(ops).count(t) by {
            broadcast use group_multiset_axioms;

            lemma_empty_count(t);
        }
        assert(owned(run(ops)).to_multiset() =~= surviving(ops));
    } else {
        let before = run(ops.drop_last());
        lemma_listing_is_what_survives(ops.drop_last());
        match ops.last() {
            RoomOp::Named(pid, name) => {
                lemma_named_distinct(before, pid, name);
                lemma_listing_after_named(before, pid, name);
            },
            RoomOp::Added(pid, p) => {
                lemma_produced_distinct(before, pid, p);
                lemma_listing_after_added(before, pid, p);
            },
            RoomOp::Removed(pid) => {
                lemma_departed_distinct(before, pid);
                lemma_listing_after_removed(before, pid);
            },
        }
    }
}

/// A departure causes one event for each producer of the one who leaves,
/// in the order in which they were created, and none where nobody of that
/// identifier is in the room, which then stays as it is.
pub proof fn lemma_one_event_per_producer(cs: Seq<ClientView>, pid: ParticipantId)
    ensures
        removal_events(cs, pid).len() == producers_of(cs, pid).len(),
        forall|k: int|
            0 <= k < producers_of(cs, pid).len() ==> #[trigger] removal_events(cs, pid)[k] == (
                pid,
                producers_of(cs, pid)[k].id,
            ),
        position(cs, pid).is_none() ==> removal_events(cs, pid).len() == 0 && departed(cs, pid)
            == cs,
{
}

/// Every line of a listing belongs to a participant that has an entry: a
/// participant without an entry has no line.
pub proof fn lemma_listed_have_entries(cs: Seq<ClientView>, pid: ParticipantId)
    requires
        position(cs, pid).is_none(),
    ensures
        forall|k: int| 0 <= k < listing(cs).len() ==> (#[trigger] listing(cs)[k]).0 != pid,
    decreases cs.len(),
{
    if cs.len() > 0 {
        let pre = cs.drop_last();
        assert forall|i: int| !is_at(pre, pid, i) by {
            if 0 <= i < pre.len() {
                assert(pre[i] == cs[i]);
                assert(!is_at(cs, pid, i));
            }
        }
        lemma_listed_have_entries(pre, pid);
        assert(!is_at(cs, pid, cs.len() - 1));
        let n = listing(pre).len();
        assert forall|k: int| 0 <= k < listing(cs).len() implies (#[trigger] listing(cs)[k]).0
            != pid by {
            if k < n {
                assert(listing(cs)[k] == listing(pre)[k]);
            } else {
                assert(listing(cs)[k] == client_listing(cs.last())[k - n]);
            }
        }
    }
}

} // verus!

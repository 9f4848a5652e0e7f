//! Properties that hold across several operations of the library, proved
//! over the same spec-level transitions the executable contracts use.

use vstd::prelude::*;

use crate::coordinator::assistant_message;
use crate::coordinator::replied_log;
use crate::coordinator::submitted_log;
use crate::coordinator::user_message;
use crate::message::MessageView;
use crate::message::Role;

verus! {

/// The log after one successful round trip: a submission appended as a user
/// message, then the delivered reply appended as an assistant message.
pub open spec fn round_trip_log(
    log: Seq<MessageView>,
    submission: Seq<char>,
    reply: Seq<char>,
) -> Seq<MessageView> {
    replied_log(submitted_log(log, submission), reply)
}

/// The log after a sequence of successful round trips, oldest first,
/// starting from an empty conversation.
pub open spec fn logged_round_trips(turns: Seq<(Seq<char>, Seq<char>)>) -> Seq<MessageView>
    decreases turns.len(),
{
    if turns.len() == 0 {
        Seq::empty()
    } else {
        round_trip_log(logged_round_trips(turns.drop_last()), turns.last().0, turns.last().1)
    }
}

/// After any sequence of non-empty submissions each answered by a reply,
/// the log holds exactly two messages per round trip, alternating user and
/// assistant messages, starting with a user message, with the user messages
/// in submission order.
pub proof fn lemma_round_trip_shape(turns: Seq<(Seq<char>, Seq<char>)>)
    requires
        forall|i: int| 0 <= i < turns.len() ==> (#[trigger] turns[i].0).len() > 0,
    ensures
        logged_round_trips(turns).len() == 2 * turns.len(),
        forall|i: int|
            0 <= i < turns.len() ==> logged_round_trips(turns)[2 * i] == user_message(
                turns[i].0,
            ),
        forall|i: int|
            0 <= i < turns.len() ==> logged_round_trips(turns)[2 * i + 1] == assistant_message(
                turns[i].1,
            ),
    decreases turns.len(),
{
    if turns.len() > 0 {
        let rest = turns.drop_last();
        assert(forall|i: int| 0 <= i < rest.len() ==> (#[trigger] rest[i].0).len() > 0);
        lemma_round_trip_shape(rest);
        let prev = logged_round_trips(rest);
        let whole = logged_round_trips(turns);
        assert(turns.last().0.len() > 0);
        assert(whole == prev.push(user_message(turns.last().0)).push(
            assistant_message(turns.last().1),
        ));
        assert forall|i: int| 0 <= i < turns.len() implies whole[2 * i] == user_message(
            turns[i].0,
        ) && whole[2 * i + 1] == assistant_message(turns[i].1) by {
            if i < turns.len() - 1 {
                assert(rest[i] == turns[i]);
                assert(whole[2 * i] == prev[2 * i]);
                assert(whole[2 * i + 1] == prev[2 * i + 1]);
            } else {
                assert(turns[i] == turns.last());
                assert(whole[2 * i] == user_message(turns.last().0));
                assert(whole[2 * i + 1] == assistant_message(turns.last().1));
            }
        }
    }
}

/// Every message of such a log carries the role its position demands: user
/// messages at even positions, assistant messages at odd ones.
pub proof fn lemma_round_trip_roles(turns: Seq<(Seq<char>, Seq<char>)>)
    requires
        forall|i: int| 0 <= i < turns.len() ==> (#[trigger] turns[i].0).len() > 0,
    ensures
        forall|j: int|
            0 <= j < logged_round_trips(turns).len() ==> (#[trigger] logged_round_trips(
                turns,
            )[j]).role == (if j % 2 == 0 {
                Role::User
            } else {
                Role::Assistant
            }),
{
    lemma_round_trip_shape(turns);
    let whole = logged_round_trips(turns);
    assert forall|j: int| 0 <= j < whole.len() implies (#[trigger] whole[j]).role == (if j % 2
        == 0 {
        Role::User
    } else {
        Role::Assistant
    }) by {
        let i = j / 2;
        assert(0 <= i < turns.len());
        if j % 2 == 0 {
            assert(j == 2 * i);
            assert(whole[2 * i] == user_message(turns[i].0));
        } else {
            assert(j == 2 * i + 1);
            assert(whole[2 * i + 1] == assistant_message(turns[i].1));
        }
    }
}

/// Snapshot isolation: a snapshot equal to the log at the moment it was
/// taken observes nothing of a later append — the grown log extends the
/// snapshot, and every position of the snapshot still holds what it held.
pub proof fn lemma_snapshot_isolation(
    snap: Seq<MessageView>,
    log: Seq<MessageView>,
    appended: MessageView,
)
    requires
        snap == log,
    ensures
        log.push(appended).len() == snap.len() + 1,
        forall|i: int| 0 <= i < snap.len() ==> log.push(appended)[i] == snap[i],
        log.push(appended).take(snap.len() as int) == snap,
{
    assert(log.push(appended).take(snap.len() as int) =~= snap);
}

/// Two submissions in rapid succession, before either reply returns,
/// produce two independent snapshots of different log states: the first
/// ends with the first user message, and the second extends the first by
/// exactly the second user message.
pub proof fn lemma_concurrent_dispatch(
    log: Seq<MessageView>,
    first: Seq<char>,
    second: Seq<char>,
)
    requires
        first.len() > 0,
        second.len() > 0,
    ensures
        ({
            let snap1 = submitted_log(log, first);
            let snap2 = submitted_log(snap1, second);
            &&& snap1.len() == log.len() + 1
            &&& snap2.len() == log.len() + 2
            &&& snap1 != snap2
            &&& snap1.last() == user_message(first)
            &&& snap2[log.len() as int] == user_message(first)
            &&& snap2 == snap1.push(user_message(second))
        }),
{
    let snap1 = submitted_log(log, first);
    let snap2 = submitted_log(snap1, second);
    assert(snap1.len() != snap2.len());
}

} // verus!

use crate::flyt::{nick_of, FlytView};
use crate::ledger::LedgerView;
use crate::Error;
use vstd::prelude::*;

verus! {

/// A call that may give out an id.
pub enum Call {
    Post { caller: Seq<u8>, recipient: Seq<u8>, content: Seq<u8>, nick: Seq<char> },
    Reply { caller: Seq<u8>, respond_to: int, content: Seq<u8>, nick: Seq<char> },
}

/// One call: the id it gave out, if it succeeded, and the ledger after it.
pub open spec fn step(l: LedgerView, c: Call) -> (Option<int>, LedgerView) {
    match c {
        Call::Post { caller, recipient, content, nick } => {
            let (id, next) = l.post(caller, recipient, content, nick);
            (Some(id), next)
        },
        Call::Reply { caller, respond_to, content, nick } => {
            let (r, next) = l.reply(caller, respond_to, content, nick);
            match r {
                Ok(id) => (Some(id), next),
                Err(_) => (None, next),
            }
        },
    }
}

/// The ids that a run of calls gives out, in order, and the ledger after it.
pub open spec fn run(l: LedgerView, calls: Seq<Call>) -> (Seq<int>, LedgerView)
    decreases calls.len(),
{
    if calls.len() == 0 {
        (Seq::empty(), l)
    } else {
        let (ids, mid) = run(l, calls.drop_last());
        let (r, next) = step(mid, calls.last());
        match r {
            Some(id) => (ids.push(id), next),
            None => (ids, next),
        }
    }
}

/// Any run of posts and replies gives out the ids that follow the current
/// count, one by one: from an empty ledger that is 1, 2, 3, ... with no gap
/// and no repeat, and the count ends at the last id given out.
pub proof fn ids_are_consecutive(l: LedgerView, calls: Seq<Call>)
    ensures
        run(l, calls).1.count() == l.count() + run(l, calls).0.len(),
        forall|i: int|
            0 <= i < run(l, calls).0.len() ==> #[trigger] run(l, calls).0[i] == l.count() + i + 1,
    decreases calls.len(),
{
    if calls.len() > 0 {
        ids_are_consecutive(l, calls.drop_last());
    }
}

/// From an empty ledger the ids given out are 1, 2, 3, ...
pub proof fn ids_start_at_one(calls: Seq<Call>)
    ensures
        forall|i: int|
            0 <= i < run(LedgerView::empty(), calls).0.len() ==> #[trigger] run(
                LedgerView::empty(),
                calls,
            ).0[i] == i + 1,
        forall|i: int, j: int|
            0 <= i < j < run(LedgerView::empty(), calls).0.len() ==> #[trigger] run(
                LedgerView::empty(),
                calls,
            ).0[i] < #[trigger] run(LedgerView::empty(), calls).0[j],
{
    ids_are_consecutive(LedgerView::empty(), calls);
}

/// Reading the id that a post gave out yields the posted fields; without a
/// nickname the stored one is empty.
pub proof fn get_after_post(
    l: LedgerView,
    caller: Seq<u8>,
    recipient: Seq<u8>,
    content: Seq<u8>,
    nickname: Option<Seq<char>>,
)
    ensures
        ({
            let (id, next) = l.post(caller, recipient, content, nick_of(nickname));
            next.get(id) == Ok::<FlytView, Error>(
                FlytView {
                    from: caller,
                    from_nick: nick_of(nickname),
                    to: recipient,
                    content,
                    response: 0,
                },
            )
        }),
        nickname is None ==> nick_of(nickname) == Seq::<char>::empty(),
{
}

/// Reading the id that a reply gave out yields the replied fields, sent by
/// the caller to the sender of the flyt answered.
pub proof fn get_after_reply(
    l: LedgerView,
    caller: Seq<u8>,
    respond_to: int,
    content: Seq<u8>,
    nickname: Option<Seq<char>>,
)
    ensures
        ({
            let (r, next) = l.reply(caller, respond_to, content, nick_of(nickname));
            r matches Ok(id) ==> next.get(id) == Ok::<FlytView, Error>(
                FlytView {
                    from: caller,
                    from_nick: nick_of(nickname),
                    to: l.msg(respond_to).from,
                    content,
                    response: respond_to,
                },
            )
        }),
{
}

/// The ledger after `k` likes of flyt `id`.
pub open spec fn like_times(l: LedgerView, id: int, k: nat) -> LedgerView
    decreases k,
{
    if k == 0 {
        l
    } else {
        like_times(l, id, (k - 1) as nat).like(id).1
    }
}

/// `k` likes of an existing flyt add `k` to its like count and change
/// nothing else; a like of a missing flyt fails and changes nothing.
pub proof fn likes_add_up(l: LedgerView, id: int, k: nat)
    requires
        l.wf(),
    ensures
        l.has(id) ==> like_times(l, id, k).stats_of(id).likes == l.stats_of(id).likes + k,
        l.has(id) ==> like_times(l, id, k).stats_of(id).tips == l.stats_of(id).tips,
        l.has(id) ==> like_times(l, id, k).flyts == l.flyts,
        l.has(id) ==> like_times(l, id, k).stats.len() == l.stats.len(),
        !l.has(id) ==> l.like(id) == (Err::<(), Error>(Error::NotFound), l),
    decreases k,
{
    if k > 0 {
        likes_add_up(l, id, (k - 1) as nat);
    }
}

/// A freshly posted flyt liked `k` times has exactly `k` likes.
pub proof fn likes_of_new_flyt(
    l: LedgerView,
    caller: Seq<u8>,
    recipient: Seq<u8>,
    content: Seq<u8>,
    nick: Seq<char>,
    k: nat,
)
    requires
        l.wf(),
    ensures
        ({
            let (id, next) = l.post(caller, recipient, content, nick);
            like_times(next, id, k).get_stats(id) matches Ok(s) && s.likes == k
        }),
{
    let (id, next) = l.post(caller, recipient, content, nick);
    assert(next.wf());
    likes_add_up(next, id, k);
}

/// Only the addressee may answer a flyt: anyone else gets `NotAddressee`, and
/// the ledger, its count included, is left as it was.
pub proof fn stranger_cannot_reply(
    l: LedgerView,
    caller: Seq<u8>,
    respond_to: int,
    content: Seq<u8>,
    nick: Seq<char>,
)
    requires
        l.has(respond_to),
        l.msg(respond_to).to != caller,
    ensures
        l.reply(caller, respond_to, content, nick) == (Err::<int, Error>(Error::NotAddressee), l),
{
}

/// An answer by the addressee reverses the direction of the flyt answered
/// and points back at it.
pub proof fn reply_reverses_direction(
    l: LedgerView,
    caller: Seq<u8>,
    respond_to: int,
    content: Seq<u8>,
    nick: Seq<char>,
)
    requires
        l.has(respond_to),
        l.msg(respond_to).to == caller,
    ensures
        ({
            let (r, next) = l.reply(caller, respond_to, content, nick);
            &&& r == Ok::<int, Error>(l.next_id())
            &&& next.msg(l.next_id()).from == l.msg(respond_to).to
            &&& next.msg(l.next_id()).to == l.msg(respond_to).from
            &&& next.msg(l.next_id()).response == respond_to
        }),
{
}

} // verus!

use crate::flyt::{
    fresh_stats, nick_of, nick_or_empty, nick_view, Address, Error, Flyt, FlytStats, FlytView,
    StatsView,
};
use vstd::prelude::*;

verus! {

/// The ledger as plain values: flyt `n` (counting from 1) is `flyts[n - 1]`
/// and its counters are `stats[n - 1]`.
pub struct LedgerView {
    pub flyts: Seq<FlytView>,
    pub stats: Seq<StatsView>,
}

/// What answering `prev` gives: the answer goes from the addressee of `prev`
/// back to its sender.
pub open spec fn reply_draft(
    prev: Option<FlytView>,
    caller: Seq<u8>,
    respond_to: int,
    content: Seq<u8>,
    nick: Seq<char>,
) -> Result<FlytView, Error> {
    match prev {
        None => Err(Error::NoSuchMessage),
        Some(p) => if p.to != caller {
            Err(Error::NotAddressee)
        } else {
            Ok(FlytView { from: p.to, from_nick: nick, to: p.from, content, response: respond_to })
        },
    }
}

impl LedgerView {
    pub open spec fn empty() -> LedgerView {
        LedgerView { flyts: Seq::empty(), stats: Seq::empty() }
    }

    /// The highest id given out so far.
    pub open spec fn count(self) -> nat {
        self.flyts.len()
    }

    /// The id that the next flyt will get.
    pub open spec fn next_id(self) -> int {
        self.count() + 1 as int
    }

    /// Every flyt has its counters, and every answer points at an earlier flyt.
    pub open spec fn wf(self) -> bool {
        &&& self.stats.len() == self.flyts.len()
        &&& forall|i: int|
            0 <= i < self.flyts.len() ==> (#[trigger] self.flyts[i]).response == 0 || 1
                <= self.flyts[i].response <= i
    }

    pub open spec fn has(self, id: int) -> bool {
        1 <= id <= self.count()
    }

    pub open spec fn msg(self, id: int) -> FlytView {
        self.flyts[id - 1]
    }

    pub open spec fn stats_of(self, id: int) -> StatsView {
        self.stats[id - 1]
    }

    /// The flyt under `id`, if there is one.
    pub open spec fn get(self, id: int) -> Result<FlytView, Error> {
        if self.has(id) {
            Ok(self.msg(id))
        } else {
            Err(Error::NotFound)
        }
    }

    /// The counters of flyt `id`, if there is one.
    pub open spec fn get_stats(self, id: int) -> Result<StatsView, Error> {
        if self.has(id) {
            Ok(self.stats_of(id))
        } else {
            Err(Error::NotFound)
        }
    }

    /// The ledger with `f` stored under the next id, with zeroed counters.
    pub open spec fn append(self, f: FlytView) -> LedgerView {
        LedgerView { flyts: self.flyts.push(f), stats: self.stats.push(fresh_stats()) }
    }

    /// Posting: the id given out and the ledger after it.
    pub open spec fn post(
        self,
        caller: Seq<u8>,
        recipient: Seq<u8>,
        content: Seq<u8>,
        nick: Seq<char>,
    ) -> (int, LedgerView) {
        (
            self.next_id(),
            self.append(
                FlytView { from: caller, from_nick: nick, to: recipient, content, response: 0 },
            ),
        )
    }

    /// Replying: the id given out, or the error, and the ledger after it.
    pub open spec fn reply(
        self,
        caller: Seq<u8>,
        respond_to: int,
        content: Seq<u8>,
        nick: Seq<char>,
    ) -> (Result<int, Error>, LedgerView) {
        let prev = if self.has(respond_to) {
            Some(self.msg(respond_to))
        } else {
            None
        };
        match reply_draft(prev, caller, respond_to, content, nick) {
            Ok(f) => (Ok(self.next_id()), self.append(f)),
            Err(e) => (Err(e), self),
        }
    }

    /// Liking: the outcome and the ledger after it.
    pub open spec fn like(self, id: int) -> (Result<(), Error>, LedgerView) {
        if self.has(id) {
            let s = self.stats_of(id);
            (
                Ok(()),
                LedgerView {
                    flyts: self.flyts,
                    stats: self.stats.update(id - 1, StatsView { likes: s.likes + 1, tips: s.tips }),
                },
            )
        } else {
            (Err(Error::NotFound), self)
        }
    }
}

pub open spec fn id_result(r: Result<i128, Error>) -> Result<int, Error> {
    match r {
        Ok(id) => Ok(id as int),
        Err(e) => Err(e),
    }
}

pub open spec fn flyt_result(r: Result<Flyt, Error>) -> Result<FlytView, Error> {
    match r {
        Ok(f) => Ok(f@),
        Err(e) => Err(e),
    }
}

pub open spec fn stats_result(r: Result<FlytStats, Error>) -> Result<StatsView, Error> {
    match r {
        Ok(s) => Ok(s@),
        Err(e) => Err(e),
    }
}

/// Drafts the answer to `prev` (the flyt stored under `respond_to`, if any)
/// on behalf of `invoker`, with zeroed counters.
pub fn draft_reply(
    prev: Option<&Flyt>,
    invoker: &Address,
    respond_to: i128,
    content: Vec<u8>,
    nickname: Option<String>,
) -> (r: Result<(Flyt, FlytStats), Error>)
    ensures
        flyt_result(
            match r {
                Ok(p) => Ok(p.0),
                Err(e) => Err(e),
            },
        ) == reply_draft(
            match prev {
                Some(p) => Some(p@),
                None => None,
            },
            invoker@,
            respond_to as int,
            content@,
            nick_of(nick_view(nickname)),
        ),
        r matches Ok(p) ==> p.1@ == fresh_stats(),
{
    match prev {
        None => Err(Error::NoSuchMessage),
        Some(p) => {
            if !p.to.same_as(invoker) {
                return Err(Error::NotAddressee);
            }
            let nick = nick_or_empty(nickname);
            Ok(Flyt::respond(p.to.clone(), p.from.clone(), respond_to, content, nick))
        },
    }
}

/// Counts one more like on `stats`, the counters of a flyt if it exists.
pub fn add_like(stats: Option<FlytStats>) -> (r: Result<FlytStats, Error>)
    requires
        stats matches Some(s) ==> s.likes < u128::MAX,
    ensures
        stats matches None ==> r == Err::<FlytStats, Error>(Error::NotFound),
        stats matches Some(s) ==> r == Ok::<FlytStats, Error>(
            FlytStats { likes: (s.likes + 1) as u128, tips: s.tips },
        ),
{
    match stats {
        None => Err(Error::NotFound),
        Some(s) => Ok(FlytStats { likes: s.likes + 1, tips: s.tips }),
    }
}

/// The key under which a host keeps flyt `id` in a single integer key
/// space: `id` itself, for ids from 1 up; no other key names a flyt.
pub fn flyt_key(id: i128) -> (r: Option<i128>)
    ensures
        id >= 1 ==> r == Some(id),
        id < 1 ==> r is None,
{
    if id >= 1 {
        Some(id)
    } else {
        None
    }
}

/// The key under which a host keeps the counters of flyt `id`: its negation,
/// so that counters and flyts never share a key.
pub fn stats_key(id: i128) -> (r: Option<i128>)
    ensures
        id >= 1 ==> (r matches Some(k) && k == -id),
        id < 1 ==> r is None,
{
    if id >= 1 {
        Some(-id)
    } else {
        None
    }
}

/// The ledger itself: flyts and their counters, kept side by side.
pub struct Contract {
    flyts: Vec<Flyt>,
    stats: Vec<FlytStats>,
}

impl View for Contract {
    type V = LedgerView;

    closed spec fn view(&self) -> LedgerView {
        LedgerView {
            flyts: self.flyts@.map_values(|f: Flyt| f@),
            stats: self.stats@.map_values(|s: FlytStats| s@),
        }
    }
}

impl Contract {
    pub open spec fn wf(&self) -> bool {
        self@.wf()
    }

    /// An empty ledger.
    pub fn new() -> (r: Contract)
        ensures
            r.wf(),
            r@ == LedgerView::empty(),
    {
        let r = Contract { flyts: Vec::new(), stats: Vec::new() };
        proof {
            assert(r@.flyts =~= Seq::<FlytView>::empty());
            assert(r@.stats =~= Seq::<StatsView>::empty());
        }
        r
    }

    proof fn lemma_lengths(&self)
        requires
            self.wf(),
        ensures
            self.flyts@.len() == self@.count(),
            self.stats@.len() == self@.count(),
    {
    }

    /// The number of flyts, which is also the highest id given out so far.
    pub fn get_count(&self) -> (r: i128)
        requires
            self.wf(),
        ensures
            r == self@.count(),
    {
        proof {
            self.lemma_lengths();
        }
        let n = self.flyts.len();
        n as i128
    }

    /// The id that the next flyt will get.
    pub fn next_id(&self) -> (r: i128)
        requires
            self.wf(),
        ensures
            r == self@.next_id(),
    {
        proof {
            self.lemma_lengths();
        }
        let n = self.flyts.len();
        n as i128 + 1
    }

    /// Stores `flyt` under `id` and `stats` beside it.
    fn store_new_flyt(&mut self, id: i128, flyt: Flyt, stats: FlytStats)
        requires
            old(self).wf(),
            id == old(self)@.count() + 1,
            flyt@.response == 0 || 1 <= flyt@.response < id,
        ensures
            final(self)@ == (LedgerView {
                flyts: old(self)@.flyts.push(flyt@),
                stats: old(self)@.stats.push(stats@),
            }),
            final(self).wf(),
    {
        proof {
            self.lemma_lengths();
        }
        let ghost f = flyt@;
        let ghost s = stats@;
        self.flyts.push(flyt);
        self.stats.push(stats);
        proof {
            assert(self@.flyts =~= old(self)@.flyts.push(f));
            assert(self@.stats =~= old(self)@.stats.push(s));
        }
    }

    /// Posts a flyt from `invoker` to `recipient` and returns its id.
    pub fn send_flyt(
        &mut self,
        invoker: Address,
        recipient: Address,
        content: Vec<u8>,
        nickname: Option<String>,
    ) -> (id: i128)
        requires
            old(self).wf(),
        ensures
            final(self).wf(),
            (id as int, final(self)@) == old(self)@.post(
                invoker@,
                recipient@,
                content@,
                nick_of(nick_view(nickname)),
            ),
    {
        let id = self.next_id();
        let nick = nick_or_empty(nickname);
        let (flyt, stats) = Flyt::new(invoker, recipient, content, nick);
        self.store_new_flyt(id, flyt, stats);
        id
    }

    /// Posts `invoker`'s answer to flyt `respond_to` and returns its id.
    pub fn res_flyt(
        &mut self,
        invoker: &Address,
        respond_to: i128,
        content: Vec<u8>,
        nickname: Option<String>,
    ) -> (r: Result<i128, Error>)
        requires
            old(self).wf(),
        ensures
            final(self).wf(),
            (id_result(r), final(self)@) == old(self)@.reply(
                invoker@,
                respond_to as int,
                content@,
                nick_of(nick_view(nickname)),
            ),
    {
        proof {
            self.lemma_lengths();
        }
        let n = self.flyts.len();
        let prev = if 1 <= respond_to && respond_to <= n as i128 {
            Some(&self.flyts[(respond_to - 1) as usize])
        } else {
            None
        };
        match draft_reply(prev, invoker, respond_to, content, nickname) {
            Err(e) => Err(e),
            Ok((flyt, stats)) => {
                let id = self.next_id();
                self.store_new_flyt(id, flyt, stats);
                Ok(id)
            },
        }
    }

    /// The flyt stored under `id`.
    pub fn get_flyt(&self, id: i128) -> (r: Result<Flyt, Error>)
        requires
            self.wf(),
        ensures
            flyt_result(r) == self@.get(id as int),
    {
        proof {
            self.lemma_lengths();
        }
        if 1 <= id && id <= self.flyts.len() as i128 {
            Ok(self.flyts[(id - 1) as usize].clone())
        } else {
            Err(Error::NotFound)
        }
    }

    /// The counters of flyt `id`.
    pub fn get_stats(&self, id: i128) -> (r: Result<FlytStats, Error>)
        requires
            self.wf(),
        ensures
            stats_result(r) == self@.get_stats(id as int),
    {
        proof {
            self.lemma_lengths();
        }
        if 1 <= id && id <= self.stats.len() as i128 {
            Ok(self.stats[(id - 1) as usize])
        } else {
            Err(Error::NotFound)
        }
    }

    /// Adds a like to flyt `id`.
    pub fn send_like(&mut self, id: i128) -> (r: Result<(), Error>)
        requires
            old(self).wf(),
            old(self)@.has(id as int) ==> old(self)@.stats_of(id as int).likes < u128::MAX,
        ensures
            final(self).wf(),
            (r, final(self)@) == old(self)@.like(id as int),
    {
        proof {
            self.lemma_lengths();
        }
        let found = if 1 <= id && id <= self.stats.len() as i128 {
            Some(self.stats[(id - 1) as usize])
        } else {
            None
        };
        match add_like(found) {
            Err(e) => Err(e),
            Ok(s) => {
                self.stats.set((id - 1) as usize, s);
                proof {
                    let old_view = old(self)@;
                    let i = id - 1;
                    assert(self@.stats =~= old_view.stats.update(
                        i,
                        StatsView { likes: old_view.stats[i].likes + 1, tips: old_view.stats[i].tips },
                    ));
                    assert(self@.flyts =~= old_view.flyts);
                }
                Ok(())
            },
        }
    }
}

} // verus!

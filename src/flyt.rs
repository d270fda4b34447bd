use vstd::prelude::*;

verus! {

/// An identity on the ledger: the raw bytes of an account or contract address.
#[derive(Debug)]
pub struct Address {
    pub bytes: Vec<u8>,
}

impl View for Address {
    type V = Seq<u8>;

    open spec fn view(&self) -> Seq<u8> {
        self.bytes@
    }
}

impl Address {
    pub fn new(bytes: Vec<u8>) -> (r: Address)
        ensures
            r@ == bytes@,
    {
        Address { bytes }
    }

    /// Whether two addresses hold the same bytes.
    pub fn same_as(&self, other: &Address) -> (r: bool)
        ensures
            r == (self@ == other@),
    {
        let n = self.bytes.len();
        if n != other.bytes.len() {
            return false;
        }
        let mut i: usize = 0;
        while i < n
            invariant
                n == self@.len(),
                n == other@.len(),
                i <= n,
                forall|j: int| 0 <= j < i ==> self@[j] == other@[j],
            decreases n - i,
        {
            if self.bytes[i] != other.bytes[i] {
                return false;
            }
            i = i + 1;
        }
        proof {
            assert(self@ =~= other@);
        }
        true
    }
}

impl Clone for Address {
    fn clone(&self) -> (r: Self)
        ensures
            r@ == self@,
    {
        let bytes = self.bytes.clone();
        proof {
            assert(bytes@ =~= self.bytes@);
        }
        Address { bytes }
    }
}

impl PartialEq for Address {
    fn eq(&self, other: &Address) -> (r: bool) {
        self.same_as(other)
    }
}

impl vstd::std_specs::cmp::PartialEqSpecImpl for Address {
    open spec fn obeys_eq_spec() -> bool {
        true
    }

    open spec fn eq_spec(&self, other: &Address) -> bool {
        self@ == other@
    }
}

impl Eq for Address {
}

/// Engagement counters kept beside each flyt.
#[derive(Debug, Clone, Copy, PartialEq, Eq, Structural)]
pub struct FlytStats {
    pub likes: u128,
    pub tips: u128,
}

/// The counters as numbers.
pub struct StatsView {
    pub likes: nat,
    pub tips: nat,
}

impl View for FlytStats {
    type V = StatsView;

    open spec fn view(&self) -> StatsView {
        StatsView { likes: self.likes as nat, tips: self.tips as nat }
    }
}

impl Default for FlytStats {
    fn default() -> (r: FlytStats)
        ensures
            r.likes == 0,
            r.tips == 0,
    {
        FlytStats { likes: 0, tips: 0 }
    }
}

/// Why an operation on the ledger was refused.
#[derive(Debug, Clone, Copy, PartialEq, Eq, Structural)]
pub enum Error {
    /// No flyt is stored under the requested id.
    NotFound,
    /// The flyt being answered does not exist.
    NoSuchMessage,
    /// Only the addressee of a flyt may answer it.
    NotAddressee,
}

/// One message: who sent it, under which nickname, to whom, what it says,
/// and which flyt it answers (`0` when it answers none).
#[derive(Debug)]
pub struct Flyt {
    pub from: Address,
    pub from_nick: String,
    pub to: Address,
    pub content: Vec<u8>,
    pub response: i128,
}

/// A flyt as plain values.
pub struct FlytView {
    pub from: Seq<u8>,
    pub from_nick: Seq<char>,
    pub to: Seq<u8>,
    pub content: Seq<u8>,
    pub response: int,
}

impl View for Flyt {
    type V = FlytView;

    open spec fn view(&self) -> FlytView {
        FlytView {
            from: self.from@,
            from_nick: self.from_nick@,
            to: self.to@,
            content: self.content@,
            response: self.response as int,
        }
    }
}

/// The counters of a flyt that nobody has engaged with yet.
pub open spec fn fresh_stats() -> StatsView {
    StatsView { likes: 0, tips: 0 }
}

/// The nickname that is stored: the one given, or the empty label.
pub open spec fn nick_of(nickname: Option<Seq<char>>) -> Seq<char> {
    match nickname {
        Some(n) => n,
        None => Seq::empty(),
    }
}

/// The optional nickname as plain values.
pub open spec fn nick_view(nickname: Option<String>) -> Option<Seq<char>> {
    match nickname {
        Some(n) => Some(n@),
        None => None,
    }
}

/// The nickname to store for an optional one.
pub fn nick_or_empty(nickname: Option<String>) -> (r: String)
    ensures
        r@ == nick_of(nick_view(nickname)),
{
    match nickname {
        Some(n) => n,
        None => String::new(),
    }
}

impl Clone for Flyt {
    fn clone(&self) -> (r: Self)
        ensures
            r@ == self@,
    {
        let content = self.content.clone();
        proof {
            assert(content@ =~= self.content@);
        }
        Flyt {
            from: self.from.clone(),
            from_nick: self.from_nick.clone(),
            to: self.to.clone(),
            content,
            response: self.response,
        }
    }
}

impl Flyt {
    /// A new flyt that answers none, with zeroed counters.
    pub fn new(from: Address, to: Address, content: Vec<u8>, from_nick: String) -> (r: (
        Flyt,
        FlytStats,
    ))
        ensures
            r.0@ == (FlytView {
                from: from@,
                from_nick: from_nick@,
                to: to@,
                content: content@,
                response: 0,
            }),
            r.1@ == fresh_stats(),
    {
        (Flyt { from, from_nick, to, content, response: 0 }, FlytStats { likes: 0, tips: 0 })
    }

    /// A new flyt that answers the flyt `response`, with zeroed counters.
    pub fn respond(from: Address, to: Address, response: i128, content: Vec<u8>, from_nick: String) -> (r: (
        Flyt,
        FlytStats,
    ))
        ensures
            r.0@ == (FlytView {
                from: from@,
                from_nick: from_nick@,
                to: to@,
                content: content@,
                response: response as int,
            }),
            r.1@ == fresh_stats(),
    {
        (Flyt { from, from_nick, to, content, response }, FlytStats { likes: 0, tips: 0 })
    }
}

} // verus!

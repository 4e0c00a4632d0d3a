//! The registry of sessions: which user name is held from which address.

use vstd::prelude::*;

verus! {

/// The network address a connection comes from, without its port.
#[derive(Clone, Copy, Debug, PartialEq, Eq, Structural)]
pub enum Origin {
    /// An IPv4 address, its four bytes as one number.
    V4(u32),
    /// An IPv6 address, its sixteen bytes as one number.
    V6(u128),
}

/// Why a user name was refused.
#[derive(Clone, Copy, Debug, PartialEq, Eq, Structural)]
pub enum RejectReason {
    /// Another address holds the name.
    UsernameInUse,
}

impl RejectReason {
    /// The reason in words.
    pub fn text(self) -> (text: &'static str)
        ensures
            text@ == "username already in use"@,
    {
        match self {
            RejectReason::UsernameInUse => "username already in use",
        }
    }
}

/// How a request for a user name ended.
#[derive(Clone, Copy, Debug, PartialEq, Eq, Structural)]
pub enum JoinOutcome {
    /// The name was free and now belongs to the caller's address.
    Accepted,
    /// The name already belonged to the caller's address.
    Rejoined,
    /// The name belongs to another address.
    Rejected(RejectReason),
}

/// A registry in which no name is held.
pub open spec fn nobody() -> Map<Seq<char>, Origin> {
    Map::empty()
}

/// The outcome of asking for `username` from `origin` where `known` says
/// who holds which name.
pub open spec fn outcome_of(known: Map<Seq<char>, Origin>, username: Seq<char>, origin: Origin) -> JoinOutcome {
    if !known.contains_key(username) {
        JoinOutcome::Accepted
    } else if known[username] == origin {
        JoinOutcome::Rejoined
    } else {
        JoinOutcome::Rejected(RejectReason::UsernameInUse)
    }
}

/// Who holds which name after `username` was asked for from `origin`: a free
/// name is taken, and nothing else ever changes.
pub open spec fn known_after(known: Map<Seq<char>, Origin>, username: Seq<char>, origin: Origin) -> Map<Seq<char>, Origin> {
    if known.contains_key(username) {
        known
    } else {
        known.insert(username, origin)
    }
}

/// Who holds which name after a run of requests, each a name and the address
/// that asks for it, was served in order.
pub open spec fn known_after_all(known: Map<Seq<char>, Origin>, requests: Seq<(Seq<char>, Origin)>) -> Map<Seq<char>, Origin>
    decreases requests.len(),
{
    if requests.len() == 0 {
        known
    } else {
        known_after(
            known_after_all(known, requests.drop_last()),
            requests.last().0,
            requests.last().1,
        )
    }
}

/// The outcome of request `i` in a run of requests served in order.
pub open spec fn outcome_at(known: Map<Seq<char>, Origin>, requests: Seq<(Seq<char>, Origin)>, i: int) -> JoinOutcome
    recommends
        0 <= i < requests.len(),
{
    outcome_of(known_after_all(known, requests.take(i)), requests[i].0, requests[i].1)
}

/// A name that is held stays with its address through the first `n` of any
/// run of requests.
pub proof fn lemma_name_stays(known: Map<Seq<char>, Origin>, requests: Seq<(Seq<char>, Origin)>, username: Seq<char>, n: int)
    requires
        known.contains_key(username),
        0 <= n <= requests.len(),
    ensures
        known_after_all(known, requests.take(n)).contains_key(username),
        known_after_all(known, requests.take(n))[username] == known[username],
    decreases n,
{
    if n > 0 {
        lemma_name_stays(known, requests, username, n - 1);
        assert(requests.take(n).drop_last() == requests.take(n - 1));
    }
}

/// Whoever asks for a name, the name is held once the request is served:
/// from the address that asked if the request was accepted, and from the
/// address that held it before otherwise. It is still held so after the
/// first `n` requests, for every later `n`.
pub proof fn lemma_name_held_after(known: Map<Seq<char>, Origin>, requests: Seq<(Seq<char>, Origin)>, i: int, n: int)
    requires
        0 <= i < n <= requests.len(),
    ensures
        known_after_all(known, requests.take(n)).contains_key(requests[i].0),
        outcome_at(known, requests, i) is Accepted ==> known_after_all(known, requests.take(n))[requests[i].0] == requests[i].1,
        !(outcome_at(known, requests, i) is Accepted) ==> known_after_all(known, requests.take(n))[requests[i].0] == known_after_all(known, requests.take(i))[requests[i].0],
    decreases n,
{
    assert(requests.take(n).drop_last() == requests.take(n - 1));
    if n > i + 1 {
        lemma_name_held_after(known, requests, i, n - 1);
    }
}

/// Uniqueness of names: in any run of requests, at most one request for a
/// name is accepted. Once a request for the name has been served, a later
/// request for it is never accepted; after an accepted one it is a rejoin
/// from the same address and refused from any other.
pub proof fn lemma_at_most_one_accepted(known: Map<Seq<char>, Origin>, requests: Seq<(Seq<char>, Origin)>, i: int, j: int)
    requires
        0 <= i < j < requests.len(),
        requests[i].0 == requests[j].0,
    ensures
        !(outcome_at(known, requests, j) is Accepted),
        outcome_at(known, requests, i) is Accepted && requests[j].1 == requests[i].1
            ==> outcome_at(known, requests, j) == JoinOutcome::Rejoined,
        outcome_at(known, requests, i) is Accepted && requests[j].1 != requests[i].1
            ==> outcome_at(known, requests, j) == JoinOutcome::Rejected(RejectReason::UsernameInUse),
{
    lemma_name_held_after(known, requests, i, j);
}

/// One session: a user name and the address that holds it.
struct Session {
    username: String,
    origin: Origin,
}

/// What a list of sessions says of who holds which name.
spec fn sessions_map(sessions: Seq<Session>) -> Map<Seq<char>, Origin>
    decreases sessions.len(),
{
    if sessions.len() == 0 {
        Map::empty()
    } else {
        sessions_map(sessions.drop_last()).insert(sessions.last().username@, sessions.last().origin)
    }
}

/// No name occurs twice in a list of sessions.
spec fn names_differ(sessions: Seq<Session>) -> bool {
    forall|i: int, j: int|
        0 <= i < j < sessions.len() ==> sessions[i].username@ != sessions[j].username@
}

/// The map of a list holds exactly the names in the list.
proof fn lemma_sessions_map_keys(sessions: Seq<Session>, username: Seq<char>)
    ensures
        sessions_map(sessions).contains_key(username) <==> exists|i: int|
            0 <= i < sessions.len() && #[trigger] sessions[i].username@ == username,
    decreases sessions.len(),
{
    if sessions.len() > 0 {
        let front = sessions.drop_last();
        lemma_sessions_map_keys(front, username);
        if exists|i: int| 0 <= i < sessions.len() && #[trigger] sessions[i].username@ == username {
            let i = choose|i: int| 0 <= i < sessions.len() && #[trigger] sessions[i].username@ == username;
            if i < front.len() {
                assert(front[i].username@ == username);
            }
        }
    }
}

/// Where no name occurs twice, the map gives each name the address of its
/// session.
proof fn lemma_sessions_map_value(sessions: Seq<Session>, i: int)
    requires
        names_differ(sessions),
        0 <= i < sessions.len(),
    ensures
        sessions_map(sessions).contains_key(sessions[i].username@),
        sessions_map(sessions)[sessions[i].username@] == sessions[i].origin,
    decreases sessions.len(),
{
    let front = sessions.drop_last();
    if i < sessions.len() - 1 {
        assert(names_differ(front));
        lemma_sessions_map_value(front, i);
    }
}

/// The registry of sessions. A name, once held, stays with its address for
/// as long as the registry lives.
pub struct Registry {
    sessions: Vec<Session>,
}

impl View for Registry {
    type V = Map<Seq<char>, Origin>;

    closed spec fn view(&self) -> Map<Seq<char>, Origin> {
        sessions_map(self.sessions@)
    }
}

impl Registry {
    #[verifier::type_invariant]
    spec fn well_formed(self) -> bool {
        names_differ(self.sessions@)
    }

    /// A registry in which no name is held.
    pub fn new() -> (registry: Registry)
        ensures
            registry@ == nobody(),
    {
        Registry { sessions: Vec::new() }
    }

    /// The place of the session that holds `username`, if one does.
    fn find(&self, username: &String) -> (place: Option<usize>)
        ensures
            match place {
                Some(i) => i < self.sessions.len() && self.sessions[i as int].username@ == username@,
                None => forall|i: int| 0 <= i < self.sessions.len() ==> self.sessions[i].username@ != username@,
            },
    {
        let mut i: usize = 0;
        while i < self.sessions.len()
            invariant
                i <= self.sessions.len(),
                forall|j: int| 0 <= j < i ==> self.sessions[j].username@ != username@,
            decreases self.sessions.len() - i,
        {
            if self.sessions[i].username == *username {
                return Some(i);
            }
            i += 1;
        }
        None
    }

    /// Asks for `username` on behalf of a connection from `origin`. A free
    /// name is taken and the caller accepted; a name held from the same
    /// address is a rejoin; a name held from another address is refused. Only
    /// the first of these changes the registry. The lookup and the insertion
    /// are one step: the caller holds the registry alone for the whole call.
    pub fn register(&mut self, username: &str, origin: Origin) -> (outcome: JoinOutcome)
        ensures
            outcome == outcome_of(old(self)@, username@, origin),
            final(self)@ == known_after(old(self)@, username@, origin),
    {
        let name = username.to_owned();
        proof {
            use_type_invariant(&*self);
            lemma_sessions_map_keys(self.sessions@, name@);
        }
        match self.find(&name) {
            Some(i) => {
                proof {
                    lemma_sessions_map_value(self.sessions@, i as int);
                }
                if self.sessions[i].origin == origin {
                    JoinOutcome::Rejoined
                } else {
                    JoinOutcome::Rejected(RejectReason::UsernameInUse)
                }
            },
            None => {
                // The list leaves the registry while it grows, so that the
                // registry is well formed at every step.
                let ghost before = self.sessions@;
                let mut sessions: Vec<Session> = Vec::new();
                core::mem::swap(&mut self.sessions, &mut sessions);
                sessions.push(Session { username: name, origin });
                assert(sessions@.drop_last() == before);
                core::mem::swap(&mut self.sessions, &mut sessions);
                JoinOutcome::Accepted
            },
        }
    }
}

} // verus!

//! The single-use ledger: what is asked of the key-value store, and what the
//! store is taken to do.
//!
//! A token is live as long as the store holds a record under its key. The
//! library never talks to a store outside the process itself. It says which
//! record to write or to take, and is told how that went. `Ledger` is the
//! model of the store that the guarantees of the service are stated over:
//! records that lapse when their time to live is over, and a take that
//! reports a record and removes it in one step. `MemoryLedger` is a store in
//! memory that does what the model says.

use vstd::hash_map::StringHashMap;
use vstd::prelude::*;
use vstd::string::*;

verus! {

/// What a token authorises. Each purpose has its own validity window and its
/// own namespace of store keys.
#[derive(Clone, Copy, Debug, PartialEq, Eq, Structural)]
pub enum Purpose {
    /// Confirming a registration; the window is configured.
    Confirmation,
    /// Starting a change of password; the window is one hour.
    PasswordChange,
}

impl Purpose {
    /// The purpose that a caller's optional flag selects: a flag that is
    /// present selects the change of password, whatever it holds.
    pub fn from_flag(is_for_password_change: Option<bool>) -> (purpose: Purpose)
        ensures
            is_for_password_change is Some ==> purpose == Purpose::PasswordChange,
            is_for_password_change is None ==> purpose == Purpose::Confirmation,
    {
        match is_for_password_change {
            Some(_) => Purpose::PasswordChange,
            None => Purpose::Confirmation,
        }
    }

    /// The tag of the purpose in a store key.
    pub open spec fn tag(self) -> Seq<char> {
        match self {
            Purpose::Confirmation => "confirmation"@,
            Purpose::PasswordChange => "password_change"@,
        }
    }

    /// The tag of the purpose in a store key.
    pub fn tag_text(&self) -> (tag: &'static str)
        ensures
            tag@ == self.tag(),
    {
        match self {
            Purpose::Confirmation => "confirmation",
            Purpose::PasswordChange => "password_change",
        }
    }
}

/// What every store key begins with.
pub open spec fn key_prefix() -> Seq<char> {
    "valid_session_key"@
}

/// The store key of a session key under a purpose: the prefix, the tag of the
/// purpose and the session key, with a colon between them.
pub open spec fn store_key(purpose: Purpose, session_key: Seq<char>) -> Seq<char> {
    key_prefix() + ":"@ + purpose.tag() + ":"@ + session_key
}

/// The store key of a session key under a purpose.
pub fn record_key(purpose: Purpose, session_key: &str) -> (key: String)
    ensures
        key@ == store_key(purpose, session_key@),
{
    let mut key = String::from_str("valid_session_key");
    key.append(":");
    key.append(purpose.tag_text());
    key.append(":");
    key.append(session_key);
    key
}

/// Store keys never collide: two of them are equal only for the same purpose
/// and the same session key. So the records of one purpose cannot be reached
/// through a token of the other.
pub proof fn store_keys_are_separate(
    purpose_a: Purpose,
    session_key_a: Seq<char>,
    purpose_b: Purpose,
    session_key_b: Seq<char>,
)
    requires
        store_key(purpose_a, session_key_a) == store_key(purpose_b, session_key_b),
    ensures
        purpose_a == purpose_b,
        session_key_a == session_key_b,
{
    reveal_strlit("valid_session_key");
    reveal_strlit(":");
    reveal_strlit("confirmation");
    reveal_strlit("password_change");
    let a = store_key(purpose_a, session_key_a);
    let b = store_key(purpose_b, session_key_b);
    let head_a = key_prefix() + ":"@ + purpose_a.tag() + ":"@;
    let head_b = key_prefix() + ":"@ + purpose_b.tag() + ":"@;
    assert(a[18] == purpose_a.tag()[0]);
    assert(b[18] == purpose_b.tag()[0]);
    assert(purpose_a == purpose_b);
    assert(session_key_a =~= a.subrange(head_a.len() as int, a.len() as int));
    assert(session_key_b =~= b.subrange(head_b.len() as int, b.len() as int));
}

/// How the write of a liveness record went.
#[derive(Clone, Copy, Debug, PartialEq, Eq, Structural)]
pub enum WriteOutcome {
    /// The record is in the store.
    Written,
    /// The store could not be reached or refused the write.
    Unavailable,
}

/// How the take of a liveness record went. The store checks for the record
/// and removes it in one indivisible step, so of any number of takes of one
/// record at most one is told `Present`.
#[derive(Clone, Copy, Debug, PartialEq, Eq, Structural)]
pub enum TakeOutcome {
    /// The record was there, and is removed.
    Present,
    /// There was no such record.
    Absent,
    /// The store could not be reached.
    Unavailable,
}

/// The store as the service takes it to be: for each record the instant at
/// which its time to live is over.
pub struct Ledger {
    pub deadlines: Map<Seq<char>, int>,
}

impl Ledger {
    /// A store without records.
    pub open spec fn empty() -> Ledger {
        Ledger { deadlines: Map::empty() }
    }

    /// Whether the store holds a record under `key` at the instant `now`.
    pub open spec fn is_live(self, key: Seq<char>, now: int) -> bool {
        self.deadlines.dom().contains(key) && now < self.deadlines[key]
    }

    /// The store after a record was written under `key` at the instant `now`
    /// with `ttl_seconds` to live.
    pub open spec fn write(self, key: Seq<char>, ttl_seconds: int, now: int) -> Ledger {
        Ledger { deadlines: self.deadlines.insert(key, now + ttl_seconds) }
    }

    /// What a take of `key` at the instant `now` is told.
    pub open spec fn take_outcome(self, key: Seq<char>, now: int) -> TakeOutcome {
        if self.is_live(key, now) {
            TakeOutcome::Present
        } else {
            TakeOutcome::Absent
        }
    }

    /// The store after a take of `key`.
    pub open spec fn take(self, key: Seq<char>) -> Ledger {
        Ledger { deadlines: self.deadlines.remove(key) }
    }
}

/// A store in memory, for a service that runs in one process: it does what
/// `Ledger` says, and is always reachable. A record stays in memory until it
/// is taken or written anew, also when its time to live is over.
pub struct MemoryLedger {
    deadlines: StringHashMap<i128>,
}

impl View for MemoryLedger {
    type V = Ledger;

    closed spec fn view(&self) -> Ledger {
        Ledger {
            deadlines: Map::new(
                |key: Seq<char>| self.deadlines@.contains_key(key),
                |key: Seq<char>| self.deadlines@[key] as int,
            ),
        }
    }
}

impl MemoryLedger {
    /// A store without records.
    pub fn new() -> (ledger: MemoryLedger)
        ensures
            ledger@ == Ledger::empty(),
    {
        let ledger = MemoryLedger { deadlines: StringHashMap::new() };
        assert(ledger@.deadlines =~= Ledger::empty().deadlines);
        ledger
    }

    /// Writes a record under `key` at the instant `now` with `ttl_seconds`
    /// to live. A record that is already there is replaced.
    pub fn write(&mut self, key: &str, ttl_seconds: i64, now: i64) -> (outcome: WriteOutcome)
        ensures
            outcome == WriteOutcome::Written,
            final(self)@ == old(self)@.write(key@, ttl_seconds as int, now as int),
    {
        let deadline: i128 = now as i128 + ttl_seconds as i128;
        self.deadlines.insert(String::from_str(key), deadline);
        assert(final(self)@.deadlines =~= old(self)@.write(
            key@,
            ttl_seconds as int,
            now as int,
        ).deadlines);
        WriteOutcome::Written
    }

    /// Takes the record under `key` at the instant `now`: says whether the
    /// record was there, and removes it.
    pub fn take(&mut self, key: &str, now: i64) -> (outcome: TakeOutcome)
        ensures
            outcome == old(self)@.take_outcome(key@, now as int),
            final(self)@ == old(self)@.take(key@),
    {
        let live = match self.deadlines.get(key) {
            Some(deadline) => (now as i128) < *deadline,
            None => false,
        };
        self.deadlines.remove(key);
        assert(final(self)@.deadlines =~= old(self)@.take(key@).deadlines);
        if live {
            TakeOutcome::Present
        } else {
            TakeOutcome::Absent
        }
    }

    /// The instant at which the time to live of the record under `key` is
    /// over, if there is such a record.
    pub fn deadline(&self, key: &str) -> (deadline: Option<i128>)
        ensures
            match deadline {
                Some(d) => self@.deadlines.dom().contains(key@) && d == self@.deadlines[key@],
                None => !self@.deadlines.dom().contains(key@),
            },
    {
        match self.deadlines.get(key) {
            Some(deadline) => Some(*deadline),
            None => None,
        }
    }
}

} // verus!

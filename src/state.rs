use vstd::prelude::*;

verus! {

/// The state stored for a live session.
#[derive(Debug, Clone, Copy, PartialEq, Eq, Structural)]
pub enum SessionUserState {
    Anonymous,
    Registered,
}

/// The integer under which a state is stored in the session cache.
pub open spec fn state_code(s: SessionUserState) -> u32 {
    match s {
        SessionUserState::Anonymous => 1,
        SessionUserState::Registered => 2,
    }
}

/// The state stored under an integer code, if the code names one.
pub open spec fn state_of_code(n: u32) -> Option<SessionUserState> {
    if n == 1 {
        Some(SessionUserState::Anonymous)
    } else if n == 2 {
        Some(SessionUserState::Registered)
    } else {
        None
    }
}

impl SessionUserState {
    pub fn as_u32(self) -> (r: u32)
        ensures
            r == state_code(self),
    {
        match self {
            SessionUserState::Anonymous => 1,
            SessionUserState::Registered => 2,
        }
    }

    pub fn from_u32(n: u32) -> (r: Option<SessionUserState>)
        ensures
            r == state_of_code(n),
    {
        match n {
            1 => Some(SessionUserState::Anonymous),
            2 => Some(SessionUserState::Registered),
            _ => None,
        }
    }
}

/// Decoding the stored code of a state gives that state back, and the codes
/// of the two states differ.
pub proof fn lemma_state_code_round_trip(s: SessionUserState)
    ensures
        state_of_code(state_code(s)) == Some(s),
        state_code(SessionUserState::Anonymous) != state_code(SessionUserState::Registered),
{
}

/// How a session token is classified when it is read: a live session in one of
/// its two states, or `Invalid` (no record, expired, or malformed).
#[derive(Debug, Clone, Copy, PartialEq, Eq, Structural)]
pub enum SessionClass {
    Invalid,
    Anonymous,
    Registered,
}

pub open spec fn class_of_state(s: SessionUserState) -> SessionClass {
    match s {
        SessionUserState::Anonymous => SessionClass::Anonymous,
        SessionUserState::Registered => SessionClass::Registered,
    }
}

/// The class of a stored state field: absent or not a known code is `Invalid`.
pub open spec fn class_of_field(field: Option<u32>) -> SessionClass {
    match field {
        None => SessionClass::Invalid,
        Some(n) => match state_of_code(n) {
            None => SessionClass::Invalid,
            Some(s) => class_of_state(s),
        },
    }
}

pub fn class_from_state(s: SessionUserState) -> (r: SessionClass)
    ensures
        r == class_of_state(s),
{
    match s {
        SessionUserState::Anonymous => SessionClass::Anonymous,
        SessionUserState::Registered => SessionClass::Registered,
    }
}

/// Classifies the state field read from the session cache for a token.
pub fn classify_field(field: Option<u32>) -> (r: SessionClass)
    ensures
        r == class_of_field(field),
{
    match field {
        None => SessionClass::Invalid,
        Some(n) => match SessionUserState::from_u32(n) {
            None => SessionClass::Invalid,
            Some(s) => class_from_state(s),
        },
    }
}

/// A session record with its absolute expiry instant, in seconds.
#[derive(Debug, Clone, Copy, PartialEq, Eq, Structural)]
pub struct SessionRecord {
    pub state: SessionUserState,
    pub expires_at: u64,
}

/// A record is live strictly before its expiry instant.
pub open spec fn is_live(rec: SessionRecord, now: u64) -> bool {
    now < rec.expires_at
}

pub open spec fn class_of_record(rec: Option<SessionRecord>, now: u64) -> SessionClass {
    match rec {
        Some(r) => if is_live(r, now) {
            class_of_state(r.state)
        } else {
            SessionClass::Invalid
        },
        None => SessionClass::Invalid,
    }
}

/// Classifies what a session lookup found at instant `now`.
pub fn classify_record(rec: Option<SessionRecord>, now: u64) -> (r: SessionClass)
    ensures
        r == class_of_record(rec, now),
{
    match rec {
        Some(rec) => if now < rec.expires_at {
            class_from_state(rec.state)
        } else {
            SessionClass::Invalid
        },
        None => SessionClass::Invalid,
    }
}

/// A record past its expiry instant is classified exactly as a token that
/// was never issued: `Invalid`, never `Registered`.
pub proof fn lemma_expired_is_never_issued(rec: SessionRecord, now: u64)
    requires
        !is_live(rec, now),
    ensures
        class_of_record(Some(rec), now) == class_of_record(None, now),
        class_of_record(Some(rec), now) == SessionClass::Invalid,
{
}

} // verus!

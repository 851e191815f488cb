use vstd::prelude::*;
use crate::error::{status_of, AuthError};
use crate::session::{is_session_cookie, session_cookie, CookieDirective};
use crate::password::PasswordCheck;
use crate::state::SessionClass;

verus! {

/// The three use cases of the service.
#[derive(Debug, Clone, Copy, PartialEq, Eq, Structural)]
pub enum UseCase {
    Register,
    Login,
    Logout,
}

/// Where a use case stands: which outside step it waits for.
#[derive(Debug, Clone, Copy, PartialEq, Eq, Structural)]
pub enum Phase {
    /// Nothing done yet.
    Start,
    /// Reading the state of the supplied token.
    Reading,
    /// Deleting the record of the supplied token.
    Deleting,
    /// Writing a fresh `Anonymous` session with its TTL.
    Creating,
    /// Hashing the password (on a worker pool).
    Hashing,
    /// Inserting the user record.
    Inserting,
    /// Looking the identity up in the credential store.
    Finding,
    /// Checking the password against the stored hash.
    Verifying,
    /// Writing `Registered` to the session and refreshing its TTL.
    Promoting,
    /// The outcome has been given.
    Done,
}

/// The progress of one use case.
#[derive(Debug, Clone, PartialEq, Eq)]
pub struct Flow {
    pub use_case: UseCase,
    pub phase: Phase,
    /// The session token in use: the supplied one, or the fresh one once minted.
    pub token: String,
    /// The token to use should a new session be needed.
    pub fresh: String,
    /// Whether `token` is the fresh one, so the client must be given its cookie.
    pub minted: bool,
}

/// What an outside step reported.
#[derive(Debug, Clone, PartialEq, Eq)]
pub enum Event {
    /// The request arrived, with its session token if any, and a newly minted token.
    Started { supplied: Option<String>, fresh: String },
    StateRead(SessionClass),
    Deleted,
    Created,
    /// The PHC string of the password.
    Hashed(String),
    Inserted,
    /// The store refused the user: its username or email is taken.
    InsertConflict,
    /// The stored PHC string of the user that the identity names.
    Found(String),
    NotFound,
    Checked(PasswordCheck),
    Promoted,
    /// A store or the hasher failed.
    Failed,
}

/// The terminal outcome of a use case.
#[derive(Debug, Clone, PartialEq, Eq)]
pub enum Reply {
    /// Success on session `token`; where `set_cookie`, the client is given the
    /// session cookie for it.
    Success { token: String, set_cookie: bool },
    Failure(AuthError),
}

/// The next outside step to perform, or the outcome.
#[derive(Debug, Clone, PartialEq, Eq)]
pub enum Effect {
    ReadState(String),
    DeleteSession(String),
    /// Write state `Anonymous` under the token and set its TTL.
    CreateSession(String),
    HashPassword,
    /// Insert the user record with this password hash.
    InsertUser(String),
    FindUser,
    /// Check the password against this stored hash.
    VerifyPassword(String),
    /// Write state `Registered` under the token and refresh its TTL.
    PromoteSession(String),
    Finish(Reply),
}

/// The phases a use case can be in: Logout never hashes, looks up or
/// promotes; Register never deletes, looks up or verifies; Login never
/// deletes, hashes or inserts.
pub open spec fn phase_fits(u: UseCase, p: Phase) -> bool {
    match u {
        UseCase::Logout => p == Phase::Start || p == Phase::Deleting || p == Phase::Creating || p == Phase::Done,
        UseCase::Register => !(p == Phase::Deleting || p == Phase::Finding || p == Phase::Verifying),
        UseCase::Login => !(p == Phase::Deleting || p == Phase::Hashing || p == Phase::Inserting),
    }
}

impl Flow {
    pub open spec fn wf(self) -> bool {
        phase_fits(self.use_case, self.phase)
    }
}

pub open spec fn with_phase(f: Flow, p: Phase) -> Flow {
    Flow { phase: p, ..f }
}

pub open spec fn finish(f: Flow, reply: Reply) -> (Flow, Effect) {
    (with_phase(f, Phase::Done), Effect::Finish(reply))
}

pub open spec fn fail(f: Flow, e: AuthError) -> (Flow, Effect) {
    finish(f, Reply::Failure(e))
}

/// Switch to the fresh token and create its `Anonymous` session.
pub open spec fn create_fresh(f: Flow) -> (Flow, Effect) {
    (Flow { phase: Phase::Creating, token: f.fresh, minted: true, ..f }, Effect::CreateSession(f.fresh))
}

/// The use-case-specific work, once a live session is in hand.
pub open spec fn proceed(f: Flow, class: SessionClass) -> (Flow, Effect) {
    match f.use_case {
        UseCase::Register => if class == SessionClass::Registered {
            fail(f, AuthError::AlreadyRegistered)
        } else {
            (with_phase(f, Phase::Hashing), Effect::HashPassword)
        },
        UseCase::Login => (with_phase(f, Phase::Finding), Effect::FindUser),
        UseCase::Logout => finish(f, Reply::Success { token: f.token, set_cookie: true }),
    }
}

pub open spec fn succeed(f: Flow) -> (Flow, Effect) {
    finish(f, Reply::Success { token: f.token, set_cookie: f.minted })
}

/// The transition table of the three use cases.
pub open spec fn next(f: Flow, ev: Event) -> (Flow, Effect) {
    match (f.phase, ev) {
        (_, Event::Failed) => fail(f, AuthError::Transient),
        (Phase::Start, Event::Started { supplied, fresh }) => {
            let g = Flow { fresh: fresh, ..f };
            match supplied {
                None => create_fresh(g),
                Some(t) => {
                    let h = Flow { token: t, minted: false, ..g };
                    if f.use_case == UseCase::Logout {
                        (with_phase(h, Phase::Deleting), Effect::DeleteSession(t))
                    } else {
                        (with_phase(h, Phase::Reading), Effect::ReadState(t))
                    }
                },
            }
        },
        (Phase::Reading, Event::StateRead(c)) => if c == SessionClass::Invalid {
            create_fresh(f)
        } else {
            proceed(f, c)
        },
        (Phase::Deleting, Event::Deleted) => create_fresh(f),
        (Phase::Creating, Event::Created) => proceed(f, SessionClass::Anonymous),
        (Phase::Hashing, Event::Hashed(h)) => (with_phase(f, Phase::Inserting), Effect::InsertUser(h)),
        (Phase::Inserting, Event::Inserted) => (with_phase(f, Phase::Promoting), Effect::PromoteSession(f.token)),
        (Phase::Inserting, Event::InsertConflict) => fail(f, AuthError::IdentityTaken),
        (Phase::Finding, Event::Found(phc)) => (with_phase(f, Phase::Verifying), Effect::VerifyPassword(phc)),
        (Phase::Finding, Event::NotFound) => fail(f, AuthError::UnknownIdentity),
        (Phase::Verifying, Event::Checked(c)) => match c {
            PasswordCheck::Match => (with_phase(f, Phase::Promoting), Effect::PromoteSession(f.token)),
            PasswordCheck::Mismatch => fail(f, AuthError::BadCredential),
            PasswordCheck::Malformed => fail(f, AuthError::Transient),
        },
        (Phase::Promoting, Event::Promoted) => succeed(f),
        // An event that the phase does not wait for ends the flow as a fault.
        _ => fail(f, AuthError::Transient),
    }
}

impl Flow {
    /// A use case that has not started.
    pub fn new(use_case: UseCase) -> (r: Flow)
        ensures
            r.use_case == use_case,
            r.phase == Phase::Start,
            !r.minted,
            r.wf(),
    {
        Flow { use_case, phase: Phase::Start, token: String::new(), fresh: String::new(), minted: false }
    }

    fn finish(self, reply: Reply) -> (r: (Flow, Effect))
        ensures
            r == finish(self, reply),
    {
        (Flow { phase: Phase::Done, ..self }, Effect::Finish(reply))
    }

    fn create_fresh(self) -> (r: (Flow, Effect))
        ensures
            r == create_fresh(self),
    {
        let t = self.fresh.clone();
        (Flow { phase: Phase::Creating, token: self.fresh.clone(), minted: true, ..self }, Effect::CreateSession(t))
    }

    fn proceed(self, class: SessionClass) -> (r: (Flow, Effect))
        ensures
            r == proceed(self, class),
    {
        match self.use_case {
            UseCase::Register => if class == SessionClass::Registered {
                self.finish(Reply::Failure(AuthError::AlreadyRegistered))
            } else {
                (Flow { phase: Phase::Hashing, ..self }, Effect::HashPassword)
            },
            UseCase::Login => (Flow { phase: Phase::Finding, ..self }, Effect::FindUser),
            UseCase::Logout => {
                let t = self.token.clone();
                self.finish(Reply::Success { token: t, set_cookie: true })
            },
        }
    }

    /// Takes the report of the last outside step and gives the next state of
    /// the use case and the next step to perform, or its outcome.
    pub fn step(self, ev: Event) -> (r: (Flow, Effect))
        ensures
            r == next(self, ev),
            self.wf() ==> r.0.wf(),
    {
        match (self.phase, ev) {
            (_, Event::Failed) => self.finish(Reply::Failure(AuthError::Transient)),
            (Phase::Start, Event::Started { supplied, fresh }) => {
                let g = Flow { fresh, ..self };
                match supplied {
                    None => g.create_fresh(),
                    Some(t) => {
                        let t2 = t.clone();
                        if g.use_case == UseCase::Logout {
                            (Flow { token: t, minted: false, phase: Phase::Deleting, ..g }, Effect::DeleteSession(t2))
                        } else {
                            (Flow { token: t, minted: false, phase: Phase::Reading, ..g }, Effect::ReadState(t2))
                        }
                    },
                }
            },
            (Phase::Reading, Event::StateRead(c)) => if c == SessionClass::Invalid {
                self.create_fresh()
            } else {
                self.proceed(c)
            },
            (Phase::Deleting, Event::Deleted) => self.create_fresh(),
            (Phase::Creating, Event::Created) => self.proceed(SessionClass::Anonymous),
            (Phase::Hashing, Event::Hashed(h)) => (Flow { phase: Phase::Inserting, ..self }, Effect::InsertUser(h)),
            (Phase::Inserting, Event::Inserted) => {
                let t = self.token.clone();
                (Flow { phase: Phase::Promoting, ..self }, Effect::PromoteSession(t))
            },
            (Phase::Inserting, Event::InsertConflict) => self.finish(Reply::Failure(AuthError::IdentityTaken)),
            (Phase::Finding, Event::Found(phc)) => (Flow { phase: Phase::Verifying, ..self }, Effect::VerifyPassword(phc)),
            (Phase::Finding, Event::NotFound) => self.finish(Reply::Failure(AuthError::UnknownIdentity)),
            (Phase::Verifying, Event::Checked(c)) => match c {
                PasswordCheck::Match => {
                    let t = self.token.clone();
                    (Flow { phase: Phase::Promoting, ..self }, Effect::PromoteSession(t))
                },
                PasswordCheck::Mismatch => self.finish(Reply::Failure(AuthError::BadCredential)),
                PasswordCheck::Malformed => self.finish(Reply::Failure(AuthError::Transient)),
            },
            (Phase::Promoting, Event::Promoted) => {
                let t = self.token.clone();
                let m = self.minted;
                self.finish(Reply::Success { token: t, set_cookie: m })
            },
            _ => self.finish(Reply::Failure(AuthError::Transient)),
        }
    }
}

pub open spec fn reply_status(r: Reply) -> u16 {
    match r {
        Reply::Success { .. } => 200,
        Reply::Failure(e) => status_of(e),
    }
}

impl Reply {
    /// The HTTP status of the outcome.
    pub fn status_code(&self) -> (r: u16)
        ensures
            r == reply_status(*self),
    {
        match self {
            Reply::Success { .. } => 200,
            Reply::Failure(e) => e.status_code(),
        }
    }

    /// The session cookie to set: for a success on a newly minted token only.
    pub fn cookie(&self, ttl_secs: u64) -> (r: Option<CookieDirective>)
        ensures
            match *self {
                Reply::Success { token, set_cookie: true } => r matches Some(c) && is_session_cookie(
                    c,
                    token@,
                    ttl_secs,
                ),
                _ => r is None,
            },
    {
        match self {
            Reply::Success { token, set_cookie } => if *set_cookie {
                Some(session_cookie(token.as_str(), ttl_secs))
            } else {
                None
            },
            Reply::Failure(_) => None,
        }
    }
}

} // verus!

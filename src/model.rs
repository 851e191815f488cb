use vstd::prelude::*;
use crate::error::AuthError;
use crate::password::PasswordCheck;
use crate::flow::{next, Effect, Event, Flow, Phase, Reply, UseCase};
use crate::state::{class_of_field, state_code, SessionClass, SessionUserState};

verus! {

/// The live sessions of the session cache: token to its stored state code.
pub type SessionMap = Map<Seq<char>, u32>;

/// The state field that a read of `token` finds.
pub open spec fn stored_field(m: SessionMap, token: Seq<char>) -> Option<u32> {
    if m.contains_key(token) {
        Some(m[token])
    } else {
        None
    }
}

/// What a read of `token` classifies it as.
pub open spec fn read_class(m: SessionMap, token: Seq<char>) -> SessionClass {
    class_of_field(stored_field(m, token))
}

/// The live sessions after an effect on the session cache has completed.
pub open spec fn apply_session(m: SessionMap, e: Effect) -> SessionMap {
    match e {
        Effect::CreateSession(t) => m.insert(t@, state_code(SessionUserState::Anonymous)),
        Effect::DeleteSession(t) => m.remove(t@),
        Effect::PromoteSession(t) => m.insert(t@, state_code(SessionUserState::Registered)),
        _ => m,
    }
}

/// A user row of the credential store, by its two unique fields.
pub struct UserKey {
    pub username: Seq<char>,
    pub email: Seq<char>,
}

pub open spec fn clashes(a: UserKey, b: UserKey) -> bool {
    a.username == b.username || a.email == b.email
}

/// Whether the store holds a row whose username or email is that of `row`.
pub open spec fn identity_taken(users: Seq<UserKey>, row: UserKey) -> bool {
    exists|i: int| 0 <= i < users.len() && clashes(#[trigger] users[i], row)
}

/// The credential store's insert: refused on a clash, else appended.
pub open spec fn store_insert(users: Seq<UserKey>, row: UserKey) -> (Seq<UserKey>, Event) {
    if identity_taken(users, row) {
        (users, Event::InsertConflict)
    } else {
        (users.push(row), Event::Inserted)
    }
}

/// A use case that has not started.
pub open spec fn fresh_flow(f: Flow, u: UseCase) -> bool {
    f.use_case == u && f.phase == Phase::Start
}

/// A Register without a session token, whose every outside step succeeds,
/// answers success on the minted token with its cookie, and a read of that
/// token afterwards gives `Registered`.
pub proof fn lemma_fresh_register_is_registered(
    f0: Flow,
    fresh: String,
    hash: String,
    m: SessionMap,
)
    requires
        fresh_flow(f0, UseCase::Register),
    ensures
        ({
            let s1 = next(f0, Event::Started { supplied: None, fresh: fresh });
            let s2 = next(s1.0, Event::Created);
            let s3 = next(s2.0, Event::Hashed(hash));
            let s4 = next(s3.0, Event::Inserted);
            let s5 = next(s4.0, Event::Promoted);
            let m4 = apply_session(apply_session(apply_session(apply_session(m, s1.1), s2.1), s3.1), s4.1);
            &&& s5.1 == Effect::Finish(Reply::Success { token: fresh, set_cookie: true })
            &&& read_class(m4, fresh@) == SessionClass::Registered
        }),
{
}

/// Register on a session that reads `Registered` is refused as already
/// registered, and writes nothing to either store.
pub proof fn lemma_register_twice_is_refused(f0: Flow, token: String, fresh: String)
    requires
        fresh_flow(f0, UseCase::Register),
    ensures
        ({
            let s1 = next(f0, Event::Started { supplied: Some(token), fresh: fresh });
            let s2 = next(s1.0, Event::StateRead(SessionClass::Registered));
            &&& s1.1 == Effect::ReadState(token)
            &&& s2.1 == Effect::Finish(Reply::Failure(AuthError::AlreadyRegistered))
            &&& s2.0.phase == Phase::Done
        }),
{
}

/// Login on a live session, whatever its state, promotes that very session
/// once the identity is found and the password matches, and answers success
/// without a new cookie; an unknown identity or a wrong password is refused
/// with nothing written.
pub proof fn lemma_login_on_live_session(
    f0: Flow,
    token: String,
    fresh: String,
    class: SessionClass,
    phc: String,
    check: PasswordCheck,
)
    requires
        fresh_flow(f0, UseCase::Login),
        class != SessionClass::Invalid,
    ensures
        ({
            let s1 = next(f0, Event::Started { supplied: Some(token), fresh: fresh });
            let s2 = next(s1.0, Event::StateRead(class));
            let s3 = next(s2.0, Event::Found(phc));
            let s4 = next(s3.0, Event::Checked(check));
            let s5 = next(s4.0, Event::Promoted);
            let n3 = next(s2.0, Event::NotFound);
            &&& s2.1 == Effect::FindUser
            &&& s3.1 == Effect::VerifyPassword(phc)
            &&& check == PasswordCheck::Match ==> s4.1 == Effect::PromoteSession(token)
                && s5.1 == Effect::Finish(Reply::Success { token: token, set_cookie: false })
            &&& check == PasswordCheck::Mismatch ==> s4.1 == Effect::Finish(
                Reply::Failure(AuthError::BadCredential),
            )
            &&& n3.1 == Effect::Finish(Reply::Failure(AuthError::UnknownIdentity))
        }),
{
}

/// A token that reads `Invalid` (absent or expired) is replaced by a fresh
/// `Anonymous` session before any other work, for every use case that reads.
pub proof fn lemma_invalid_token_is_replaced(f0: Flow, u: UseCase, token: String, fresh: String)
    requires
        fresh_flow(f0, u),
        u != UseCase::Logout,
    ensures
        ({
            let s1 = next(f0, Event::Started { supplied: Some(token), fresh: fresh });
            let s2 = next(s1.0, Event::StateRead(SessionClass::Invalid));
            &&& s2.1 == Effect::CreateSession(fresh)
            &&& s2.0.token == fresh
            &&& s2.0.minted
        }),
{
}

/// Two Logouts in sequence, the second on the token that the first issued,
/// both succeed with a cookie for the token each minted; each new token reads
/// `Anonymous` right after its Logout, and once the second has run the first
/// token no longer reads as a session unless the token source repeated it.
pub proof fn lemma_logout_twice(
    f0: Flow,
    g0: Flow,
    supplied: Option<String>,
    fresh1: String,
    fresh2: String,
    m: SessionMap,
)
    requires
        fresh_flow(f0, UseCase::Logout),
        fresh_flow(g0, UseCase::Logout),
    ensures
        ({
            // first Logout: delete the supplied session if any, then create
            let a1 = next(f0, Event::Started { supplied: supplied, fresh: fresh1 });
            let a2 = if supplied is Some { next(a1.0, Event::Deleted) } else { a1 };
            let a3 = next(a2.0, Event::Created);
            let ma = if supplied is Some {
                apply_session(apply_session(m, a1.1), a2.1)
            } else {
                apply_session(m, a1.1)
            };
            // second Logout, on the first one's token
            let b1 = next(g0, Event::Started { supplied: Some(fresh1), fresh: fresh2 });
            let b2 = next(b1.0, Event::Deleted);
            let b3 = next(b2.0, Event::Created);
            let mb = apply_session(apply_session(ma, b1.1), b2.1);
            &&& a3.1 == Effect::Finish(Reply::Success { token: fresh1, set_cookie: true })
            &&& read_class(ma, fresh1@) == SessionClass::Anonymous
            &&& b3.1 == Effect::Finish(Reply::Success { token: fresh2, set_cookie: true })
            &&& read_class(mb, fresh2@) == SessionClass::Anonymous
            &&& fresh1@ != fresh2@ ==> read_class(mb, fresh1@) == SessionClass::Invalid
        }),
{
}

/// A session is never silently set back to `Anonymous`: the only session the
/// machine creates is the fresh one it then works on, the fresh token is fixed
/// once started, only Logout deletes a session, and only Register and Login
/// promote one, always the session in use.
pub proof fn lemma_no_silent_downgrade(f: Flow, ev: Event)
    requires
        f.wf(),
    ensures
        ({
            let (g, e) = next(f, ev);
            &&& g.wf()
            &&& e matches Effect::CreateSession(t) ==> t == g.fresh && g.token == t && g.minted
            &&& f.phase != Phase::Start ==> g.fresh == f.fresh
            &&& e matches Effect::DeleteSession(_) ==> f.use_case == UseCase::Logout
            &&& e matches Effect::PromoteSession(t) ==> t == f.token && f.use_case != UseCase::Logout
        }),
{
}

/// Two Registers that reach the credential store with the same email, in
/// whichever order the store takes them: the first is inserted and goes on to
/// promote its session, the second is refused as a conflict with its session
/// untouched, and the store then holds exactly one row with that email.
pub proof fn lemma_one_register_per_email(
    users: Seq<UserKey>,
    first: UserKey,
    second: UserKey,
    f: Flow,
    g: Flow,
)
    requires
        first.email == second.email,
        forall|i: int| 0 <= i < users.len() ==> !clashes(#[trigger] users[i], first),
        f.phase == Phase::Inserting,
        g.phase == Phase::Inserting,
    ensures
        ({
            let (u1, e1) = store_insert(users, first);
            let (u2, e2) = store_insert(u1, second);
            &&& e1 == Event::Inserted
            &&& e2 == Event::InsertConflict
            &&& next(f, e1).1 == Effect::PromoteSession(f.token)
            &&& next(g, e2).1 == Effect::Finish(Reply::Failure(AuthError::IdentityTaken))
            &&& u2.len() == users.len() + 1
            &&& u2[users.len() as int] == first
            &&& forall|i: int|
                0 <= i < u2.len() && (#[trigger] u2[i]).email == first.email ==> i == users.len()
        }),
{
    let u1 = users.push(first);
    assert(u1[users.len() as int] == first);
    assert(identity_taken(u1, second));
    assert forall|i: int| 0 <= i < u1.len() && (#[trigger] u1[i]).email == first.email implies i
        == users.len() by {
        if i < users.len() {
            assert(u1[i] == users[i]);
            assert(!clashes(users[i], first));
        }
    }
}

} // verus!

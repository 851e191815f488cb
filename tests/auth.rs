use std::collections::HashMap;

use crimson_heart::credential::{HTTPUserRegister, UserRecord, UserTable};
use crimson_heart::error::AuthError;
use crimson_heart::flow::{Effect, Event, Flow, Phase, Reply, UseCase};
use crimson_heart::password::{hash_password, hash_password_with_salt, verify_password, PasswordCheck};
use crimson_heart::session::{mint_token, session_cookie, session_key};
use crimson_heart::state::{classify_field, classify_record, SessionClass, SessionRecord, SessionUserState};

const TTL: u64 = 86400;

/// Sessions and users for driving flows in-process.
struct World {
    sessions: HashMap<String, SessionUserState>,
    users: UserTable,
}

impl World {
    fn new() -> World {
        World { sessions: HashMap::new(), users: UserTable::new() }
    }

    fn read(&self, token: &str) -> SessionClass {
        classify_field(self.sessions.get(token).map(|s| s.as_u32()))
    }

    /// Runs one use case to its reply, performing each effect.
    fn run(
        &mut self,
        use_case: UseCase,
        supplied: Option<&str>,
        register: Option<&HTTPUserRegister>,
        login: Option<(&str, &str)>,
    ) -> Reply {
        let mut flow = Flow::new(use_case);
        let mut ev = Event::Started { supplied: supplied.map(|s| s.to_string()), fresh: mint_token() };
        loop {
            let (next, effect) = flow.step(ev);
            flow = next;
            ev = match effect {
                Effect::ReadState(t) => Event::StateRead(self.read(&t)),
                Effect::DeleteSession(t) => {
                    self.sessions.remove(&t);
                    Event::Deleted
                }
                Effect::CreateSession(t) => {
                    self.sessions.insert(t, SessionUserState::Anonymous);
                    Event::Created
                }
                Effect::HashPassword => match hash_password(&register.unwrap().password) {
                    Some(h) => Event::Hashed(h),
                    None => Event::Failed,
                },
                Effect::InsertUser(h) => {
                    let rec = UserRecord::from_registration(register.unwrap(), mint_token(), h);
                    match self.users.insert_user(rec) {
                        Ok(()) => Event::Inserted,
                        Err(_) => Event::InsertConflict,
                    }
                }
                Effect::FindUser => match self.users.find_by_identity(login.unwrap().0) {
                    Some(h) => Event::Found(h),
                    None => Event::NotFound,
                },
                Effect::VerifyPassword(phc) => Event::Checked(verify_password(login.unwrap().1, &phc)),
                Effect::PromoteSession(t) => {
                    self.sessions.insert(t, SessionUserState::Registered);
                    Event::Promoted
                }
                Effect::Finish(reply) => return reply,
            };
        }
    }
}

fn alice() -> HTTPUserRegister {
    HTTPUserRegister {
        username: "alice".to_string(),
        password: "pw1".to_string(),
        birth_date: "2000-01-01".to_string(),
        email: "a@x.com".to_string(),
    }
}

fn success_token(r: &Reply) -> String {
    match r {
        Reply::Success { token, .. } => token.clone(),
        Reply::Failure(e) => panic!("expected success, got {:?}", e),
    }
}

#[test]
fn state_codes() {
    assert_eq!(SessionUserState::Anonymous.as_u32(), 1);
    assert_eq!(SessionUserState::Registered.as_u32(), 2);
    assert_eq!(SessionUserState::from_u32(1), Some(SessionUserState::Anonymous));
    assert_eq!(SessionUserState::from_u32(2), Some(SessionUserState::Registered));
    assert_eq!(SessionUserState::from_u32(0), None);
    assert_eq!(SessionUserState::from_u32(3), None);
}

#[test]
fn state_field_classification() {
    assert_eq!(classify_field(None), SessionClass::Invalid);
    assert_eq!(classify_field(Some(1)), SessionClass::Anonymous);
    assert_eq!(classify_field(Some(2)), SessionClass::Registered);
    assert_eq!(classify_field(Some(7)), SessionClass::Invalid);
}

#[test]
fn expired_token_is_like_never_issued() {
    let rec = SessionRecord { state: SessionUserState::Registered, expires_at: 100 };
    assert_eq!(classify_record(Some(rec), 99), SessionClass::Registered);
    assert_eq!(classify_record(Some(rec), 100), classify_record(None, 100));
    assert_eq!(classify_record(Some(rec), 5000), SessionClass::Invalid);
}

#[test]
fn key_and_cookie() {
    assert_eq!(session_key("abc"), "session_id:abc");
    let c = session_cookie("tok", TTL);
    assert_eq!(c.name, "session_id");
    assert_eq!(c.value, "tok");
    assert_eq!(c.path, "/");
    assert!(c.http_only);
    assert!(c.same_site_lax);
    assert_eq!(c.max_age_secs, 86400);
}

#[test]
fn minted_tokens_are_distinct() {
    let a = mint_token();
    let b = mint_token();
    assert_ne!(a, b);
    assert_eq!(a.len(), 36);
}

#[test]
fn hash_then_verify() {
    let h = hash_password("pw1").unwrap();
    assert_ne!(h, "pw1");
    assert!(h.starts_with("$argon2id$"));
    assert_eq!(verify_password("pw1", &h), PasswordCheck::Match);
    assert_eq!(verify_password("pw2", &h), PasswordCheck::Mismatch);
    assert_eq!(verify_password("pw1", "not a hash"), PasswordCheck::Malformed);
}

#[test]
fn hash_with_salt_is_deterministic() {
    let a = hash_password_with_salt("secret", "c29tZXNhbHQ").unwrap();
    let b = hash_password_with_salt("secret", "c29tZXNhbHQ").unwrap();
    assert_eq!(a, b);
    assert!(a.contains("c29tZXNhbHQ"));
    assert_eq!(hash_password_with_salt("secret", "!"), None);
}

#[test]
fn error_statuses() {
    assert_eq!(AuthError::InvalidSession.status_code(), 400);
    assert_eq!(AuthError::AlreadyRegistered.status_code(), 409);
    assert_eq!(AuthError::IdentityTaken.status_code(), 409);
    assert_eq!(AuthError::UnknownIdentity.status_code(), 404);
    assert_eq!(AuthError::BadCredential.status_code(), 401);
    assert_eq!(AuthError::Transient.status_code(), 500);
    assert_eq!(AuthError::AlreadyRegistered.message(), "You are already registered\n");
    assert_eq!(AuthError::BadCredential.message(), "Invalid credentials\n");
}

#[test]
fn fresh_register_steps() {
    let f = Flow::new(UseCase::Register);
    let (f, e) = f.step(Event::Started { supplied: None, fresh: "t1".to_string() });
    assert_eq!(e, Effect::CreateSession("t1".to_string()));
    let (f, e) = f.step(Event::Created);
    assert_eq!(e, Effect::HashPassword);
    let (f, e) = f.step(Event::Hashed("h".to_string()));
    assert_eq!(e, Effect::InsertUser("h".to_string()));
    let (f, e) = f.step(Event::Inserted);
    assert_eq!(e, Effect::PromoteSession("t1".to_string()));
    let (f, e) = f.step(Event::Promoted);
    assert_eq!(f.phase, Phase::Done);
    let reply = Reply::Success { token: "t1".to_string(), set_cookie: true };
    assert_eq!(e, Effect::Finish(reply.clone()));
    assert_eq!(reply.status_code(), 200);
    assert_eq!(reply.cookie(TTL).unwrap().value, "t1");
}

#[test]
fn fresh_register_reads_registered() {
    let mut w = World::new();
    let r = w.run(UseCase::Register, None, Some(&alice()), None);
    let t = success_token(&r);
    assert_eq!(w.read(&t), SessionClass::Registered);
}

#[test]
fn supplied_session_gets_no_cookie() {
    let f = Flow::new(UseCase::Login);
    let (f, e) = f.step(Event::Started { supplied: Some("old".to_string()), fresh: "new".to_string() });
    assert_eq!(e, Effect::ReadState("old".to_string()));
    let (f, _) = f.step(Event::StateRead(SessionClass::Anonymous));
    let (f, e) = f.step(Event::Found("phc".to_string()));
    assert_eq!(e, Effect::VerifyPassword("phc".to_string()));
    let (f, _) = f.step(Event::Checked(PasswordCheck::Match));
    let (_, e) = f.step(Event::Promoted);
    let reply = Reply::Success { token: "old".to_string(), set_cookie: false };
    assert_eq!(e, Effect::Finish(reply.clone()));
    assert!(reply.cookie(TTL).is_none());
}

#[test]
fn invalid_token_is_replaced() {
    let f = Flow::new(UseCase::Register);
    let (f, _) = f.step(Event::Started { supplied: Some("stale".to_string()), fresh: "new".to_string() });
    let (f, e) = f.step(Event::StateRead(SessionClass::Invalid));
    assert_eq!(e, Effect::CreateSession("new".to_string()));
    assert_eq!(f.token, "new");
    assert!(f.minted);
}

#[test]
fn store_failure_is_transient() {
    let f = Flow::new(UseCase::Logout);
    let (f, _) = f.step(Event::Started { supplied: Some("t".to_string()), fresh: "n".to_string() });
    let (f, e) = f.step(Event::Failed);
    assert_eq!(f.phase, Phase::Done);
    assert_eq!(e, Effect::Finish(Reply::Failure(AuthError::Transient)));
}

#[test]
fn unexpected_event_is_transient() {
    let f = Flow::new(UseCase::Login);
    let (_, e) = f.step(Event::Promoted);
    assert_eq!(e, Effect::Finish(Reply::Failure(AuthError::Transient)));
}

#[test]
fn malformed_stored_hash_is_transient() {
    let f = Flow::new(UseCase::Login);
    let (f, _) = f.step(Event::Started { supplied: None, fresh: "n".to_string() });
    let (f, _) = f.step(Event::Created);
    let (f, _) = f.step(Event::Found("x".to_string()));
    let (_, e) = f.step(Event::Checked(PasswordCheck::Malformed));
    assert_eq!(e, Effect::Finish(Reply::Failure(AuthError::Transient)));
}

#[test]
fn logout_twice_gives_distinct_sessions() {
    let mut w = World::new();
    let r1 = w.run(UseCase::Logout, None, None, None);
    let t1 = success_token(&r1);
    assert_eq!(r1.status_code(), 200);
    assert!(r1.cookie(TTL).is_some());
    assert_eq!(w.read(&t1), SessionClass::Anonymous);
    let r2 = w.run(UseCase::Logout, Some(&t1), None, None);
    let t2 = success_token(&r2);
    assert_ne!(t1, t2);
    assert_eq!(w.read(&t2), SessionClass::Anonymous);
    assert_eq!(w.read(&t1), SessionClass::Invalid);
}

#[test]
fn same_email_registers_once() {
    let mut w = World::new();
    let first = w.run(UseCase::Register, None, Some(&alice()), None);
    let mut other = alice();
    other.username = "bob".to_string();
    let second = w.run(UseCase::Register, None, Some(&other), None);
    assert!(matches!(first, Reply::Success { .. }));
    assert_eq!(second, Reply::Failure(AuthError::IdentityTaken));
    assert_eq!(second.status_code(), 409);
    assert_eq!(w.users.len(), 1);
}

#[test]
fn user_table_lookup() {
    let mut t = UserTable::new();
    let rec = UserRecord::from_registration(&alice(), "id1".to_string(), "h1".to_string());
    assert_eq!(t.insert_user(rec), Ok(()));
    assert_eq!(t.find_by_identity("alice"), Some("h1".to_string()));
    assert_eq!(t.find_by_identity("a@x.com"), Some("h1".to_string()));
    assert_eq!(t.find_by_identity("carol"), None);
    let mut dup = alice();
    dup.email = "other@x.com".to_string();
    let rec2 = UserRecord::from_registration(&dup, "id2".to_string(), "h2".to_string());
    assert_eq!(t.insert_user(rec2), Err(AuthError::IdentityTaken));
    assert_eq!(t.len(), 1);
}

#[test]
fn register_login_scenario() {
    let mut w = World::new();
    let r = w.run(UseCase::Register, None, Some(&alice()), None);
    assert_eq!(r.status_code(), 200);
    let c1 = r.cookie(TTL).unwrap().value;
    let again = w.run(UseCase::Register, Some(&c1), Some(&alice()), None);
    assert_eq!(again, Reply::Failure(AuthError::AlreadyRegistered));
    assert_eq!(again.status_code(), 409);
    let ok = w.run(UseCase::Login, None, None, Some(("a@x.com", "pw1")));
    assert_eq!(ok.status_code(), 200);
    let bad = w.run(UseCase::Login, None, None, Some(("a@x.com", "wrongpw")));
    assert_eq!(bad, Reply::Failure(AuthError::BadCredential));
    assert_eq!(bad.status_code(), 401);
    let unknown = w.run(UseCase::Login, None, None, Some(("nobody", "pw1")));
    assert_eq!(unknown.status_code(), 404);
}

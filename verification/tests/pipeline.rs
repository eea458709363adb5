use serde_json::Value;
use tranquility::error::{Error, CREATED};
use tranquility::fetcher::{
    fetch_activity, fetch_actor, fetch_any, fetch_object, Entity, Resolver, Step,
};
use tranquility::handler::{like, undo};
use tranquility::inbox::{
    inbox, recognize, validate_request, verify_ownership, verify_signature, Handler, Validation,
};
use tranquility::model::{parse_activity, Activity};
use tranquility::pipeline::{process, Inbound};
use tranquility::protocol::{ActivityType, Kind, Outcome, Reply, Request};

const ALICE: &str = "https://a.example/users/alice";
const BOB: &str = "https://b.example/users/bob";
const NOTE: &str = "https://a.example/notes/1";
const LIKE: &str = "https://a.example/likes/1";

fn doc(text: &str) -> Value {
    serde_json::from_str(text).unwrap()
}

fn person(url: &str, name: &str) -> Value {
    doc(&format!(
        r#"{{"type":"Person","id":"{}","preferredUsername":"{}","publicKey":{{"publicKeyPem":"PEM-{}"}}}}"#,
        url, name, name
    ))
}

fn note(url: &str, owner: &str) -> Value {
    doc(&format!(r#"{{"type":"Note","id":"{}","attributedTo":"{}"}}"#, url, owner))
}

fn activity_doc(kind: &str, url: &str, actor: &str, object: &str) -> Value {
    doc(&format!(
        r#"{{"type":"{}","id":"{}","actor":"{}","object":{}}}"#,
        kind, url, actor, object
    ))
}

fn quoted(url: &str) -> String {
    format!("\"{}\"", url)
}

fn activity(kind: &str, url: &str, actor: &str, object: &str) -> Activity {
    parse_activity(&activity_doc(kind, url, actor, object)).unwrap()
}

/// A store and a network that live in memory, with a journal of what was
/// asked of them.
struct World {
    actors: Vec<(u128, Value)>,
    records: Vec<(u128, String, Value)>,
    remote: Vec<(String, Value)>,
    signature_holds: bool,
    journal: Vec<String>,
}

impl World {
    fn new() -> World {
        World {
            actors: Vec::new(),
            records: Vec::new(),
            remote: Vec::new(),
            signature_holds: true,
            journal: Vec::new(),
        }
    }

    fn serve(&mut self, url: &str, body: Value) {
        self.remote.push((url.to_string(), body));
    }

    fn fetches(&self) -> usize {
        self.journal.iter().filter(|l| l.starts_with("get ")).count()
    }

    fn writes(&self) -> usize {
        self.journal
            .iter()
            .filter(|l| l.starts_with("insert") || l.starts_with("delete"))
            .count()
    }

    fn record(&self, url: &str) -> Option<Value> {
        self.records.iter().find(|r| r.1 == url).map(|r| r.2.clone())
    }

    fn answer(&mut self, request: Request) -> Reply {
        match request {
            Request::ActorByUrl(url) => {
                match self.actors.iter().find(|a| a.1["id"] == url.as_str()) {
                    Some((id, data)) => Reply::ActorRow { id: *id, data: data.clone() },
                    None => Reply::Missing,
                }
            }
            Request::RecordByUrl(url) => match self.record(&url) {
                Some(data) => Reply::Record(data),
                None => Reply::Missing,
            },
            Request::Get(url) => {
                self.journal.push(format!("get {}", url));
                match self.remote.iter().find(|r| r.0 == url) {
                    Some((_, body)) => Reply::Body(body.clone()),
                    None => Reply::Failed(Error::Fetch),
                }
            }
            Request::InsertActor { username, data } => {
                self.journal.push(format!("insert actor {}", username));
                let id = 100 + self.actors.len() as u128;
                self.actors.push((id, data.clone()));
                Reply::ActorRow { id, data }
            }
            Request::InsertRecord { owner, id, data } => {
                self.journal.push(format!("insert record {} for {}", id, owner));
                self.records.push((owner, id, data));
                Reply::Done
            }
            Request::DeleteActivity(url) => {
                self.journal.push(format!("delete {}", url));
                self.records.retain(|r| r.1 != url);
                Reply::Done
            }
            Request::Resolve(kind, url) => match self.resolve(Resolver::start(kind, &url)) {
                Ok(entity) => Reply::Resolved(entity),
                Err(e) => Reply::Failed(e),
            },
            Request::VerifySignature { public_key, query } => {
                self.journal.push(format!("verify {} {:?}", public_key, query));
                Reply::Verified(self.signature_holds)
            }
            Request::Handle { kind, .. } => {
                self.journal.push(format!("handle {:?}", kind));
                Reply::Done
            }
        }
    }

    fn resolve(&mut self, mut step: Step) -> Result<Entity, Error> {
        loop {
            match step {
                Step::Ask(state, request) => {
                    let reply = self.answer(request);
                    step = state.step(reply);
                }
                Step::Done(entity) => return Ok(entity),
                Step::Fail(e) => return Err(e),
            }
        }
    }

    fn validate(&mut self, mut at: Outcome<Validation, Activity>) -> Result<Activity, Error> {
        loop {
            match at {
                Outcome::Ask(state, request) => {
                    let reply = self.answer(request);
                    at = state.step(reply);
                }
                Outcome::Done(activity) => return Ok(activity),
                Outcome::Fail(e) => return Err(e),
            }
        }
    }

    fn run(&mut self, mut at: Outcome<Inbound, u16>) -> Result<u16, Error> {
        loop {
            match at {
                Outcome::Ask(state, request) => {
                    assert!(!matches!(request, Request::Resolve(..)));
                    let reply = self.answer(request);
                    at = state.step(reply);
                }
                Outcome::Done(status) => return Ok(status),
                Outcome::Fail(e) => return Err(e),
            }
        }
    }

    fn handle(&mut self, mut at: Outcome<Handler, u16>) -> Result<u16, Error> {
        loop {
            match at {
                Outcome::Ask(state, request) => {
                    let reply = self.answer(request);
                    at = state.step(reply);
                }
                Outcome::Done(status) => return Ok(status),
                Outcome::Fail(e) => return Err(e),
            }
        }
    }
}

#[test]
fn resolving_twice_fetches_once_and_returns_the_same_data() {
    let mut w = World::new();
    w.serve(ALICE, person(ALICE, "alice"));
    w.serve(NOTE, note(NOTE, ALICE));
    let first = w.resolve(fetch_object(NOTE)).unwrap();
    let fetched = w.fetches();
    assert_eq!(fetched, 2);
    let second = w.resolve(fetch_object(NOTE)).unwrap();
    assert_eq!(w.fetches(), fetched);
    assert_eq!(first, second);
    assert_eq!(w.records.len(), 1);
    assert_eq!(w.actors.len(), 1);
    assert_eq!(w.record(NOTE), Some(note(NOTE, ALICE)));
}

#[test]
fn resolving_an_actor_twice_fetches_once() {
    let mut w = World::new();
    w.serve(ALICE, person(ALICE, "alice"));
    let first = w.resolve(fetch_actor(ALICE)).unwrap();
    let second = w.resolve(fetch_actor(ALICE)).unwrap();
    assert_eq!(w.fetches(), 1);
    assert_eq!(first, second);
    assert_eq!(w.actors.len(), 1);
    match first {
        Entity::Actor(a) => assert_eq!(a.public_key_pem, "PEM-alice"),
        other => panic!("not an actor: {:?}", other),
    }
}

#[test]
fn fetched_activity_is_stored_after_its_actor() {
    let mut w = World::new();
    w.serve(ALICE, person(ALICE, "alice"));
    w.serve(LIKE, activity_doc("Like", LIKE, ALICE, &quoted(NOTE)));
    let got = w.resolve(fetch_activity(LIKE)).unwrap();
    assert!(matches!(got, Entity::Activity(_)));
    assert_eq!(
        w.journal,
        vec![
            format!("get {}", LIKE),
            format!("get {}", ALICE),
            "insert actor alice".to_string(),
            format!("insert record {} for 100", LIKE),
        ]
    );
    assert_eq!(w.records[0].0, w.actors[0].0);
}

#[test]
fn fetched_activity_of_a_known_actor_fetches_only_itself() {
    let mut w = World::new();
    w.actors.push((7, person(ALICE, "alice")));
    w.serve(LIKE, activity_doc("Like", LIKE, ALICE, &quoted(NOTE)));
    w.resolve(fetch_activity(LIKE)).unwrap();
    assert_eq!(
        w.journal,
        vec![format!("get {}", LIKE), format!("insert record {} for 7", LIKE)]
    );
}

#[test]
fn cache_hit_asks_for_nothing_more() {
    let data = note(NOTE, ALICE);
    let step = match fetch_object(NOTE) {
        Step::Ask(state, Request::RecordByUrl(url)) => {
            assert_eq!(url, NOTE);
            state.step(Reply::Record(data))
        }
        other => panic!("unexpected first step: {:?}", other),
    };
    match step {
        Step::Done(Entity::Object(o)) => assert_eq!(o.attributed_to, ALICE),
        other => panic!("unexpected step: {:?}", other),
    }
}

#[test]
fn first_steps_ask_the_store() {
    assert!(matches!(
        fetch_actor(ALICE),
        Step::Ask(Resolver::CachedActor { kind: Kind::Actor, .. }, Request::ActorByUrl(_))
    ));
    assert!(matches!(
        fetch_any(ALICE),
        Step::Ask(Resolver::CachedActor { kind: Kind::Any, .. }, Request::ActorByUrl(_))
    ));
    assert!(matches!(
        fetch_activity(LIKE),
        Step::Ask(Resolver::CachedRecord { kind: Kind::Activity, .. }, Request::RecordByUrl(_))
    ));
    assert!(matches!(
        fetch_object(NOTE),
        Step::Ask(Resolver::CachedRecord { kind: Kind::Object, .. }, Request::RecordByUrl(_))
    ));
}

#[test]
fn miss_sends_the_fetch_to_the_same_url() {
    let step = match fetch_activity(LIKE) {
        Step::Ask(state, _) => state.step(Reply::Missing),
        other => panic!("unexpected first step: {:?}", other),
    };
    assert_eq!(
        step,
        Step::Ask(Resolver::Remote { kind: Kind::Activity }, Request::Get(LIKE.to_string()))
    );
}

#[test]
fn unreachable_origin_is_a_fetch_error() {
    let mut w = World::new();
    assert_eq!(w.resolve(fetch_actor(ALICE)), Err(Error::Fetch));
    assert_eq!(w.resolve(fetch_activity(LIKE)), Err(Error::Fetch));
    assert_eq!(w.writes(), 0);
}

#[test]
fn entity_of_another_kind_is_a_fetch_error() {
    let mut w = World::new();
    w.serve(ALICE, person(ALICE, "alice"));
    w.serve(NOTE, note(NOTE, ALICE));
    assert_eq!(w.resolve(fetch_activity(ALICE)), Err(Error::Fetch));
    assert_eq!(w.resolve(fetch_actor(NOTE)), Err(Error::Fetch));
    assert_eq!(w.resolve(fetch_activity(NOTE)), Err(Error::Fetch));
    assert_eq!(w.writes(), 0);
}

#[test]
fn object_without_reachable_owner_is_not_stored() {
    let mut w = World::new();
    w.serve(NOTE, note(NOTE, ALICE));
    assert_eq!(w.resolve(fetch_object(NOTE)), Err(Error::Fetch));
    assert_eq!(w.writes(), 0);
    assert_eq!(w.record(NOTE), None);
}

#[test]
fn owner_that_is_no_actor_is_a_fetch_error() {
    let mut w = World::new();
    w.serve(NOTE, note(NOTE, ALICE));
    w.serve(ALICE, note(ALICE, ALICE));
    assert_eq!(w.resolve(fetch_object(NOTE)), Err(Error::Fetch));
    assert_eq!(w.writes(), 0);
}

#[test]
fn resolving_any_finds_actors_records_and_remote_entities() {
    let mut w = World::new();
    w.actors.push((7, person(ALICE, "alice")));
    w.records.push((7, NOTE.to_string(), note(NOTE, ALICE)));
    w.serve(BOB, person(BOB, "bob"));
    assert!(matches!(w.resolve(fetch_any(ALICE)), Ok(Entity::Actor(_))));
    assert!(matches!(w.resolve(fetch_any(NOTE)), Ok(Entity::Object(_))));
    assert_eq!(w.fetches(), 0);
    assert!(matches!(w.resolve(fetch_any(BOB)), Ok(Entity::Actor(_))));
    assert_eq!(w.fetches(), 1);
    assert_eq!(w.actors.len(), 2);
}

#[test]
fn failed_insert_is_handed_on() {
    let actor = tranquility::model::parse_actor(&person(ALICE, "alice")).unwrap();
    let state = || Resolver::StoringActor { actor: actor.clone() };
    assert_eq!(state().step(Reply::Failed(Error::NotFound)), Step::Fail(Error::NotFound));
    assert_eq!(state().step(Reply::Missing), Step::Fail(Error::NotFound));
    assert_eq!(state().step(Reply::Verified(true)), Step::Fail(Error::Fetch));
    assert_eq!(
        state().step(Reply::ActorRow { id: 1, data: person(ALICE, "alice") }),
        Step::Done(Entity::Actor(actor.clone()))
    );
}

#[test]
fn announce_and_follow_pass_whatever_they_hold() {
    for kind in ["Announce", "Follow"] {
        let a = activity(kind, "https://a.example/act/1", ALICE, &person(BOB, "bob").to_string());
        assert_eq!(verify_ownership(a.clone()), Outcome::Done(a));
        let b = activity(kind, "https://a.example/act/2", ALICE, &note(NOTE, BOB).to_string());
        assert_eq!(verify_ownership(b.clone()), Outcome::Done(b));
        let c = activity(kind, "https://a.example/act/3", ALICE, &quoted(BOB));
        assert_eq!(verify_ownership(c.clone()), Outcome::Done(c));
    }
}

#[test]
fn inline_actor_of_another_id_is_unauthorized() {
    let a = activity("Update", "https://a.example/act/1", ALICE, &person(BOB, "bob").to_string());
    assert_eq!(verify_ownership(a), Outcome::Fail(Error::Unauthorized));
    let own =
        activity("Update", "https://a.example/act/1", ALICE, &person(ALICE, "alice").to_string());
    assert_eq!(verify_ownership(own.clone()), Outcome::Done(own));
}

#[test]
fn inline_object_has_to_be_attributed_to_the_sender() {
    let own = activity("Create", "https://a.example/act/1", ALICE, &note(NOTE, ALICE).to_string());
    assert_eq!(verify_ownership(own.clone()), Outcome::Done(own));
    let other = activity("Create", "https://a.example/act/1", BOB, &note(NOTE, ALICE).to_string());
    assert_eq!(verify_ownership(other), Outcome::Fail(Error::Unauthorized));
}

#[test]
fn url_object_is_resolved_and_tested() {
    let mut w = World::new();
    w.actors.push((7, person(ALICE, "alice")));
    w.records.push((7, NOTE.to_string(), note(NOTE, ALICE)));
    let own = activity("Delete", "https://a.example/act/1", ALICE, &quoted(NOTE));
    match verify_ownership(own.clone()) {
        Outcome::Ask(state, Request::Resolve(Kind::Any, url)) => {
            assert_eq!(url, NOTE);
            let reply = w.answer(Request::Resolve(Kind::Any, url));
            assert_eq!(state.step(reply), Outcome::Done(own));
        }
        other => panic!("unexpected outcome: {:?}", other),
    }
    let foreign = activity("Delete", "https://b.example/act/1", BOB, &quoted(NOTE));
    match verify_ownership(foreign) {
        Outcome::Ask(state, request) => {
            let reply = w.answer(request);
            assert_eq!(state.step(reply), Outcome::Fail(Error::Unauthorized));
        }
        other => panic!("unexpected outcome: {:?}", other),
    }
}

#[test]
fn unresolvable_url_object_hands_on_the_fetch_error() {
    let mut w = World::new();
    let a = activity("Delete", "https://a.example/act/1", ALICE, &quoted(NOTE));
    match verify_ownership(a) {
        Outcome::Ask(state, request) => {
            let reply = w.answer(request);
            assert_eq!(reply, Reply::Failed(Error::Fetch));
            assert_eq!(state.step(reply), Outcome::Fail(Error::Fetch));
        }
        other => panic!("unexpected outcome: {:?}", other),
    }
}

#[test]
fn signature_is_checked_against_the_senders_key() {
    let mut w = World::new();
    w.serve(ALICE, person(ALICE, "alice"));
    let a = activity("Like", LIKE, ALICE, &quoted(NOTE));
    let mut at = verify_signature(a.clone(), "page=2".to_string());
    let done = loop {
        match at {
            Outcome::Ask(state, request) => {
                let reply = w.answer(request);
                at = state.step(reply);
            }
            other => break other,
        }
    };
    assert_eq!(done, Outcome::Done(a));
    assert!(w.journal.contains(&"verify PEM-alice Some(\"page=2\")".to_string()));
    // the sender was fetched and stored on the way
    assert_eq!(w.actors.len(), 1);
}

#[test]
fn empty_query_is_no_query() {
    let mut w = World::new();
    w.actors.push((7, person(ALICE, "alice")));
    let a = activity("Follow", "https://a.example/follow/1", ALICE, &quoted(BOB));
    let got = w.validate(validate_request(a.clone(), String::new()));
    assert_eq!(got, Ok(a));
    assert!(w.journal.contains(&"verify PEM-alice None".to_string()));
}

#[test]
fn bad_signature_is_unauthorized() {
    let mut w = World::new();
    w.actors.push((7, person(ALICE, "alice")));
    w.signature_holds = false;
    let a = activity("Follow", "https://a.example/act/1", ALICE, &quoted(BOB));
    assert_eq!(w.validate(validate_request(a, String::new())), Err(Error::Unauthorized));
}

#[test]
fn unresolved_sender_is_unauthorized() {
    let mut w = World::new();
    let a = activity("Follow", "https://a.example/act/1", ALICE, &quoted(BOB));
    assert_eq!(w.validate(validate_request(a, String::new())), Err(Error::Unauthorized));
}

#[test]
fn answer_out_of_turn_is_unauthorized() {
    let a = activity("Follow", "https://a.example/act/1", ALICE, &quoted(BOB));
    match verify_signature(a, String::new()) {
        Outcome::Ask(state, _) => {
            assert_eq!(state.step(Reply::Verified(true)), Outcome::Fail(Error::Unauthorized));
        }
        other => panic!("unexpected outcome: {:?}", other),
    }
}

#[test]
fn validation_checks_ownership_after_the_signature() {
    let mut w = World::new();
    w.actors.push((7, person(ALICE, "alice")));
    let forged =
        activity("Update", "https://a.example/act/1", ALICE, &person(BOB, "bob").to_string());
    assert_eq!(w.validate(validate_request(forged, String::new())), Err(Error::Unauthorized));
    let own = activity("Create", "https://a.example/act/2", ALICE, &note(NOTE, ALICE).to_string());
    assert_eq!(w.validate(validate_request(own.clone(), String::new())), Ok(own));
}

#[test]
fn undo_by_the_author_deletes_the_activity() {
    let mut w = World::new();
    w.actors.push((7, person(ALICE, "alice")));
    w.records.push((7, LIKE.to_string(), activity_doc("Like", LIKE, ALICE, &quoted(NOTE))));
    let u = activity("Undo", "https://a.example/undo/1", ALICE, &quoted(LIKE));
    let data = activity_doc("Undo", "https://a.example/undo/1", ALICE, &quoted(LIKE));
    assert_eq!(w.handle(inbox(u, data)), Ok(CREATED));
    assert_eq!(w.record(LIKE), None);
    assert_eq!(w.journal, vec![format!("delete {}", LIKE)]);
}

#[test]
fn undo_by_another_actor_is_unauthorized() {
    let mut w = World::new();
    w.records.push((7, LIKE.to_string(), activity_doc("Like", LIKE, ALICE, &quoted(NOTE))));
    let u = activity("Undo", "https://b.example/undo/1", BOB, &quoted(LIKE));
    let data = activity_doc("Undo", "https://b.example/undo/1", BOB, &quoted(LIKE));
    assert_eq!(w.handle(inbox(u, data)), Err(Error::Unauthorized));
    assert!(w.record(LIKE).is_some());
    assert_eq!(w.writes(), 0);
}

#[test]
fn undo_of_an_unknown_activity_is_not_found() {
    let mut w = World::new();
    w.serve(LIKE, activity_doc("Like", LIKE, ALICE, &quoted(NOTE)));
    let u = activity("Undo", "https://a.example/undo/1", ALICE, &quoted(LIKE));
    let mut at = undo::handle(u);
    let end = loop {
        match at {
            Outcome::Ask(state, request) => {
                let reply = w.answer(request);
                at = state.step(reply);
            }
            other => break other,
        }
    };
    assert_eq!(end, Outcome::Fail(Error::NotFound));
    // nothing is fetched for an Undo
    assert_eq!(w.fetches(), 0);
}

#[test]
fn undo_of_an_inline_object_is_a_fetch_error() {
    let u = activity("Undo", "https://a.example/undo/1", ALICE, &note(NOTE, ALICE).to_string());
    assert_eq!(undo::handle(u), Outcome::Fail(Error::Fetch));
}

#[test]
fn undo_of_a_record_that_is_no_activity_is_a_fetch_error() {
    let state = undo::Undo::Target { actor: ALICE.to_string() };
    assert_eq!(state.step(Reply::Record(note(NOTE, ALICE))), Outcome::Fail(Error::Fetch));
}

#[test]
fn like_is_stored_for_the_liking_actor() {
    let mut w = World::new();
    w.serve(ALICE, person(ALICE, "alice"));
    w.serve(BOB, person(BOB, "bob"));
    let target = "https://b.example/create/1";
    w.serve(target, activity_doc("Create", target, BOB, &note(NOTE, BOB).to_string()));
    let l = activity("Like", LIKE, ALICE, &quoted(target));
    let data = activity_doc("Like", LIKE, ALICE, &quoted(target));
    assert_eq!(w.handle(inbox(l, data.clone())), Ok(201));
    assert_eq!(w.record(LIKE), Some(data));
    let alice_row = w.actors.iter().find(|a| a.1["id"] == ALICE).unwrap().0;
    let stored = w.records.iter().find(|r| r.1 == LIKE).unwrap();
    assert_eq!(stored.0, alice_row);
    // the liked activity was stored before the Like
    assert_eq!(w.records[0].1, target);
}

#[test]
fn repeated_like_is_stored_again() {
    let mut w = World::new();
    w.actors.push((7, person(ALICE, "alice")));
    let target = "https://a.example/create/1";
    w.records.push((7, target.to_string(), activity_doc("Create", target, ALICE, &quoted(NOTE))));
    for _ in 0..2 {
        let l = activity("Like", LIKE, ALICE, &quoted(target));
        let data = activity_doc("Like", LIKE, ALICE, &quoted(target));
        assert_eq!(w.handle(from_like(like::handle(l, data))), Ok(CREATED));
    }
    assert_eq!(w.records.iter().filter(|r| r.1 == LIKE).count(), 2);
    assert_eq!(w.fetches(), 0);
}

fn from_like(at: Outcome<like::Like, u16>) -> Outcome<Handler, u16> {
    match at {
        Outcome::Ask(state, request) => Outcome::Ask(Handler::Like(state), request),
        Outcome::Done(status) => Outcome::Done(status),
        Outcome::Fail(e) => Outcome::Fail(e),
    }
}

#[test]
fn like_of_an_inline_object_is_unknown() {
    let l = activity("Like", LIKE, ALICE, &note(NOTE, ALICE).to_string());
    let data = activity_doc("Like", LIKE, ALICE, &note(NOTE, ALICE).to_string());
    assert_eq!(like::handle(l, data), Outcome::Fail(Error::UnknownActivity));
}

#[test]
fn like_of_an_unreachable_activity_stores_nothing() {
    let mut w = World::new();
    w.actors.push((7, person(ALICE, "alice")));
    let l = activity("Like", LIKE, ALICE, &quoted("https://gone.example/1"));
    let data = activity_doc("Like", LIKE, ALICE, &quoted("https://gone.example/1"));
    assert_eq!(w.handle(inbox(l, data)), Err(Error::Fetch));
    assert_eq!(w.writes(), 0);
}

#[test]
fn poke_is_an_unknown_activity_and_writes_nothing() {
    let mut w = World::new();
    let p = activity("Poke", "https://a.example/poke/1", ALICE, &quoted(BOB));
    let data = activity_doc("Poke", "https://a.example/poke/1", ALICE, &quoted(BOB));
    assert_eq!(inbox(p.clone(), data.clone()), Outcome::Fail(Error::UnknownActivity));
    assert_eq!(w.handle(inbox(p, data)), Err(Error::UnknownActivity));
    assert!(w.journal.is_empty());
}

#[test]
fn announce_has_no_handler() {
    let a = activity("Announce", "https://a.example/ann/1", ALICE, &quoted(NOTE));
    let data = activity_doc("Announce", "https://a.example/ann/1", ALICE, &quoted(NOTE));
    assert_eq!(inbox(a, data), Outcome::Fail(Error::UnknownActivity));
}

#[test]
fn recognized_tags() {
    assert_eq!(recognize(&"Accept".to_string()), Some(ActivityType::Accept));
    assert_eq!(recognize(&"Create".to_string()), Some(ActivityType::Create));
    assert_eq!(recognize(&"Delete".to_string()), Some(ActivityType::Delete));
    assert_eq!(recognize(&"Follow".to_string()), Some(ActivityType::Follow));
    assert_eq!(recognize(&"Like".to_string()), Some(ActivityType::Like));
    assert_eq!(recognize(&"Reject".to_string()), Some(ActivityType::Reject));
    assert_eq!(recognize(&"Undo".to_string()), Some(ActivityType::Undo));
    assert_eq!(recognize(&"Update".to_string()), Some(ActivityType::Update));
    assert_eq!(recognize(&"Poke".to_string()), None);
    assert_eq!(recognize(&"like".to_string()), None);
    assert_eq!(recognize(&String::new()), None);
}

#[test]
fn other_types_are_handed_to_their_handler() {
    let mut w = World::new();
    let f = activity("Follow", "https://a.example/follow/1", ALICE, &quoted(BOB));
    let data = activity_doc("Follow", "https://a.example/follow/1", ALICE, &quoted(BOB));
    match inbox(f.clone(), data.clone()) {
        Outcome::Ask(Handler::Delegated, Request::Handle { kind, activity, data: d }) => {
            assert_eq!(kind, ActivityType::Follow);
            assert_eq!(activity, f);
            assert_eq!(d, data);
        }
        other => panic!("unexpected outcome: {:?}", other),
    }
    assert_eq!(w.handle(inbox(f, data)), Ok(CREATED));
    assert_eq!(Handler::Delegated.step(Reply::Failed(Error::NotFound)), Outcome::Fail(Error::NotFound));
}

#[test]
fn reply_failure_names_the_error() {
    assert_eq!(Reply::Failed(Error::Unauthorized).failure(), Error::Unauthorized);
    assert_eq!(Reply::Missing.failure(), Error::NotFound);
    assert_eq!(Reply::Done.failure(), Error::Fetch);
    assert_eq!(Reply::Verified(false).failure(), Error::Fetch);
}

#[test]
fn process_like_from_an_unknown_server() {
    let mut w = World::new();
    w.serve(ALICE, person(ALICE, "alice"));
    w.serve(BOB, person(BOB, "bob"));
    let target = "https://b.example/create/1";
    w.serve(target, activity_doc("Create", target, BOB, &note(NOTE, BOB).to_string()));
    // the like is itself what its URL serves, so that the ownership check can resolve it
    let l = activity("Like", LIKE, ALICE, &quoted(target));
    let data = activity_doc("Like", LIKE, ALICE, &quoted(target));
    assert_eq!(w.run(process(l, data, "a=b".to_string())), Err(Error::Unauthorized));
    // the target belongs to bob, so alice's Like of it by URL does not pass
    // the ownership check; the sender and the target were stored on the way
    assert_eq!(w.record(LIKE), None);
    assert!(w.record(target).is_some());
    assert_eq!(w.actors.len(), 2);
    assert_eq!(w.journal[0], format!("get {}", ALICE));
    assert_eq!(w.journal[1], "insert actor alice");
    assert_eq!(w.journal[2], "verify PEM-alice Some(\"a=b\")");
}

#[test]
fn process_like_of_an_own_activity() {
    let mut w = World::new();
    w.serve(ALICE, person(ALICE, "alice"));
    let target = "https://a.example/create/1";
    w.serve(target, activity_doc("Create", target, ALICE, &note(NOTE, ALICE).to_string()));
    let l = activity("Like", LIKE, ALICE, &quoted(target));
    let data = activity_doc("Like", LIKE, ALICE, &quoted(target));
    assert_eq!(w.run(process(l, data.clone(), String::new())), Ok(201));
    assert_eq!(w.record(LIKE), Some(data));
    assert_eq!(
        w.journal,
        vec![
            format!("get {}", ALICE),
            "insert actor alice".to_string(),
            "verify PEM-alice None".to_string(),
            format!("get {}", target),
            format!("insert record {} for 100", target),
            format!("insert record {} for 100", LIKE),
        ]
    );
}

#[test]
fn process_undo_then_undo_again() {
    let mut w = World::new();
    w.actors.push((7, person(ALICE, "alice")));
    w.records.push((7, LIKE.to_string(), activity_doc("Like", LIKE, ALICE, &quoted(NOTE))));
    let u = activity("Undo", "https://a.example/undo/1", ALICE, &quoted(LIKE));
    let data = activity_doc("Undo", "https://a.example/undo/1", ALICE, &quoted(LIKE));
    assert_eq!(w.run(process(u.clone(), data.clone(), String::new())), Ok(CREATED));
    assert_eq!(w.record(LIKE), None);
    // the Like is gone: the ownership check can no longer resolve it
    assert_eq!(w.run(process(u, data, String::new())), Err(Error::Fetch));
}

#[test]
fn process_undo_by_another_actor_leaves_the_activity() {
    let mut w = World::new();
    w.actors.push((7, person(ALICE, "alice")));
    w.actors.push((8, person(BOB, "bob")));
    w.records.push((7, LIKE.to_string(), activity_doc("Like", LIKE, ALICE, &quoted(NOTE))));
    let u = activity("Undo", "https://b.example/undo/1", BOB, &quoted(LIKE));
    let data = activity_doc("Undo", "https://b.example/undo/1", BOB, &quoted(LIKE));
    assert_eq!(w.run(process(u, data, String::new())), Err(Error::Unauthorized));
    assert!(w.record(LIKE).is_some());
    assert_eq!(w.writes(), 0);
}

#[test]
fn process_poke_fails_after_validation_and_writes_nothing() {
    let mut w = World::new();
    w.actors.push((7, person(ALICE, "alice")));
    let p = activity("Poke", "https://a.example/poke/1", ALICE, &note(NOTE, ALICE).to_string());
    let data = activity_doc("Poke", "https://a.example/poke/1", ALICE, &note(NOTE, ALICE).to_string());
    assert_eq!(w.run(process(p, data, String::new())), Err(Error::UnknownActivity));
    assert_eq!(w.writes(), 0);
    assert_eq!(w.journal, vec!["verify PEM-alice None".to_string()]);
}

#[test]
fn process_with_a_bad_signature_runs_no_handler() {
    let mut w = World::new();
    w.actors.push((7, person(ALICE, "alice")));
    w.signature_holds = false;
    let f = activity("Follow", "https://a.example/follow/1", ALICE, &quoted(BOB));
    let data = activity_doc("Follow", "https://a.example/follow/1", ALICE, &quoted(BOB));
    assert_eq!(w.run(process(f, data, String::new())), Err(Error::Unauthorized));
    assert_eq!(w.journal, vec!["verify PEM-alice None".to_string()]);
}

#[test]
fn process_follow_reaches_its_handler() {
    let mut w = World::new();
    w.actors.push((7, person(ALICE, "alice")));
    let f = activity("Follow", "https://a.example/follow/1", ALICE, &quoted(BOB));
    let data = activity_doc("Follow", "https://a.example/follow/1", ALICE, &quoted(BOB));
    assert!(matches!(
        process(f.clone(), data.clone(), String::new()),
        Outcome::Ask(Inbound::ValidatingResolve { .. }, Request::ActorByUrl(_))
    ));
    assert_eq!(w.run(process(f, data, String::new())), Ok(201));
    assert_eq!(w.journal, vec!["verify PEM-alice None".to_string(), "handle Follow".to_string()]);
}

#[test]
fn document_under_another_id_is_fetched_again() {
    let mut w = World::new();
    let alias = "https://a.example/alias/1";
    w.serve(ALICE, person(ALICE, "alice"));
    w.serve(alias, note(NOTE, ALICE));
    let first = w.resolve(fetch_object(alias)).unwrap();
    assert_eq!(w.fetches(), 2);
    // the store knows the note by the id that it gives itself
    assert!(w.record(NOTE).is_some());
    assert_eq!(w.record(alias), None);
    let second = w.resolve(fetch_object(alias)).unwrap();
    assert_eq!(w.fetches(), 3);
    assert_eq!(first, second);
    assert_eq!(w.records.len(), 2);
    // by its own id it is answered from the store
    assert_eq!(w.resolve(fetch_object(NOTE)).unwrap(), first);
    assert_eq!(w.fetches(), 3);
}

#[test]
fn resolution_asks_at_most_eight_times() {
    let mut w = World::new();
    w.serve(ALICE, person(ALICE, "alice"));
    w.serve(NOTE, note(NOTE, ALICE));
    let mut step = fetch_any(NOTE);
    let mut asked = 0;
    let end = loop {
        match step {
            Step::Ask(state, request) => {
                asked += 1;
                let reply = w.answer(request);
                step = state.step(reply);
            }
            other => break other,
        }
    };
    assert!(matches!(end, Step::Done(Entity::Object(_))));
    assert_eq!(asked, 8);
}

use serde_json::Value;
use tranquility::api::accounts::{Profile, UpdateForm};
use tranquility::database::Actor;
use tranquility::error::Error;
use tranquility::protocol::Reply;

fn doc(text: &str) -> Value {
    serde_json::from_str(text).unwrap()
}

fn person(url: &str) -> Value {
    doc(&format!(r#"{{"type":"Person","id":"{}"}}"#, url))
}

fn local(id: u128, name: &str, url: &str) -> Actor {
    Actor {
        id,
        username: name.to_string(),
        email: Some(format!("{}@a.example", name)),
        password_hash: Some("hash".to_string()),
        private_key: Some("key".to_string()),
        actor: person(url),
        remote: false,
    }
}

fn rows() -> Vec<Actor> {
    vec![
        Actor::remote(1, "alice".to_string(), person("https://b.example/users/alice")),
        local(2, "alice", "https://a.example/users/alice"),
        local(3, "bob", "https://a.example/users/bob"),
        local(4, "alice", "https://a.example/users/alice"),
    ]
}

#[test]
fn remote_actor_row_holds_no_credentials() {
    let row = Actor::remote(9, "carol".to_string(), person("https://c.example/users/carol"));
    assert_eq!(row.id, 9);
    assert_eq!(row.username, "carol");
    assert!(row.remote);
    assert_eq!(row.email, None);
    assert_eq!(row.password_hash, None);
    assert_eq!(row.private_key, None);
    assert_eq!(row.actor, person("https://c.example/users/carol"));
}

#[test]
fn by_url_finds_the_first_row_of_that_id() {
    let rows = rows();
    assert_eq!(Actor::by_url(&rows, "https://a.example/users/alice").unwrap().id, 2);
    assert_eq!(Actor::by_url(&rows, "https://b.example/users/alice").unwrap().id, 1);
    assert_eq!(Actor::by_url(&rows, "https://a.example/users/bob").unwrap().id, 3);
}

#[test]
fn by_url_without_a_row_is_not_found() {
    let rows = rows();
    assert_eq!(Actor::by_url(&rows, "https://a.example/users/carol"), Err(Error::NotFound));
    assert_eq!(Actor::by_url(&rows, "alice"), Err(Error::NotFound));
    assert_eq!(Actor::by_url(&Vec::new(), "https://a.example/users/alice"), Err(Error::NotFound));
}

#[test]
fn by_username_local_passes_over_remote_actors() {
    let rows = rows();
    assert_eq!(Actor::by_username_local(&rows, "alice").unwrap().id, 2);
    assert_eq!(Actor::by_username_local(&rows, "bob").unwrap().id, 3);
    assert_eq!(Actor::by_username_local(&rows, "carol"), Err(Error::NotFound));
    let only_remote = vec![Actor::remote(1, "alice".to_string(), person("u"))];
    assert_eq!(Actor::by_username_local(&only_remote, "alice"), Err(Error::NotFound));
}

#[test]
fn row_as_reply_carries_key_and_document() {
    let row = local(3, "bob", "https://a.example/users/bob");
    assert_eq!(
        row.into_reply(),
        Reply::ActorRow { id: 3, data: person("https://a.example/users/bob") }
    );
}

fn profile() -> Profile {
    Profile {
        name: "Alice".to_string(),
        summary: "hello".to_string(),
        tag: vec![doc(r#"{"name":"rust"}"#)],
        icon: Some(doc(r#"{"url":"icon.png"}"#)),
        image: None,
        manually_approves_followers: false,
    }
}

fn empty_form() -> UpdateForm {
    UpdateForm {
        name: None,
        summary: None,
        tag: None,
        icon: None,
        image: None,
        manually_approves_followers: None,
    }
}

#[test]
fn empty_form_changes_nothing() {
    assert_eq!(empty_form().update_credentials(profile()), profile());
}

#[test]
fn form_replaces_what_it_holds() {
    let form = || UpdateForm {
        name: Some("A.".to_string()),
        summary: None,
        tag: Some(Vec::new()),
        icon: None,
        image: Some(doc(r#"{"url":"header.png"}"#)),
        manually_approves_followers: Some(true),
    };
    let got = form().update_credentials(profile());
    assert_eq!(got.name, "A.");
    assert_eq!(got.summary, "hello");
    assert_eq!(got.tag, Vec::<Value>::new());
    assert_eq!(got.icon, Some(doc(r#"{"url":"icon.png"}"#)));
    assert_eq!(got.image, Some(doc(r#"{"url":"header.png"}"#)));
    assert!(got.manually_approves_followers);
    let again = form().update_credentials(form().update_credentials(profile()));
    assert_eq!(again, got);
}

#[test]
fn full_form_replaces_every_field() {
    let form = UpdateForm {
        name: Some("B".to_string()),
        summary: Some("bye".to_string()),
        tag: Some(vec![doc("1"), doc("2")]),
        icon: Some(doc(r#""i""#)),
        image: Some(doc(r#""j""#)),
        manually_approves_followers: Some(false),
    };
    let got = form.update_credentials(profile());
    assert_eq!(
        got,
        Profile {
            name: "B".to_string(),
            summary: "bye".to_string(),
            tag: vec![doc("1"), doc("2")],
            icon: Some(doc(r#""i""#)),
            image: Some(doc(r#""j""#)),
            manually_approves_followers: false,
        }
    );
}

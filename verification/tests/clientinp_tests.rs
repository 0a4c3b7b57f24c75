use loveletter::clientinp::{
    delete_message, fetch_messages, fetch_reply, process_client, render_all, send_message,
    sign_in, sign_out, sign_up, ServerState,
};
use loveletter::errors::AppError;
use loveletter::inputs::ServerCommand;
use loveletter::padlock::Padlock;
use loveletter::store::MessageSummary;

fn s(text: &str) -> String {
    text.to_string()
}

fn run(state: &mut ServerState, cmd: ServerCommand) -> Result<Option<String>, AppError> {
    process_client(cmd, state)
}

fn up(state: &mut ServerState, name: &str, pw: &str) -> Result<Option<String>, AppError> {
    run(state, ServerCommand::SignUp { username: s(name), password: s(pw) })
}

fn sign_in_as(state: &mut ServerState, name: &str, pw: &str) -> Result<Option<String>, AppError> {
    run(state, ServerCommand::SignIn { username: s(name), password: s(pw) })
}

fn send(state: &mut ServerState, from: &str, to: &str, body: &str) -> Result<Option<String>, AppError> {
    run(state, ServerCommand::SendMessage { from: s(from), to: s(to), body: s(body) })
}

fn fetch(state: &mut ServerState, name: &str) -> Vec<String> {
    let reply = run(state, ServerCommand::FetchMessages { username: s(name) }).unwrap().unwrap();
    serde_json::from_str(&reply).unwrap()
}

fn id_of(line: &str) -> String {
    let rest = line.strip_prefix("MsgID: ").unwrap();
    rest[..rest.find(',').unwrap()].to_string()
}

fn with_alice_and_bob() -> ServerState {
    let mut state = ServerState::new().unwrap();
    up(&mut state, "alice", "pw").unwrap();
    up(&mut state, "bob", "pw").unwrap();
    sign_in_as(&mut state, "alice", "pw").unwrap();
    sign_in_as(&mut state, "bob", "pw").unwrap();
    state
}

#[test]
fn second_sign_up_with_the_same_name_is_refused() {
    let mut state = ServerState::new().unwrap();
    assert_eq!(up(&mut state, "alice", "pw1"), Ok(Some(s("User created"))));
    assert_eq!(up(&mut state, "alice", "pw1"), Err(AppError::UsernameTaken));
    assert_eq!(up(&mut state, "alice", "something else"), Err(AppError::UsernameTaken));
    assert_eq!(sign_in_as(&mut state, "alice", "something else"), Err(AppError::InvalidCredentials));
    assert_eq!(sign_in_as(&mut state, "alice", "pw1"), Ok(Some(s("alice signed in"))));
}

#[test]
fn of_many_sign_ups_with_one_name_exactly_one_succeeds() {
    let mut state = ServerState::new().unwrap();
    let mut created = 0;
    let mut taken = 0;
    for attempt in 0..25 {
        match up(&mut state, "alice", &format!("pw{}", attempt)) {
            Ok(Some(text)) => {
                assert_eq!(text, "User created");
                created += 1;
            }
            Err(AppError::UsernameTaken) => taken += 1,
            other => panic!("unexpected answer {:?}", other),
        }
        if attempt % 5 == 0 {
            let _ = up(&mut state, &format!("other{}", attempt), "pw");
            let _ = run(&mut state, ServerCommand::SignOut { username: s("alice") });
        }
    }
    assert_eq!(created, 1);
    assert_eq!(taken, 24);
    assert_eq!(sign_in_as(&mut state, "alice", "pw0"), Ok(Some(s("alice signed in"))));
    assert_eq!(sign_in_as(&mut state, "alice", "pw1"), Err(AppError::InvalidCredentials));
}

#[test]
fn sign_in_tells_unknown_user_from_wrong_password() {
    let mut state = ServerState::new().unwrap();
    assert_eq!(sign_in_as(&mut state, "alice", "pw"), Err(AppError::UserNotFound));
    up(&mut state, "alice", "pw").unwrap();
    assert_eq!(sign_in_as(&mut state, "alice", "wrong"), Err(AppError::InvalidCredentials));
    assert_eq!(send(&mut state, "alice", "bob", "hi"), Err(AppError::InvalidCredentials));
    assert_eq!(sign_in_as(&mut state, "alice", "pw"), Ok(Some(s("alice signed in"))));
    assert_eq!(sign_in_as(&mut state, "alice", "pw"), Ok(Some(s("alice signed in"))));
}

#[test]
fn send_needs_an_active_session() {
    let mut state = ServerState::new().unwrap();
    assert_eq!(send(&mut state, "alice", "bob", "hi"), Err(AppError::InvalidCredentials));
    up(&mut state, "alice", "pw").unwrap();
    assert_eq!(send(&mut state, "alice", "bob", "hi"), Err(AppError::InvalidCredentials));
    sign_in_as(&mut state, "alice", "pw").unwrap();
    assert_eq!(send(&mut state, "alice", "bob", "hi"), Ok(Some(s("Message sent"))));
    run(&mut state, ServerCommand::SignOut { username: s("alice") }).unwrap();
    assert_eq!(send(&mut state, "alice", "bob", "hi"), Err(AppError::InvalidCredentials));
}

#[test]
fn a_refused_send_stores_nothing() {
    let mut state = ServerState::new().unwrap();
    up(&mut state, "bob", "pw").unwrap();
    sign_in_as(&mut state, "bob", "pw").unwrap();
    assert_eq!(send(&mut state, "alice", "bob", "hi"), Err(AppError::InvalidCredentials));
    assert_eq!(fetch(&mut state, "bob"), Vec::<String>::new());
}

#[test]
fn fetch_and_delete_need_an_active_session() {
    let mut state = ServerState::new().unwrap();
    up(&mut state, "bob", "pw").unwrap();
    assert_eq!(
        run(&mut state, ServerCommand::FetchMessages { username: s("bob") }),
        Err(AppError::InvalidCredentials)
    );
    assert_eq!(
        run(&mut state, ServerCommand::DeleteMessage { username: s("bob"), msg_id: s("x") }),
        Err(AppError::InvalidCredentials)
    );
    sign_in_as(&mut state, "bob", "pw").unwrap();
    assert_eq!(
        run(&mut state, ServerCommand::FetchMessages { username: s("bob") }),
        Ok(Some(s("[]")))
    );
    assert_eq!(
        run(&mut state, ServerCommand::DeleteMessage { username: s("bob"), msg_id: s("x") }),
        Err(AppError::MessageNotFound)
    );
}

#[test]
fn a_message_for_bob_cannot_be_deleted_by_carol() {
    let mut state = with_alice_and_bob();
    up(&mut state, "carol", "pw").unwrap();
    sign_in_as(&mut state, "carol", "pw").unwrap();
    send(&mut state, "alice", "bob", "for bob").unwrap();
    let id = id_of(&fetch(&mut state, "bob")[0]);
    assert_eq!(
        run(&mut state, ServerCommand::DeleteMessage { username: s("carol"), msg_id: id.clone() }),
        Err(AppError::MessageNotFound)
    );
    assert_eq!(
        run(&mut state, ServerCommand::DeleteMessage { username: s("alice"), msg_id: id.clone() }),
        Err(AppError::MessageNotFound)
    );
    assert_eq!(fetch(&mut state, "bob").len(), 1);
    assert_eq!(
        run(&mut state, ServerCommand::DeleteMessage { username: s("bob"), msg_id: id.clone() }),
        Ok(Some(format!("Deleted message {}", id)))
    );
    assert_eq!(fetch(&mut state, "bob"), Vec::<String>::new());
    assert_eq!(
        run(&mut state, ServerCommand::DeleteMessage { username: s("bob"), msg_id: id }),
        Err(AppError::MessageNotFound)
    );
}

#[test]
fn end_to_end_send_and_fetch() {
    let mut state = ServerState::new().unwrap();
    assert_eq!(up(&mut state, "alice", "pw"), Ok(Some(s("User created"))));
    assert_eq!(up(&mut state, "bob", "pw"), Ok(Some(s("User created"))));
    assert_eq!(sign_in_as(&mut state, "alice", "pw"), Ok(Some(s("alice signed in"))));
    assert_eq!(sign_in_as(&mut state, "bob", "pw"), Ok(Some(s("bob signed in"))));
    assert_eq!(send(&mut state, "alice", "bob", "hi"), Ok(Some(s("Message sent"))));
    let lines = fetch(&mut state, "bob");
    assert_eq!(lines.len(), 1);
    let id = id_of(&lines[0]);
    assert_eq!(id.len(), 36);
    assert_eq!(lines[0], format!("MsgID: {}, From: alice, Body: hi", id));
    assert!(!lines[0].contains("WARNING"));
    assert!(!lines[0].contains("ERROR"));
    assert_eq!(fetch(&mut state, "alice"), Vec::<String>::new());
}

#[test]
fn mailboxes_keep_insertion_order() {
    let mut state = with_alice_and_bob();
    for body in ["one", "two", "three", "four"] {
        send(&mut state, "alice", "bob", body).unwrap();
        send(&mut state, "bob", "alice", body).unwrap();
    }
    let bodies: Vec<String> = fetch(&mut state, "bob")
        .iter()
        .map(|line| line[line.find("Body: ").unwrap() + 6..].to_string())
        .collect();
    assert_eq!(bodies, vec!["one", "two", "three", "four"]);
}

#[test]
fn messages_outlive_sessions_and_wait_for_unregistered_recipients() {
    let mut state = ServerState::new().unwrap();
    up(&mut state, "alice", "pw").unwrap();
    sign_in_as(&mut state, "alice", "pw").unwrap();
    send(&mut state, "alice", "dora", "early").unwrap();
    run(&mut state, ServerCommand::SignOut { username: s("alice") }).unwrap();
    up(&mut state, "dora", "pw").unwrap();
    sign_in_as(&mut state, "dora", "pw").unwrap();
    let lines = fetch(&mut state, "dora");
    assert_eq!(lines.len(), 1);
    assert!(lines[0].ends_with(", From: alice, Body: early"));
}

#[test]
fn bodies_survive_with_quotes_and_non_ascii_text() {
    let mut state = with_alice_and_bob();
    let body = "she said \"héllo\" \\ ✓\nsecond line";
    send(&mut state, "alice", "bob", body).unwrap();
    send(&mut state, "alice", "bob", "").unwrap();
    let lines = fetch(&mut state, "bob");
    assert_eq!(lines.len(), 2);
    assert!(lines[0].ends_with(&format!(", From: alice, Body: {}", body)));
    assert!(lines[1].ends_with(", From: alice, Body: "));
}

#[test]
fn fetch_answers_with_a_json_array_of_strings() {
    let mut state = with_alice_and_bob();
    send(&mut state, "alice", "bob", "a \"quoted\" word").unwrap();
    let reply = run(&mut state, ServerCommand::FetchMessages { username: s("bob") })
        .unwrap()
        .unwrap();
    assert!(reply.starts_with("[\"MsgID: "));
    assert!(reply.ends_with(", From: alice, Body: a \\\"quoted\\\" word\"]"));
}

#[test]
fn fetch_succeeds_for_every_signed_in_user() {
    let mut state = with_alice_and_bob();
    send(&mut state, "alice", "bob", "one").unwrap();
    send(&mut state, "alice", "bob", "two").unwrap();
    let reply = run(&mut state, ServerCommand::FetchMessages { username: s("bob") });
    assert!(reply.is_ok());
    assert_eq!(fetch(&mut state, "bob").len(), 2);
    assert_eq!(fetch(&mut state, "alice"), Vec::<String>::new());
}

#[test]
fn sign_out_without_a_session_succeeds() {
    let mut state = ServerState::new().unwrap();
    assert_eq!(
        run(&mut state, ServerCommand::SignOut { username: s("charlie") }),
        Ok(Some(s("charlie signed out")))
    );
    assert_eq!(
        run(&mut state, ServerCommand::SignOut { username: s("charlie") }),
        Ok(Some(s("charlie signed out")))
    );
    assert_eq!(sign_in_as(&mut state, "charlie", "pw"), Err(AppError::UserNotFound));
    up(&mut state, "charlie", "pw").unwrap();
    assert_eq!(
        run(&mut state, ServerCommand::SignOut { username: s("charlie") }),
        Ok(Some(s("charlie signed out")))
    );
    assert_eq!(send(&mut state, "charlie", "bob", "hi"), Err(AppError::InvalidCredentials));
}

#[test]
fn sign_out_ends_only_that_users_session() {
    let mut state = with_alice_and_bob();
    assert_eq!(
        run(&mut state, ServerCommand::SignOut { username: s("alice") }),
        Ok(Some(s("alice signed out")))
    );
    assert_eq!(send(&mut state, "alice", "bob", "hi"), Err(AppError::InvalidCredentials));
    assert_eq!(send(&mut state, "bob", "alice", "hi"), Ok(Some(s("Message sent"))));
    assert_eq!(sign_in_as(&mut state, "alice", "pw"), Ok(Some(s("alice signed in"))));
    assert_eq!(fetch(&mut state, "alice").len(), 1);
}

#[test]
fn the_command_functions_answer_as_process_client_does() {
    let mut state = ServerState::with_padlock(Padlock::new().unwrap());
    assert_eq!(sign_up(s("alice"), s("pw"), &mut state), Ok(Some(s("User created"))));
    assert_eq!(sign_up(s("alice"), s("pw"), &mut state), Err(AppError::UsernameTaken));
    assert_eq!(sign_in(s("alice"), s("no"), &mut state), Err(AppError::InvalidCredentials));
    assert_eq!(sign_in(s("alice"), s("pw"), &mut state), Ok(Some(s("alice signed in"))));
    assert_eq!(send_message(s("alice"), s("alice"), s("note"), &mut state), Ok(Some(s("Message sent"))));
    let reply = fetch_messages(s("alice"), &state).unwrap().unwrap();
    let lines: Vec<String> = serde_json::from_str(&reply).unwrap();
    assert_eq!(lines.len(), 1);
    let id = id_of(&lines[0]);
    assert_eq!(
        delete_message(s("alice"), id.clone(), &mut state),
        Ok(Some(format!("Deleted message {}", id)))
    );
    assert_eq!(delete_message(s("alice"), id, &mut state), Err(AppError::MessageNotFound));
    assert_eq!(sign_out(s("alice"), &mut state), Ok(Some(s("alice signed out"))));
    assert_eq!(fetch_messages(s("alice"), &state), Err(AppError::InvalidCredentials));
}

#[test]
fn states_do_not_share_keys() {
    let mut first = with_alice_and_bob();
    let mut second = with_alice_and_bob();
    send(&mut first, "alice", "bob", "hi").unwrap();
    assert_eq!(fetch(&mut second, "bob"), Vec::<String>::new());
    assert_eq!(fetch(&mut first, "bob").len(), 1);
}

#[test]
fn render_all_renders_each_summary_in_order() {
    let summaries = vec![
        MessageSummary::Verified { id: s("1"), from: s("alice"), body: s("hi") },
        MessageSummary::Undecodable { id: s("2") },
        MessageSummary::Tampered { id: s("3"), from: s("bob"), body: s("yo") },
    ];
    assert_eq!(
        render_all(&summaries),
        vec![
            s("MsgID: 1, From: alice, Body: hi"),
            s("MsgID: 2, [ERROR decrypting message]"),
            s("MsgID: 3, From: bob, Body: yo [WARNING: HMAC verification failed!]"),
        ]
    );
    assert_eq!(render_all(&Vec::new()), Vec::<String>::new());
}

#[test]
fn fetch_reply_wraps_text_and_reports_encoder_failure() {
    assert_eq!(fetch_reply(Ok(s("[]"))), Ok(Some(s("[]"))));
    let failure = serde_json::from_str::<Vec<String>>("not json").unwrap_err();
    assert_eq!(
        fetch_reply(Err(failure)),
        Err(AppError::Internal(s("Serialization failed")))
    );
}

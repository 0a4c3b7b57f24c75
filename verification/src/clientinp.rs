//! The relay's state and its command processor.
//!
//! `ServerState` owns the padlock, the directory, the session registry and
//! the message store. Every command takes the state by exclusive reference,
//! so commands cannot interleave: each one sees the state its predecessor
//! left and leaves a state that `step` relates to it.

use crate::directory::Directory;
use crate::errors::{AppError, AppResult, Failure};
use crate::inputs::{Command, MessageRecord, ServerCommand};
use crate::padlock::{envelope_open, Padlock};
use crate::primitives::{hmac_tag, is_uuid_v4_text, json_array, json_to_string, texts_of};
use crate::sessions::SessionRegistry;
use crate::store::{
    distinct_ids, holds_message, id_in_use, other_than, summaries_for, summary_views,
    MessageStore, MessageSummary, Summary,
};
use vstd::prelude::*;
use vstd::string::{StringExecFns, StringSliceAdditionalSpecFns};
use vstd::utf8::encode_utf8;

verus! {

/// The state as the contracts see it.
#[verifier::ext_equal]
pub struct StateView {
    /// The credential of each registered username.
    pub users: Map<Seq<char>, Seq<char>>,
    /// The usernames that are signed in.
    pub active: Set<Seq<char>>,
    /// The stored messages, oldest first.
    pub messages: Seq<MessageRecord>,
    /// The padlock's sealing key.
    pub aead_key: Seq<u8>,
    /// The padlock's tagging key.
    pub mac_key: Seq<u8>,
}

impl StateView {
    /// Only registered users are signed in, and no two stored messages carry
    /// the same identifier.
    pub open spec fn valid(self) -> bool {
        &&& self.active.subset_of(self.users.dom())
        &&& distinct_ids(self.messages)
    }

    /// The lines that `username` is shown of their mailbox.
    pub open spec fn lines_for(self, username: Seq<char>) -> Seq<Seq<char>> {
        summaries_for(self.aead_key, self.mac_key, self.messages, username).map_values(
            |summary: Summary| summary.line(),
        )
    }
}

/// What a command answers: a text, or why it was refused.
pub type Reply = Result<Option<Seq<char>>, Failure>;

/// The answer that `outcome` stands for.
pub open spec fn reply_of(outcome: AppResult<Option<String>>) -> Reply {
    match outcome {
        Ok(Some(text)) => Ok(Some(text@)),
        Ok(None) => Ok(None),
        Err(e) => Err(e@),
    }
}

/// Sign-up: refused if the name is taken, else the user is registered.
pub open spec fn sign_up_step(
    pre: StateView,
    username: Seq<char>,
    password: Seq<char>,
    post: StateView,
    reply: Reply,
) -> bool {
    if pre.users.contains_key(username) {
        post == pre && reply == Err::<Option<Seq<char>>, Failure>(Failure::UsernameTaken)
    } else {
        post == (StateView { users: pre.users.insert(username, password), ..pre }) && reply
            == Ok::<Option<Seq<char>>, Failure>(Some("User created"@))
    }
}

/// Sign-in: refused for an unknown name or a wrong password, else the user
/// has a session.
pub open spec fn sign_in_step(
    pre: StateView,
    username: Seq<char>,
    password: Seq<char>,
    post: StateView,
    reply: Reply,
) -> bool {
    if !pre.users.contains_key(username) {
        post == pre && reply == Err::<Option<Seq<char>>, Failure>(Failure::UserNotFound)
    } else if pre.users[username] != password {
        post == pre && reply == Err::<Option<Seq<char>>, Failure>(Failure::InvalidCredentials)
    } else {
        post == (StateView { active: pre.active.insert(username), ..pre }) && reply == Ok::<
            Option<Seq<char>>,
            Failure,
        >(Some(username + " signed in"@))
    }
}

/// Sign-out: the user has no session afterwards; never refused.
pub open spec fn sign_out_step(
    pre: StateView,
    username: Seq<char>,
    post: StateView,
    reply: Reply,
) -> bool {
    post == (StateView { active: pre.active.remove(username), ..pre }) && reply == Ok::<
        Option<Seq<char>>,
        Failure,
    >(Some(username + " signed out"@))
}

/// Whether `post` is `pre` with one more message, from `from` to `to`, that
/// opens to `body` and is tagged with `body`'s MAC, under a UUID that was not
/// in use.
pub open spec fn delivers(
    pre: StateView,
    from: Seq<char>,
    to: Seq<char>,
    body: Seq<char>,
    post: StateView,
) -> bool {
    let record = post.messages.last();
    &&& post == (StateView { messages: pre.messages.push(record), ..pre })
    &&& record.from == from
    &&& record.to == to
    &&& envelope_open(pre.aead_key, record.body_enc) == Some(encode_utf8(body))
    &&& record.body_hash == hmac_tag(pre.mac_key, encode_utf8(body))
    &&& is_uuid_v4_text(record.id)
    &&& !id_in_use(pre.messages, record.id)
}

/// Whether `failure` is one of the internal errors with which a send gives
/// up: no random bytes, a refusal by the cipher, or an identifier drawn twice.
pub open spec fn send_failure(failure: Failure) -> bool {
    ||| failure == Failure::Internal("Random source failed"@)
    ||| failure == Failure::Internal("Encryption failed"@)
    ||| failure == Failure::Internal("Message id already in use"@)
}

/// Send: refused without a session; else the message is stored, unless the
/// cipher or the random source fails, which changes nothing.
pub open spec fn send_message_step(
    pre: StateView,
    from: Seq<char>,
    to: Seq<char>,
    body: Seq<char>,
    post: StateView,
    reply: Reply,
) -> bool {
    if !pre.active.contains(from) {
        post == pre && reply == Err::<Option<Seq<char>>, Failure>(Failure::InvalidCredentials)
    } else {
        ||| (reply == Ok::<Option<Seq<char>>, Failure>(Some("Message sent"@)) && delivers(
            pre,
            from,
            to,
            body,
            post,
        ))
        ||| (reply matches Err(failure) && send_failure(failure) && post == pre)
    }
}

/// Fetch: refused without a session; else the mailbox's lines as JSON,
/// whatever state the records are in. The state is never changed.
pub open spec fn fetch_messages_step(
    pre: StateView,
    username: Seq<char>,
    post: StateView,
    reply: Reply,
) -> bool {
    &&& post == pre
    &&& if !pre.active.contains(username) {
        reply == Err::<Option<Seq<char>>, Failure>(Failure::InvalidCredentials)
    } else {
        reply == Ok::<Option<Seq<char>>, Failure>(Some(json_array(pre.lines_for(username))))
    }
}

/// Delete: refused without a session, and for a message that the user does
/// not hold; else that message is gone.
pub open spec fn delete_message_step(
    pre: StateView,
    username: Seq<char>,
    msg_id: Seq<char>,
    post: StateView,
    reply: Reply,
) -> bool {
    if !pre.active.contains(username) {
        post == pre && reply == Err::<Option<Seq<char>>, Failure>(Failure::InvalidCredentials)
    } else if !holds_message(pre.messages, username, msg_id) {
        post == pre && reply == Err::<Option<Seq<char>>, Failure>(Failure::MessageNotFound)
    } else {
        post == (StateView {
            messages: pre.messages.filter(other_than(username, msg_id)),
            ..pre
        }) && reply == Ok::<Option<Seq<char>>, Failure>(Some("Deleted message "@ + msg_id))
    }
}

/// Whether `command`, executed in state `pre`, may leave state `post` and
/// answer `reply`.
pub open spec fn step(pre: StateView, command: Command, post: StateView, reply: Reply) -> bool {
    match command {
        Command::SignUp { username, password } => sign_up_step(
            pre,
            username,
            password,
            post,
            reply,
        ),
        Command::SignIn { username, password } => sign_in_step(
            pre,
            username,
            password,
            post,
            reply,
        ),
        Command::SignOut { username } => sign_out_step(pre, username, post, reply),
        Command::SendMessage { from, to, body } => send_message_step(
            pre,
            from,
            to,
            body,
            post,
            reply,
        ),
        Command::FetchMessages { username } => fetch_messages_step(pre, username, post, reply),
        Command::DeleteMessage { username, msg_id } => delete_message_step(
            pre,
            username,
            msg_id,
            post,
            reply,
        ),
    }
}

/// Everything the relay keeps: keys, users, sessions and messages.
pub struct ServerState {
    padlock: Padlock,
    directory: Directory,
    sessions: SessionRegistry,
    store: MessageStore,
}

impl View for ServerState {
    type V = StateView;

    closed spec fn view(&self) -> StateView {
        StateView {
            users: self.directory@,
            active: self.sessions@,
            messages: self.store@,
            aead_key: self.padlock.aead_key(),
            mac_key: self.padlock.mac_key(),
        }
    }
}

impl ServerState {
    /// An empty relay with freshly drawn keys.
    pub fn new() -> (made: AppResult<ServerState>)
        ensures
            made matches Ok(state) ==> state@.users == Map::<Seq<char>, Seq<char>>::empty()
                && state@.active == Set::<Seq<char>>::empty() && state@.messages == Seq::<
                MessageRecord,
            >::empty() && state@.valid(),
            made matches Err(e) ==> e@ == Failure::Internal("Random source failed"@),
    {
        match Padlock::new() {
            Ok(padlock) => Ok(ServerState::with_padlock(padlock)),
            Err(e) => Err(e),
        }
    }

    /// An empty relay that seals and tags with `padlock`.
    pub fn with_padlock(padlock: Padlock) -> (made: ServerState)
        ensures
            made@ == (StateView {
                users: Map::<Seq<char>, Seq<char>>::empty(),
                active: Set::<Seq<char>>::empty(),
                messages: Seq::<MessageRecord>::empty(),
                aead_key: padlock.aead_key(),
                mac_key: padlock.mac_key(),
            }),
            made@.valid(),
    {
        ServerState {
            padlock,
            directory: Directory::new(),
            sessions: SessionRegistry::new(),
            store: MessageStore::new(),
        }
    }
}

/// Executes one command against the state and answers it.
pub fn process_client(cmd: ServerCommand, state: &mut ServerState) -> (outcome: AppResult<
    Option<String>,
>)
    ensures
        step(old(state)@, cmd@, final(state)@, reply_of(outcome)),
        old(state)@.valid() ==> final(state)@.valid(),
{
    match cmd {
        ServerCommand::SignUp { username, password } => sign_up(username, password, state),
        ServerCommand::SignIn { username, password } => sign_in(username, password, state),
        ServerCommand::SignOut { username } => sign_out(username, state),
        ServerCommand::SendMessage { from, to, body } => send_message(from, to, body, state),
        ServerCommand::FetchMessages { username } => fetch_messages(username, state),
        ServerCommand::DeleteMessage { username, msg_id } => delete_message(
            username,
            msg_id,
            state,
        ),
    }
}

/// Creates a user.
pub fn sign_up(username: String, password: String, state: &mut ServerState) -> (outcome: AppResult<
    Option<String>,
>)
    ensures
        sign_up_step(old(state)@, username@, password@, final(state)@, reply_of(outcome)),
        old(state)@.valid() ==> final(state)@.valid(),
{
    match state.directory.register(username, password) {
        Ok(()) => Ok(Some(String::from_str("User created"))),
        Err(e) => Err(e),
    }
}

/// Signs a user in, if the password is the registered one.
pub fn sign_in(username: String, password: String, state: &mut ServerState) -> (outcome: AppResult<
    Option<String>,
>)
    ensures
        sign_in_step(old(state)@, username@, password@, final(state)@, reply_of(outcome)),
        old(state)@.valid() ==> final(state)@.valid(),
{
    match state.directory.authenticate(&username, &password) {
        Ok(()) => {
            let text = username.clone().concat(" signed in");
            state.sessions.mark_active(username);
            Ok(Some(text))
        },
        Err(e) => Err(e),
    }
}

/// Signs a user out. Signing out without a session is not an error.
pub fn sign_out(username: String, state: &mut ServerState) -> (outcome: AppResult<Option<String>>)
    ensures
        sign_out_step(old(state)@, username@, final(state)@, reply_of(outcome)),
        old(state)@.valid() ==> final(state)@.valid(),
{
    state.sessions.mark_inactive(&username);
    Ok(Some(username.concat(" signed out")))
}

/// Seals and stores a message from a signed-in user.
pub fn send_message(from: String, to: String, body: String, state: &mut ServerState) -> (outcome:
    AppResult<Option<String>>)
    ensures
        send_message_step(old(state)@, from@, to@, body@, final(state)@, reply_of(outcome)),
        old(state)@.valid() ==> final(state)@.valid(),
{
    if !state.sessions.is_active(&from) {
        return Err(AppError::InvalidCredentials);
    }
    match state.store.append(&state.padlock, from, to, body.as_str().as_bytes()) {
        Ok(_) => Ok(Some(String::from_str("Message sent"))),
        Err(e) => Err(e),
    }
}

/// The lines that report `summaries`, in order.
pub fn render_all(summaries: &Vec<MessageSummary>) -> (lines: Vec<String>)
    ensures
        texts_of(lines@) == summary_views(summaries@).map_values(|summary: Summary| summary.line()),
{
    let mut lines: Vec<String> = Vec::new();
    let mut i: usize = 0;
    while i < summaries.len()
        invariant
            0 <= i <= summaries.len(),
            lines@.len() == i,
            forall|k: int| 0 <= k < i ==> (#[trigger] lines@[k])@ == summaries@[k]@.line(),
        decreases summaries.len() - i,
    {
        lines.push(summaries[i].render());
        i += 1;
    }
    assert(texts_of(lines@) =~= summary_views(summaries@).map_values(
        |summary: Summary| summary.line(),
    ));
    lines
}

/// The answer to a fetch, given what the JSON encoder made of the lines.
pub fn fetch_reply(encoded: Result<String, serde_json::Error>) -> (outcome: AppResult<
    Option<String>,
>)
    ensures
        encoded matches Ok(text) ==> reply_of(outcome) == Ok::<Option<Seq<char>>, Failure>(
            Some(text@),
        ),
        encoded is Err ==> reply_of(outcome) == Err::<Option<Seq<char>>, Failure>(
            Failure::Internal("Serialization failed"@),
        ),
{
    match encoded {
        Ok(text) => Ok(Some(text)),
        Err(_) => Err(AppError::internal("Serialization failed")),
    }
}

/// Lists the mailbox of a signed-in user as a JSON array of lines.
pub fn fetch_messages(username: String, state: &ServerState) -> (outcome: AppResult<
    Option<String>,
>)
    ensures
        fetch_messages_step(state@, username@, state@, reply_of(outcome)),
{
    if !state.sessions.is_active(&username) {
        return Err(AppError::InvalidCredentials);
    }
    let summaries = state.store.fetch_for(&state.padlock, &username);
    let lines = render_all(&summaries);
    fetch_reply(json_to_string(&lines))
}

/// Deletes a message from the mailbox of a signed-in user.
pub fn delete_message(username: String, msg_id: String, state: &mut ServerState) -> (outcome:
    AppResult<Option<String>>)
    ensures
        delete_message_step(old(state)@, username@, msg_id@, final(state)@, reply_of(outcome)),
        old(state)@.valid() ==> final(state)@.valid(),
{
    if !state.sessions.is_active(&username) {
        return Err(AppError::InvalidCredentials);
    }
    match state.store.delete(&username, &msg_id) {
        Ok(()) => Ok(Some(String::from_str("Deleted message ").concat(msg_id.as_str()))),
        Err(e) => Err(e),
    }
}

} // verus!

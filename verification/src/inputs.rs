//! The commands a client can send, and the shape of a message at rest.

use vstd::prelude::*;

verus! {

/// One decoded request. The transport hands these over one at a time.
#[derive(Debug)]
pub enum ServerCommand {
    SignUp { username: String, password: String },
    SignIn { username: String, password: String },
    SignOut { username: String },
    SendMessage { from: String, to: String, body: String },
    FetchMessages { username: String },
    DeleteMessage { username: String, msg_id: String },
}

/// A command as the contracts see it: the same variants over plain text.
pub enum Command {
    SignUp { username: Seq<char>, password: Seq<char> },
    SignIn { username: Seq<char>, password: Seq<char> },
    SignOut { username: Seq<char> },
    SendMessage { from: Seq<char>, to: Seq<char>, body: Seq<char> },
    FetchMessages { username: Seq<char> },
    DeleteMessage { username: Seq<char>, msg_id: Seq<char> },
}

impl View for ServerCommand {
    type V = Command;

    open spec fn view(&self) -> Command {
        match self {
            ServerCommand::SignUp { username, password } => Command::SignUp {
                username: username@,
                password: password@,
            },
            ServerCommand::SignIn { username, password } => Command::SignIn {
                username: username@,
                password: password@,
            },
            ServerCommand::SignOut { username } => Command::SignOut { username: username@ },
            ServerCommand::SendMessage { from, to, body } => Command::SendMessage {
                from: from@,
                to: to@,
                body: body@,
            },
            ServerCommand::FetchMessages { username } => Command::FetchMessages {
                username: username@,
            },
            ServerCommand::DeleteMessage { username, msg_id } => Command::DeleteMessage {
                username: username@,
                msg_id: msg_id@,
            },
        }
    }
}

/// A message as it is kept in memory: who sent it to whom, the sealed body
/// (`nonce ‖ encrypted bytes ‖ tag`) and the MAC of the body's plaintext.
#[derive(Debug, Clone)]
pub struct UserMessage {
    pub id: String,
    pub from: String,
    pub to: String,
    pub body_enc: Vec<u8>,
    pub body_hash: Vec<u8>,
}

/// A stored message as the contracts see it.
pub struct MessageRecord {
    pub id: Seq<char>,
    pub from: Seq<char>,
    pub to: Seq<char>,
    pub body_enc: Seq<u8>,
    pub body_hash: Seq<u8>,
}

impl View for UserMessage {
    type V = MessageRecord;

    open spec fn view(&self) -> MessageRecord {
        MessageRecord {
            id: self.id@,
            from: self.from@,
            to: self.to@,
            body_enc: self.body_enc@,
            body_hash: self.body_hash@,
        }
    }
}

} // verus!

//! What holds of the relay whatever commands arrive, proved from the
//! transition relation `step` that every command function is verified to
//! follow.

use crate::clientinp::{delivers, step, Reply, StateView};
use crate::errors::Failure;
use crate::inputs::{Command, MessageRecord};
use crate::primitives::json_array;
use crate::store::{
    addressed_to, distinct_ids, holds_message, lemma_filter_push, lossy_text, other_than,
    summaries_for, summary_of, Summary,
};
use vstd::prelude::*;
use vstd::utf8::{encode_utf8, encode_utf8_decode_utf8, encode_utf8_valid_utf8};

verus! {

/// Text survives the trip through its UTF-8 bytes and lossy decoding.
pub proof fn lemma_text_round_trip(text: Seq<char>)
    ensures
        lossy_text(encode_utf8(text)) == text,
{
    encode_utf8_valid_utf8(text);
    encode_utf8_decode_utf8(text);
}

/// Whatever passes a filter was in the sequence and meets the test.
pub proof fn lemma_filtered_came_from<A>(s: Seq<A>, pred: spec_fn(A) -> bool, i: int)
    requires
        0 <= i < s.filter(pred).len(),
    ensures
        pred(s.filter(pred)[i]),
        exists|j: int| 0 <= j < s.len() && #[trigger] s[j] == s.filter(pred)[i],
    decreases s.len(),
{
    reveal(Seq::filter);
    if s.len() > 0 {
        let init = s.drop_last();
        if i < init.filter(pred).len() {
            lemma_filtered_came_from(init, pred, i);
            let j = choose|j: int|
                0 <= j < init.len() && #[trigger] init[j] == init.filter(pred)[i];
            assert(s[j] == s.filter(pred)[i]);
        } else {
            assert(s[s.len() - 1] == s.filter(pred)[i]);
        }
    }
}

/// Removing records never makes two identifiers collide.
pub proof fn lemma_filter_keeps_ids_distinct(
    records: Seq<MessageRecord>,
    pred: spec_fn(MessageRecord) -> bool,
)
    requires
        distinct_ids(records),
    ensures
        distinct_ids(records.filter(pred)),
    decreases records.len(),
{
    reveal(Seq::filter);
    if records.len() > 0 {
        let init = records.drop_last();
        let last = records.last();
        assert(distinct_ids(init)) by {
            assert forall|i: int, j: int| 0 <= i < j < init.len() implies (
            #[trigger] init[i]).id != (#[trigger] init[j]).id by {
                assert(init[i] == records[i] && init[j] == records[j]);
            }
        }
        lemma_filter_keeps_ids_distinct(init, pred);
        if pred(last) {
            let kept = init.filter(pred);
            assert forall|i: int, j: int| 0 <= i < j < kept.push(last).len() implies (
            #[trigger] kept.push(last)[i]).id != (#[trigger] kept.push(last)[j]).id by {
                if j == kept.len() {
                    lemma_filtered_came_from(init, pred, i);
                    let k = choose|k: int| 0 <= k < init.len() && #[trigger] init[k] == kept[i];
                    assert(records[k] == kept[i]);
                    assert(records[records.len() - 1] == last);
                } else {
                    assert(kept.push(last)[i] == kept[i] && kept.push(last)[j] == kept[j]);
                }
            }
        }
    }
}

/// Validity is an invariant: a command executed in a valid state leaves a
/// valid state. Only registered users are ever signed in, and no two stored
/// messages ever share an identifier.
pub proof fn lemma_step_preserves_validity(
    pre: StateView,
    command: Command,
    post: StateView,
    reply: Reply,
)
    requires
        pre.valid(),
        step(pre, command, post, reply),
    ensures
        post.valid(),
{
    match command {
        Command::SendMessage { from, to, body } => {
            if post != pre {
                let record = post.messages.last();
                assert forall|i: int, j: int| 0 <= i < j < post.messages.len() implies (
                #[trigger] post.messages[i]).id != (#[trigger] post.messages[j]).id by {
                    if j == pre.messages.len() {
                        assert(pre.messages[i].id != record.id);
                    }
                }
            }
        },
        Command::DeleteMessage { username, msg_id } => {
            lemma_filter_keeps_ids_distinct(pre.messages, other_than(username, msg_id));
        },
        _ => {},
    }
}

/// No command removes a user, changes a credential or touches the keys.
pub proof fn lemma_step_keeps_users_and_keys(
    pre: StateView,
    command: Command,
    post: StateView,
    reply: Reply,
    name: Seq<char>,
)
    requires
        step(pre, command, post, reply),
    ensures
        post.aead_key == pre.aead_key,
        post.mac_key == pre.mac_key,
        pre.users.contains_key(name) ==> post.users.contains_key(name) && post.users[name]
            == pre.users[name],
{
}

/// A command that is refused changes nothing.
pub proof fn lemma_failure_changes_nothing(
    pre: StateView,
    command: Command,
    post: StateView,
    reply: Reply,
)
    requires
        step(pre, command, post, reply),
        reply is Err,
    ensures
        post == pre,
{
}

/// Stored messages outlive sessions: only sending adds a message and only
/// deleting removes one. Signing up, in or out and fetching leave the store
/// as it is.
pub proof fn lemma_only_send_and_delete_touch_messages(
    pre: StateView,
    command: Command,
    post: StateView,
    reply: Reply,
)
    requires
        step(pre, command, post, reply),
        !(command is SendMessage),
        !(command is DeleteMessage),
    ensures
        post.messages == pre.messages,
{
}

/// Only a successful sign-up under a name registers that name.
pub proof fn lemma_only_sign_up_registers(
    pre: StateView,
    command: Command,
    post: StateView,
    reply: Reply,
    name: Seq<char>,
)
    requires
        step(pre, command, post, reply),
        !pre.users.contains_key(name),
        post.users.contains_key(name),
    ensures
        (command matches Command::SignUp { username, password } && username == name
            && post.users[name] == password),
        reply is Ok,
{
}

/// After a sign-up under a name has succeeded, a second sign-up under that
/// name is refused as taken, whatever password it offers, and changes nothing.
pub proof fn lemma_taken_name_is_refused(
    s0: StateView,
    username: Seq<char>,
    first: Seq<char>,
    s1: StateView,
    r1: Reply,
    second: Seq<char>,
    s2: StateView,
    r2: Reply,
)
    requires
        step(s0, Command::SignUp { username, password: first }, s1, r1),
        r1 is Ok,
        step(s1, Command::SignUp { username, password: second }, s2, r2),
    ensures
        r2 == Err::<Option<Seq<char>>, Failure>(Failure::UsernameTaken),
        s2 == s1,
        s2.users[username] == first,
{
}

/// A message sent under a name without a session is refused for invalid
/// credentials and changes nothing.
pub proof fn lemma_send_requires_session(
    pre: StateView,
    from: Seq<char>,
    to: Seq<char>,
    body: Seq<char>,
    post: StateView,
    reply: Reply,
)
    requires
        !pre.active.contains(from),
        step(pre, Command::SendMessage { from, to, body }, post, reply),
    ensures
        reply == Err::<Option<Seq<char>>, Failure>(Failure::InvalidCredentials),
        post == pre,
{
}

/// The user on whose behalf a message command acts, if it is one.
pub open spec fn mailbox_user(command: Command) -> Option<Seq<char>> {
    match command {
        Command::SendMessage { from, .. } => Some(from),
        Command::FetchMessages { username } => Some(username),
        Command::DeleteMessage { username, .. } => Some(username),
        _ => None,
    }
}

/// Every message command, be it send, fetch or delete, is refused for invalid
/// credentials when its user has no session, and then changes nothing.
pub proof fn lemma_message_commands_require_session(
    pre: StateView,
    command: Command,
    post: StateView,
    reply: Reply,
)
    requires
        mailbox_user(command) matches Some(user) && !pre.active.contains(user),
        step(pre, command, post, reply),
    ensures
        reply == Err::<Option<Seq<char>>, Failure>(Failure::InvalidCredentials),
        post == pre,
{
}

/// Signing in twice is the same as signing in once.
pub proof fn lemma_sign_in_is_idempotent(
    s0: StateView,
    username: Seq<char>,
    password: Seq<char>,
    s1: StateView,
    r1: Reply,
    s2: StateView,
    r2: Reply,
)
    requires
        step(s0, Command::SignIn { username, password }, s1, r1),
        r1 is Ok,
        step(s1, Command::SignIn { username, password }, s2, r2),
    ensures
        r2 == r1,
        s2 == s1,
{
    assert(s1.active.insert(username) =~= s1.active);
}

/// After a sign-in has succeeded, a message sent under that name is no longer
/// refused for want of a session: unless sealing fails internally, it is
/// acknowledged and stored.
pub proof fn lemma_send_after_sign_in(
    s0: StateView,
    username: Seq<char>,
    password: Seq<char>,
    s1: StateView,
    r1: Reply,
    to: Seq<char>,
    body: Seq<char>,
    s2: StateView,
    r2: Reply,
)
    requires
        step(s0, Command::SignIn { username, password }, s1, r1),
        r1 is Ok,
        step(s1, Command::SendMessage { from: username, to, body }, s2, r2),
        !(r2 matches Err(Failure::Internal(_))),
    ensures
        r2 == Ok::<Option<Seq<char>>, Failure>(Some("Message sent"@)),
        delivers(s1, username, to, body, s2),
{
}

/// A message addressed to one user cannot be deleted by another, even with
/// the right identifier: the attempt fails and the store is unchanged.
pub proof fn lemma_only_the_recipient_deletes(
    pre: StateView,
    index: int,
    username: Seq<char>,
    post: StateView,
    reply: Reply,
)
    requires
        pre.valid(),
        0 <= index < pre.messages.len(),
        pre.messages[index].to != username,
        step(pre, Command::DeleteMessage { username, msg_id: pre.messages[index].id }, post, reply),
    ensures
        post == pre,
        pre.active.contains(username) ==> reply == Err::<Option<Seq<char>>, Failure>(
            Failure::MessageNotFound,
        ),
        !pre.active.contains(username) ==> reply == Err::<Option<Seq<char>>, Failure>(
            Failure::InvalidCredentials,
        ),
{
    let msg_id = pre.messages[index].id;
    if holds_message(pre.messages, username, msg_id) {
        let k = choose|k: int|
            0 <= k < pre.messages.len() && (#[trigger] pre.messages[k]).to == username
                && pre.messages[k].id == msg_id;
        if k < index {
            assert(pre.messages[k].id != pre.messages[index].id);
        } else {
            assert(pre.messages[index].id != pre.messages[k].id);
        }
    }
}

/// Whoever deletes, the messages of everyone else stay: a record that the
/// command does not name is still stored afterwards.
pub proof fn lemma_delete_spares_other_messages(
    pre: StateView,
    index: int,
    username: Seq<char>,
    msg_id: Seq<char>,
    post: StateView,
    reply: Reply,
)
    requires
        0 <= index < pre.messages.len(),
        pre.messages[index].to != username || pre.messages[index].id != msg_id,
        step(pre, Command::DeleteMessage { username, msg_id }, post, reply),
    ensures
        post.messages.contains(pre.messages[index]),
{
    if post == pre {
        assert(post.messages[index] == pre.messages[index]);
    } else {
        broadcast use Seq::lemma_filter_contains;

        assert(other_than(username, msg_id)(pre.messages[index]));
    }
}

/// Signing out never fails, and for a user without a session it changes
/// nothing.
pub proof fn lemma_sign_out_never_fails(
    pre: StateView,
    username: Seq<char>,
    post: StateView,
    reply: Reply,
)
    requires
        step(pre, Command::SignOut { username }, post, reply),
    ensures
        reply is Ok,
        !post.active.contains(username),
        !pre.active.contains(username) ==> post == pre,
{
    if !pre.active.contains(username) {
        assert(pre.active.remove(username) =~= pre.active);
    }
}

/// A message that was sent is what its recipient fetches: the mailbox lists
/// what it listed before, followed by the new message with its sender, its
/// body as sent, and no warning.
pub proof fn lemma_sent_message_is_fetched(
    s0: StateView,
    from: Seq<char>,
    to: Seq<char>,
    body: Seq<char>,
    s1: StateView,
    r1: Reply,
    s2: StateView,
    r2: Reply,
)
    requires
        step(s0, Command::SendMessage { from, to, body }, s1, r1),
        r1 is Ok,
        s1.active.contains(to),
        step(s1, Command::FetchMessages { username: to }, s2, r2),
    ensures
        s2 == s1,
        summaries_for(s1.aead_key, s1.mac_key, s1.messages, to) == summaries_for(
            s0.aead_key,
            s0.mac_key,
            s0.messages,
            to,
        ).push(Summary::Verified { id: s1.messages.last().id, from, body }),
        r2 == Ok::<Option<Seq<char>>, Failure>(
            Some(
                json_array(
                    s0.lines_for(to).push(
                        (Summary::Verified { id: s1.messages.last().id, from, body }).line(),
                    ),
                ),
            ),
        ),
{
    let record = s1.messages.last();
    lemma_text_round_trip(body);
    lemma_filter_push(s0.messages, record, addressed_to(to));
    assert(summary_of(s1.aead_key, s1.mac_key, record) == Summary::Verified {
        id: record.id,
        from,
        body,
    });
    assert(summaries_for(s1.aead_key, s1.mac_key, s1.messages, to) =~= summaries_for(
        s0.aead_key,
        s0.mac_key,
        s0.messages,
        to,
    ).push(Summary::Verified { id: record.id, from, body }));
    assert(s1.lines_for(to) =~= s0.lines_for(to).push(
        (Summary::Verified { id: record.id, from, body }).line(),
    ));
}

/// One command of a run, with the state it left and the answer it got.
pub struct Event {
    pub command: Command,
    pub post: StateView,
    pub reply: Reply,
}

/// The state in which the `index`-th command of a run is executed.
pub open spec fn state_before(start: StateView, events: Seq<Event>, index: int) -> StateView {
    if index <= 0 {
        start
    } else {
        events[index - 1].post
    }
}

/// Whether `events` is what some sequence of commands, executed one after
/// another from `start`, can produce. However many clients issue commands at
/// once, the state serves them in some such order.
pub open spec fn is_run(start: StateView, events: Seq<Event>) -> bool {
    forall|i: int|
        0 <= i < events.len() ==> step(
            #[trigger] state_before(start, events, i),
            events[i].command,
            events[i].post,
            events[i].reply,
        )
}

/// Whether `event` is a sign-up under `name`.
pub open spec fn signs_up(event: Event, name: Seq<char>) -> bool {
    event.command matches Command::SignUp { username, .. } && username == name
}

/// A user registered at some point of a run is registered, with the same
/// credential, at every later point.
pub proof fn lemma_users_persist(
    start: StateView,
    events: Seq<Event>,
    i: int,
    j: int,
    name: Seq<char>,
)
    requires
        is_run(start, events),
        0 <= i <= j <= events.len(),
        state_before(start, events, i).users.contains_key(name),
    ensures
        state_before(start, events, j).users.contains_key(name),
        state_before(start, events, j).users[name] == state_before(start, events, i).users[name],
    decreases j - i,
{
    if i < j {
        lemma_users_persist(start, events, i, j - 1, name);
        let pre = state_before(start, events, j - 1);
        assert(step(pre, events[j - 1].command, events[j - 1].post, events[j - 1].reply));
        lemma_step_keeps_users_and_keys(
            pre,
            events[j - 1].command,
            events[j - 1].post,
            events[j - 1].reply,
            name,
        );
    }
}

/// A name that is free at the start of a run stays free for as long as no
/// sign-up under it is executed.
pub proof fn lemma_name_stays_free(start: StateView, events: Seq<Event>, j: int, name: Seq<char>)
    requires
        is_run(start, events),
        0 <= j <= events.len(),
        !start.users.contains_key(name),
        forall|i: int| 0 <= i < j ==> !signs_up(#[trigger] events[i], name),
    ensures
        !state_before(start, events, j).users.contains_key(name),
    decreases j,
{
    if j > 0 {
        lemma_name_stays_free(start, events, j - 1, name);
        let pre = state_before(start, events, j - 1);
        assert(step(pre, events[j - 1].command, events[j - 1].post, events[j - 1].reply));
        assert(!signs_up(events[j - 1], name));
        if events[j - 1].post.users.contains_key(name) {
            lemma_only_sign_up_registers(
                pre,
                events[j - 1].command,
                events[j - 1].post,
                events[j - 1].reply,
                name,
            );
        }
    }
}

/// Of the sign-ups under one name in a run, at most one succeeds: once one
/// has, every later one is refused as taken.
pub proof fn lemma_at_most_one_sign_up_succeeds(
    start: StateView,
    events: Seq<Event>,
    i: int,
    j: int,
    name: Seq<char>,
)
    requires
        is_run(start, events),
        0 <= i < j < events.len(),
        signs_up(events[i], name),
        signs_up(events[j], name),
        events[i].reply is Ok,
    ensures
        events[j].reply == Err::<Option<Seq<char>>, Failure>(Failure::UsernameTaken),
{
    let before_i = state_before(start, events, i);
    assert(step(before_i, events[i].command, events[i].post, events[i].reply));
    assert(state_before(start, events, i + 1).users.contains_key(name));
    lemma_users_persist(start, events, i + 1, j, name);
    let before_j = state_before(start, events, j);
    assert(step(before_j, events[j].command, events[j].post, events[j].reply));
}

/// Of the sign-ups under one name that is free at the start of a run, the
/// first succeeds and every other one is refused as taken: exactly one wins,
/// and the user is registered once, with the winner's password.
pub proof fn lemma_exactly_one_sign_up_wins(
    start: StateView,
    events: Seq<Event>,
    first: int,
    name: Seq<char>,
)
    requires
        is_run(start, events),
        !start.users.contains_key(name),
        0 <= first < events.len(),
        signs_up(events[first], name),
        forall|i: int| 0 <= i < first ==> !signs_up(#[trigger] events[i], name),
    ensures
        events[first].reply == Ok::<Option<Seq<char>>, Failure>(Some("User created"@)),
        forall|k: int|
            0 <= k < events.len() && k != first && signs_up(#[trigger] events[k], name)
                ==> events[k].reply == Err::<Option<Seq<char>>, Failure>(Failure::UsernameTaken),
        state_before(start, events, events.len() as int).users.contains_key(name),
        (events[first].command matches Command::SignUp { password, .. } && state_before(
            start,
            events,
            events.len() as int,
        ).users[name] == password),
{
    lemma_name_stays_free(start, events, first, name);
    assert(step(
        state_before(start, events, first),
        events[first].command,
        events[first].post,
        events[first].reply,
    ));
    assert(state_before(start, events, first + 1).users.contains_key(name));
    lemma_users_persist(start, events, first + 1, events.len() as int, name);
    assert forall|k: int|
        0 <= k < events.len() && k != first && signs_up(
            #[trigger] events[k],
            name,
        ) implies events[k].reply == Err::<Option<Seq<char>>, Failure>(
        Failure::UsernameTaken,
    ) by {
        lemma_at_most_one_sign_up_succeeds(start, events, first, k, name);
    }
}

} // verus!

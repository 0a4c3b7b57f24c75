//! The message store: sealed messages in the order they arrived, and what a
//! recipient gets to see of them.
//!
//! Fetching never fails as a whole. A record that does not open is listed as
//! undecodable, and a record that opens but whose MAC does not match the
//! recovered plaintext is listed with its text and a warning; the reader
//! decides what to trust.

use crate::errors::{fails_internally, AppError, AppResult};
use crate::inputs::{MessageRecord, UserMessage};
use crate::padlock::{envelope_open, Padlock};
use crate::primitives::{
    from_utf8_lossy, hmac_tag, is_uuid_v4_text, random_bytes, utf8_lossy, uuid_from_bytes,
    uuid_v4_text, ID_BYTES,
};
use vstd::prelude::*;
use vstd::string::StringExecFns;
use vstd::utf8::{decode_utf8, valid_utf8};

verus! {

/// The text that a decrypted body is shown as: what it decodes to as UTF-8,
/// with replacement characters where it is not UTF-8.
pub open spec fn lossy_text(bytes: Seq<u8>) -> Seq<char> {
    if valid_utf8(bytes) {
        decode_utf8(bytes)
    } else {
        utf8_lossy(bytes)
    }
}

/// Decodes a decrypted body for display.
pub fn decode_text(bytes: &[u8]) -> (text: String)
    ensures
        text@ == lossy_text(bytes@),
{
    from_utf8_lossy(bytes)
}

/// The message identifier that `bytes` stand for: the version 4 UUID made of
/// them, in hyphenated form. There must be 16 bytes.
pub fn identifier_from(bytes: &[u8]) -> (id: AppResult<String>)
    ensures
        bytes@.len() == ID_BYTES ==> (id matches Ok(text) && text@ == uuid_v4_text(bytes@)
            && is_uuid_v4_text(text@)),
        bytes@.len() != ID_BYTES ==> fails_internally(id, "Identifier needs 16 bytes"@),
{
    if bytes.len() != ID_BYTES {
        return Err(AppError::internal("Identifier needs 16 bytes"));
    }
    Ok(uuid_from_bytes(bytes))
}

/// What a recipient is shown of one stored message.
#[derive(Debug)]
pub enum MessageSummary {
    /// The body opened and its MAC matches.
    Verified { id: String, from: String, body: String },
    /// The body opened, but its MAC does not match the recovered plaintext.
    Tampered { id: String, from: String, body: String },
    /// The body did not open.
    Undecodable { id: String },
}

/// A summary as the contracts see it.
pub enum Summary {
    Verified { id: Seq<char>, from: Seq<char>, body: Seq<char> },
    Tampered { id: Seq<char>, from: Seq<char>, body: Seq<char> },
    Undecodable { id: Seq<char> },
}

impl View for MessageSummary {
    type V = Summary;

    open spec fn view(&self) -> Summary {
        match self {
            MessageSummary::Verified { id, from, body } => Summary::Verified {
                id: id@,
                from: from@,
                body: body@,
            },
            MessageSummary::Tampered { id, from, body } => Summary::Tampered {
                id: id@,
                from: from@,
                body: body@,
            },
            MessageSummary::Undecodable { id } => Summary::Undecodable { id: id@ },
        }
    }
}

impl Summary {
    /// The line of text that reports this summary.
    pub open spec fn line(self) -> Seq<char> {
        match self {
            Summary::Verified { id, from, body } => "MsgID: "@ + id + ", From: "@ + from
                + ", Body: "@ + body,
            Summary::Tampered { id, from, body } => "MsgID: "@ + id + ", From: "@ + from
                + ", Body: "@ + body + " [WARNING: HMAC verification failed!]"@,
            Summary::Undecodable { id } => "MsgID: "@ + id + ", [ERROR decrypting message]"@,
        }
    }
}

impl MessageSummary {
    /// The line of text that reports this summary.
    pub fn render(&self) -> (text: String)
        ensures
            text@ == self@.line(),
    {
        match self {
            MessageSummary::Verified { id, from, body } => {
                String::from_str("MsgID: ").concat(id.as_str()).concat(", From: ").concat(
                    from.as_str(),
                ).concat(", Body: ").concat(body.as_str())
            },
            MessageSummary::Tampered { id, from, body } => {
                String::from_str("MsgID: ").concat(id.as_str()).concat(", From: ").concat(
                    from.as_str(),
                ).concat(", Body: ").concat(body.as_str()).concat(
                    " [WARNING: HMAC verification failed!]",
                )
            },
            MessageSummary::Undecodable { id } => {
                String::from_str("MsgID: ").concat(id.as_str()).concat(
                    ", [ERROR decrypting message]",
                )
            },
        }
    }
}

/// The views of a list of summaries, in order.
pub open spec fn summary_views(summaries: Seq<MessageSummary>) -> Seq<Summary> {
    summaries.map_values(|s: MessageSummary| s@)
}

/// What is shown of `record` to its recipient by a store whose keys are
/// `aead_key` and `mac_key`.
pub open spec fn summary_of(aead_key: Seq<u8>, mac_key: Seq<u8>, record: MessageRecord) -> Summary {
    match envelope_open(aead_key, record.body_enc) {
        None => Summary::Undecodable { id: record.id },
        Some(plaintext) => if record.body_hash == hmac_tag(mac_key, plaintext) {
            Summary::Verified { id: record.id, from: record.from, body: lossy_text(plaintext) }
        } else {
            Summary::Tampered { id: record.id, from: record.from, body: lossy_text(plaintext) }
        },
    }
}

/// The test "is addressed to `recipient`".
pub open spec fn addressed_to(recipient: Seq<char>) -> spec_fn(MessageRecord) -> bool {
    |record: MessageRecord| record.to == recipient
}

/// The test "is anything but `recipient`'s message `msg_id`".
pub open spec fn other_than(recipient: Seq<char>, msg_id: Seq<char>) -> spec_fn(
    MessageRecord,
) -> bool {
    |record: MessageRecord| !(record.to == recipient && record.id == msg_id)
}

/// The records addressed to `recipient`, in the order they were stored.
pub open spec fn mailbox(records: Seq<MessageRecord>, recipient: Seq<char>) -> Seq<MessageRecord> {
    records.filter(addressed_to(recipient))
}

/// What `recipient` is shown of `records`, in the order they were stored.
pub open spec fn summaries_for(
    aead_key: Seq<u8>,
    mac_key: Seq<u8>,
    records: Seq<MessageRecord>,
    recipient: Seq<char>,
) -> Seq<Summary> {
    mailbox(records, recipient).map_values(
        |record: MessageRecord| summary_of(aead_key, mac_key, record),
    )
}

/// Whether some record carries the identifier `msg_id`.
pub open spec fn id_in_use(records: Seq<MessageRecord>, msg_id: Seq<char>) -> bool {
    exists|i: int| 0 <= i < records.len() && (#[trigger] records[i]).id == msg_id
}

/// Whether `recipient` has a message `msg_id` among `records`.
pub open spec fn holds_message(
    records: Seq<MessageRecord>,
    recipient: Seq<char>,
    msg_id: Seq<char>,
) -> bool {
    exists|i: int|
        0 <= i < records.len() && (#[trigger] records[i]).to == recipient && records[i].id
            == msg_id
}

/// Whether no two records carry the same identifier.
pub open spec fn distinct_ids(records: Seq<MessageRecord>) -> bool {
    forall|i: int, j: int|
        0 <= i < j < records.len() ==> (#[trigger] records[i]).id != (#[trigger] records[j]).id
}

/// Whether `record` is `plaintext` sent by `sender` to `recipient` and sealed
/// under `padlock`: its body opens to the plaintext and its MAC is the
/// plaintext's.
pub open spec fn seals(
    padlock: Padlock,
    record: MessageRecord,
    sender: Seq<char>,
    recipient: Seq<char>,
    plaintext: Seq<u8>,
) -> bool {
    &&& record.from == sender
    &&& record.to == recipient
    &&& padlock.spec_decrypt(record.body_enc) == Some(plaintext)
    &&& record.body_hash == padlock.spec_hmac(plaintext)
}

/// Whether `e` is one of the internal errors with which `append` gives up:
/// no random bytes, a refusal by the cipher, or an identifier drawn twice.
pub open spec fn append_failure(e: AppError) -> bool {
    ||| e.is_internal("Random source failed"@)
    ||| e.is_internal("Encryption failed"@)
    ||| e.is_internal("Message id already in use"@)
}

/// Filtering a sequence extended by one element.
pub proof fn lemma_filter_push<A>(s: Seq<A>, x: A, pred: spec_fn(A) -> bool)
    ensures
        s.push(x).filter(pred) == if pred(x) {
            s.filter(pred).push(x)
        } else {
            s.filter(pred)
        },
{
    reveal(Seq::filter);
    assert(s.push(x).drop_last() =~= s);
}

/// The records that a list of messages stands for.
pub open spec fn records_of(messages: Seq<UserMessage>) -> Seq<MessageRecord> {
    messages.map_values(|m: UserMessage| m@)
}

/// The stored messages. No two of them carry the same identifier.
pub struct MessageStore {
    messages: Vec<UserMessage>,
}

impl View for MessageStore {
    type V = Seq<MessageRecord>;

    closed spec fn view(&self) -> Seq<MessageRecord> {
        records_of(self.messages@)
    }
}

impl MessageStore {
    #[verifier::type_invariant]
    spec fn ids_are_distinct(&self) -> bool {
        distinct_ids(self@)
    }

    /// An empty store.
    pub fn new() -> (made: MessageStore)
        ensures
            made@ == Seq::<MessageRecord>::empty(),
    {
        let made = MessageStore { messages: Vec::new() };
        assert(made@ =~= Seq::<MessageRecord>::empty());
        made
    }

    /// The number of stored messages.
    pub fn len(&self) -> (count: usize)
        ensures
            count == self@.len(),
    {
        self.messages.len()
    }

    /// Whether some stored message carries the identifier `msg_id`.
    pub fn has_id(&self, msg_id: &String) -> (used: bool)
        ensures
            used == id_in_use(self@, msg_id@),
    {
        let mut i: usize = 0;
        while i < self.messages.len()
            invariant
                0 <= i <= self.messages.len(),
                forall|k: int| 0 <= k < i ==> (#[trigger] self@[k]).id != msg_id@,
            decreases self.messages.len() - i,
        {
            if self.messages[i].id == *msg_id {
                assert(self@[i as int].id == msg_id@);
                return true;
            }
            i += 1;
        }
        false
    }

    /// Stores `message` behind the others, unless its identifier is in use.
    pub fn store(&mut self, message: UserMessage) -> (outcome: Result<(), AppError>)
        ensures
            id_in_use(old(self)@, message.id@) ==> fails_internally(
                outcome,
                "Message id already in use"@,
            ) && final(self)@ == old(self)@,
            !id_in_use(old(self)@, message.id@) ==> outcome is Ok && final(self)@
                == old(self)@.push(message@),
            distinct_ids(final(self)@),
    {
        proof {
            use_type_invariant(&*self);
        }
        if self.has_id(&message.id) {
            return Err(AppError::internal("Message id already in use"));
        }
        let ghost record = message@;
        // The list is taken out while it grows and put back whole.
        let mut messages: Vec<UserMessage> = Vec::new();
        core::mem::swap(&mut self.messages, &mut messages);
        messages.push(message);
        proof {
            assert(records_of(messages@) =~= old(self)@.push(record));
            assert(distinct_ids(records_of(messages@)));
        }
        core::mem::swap(&mut self.messages, &mut messages);
        Ok(())
    }

    /// Seals `plaintext` under `padlock`, tags it, gives it an identifier made
    /// of 16 random bytes and stores it as a message from `sender` to
    /// `recipient`.
    /// Returns the identifier.
    ///
    /// Either the store grows by exactly the new record, or it is left as it
    /// was and the error is internal.
    pub fn append(
        &mut self,
        padlock: &Padlock,
        sender: String,
        recipient: String,
        plaintext: &[u8],
    ) -> (outcome: AppResult<String>)
        ensures
            outcome matches Ok(id) ==> final(self)@ == old(self)@.push(final(self)@.last()),
            outcome matches Ok(id) ==> final(self)@.len() == old(self)@.len() + 1,
            outcome matches Ok(id) ==> final(self)@.last().id == id@,
            outcome matches Ok(id) ==> is_uuid_v4_text(id@),
            outcome matches Ok(id) ==> !id_in_use(old(self)@, id@),
            outcome is Ok ==> seals(*padlock, final(self)@.last(), sender@, recipient@, plaintext@),
            outcome matches Err(e) ==> append_failure(e),
            outcome is Err ==> final(self)@ == old(self)@,
            distinct_ids(final(self)@),
    {
        proof {
            use_type_invariant(&*self);
        }
        let body_enc = match padlock.encrypt(plaintext) {
            Ok(sealed) => sealed,
            Err(e) => {
                return Err(e);
            },
        };
        let body_hash = padlock.compute_hmac(plaintext);
        let id = match random_bytes(ID_BYTES) {
            Ok(bytes) => match identifier_from(bytes.as_slice()) {
                Ok(id) => id,
                Err(e) => {
                    return Err(e);
                },
            },
            Err(_) => {
                return Err(AppError::internal("Random source failed"));
            },
        };
        let message = UserMessage {
            id: id.clone(),
            from: sender,
            to: recipient,
            body_enc,
            body_hash,
        };
        match self.store(message) {
            Ok(()) => {
                proof {
                    assert(self@.last() == message@);
                }
                Ok(id)
            },
            Err(e) => Err(e),
        }
    }

    /// What `recipient` is shown of the message at `index`.
    fn summarize(&self, padlock: &Padlock, index: usize) -> (summary: MessageSummary)
        requires
            index < self@.len(),
        ensures
            summary@ == summary_of(padlock.aead_key(), padlock.mac_key(), self@[index as int]),
    {
        let message = &self.messages[index];
        match padlock.decrypt(message.body_enc.as_slice()) {
            None => MessageSummary::Undecodable { id: message.id.clone() },
            Some(plaintext) => {
                let intact = padlock.verify_hmac(
                    plaintext.as_slice(),
                    message.body_hash.as_slice(),
                );
                let id = message.id.clone();
                let from = message.from.clone();
                let body = decode_text(plaintext.as_slice());
                if intact {
                    MessageSummary::Verified { id, from, body }
                } else {
                    MessageSummary::Tampered { id, from, body }
                }
            },
        }
    }

    /// Everything addressed to `recipient`, oldest first, each message opened
    /// and checked under `padlock`.
    pub fn fetch_for(&self, padlock: &Padlock, recipient: &String) -> (summaries: Vec<
        MessageSummary,
    >)
        ensures
            summary_views(summaries@) == summaries_for(
                padlock.aead_key(),
                padlock.mac_key(),
                self@,
                recipient@,
            ),
    {
        let mut summaries: Vec<MessageSummary> = Vec::new();
        let mut i: usize = 0;
        assert(self@.take(0) =~= Seq::<MessageRecord>::empty());
        assert(summary_views(summaries@) =~= summaries_for(
            padlock.aead_key(),
            padlock.mac_key(),
            self@.take(0),
            recipient@,
        )) by {
            reveal(Seq::filter);
        }
        while i < self.messages.len()
            invariant
                0 <= i <= self.messages.len(),
                self.messages.len() == self@.len(),
                summary_views(summaries@) == summaries_for(
                    padlock.aead_key(),
                    padlock.mac_key(),
                    self@.take(i as int),
                    recipient@,
                ),
            decreases self.messages.len() - i,
        {
            let ghost before = self@.take(i as int);
            let ghost shown = summary_views(summaries@);
            proof {
                assert(self@.take(i + 1) =~= before.push(self@[i as int]));
                lemma_filter_push(before, self@[i as int], addressed_to(recipient@));
            }
            if self.messages[i].to == *recipient {
                let summary = self.summarize(padlock, i);
                summaries.push(summary);
                assert(summary_views(summaries@) =~= shown.push(summary@));
                assert(summaries_for(
                    padlock.aead_key(),
                    padlock.mac_key(),
                    before.push(self@[i as int]),
                    recipient@,
                ) =~= summaries_for(padlock.aead_key(), padlock.mac_key(), before, recipient@).push(
                    summary_of(padlock.aead_key(), padlock.mac_key(), self@[i as int]),
                ));
            }
            i += 1;
        }
        assert(self@.take(i as int) =~= self@);
        summaries
    }

    /// Removes `recipient`'s message `msg_id`. A message addressed to someone
    /// else is never removed, whatever identifier is given.
    pub fn delete(&mut self, recipient: &String, msg_id: &String) -> (outcome: Result<(), AppError>)
        ensures
            final(self)@ == old(self)@.filter(other_than(recipient@, msg_id@)),
            holds_message(old(self)@, recipient@, msg_id@) ==> outcome is Ok
                && final(self)@.len() + 1 == old(self)@.len(),
            !holds_message(old(self)@, recipient@, msg_id@) ==> outcome == Err::<(), AppError>(
                AppError::MessageNotFound,
            ) && final(self)@ == old(self)@,
            distinct_ids(final(self)@),
    {
        proof {
            use_type_invariant(&*self);
        }
        let ghost keep = other_than(recipient@, msg_id@);
        let ghost before = self@;
        let ghost mut consumed: int = 0;
        let ghost mut removed: int = 0;
        // The list is taken out while it is thinned and put back whole.
        let mut messages: Vec<UserMessage> = Vec::new();
        core::mem::swap(&mut self.messages, &mut messages);
        let mut found = false;
        let mut i: usize = 0;
        proof {
            reveal(Seq::filter);
            assert(before.take(0) =~= Seq::<MessageRecord>::empty());
            assert(records_of(messages@).take(0) =~= before.take(0).filter(keep));
            assert(records_of(messages@).skip(0) =~= before.skip(0));
        }
        while i < messages.len()
            invariant
                keep == other_than(recipient@, msg_id@),
                distinct_ids(before),
                distinct_ids(records_of(messages@)),
                0 <= i <= messages.len(),
                0 <= removed <= 1,
                consumed == i + removed,
                consumed <= before.len(),
                messages.len() + removed == before.len(),
                records_of(messages@).take(i as int) == before.take(consumed).filter(keep),
                records_of(messages@).skip(i as int) == before.skip(consumed),
                found == (removed == 1),
                removed == 1 ==> exists|k: int| 0 <= k < consumed && !keep(#[trigger] before[k]),
                removed == 0 ==> forall|k: int| 0 <= k < consumed ==> keep(#[trigger] before[k]),
                removed == 0 ==> records_of(messages@) == before,
            decreases messages.len() - i,
        {
            let ghost current = records_of(messages@);
            proof {
                assert(current[i as int] == current.skip(i as int)[0]);
                assert(before[consumed] == before.skip(consumed)[0]);
                assert(before.take(consumed + 1) =~= before.take(consumed).push(before[consumed]));
                lemma_filter_push(before.take(consumed), before[consumed], keep);
            }
            if messages[i].to == *recipient && messages[i].id == *msg_id {
                proof {
                    assert(!keep(before[consumed]));
                    if removed == 1 {
                        let k = choose|k: int| 0 <= k < consumed && !keep(#[trigger] before[k]);
                        assert(before[k].id == before[consumed].id);
                    }
                }
                messages.remove(i);
                proof {
                    let now = records_of(messages@);
                    assert(now =~= current.remove(i as int));
                    assert(now.take(i as int) =~= current.take(i as int));
                    assert(now.skip(i as int) =~= current.skip(i as int).skip(1));
                    assert(before.skip(consumed + 1) =~= before.skip(consumed).skip(1));
                    assert(distinct_ids(now)) by {
                        assert forall|a: int, b: int| 0 <= a < b < now.len() implies (
                        #[trigger] now[a]).id != (#[trigger] now[b]).id by {
                            let a0 = if a < i { a } else { a + 1 };
                            let b0 = if b < i { b } else { b + 1 };
                            assert(now[a] == current[a0]);
                            assert(now[b] == current[b0]);
                        }
                    }
                    consumed = consumed + 1;
                    removed = removed + 1;
                }
                found = true;
            } else {
                proof {
                    assert(keep(before[consumed]));
                    assert(current.take(i + 1) =~= current.take(i as int).push(current[i as int]));
                    assert(current.skip(i + 1) =~= current.skip(i as int).skip(1));
                    assert(before.skip(consumed + 1) =~= before.skip(consumed).skip(1));
                    consumed = consumed + 1;
                }
                i += 1;
            }
        }
        proof {
            let now = records_of(messages@);
            assert(now.take(i as int) =~= now);
            assert(before.take(consumed) =~= before);
            if removed == 1 {
                let k = choose|k: int| 0 <= k < consumed && !keep(#[trigger] before[k]);
                assert(before[k].to == recipient@ && before[k].id == msg_id@);
            }
        }
        core::mem::swap(&mut self.messages, &mut messages);
        if found {
            Ok(())
        } else {
            Err(AppError::MessageNotFound)
        }
    }
}

} // verus!

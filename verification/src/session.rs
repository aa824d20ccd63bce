//! Sessions: their identity, their messages and their record on disk.

use crate::output::{silence, Report, Reported, Stream};
use crate::text::text_of;
use std::sync::Arc;
use vstd::prelude::*;
use vstd::string::*;

verus! {

/// A message of a conversation: typed by the user, said by the program in the assistant's place,
/// or taken over whole from a query or a saved session.
pub enum Message<M> {
    User(String),
    Assistant(String),
    Recorded(Arc<M>),
}

/// A [`Message`], as contracts see it.
pub enum Said<M> {
    User(Seq<char>),
    Assistant(Seq<char>),
    Recorded(M),
}

impl<M> View for Message<M> {
    type V = Said<M>;

    open spec fn view(&self) -> Said<M> {
        match self {
            Message::User(text) => Said::User(text@),
            Message::Assistant(text) => Said::Assistant(text@),
            Message::Recorded(message) => Said::Recorded(**message),
        }
    }
}

impl<M> Clone for Message<M> {
    fn clone(&self) -> (copy: Self)
        ensures
            copy == *self,
    {
        match self {
            Message::User(text) => Message::User(text.clone()),
            Message::Assistant(text) => Message::Assistant(text.clone()),
            Message::Recorded(message) => Message::Recorded(message.clone()),
        }
    }
}

/// What is said in a list of messages, in order.
pub open spec fn said<M>(messages: Seq<Message<M>>) -> Seq<Said<M>> {
    messages.map_values(|m: Message<M>| m@)
}

/// A copy of a list of messages.
pub fn copy_messages<M>(messages: &Vec<Message<M>>) -> (copy: Vec<Message<M>>)
    ensures
        said(copy@) == said(messages@),
{
    let copy = messages.clone();
    proof {
        assert(copy@ =~= messages@);
    }
    copy
}

/// Adds a message at the end of a list.
pub fn add_message<M>(messages: &mut Vec<Message<M>>, message: Message<M>)
    ensures
        said(final(messages)@) == said(old(messages)@).push(message@),
{
    messages.push(message);
    proof {
        assert(said(messages@) =~= said(old(messages)@).push(message@));
    }
}

/// A point in time: seconds since the beginning of 1970 in UTC, and nanoseconds past the second.
#[derive(Clone, Copy, Debug, PartialEq, Eq, Structural)]
pub struct Timestamp {
    pub seconds: i64,
    pub nanoseconds: u32,
}

/// `chrono::Utc::now`, taken apart by `DateTime::timestamp` and
/// `DateTime::timestamp_subsec_nanos`: a time in 1970 or later, and nanoseconds short of a second.
/// Which time rests with the machine's clock; where that stands before 1970 the outside call
/// panics.
#[verifier::external_body]
fn utc_now() -> (now: (i64, u32))
    ensures
        now.0 >= 0,
        now.1 < 1_000_000_000,
{
    let now = chrono::Utc::now();
    (now.timestamp(), now.timestamp_subsec_nanos())
}

/// The time on the machine's clock. Which time that is, nothing here says.
pub fn read_clock() -> (now: Timestamp)
    ensures
        now.seconds >= 0,
        now.nanoseconds < 1_000_000_000,
{
    let (seconds, nanoseconds) = utc_now();
    Timestamp { seconds, nanoseconds }
}

/// Whether `c` is a lower-case hexadecimal digit.
pub open spec fn is_hex_digit(c: char) -> bool {
    '0' <= c <= '9' || 'a' <= c <= 'f'
}

/// Whether `s` is a random (version 4) UUID in its hyphenated lower-case form.
pub open spec fn is_random_uuid(s: Seq<char>) -> bool {
    &&& s.len() == 36
    &&& forall|i: int|
        0 <= i < 36 ==> if i == 8 || i == 13 || i == 18 || i == 23 {
            #[trigger] s[i] == '-'
        } else {
            is_hex_digit(s[i])
        }
    &&& s[14] == '4'
    &&& (s[19] == '8' || s[19] == '9' || s[19] == 'a' || s[19] == 'b')
}

/// `uuid::Uuid::new_v4` and `Uuid`'s `Display`: a version 4 UUID, hyphenated, in lower case.
/// Which one rests with the machine's source of random bytes; where that fails the outside call
/// panics.
#[verifier::external_body]
fn random_uuid() -> (id: String)
    ensures
        is_random_uuid(id@),
{
    uuid::Uuid::new_v4().to_string()
}

/// What identifies a session and is written down with it.
#[derive(Debug)]
pub struct SessionInfo {
    pub id: String,
    pub model: String,
    pub working_dir: String,
}

impl SessionInfo {
    /// A session under a fresh random identifier.
    pub fn start(model: String, working_dir: String) -> (session: SessionInfo)
        ensures
            is_random_uuid(session.id@),
            session.model@ == model@,
            session.working_dir@ == working_dir@,
    {
        SessionInfo { id: random_uuid(), model, working_dir }
    }
}

/// A session as it is saved.
pub struct SessionRecord<M> {
    pub id: String,
    pub created_at: Timestamp,
    pub updated_at: Timestamp,
    pub messages: Vec<Message<M>>,
    pub model: String,
    pub title: Option<String>,
    pub working_dir: Option<String>,
}

/// A [`SessionRecord`], as contracts see it.
pub struct Saved<M> {
    pub id: Seq<char>,
    pub created_at: Timestamp,
    pub updated_at: Timestamp,
    pub messages: Seq<Said<M>>,
    pub model: Seq<char>,
    pub title: Option<Seq<char>>,
    pub working_dir: Option<Seq<char>>,
}

impl<M> View for SessionRecord<M> {
    type V = Saved<M>;

    open spec fn view(&self) -> Saved<M> {
        Saved {
            id: self.id@,
            created_at: self.created_at,
            updated_at: self.updated_at,
            messages: said(self.messages@),
            model: self.model@,
            title: text_of(self.title),
            working_dir: text_of(self.working_dir),
        }
    }
}

/// The record of a session: untitled, with the messages as they stand.
pub open spec fn recorded<M>(
    session: SessionInfo,
    messages: Seq<Said<M>>,
    created_at: Timestamp,
    updated_at: Timestamp,
) -> Saved<M> {
    Saved {
        id: session.id@,
        created_at,
        updated_at,
        messages,
        model: session.model@,
        title: None,
        working_dir: Some(session.working_dir@),
    }
}

/// The record of a session: untitled, with the messages as they stand.
pub fn session_record<M>(
    session: &SessionInfo,
    messages: &Vec<Message<M>>,
    created_at: Timestamp,
    updated_at: Timestamp,
) -> (record: SessionRecord<M>)
    ensures
        record@ == recorded(*session, said(messages@), created_at, updated_at),
{
    SessionRecord {
        id: session.id.clone(),
        created_at,
        updated_at,
        messages: copy_messages(messages),
        model: session.model.clone(),
        title: None,
        working_dir: Some(session.working_dir.clone()),
    }
}

/// A saved session to go on with, and what loading it came to.
pub struct Resumption<M> {
    pub id: String,
    pub loaded: Result<Vec<Message<M>>, String>,
}

/// The messages that a session begins with, and what is said about them: those of the session to
/// go on with, or none where there is no such session or it cannot be loaded.
pub open spec fn beginning<M>(resumption: Option<Resumption<M>>) -> (Seq<Said<M>>, Reported) {
    match resumption {
        Some(resumption) => match resumption.loaded {
            Ok(messages) => (
                said(messages@),
                silence().say(Stream::Stdout, "Resumed session: "@ + resumption.id@),
            ),
            Err(reason) => (
                Seq::empty(),
                silence().say(
                    Stream::Stderr,
                    "Warning: could not load session "@ + resumption.id@ + ": "@ + reason@,
                ),
            ),
        },
        None => (Seq::empty(), silence()),
    }
}

/// Finds the messages that a session begins with, and what to say about them.
pub fn begin_session<M>(resumption: Option<Resumption<M>>) -> (start: (Vec<Message<M>>, Report))
    ensures
        (said(start.0@), start.1@) == beginning(resumption),
{
    let none: Vec<Message<M>> = Vec::new();
    proof {
        assert(said(none@) =~= Seq::empty());
    }
    match resumption {
        Some(resumption) => match resumption.loaded {
            Ok(messages) => (
                messages,
                Report::new().say(
                    Stream::Stdout,
                    "Resumed session: ".to_string().concat(resumption.id.as_str()),
                ),
            ),
            Err(reason) => (
                none,
                Report::new().say(
                    Stream::Stderr,
                    "Warning: could not load session ".to_string().concat(
                        resumption.id.as_str(),
                    ).concat(": ").concat(reason.as_str()),
                ),
            ),
        },
        None => (none, Report::new()),
    }
}

/// A session that was saved and is resumed begins with the messages that it was saved with.
pub proof fn resumed_sessions_keep_their_messages<M>(record: SessionRecord<M>)
    ensures
        beginning(
            Some(Resumption { id: record.id, loaded: Ok(record.messages) }),
        ).0 == record@.messages,
{
}

/// A session that cannot be loaded does not keep the program from starting: it begins empty.
pub proof fn lost_sessions_begin_empty<M>(id: String, reason: String)
    ensures
        beginning(Some(Resumption::<M> { id, loaded: Err(reason) })).0.len() == 0,
        beginning(Some(Resumption::<M> { id, loaded: Err(reason) })).1.exit is None,
{
}

/// What is said in a list of messages is what its messages say: one for each, in order, each with
/// its speaker and its whole text, or the recorded message itself.
pub proof fn messages_are_seen_whole<M>(messages: Seq<Message<M>>, i: int)
    requires
        0 <= i < messages.len(),
    ensures
        said(messages).len() == messages.len(),
        match messages[i] {
            Message::User(text) => said(messages)[i] == Said::<M>::User(text@),
            Message::Assistant(text) => said(messages)[i] == Said::<M>::Assistant(text@),
            Message::Recorded(message) => said(messages)[i] == Said::<M>::Recorded(*message),
        },
{
}

/// A record keeps the session's identity, model and directory, its times and all its messages,
/// and gives it no title.
pub proof fn records_keep_everything<M>(
    session: SessionInfo,
    messages: Seq<Said<M>>,
    created_at: Timestamp,
    updated_at: Timestamp,
)
    ensures
        ({
            let record = recorded(session, messages, created_at, updated_at);
            &&& record.id == session.id@
            &&& record.created_at == created_at
            &&& record.updated_at == updated_at
            &&& record.messages == messages
            &&& record.model == session.model@
            &&& record.title is None
            &&& record.working_dir == Some(session.working_dir@)
        }),
{
}

/// A record is seen as it stands, field by field.
pub proof fn records_are_seen_whole<M>(record: SessionRecord<M>)
    ensures
        record@.id == record.id@,
        record@.created_at == record.created_at,
        record@.updated_at == record.updated_at,
        record@.messages == said(record.messages@),
        record@.model == record.model@,
        record@.title == text_of(record.title),
        record@.working_dir == text_of(record.working_dir),
{
}

/// A resumed session begins with all its messages and is named in one line on standard output; one
/// that cannot be loaded is named with the whole reason in one line on standard error; without a
/// session to resume nothing is said. None of them ends the program.
pub proof fn beginnings_are_told<M>(id: String, messages: Vec<Message<M>>, reason: String)
    ensures
        ({
            let (first, told) = beginning(Some(Resumption { id, loaded: Ok(messages) }));
            &&& first == said(messages@)
            &&& told.output.len() == 1
            &&& told.output[0].stream is Stdout
            &&& told.output[0].text == "Resumed session: "@ + id@ + "\n"@
            &&& told.exit is None
        }),
        ({
            let (first, told) = beginning(Some(Resumption::<M> { id, loaded: Err(reason) }));
            &&& first.len() == 0
            &&& told.output.len() == 1
            &&& told.output[0].stream is Stderr
            &&& told.output[0].text == "Warning: could not load session "@ + id@ + ": "@ + reason@
                + "\n"@
            &&& told.exit is None
        }),
        ({
            let (first, told) = beginning::<M>(None);
            first.len() == 0 && told.output.len() == 0 && told.exit is None
        }),
{
}

/// A random identifier is five groups of hexadecimal digits, of eight, four, four, four and twelve,
/// with hyphens between them and no upper-case letter; the third group begins with the version and
/// the fourth with the variant.
pub proof fn identifiers_come_in_five_groups(id: Seq<char>, i: int)
    requires
        is_random_uuid(id),
        0 <= i < id.len(),
    ensures
        id.len() == 8 + 1 + 4 + 1 + 4 + 1 + 4 + 1 + 12,
        id[i] == '-' <==> i == 8 || i == 13 || i == 18 || i == 23,
        id[i] != '-' ==> 0x30 <= id[i] as int <= 0x39 || 0x61 <= id[i] as int <= 0x66,
        id[14] == '4',
        id[19] == '8' || id[19] == '9' || id[19] == 'a' || id[19] == 'b',
{
}

} // verus!

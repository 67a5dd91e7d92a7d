//! Chat with the AI assistant: the messages exchanged with it, how a reply
//! that arrives in chunks is put together, and the checks and texts of the
//! chat endpoints.
use vstd::prelude::*;

use crate::text::{ascii_lower_char, str_eq, i64_decimal, push_chars, push_str_chars, signed_decimal, str_chars, string_from_chars, trim, trim_chars};

verus! {

/// A chat message sent to the assistant.
#[derive(Debug, Clone)]
pub struct AiChatRequest {
    pub session_id: String,
    pub message: String,
    pub user_id: Option<i64>,
    pub chat_id: Option<String>,
}

/// A complete reply of the assistant.
#[derive(Debug, Clone)]
pub struct AiChatResponse {
    pub session_id: String,
    pub chat_id: Option<String>,
    pub text: String,
    pub finished: bool,
    pub error: Option<String>,
}

/// A piece of a reply as the assistant streams it.
#[derive(Debug, Clone)]
pub struct AiChatChunk {
    pub session_id: Option<String>,
    pub chat_id: Option<String>,
    pub text: String,
    pub finished: bool,
}

/// A request for the chat history of a user, optionally of one session.
#[derive(Debug, Clone)]
pub struct ChatHistoryRequest {
    pub user_id: i64,
    pub session_id: Option<i64>,
    pub limit: Option<i32>,
}

/// A chat message to store, with the assistant's reply where the client has
/// it already.
#[derive(Debug, Clone)]
pub struct ChatHistoryPayload {
    pub user_id: i64,
    pub session_id: Option<i64>,
    pub user_message: String,
    pub assistant_message: Option<String>,
}

/// The query of a streamed chat.
#[derive(Debug, Clone)]
pub struct StreamChatQuery {
    pub messages: String,
    pub user_id: Option<i64>,
}

/// A message of a conversation as the client sends it.
#[derive(Debug, Clone)]
pub struct IncomingMessage {
    pub role: String,
    pub content: String,
}

/// The start of a chat: the user and the conversation so far.
#[derive(Debug, Clone)]
pub struct StartChatRequest {
    pub user_id: i64,
    pub messages: Vec<IncomingMessage>,
}

/// The reply text that a sequence of chunks makes: their texts in order.
pub open spec fn joined_text(chunks: Seq<AiChatChunk>) -> Seq<char>
    decreases chunks.len(),
{
    if chunks.len() == 0 {
        Seq::empty()
    } else {
        joined_text(chunks.drop_last()) + chunks.last().text@
    }
}

/// The last value that the chunks set, or `start` where none sets one.
pub open spec fn last_set(start: Option<String>, values: Seq<Option<String>>) -> Option<String>
    decreases values.len(),
{
    if values.len() == 0 {
        start
    } else {
        match values.last() {
            Some(v) => Some(v),
            None => last_set(start, values.drop_last()),
        }
    }
}

/// A reply being put together from the chunks that arrived so far.
pub struct ChatReplyBuilder {
    session_id: String,
    chat_id: Option<String>,
    text: Vec<char>,
    done: bool,
    chunks: Ghost<Seq<AiChatChunk>>,
    first_session: Ghost<String>,
}

impl ChatReplyBuilder {
    /// The chunks taken in so far.
    pub closed spec fn chunks(&self) -> Seq<AiChatChunk> {
        self.chunks@
    }

    /// The session the reply started in.
    pub closed spec fn first_session(&self) -> String {
        self.first_session@
    }

    /// The reply is complete: a chunk said it is the last.
    pub closed spec fn is_done(&self) -> bool {
        self.done
    }

    /// What the builder holds is what the chunks make.
    pub closed spec fn wf(&self) -> bool {
        &&& self.text@ == joined_text(self.chunks@)
        &&& self.chat_id == last_set(None, self.chunks@.map_values(|c: AiChatChunk| c.chat_id))
        &&& Some(self.session_id) == last_set(
            Some(self.first_session@),
            self.chunks@.map_values(|c: AiChatChunk| c.session_id),
        )
    }

    /// A reply in the given session, with no chunk yet.
    pub fn new(session_id: String) -> (r: Self)
        ensures
            r.wf(),
            r.chunks() == Seq::<AiChatChunk>::empty(),
            r.first_session() == session_id,
            !r.is_done(),
    {
        let ghost first = session_id;
        let r = ChatReplyBuilder {
            session_id,
            chat_id: None,
            text: Vec::new(),
            done: false,
            chunks: Ghost(Seq::empty()),
            first_session: Ghost(first),
        };
        proof {
            assert(r.chunks@.map_values(|c: AiChatChunk| c.chat_id) =~= Seq::<Option<String>>::empty());
            assert(r.chunks@.map_values(|c: AiChatChunk| c.session_id) =~= Seq::<Option<String>>::empty());
        }
        r
    }

    /// Takes in the next chunk: its text is appended, a chat id or session it
    /// names replaces the one held, and a chunk marked finished completes the
    /// reply. Says whether the reply is complete.
    pub fn absorb(&mut self, chunk: AiChatChunk) -> (finished: bool)
        requires
            old(self).wf(),
        ensures
            final(self).wf(),
            final(self).chunks() == old(self).chunks().push(chunk),
            final(self).first_session() == old(self).first_session(),
            finished == chunk.finished,
            final(self).is_done() == (old(self).is_done() || chunk.finished),
    {
        let ghost old_chunks = self.chunks@;
        let ghost new_chunks = old_chunks.push(chunk);
        let chars = str_chars(chunk.text.as_str());
        push_chars(&mut self.text, chars.as_slice());
        let finished = chunk.finished;
        match chunk.chat_id {
            Some(c) => {
                self.chat_id = Some(c);
            },
            None => {},
        }
        match chunk.session_id {
            Some(s) => {
                self.session_id = s;
            },
            None => {},
        }
        if finished {
            self.done = true;
        }
        self.chunks = Ghost(new_chunks);
        proof {
            assert(new_chunks.drop_last() =~= old_chunks);
            assert(new_chunks.map_values(|c: AiChatChunk| c.chat_id).drop_last() =~= old_chunks.map_values(
                |c: AiChatChunk| c.chat_id,
            ));
            assert(new_chunks.map_values(|c: AiChatChunk| c.session_id).drop_last()
                =~= old_chunks.map_values(|c: AiChatChunk| c.session_id));
        }
        finished
    }

    /// The complete reply: the session and chat id last named, the joined
    /// text, finished and without error.
    pub fn finish(self) -> (r: AiChatResponse)
        requires
            self.wf(),
        ensures
            r.text@ == joined_text(self.chunks()),
            r.chat_id == last_set(None, self.chunks().map_values(|c: AiChatChunk| c.chat_id)),
            Some(r.session_id) == last_set(
                Some(self.first_session()),
                self.chunks().map_values(|c: AiChatChunk| c.session_id),
            ),
            r.finished,
            r.error is None,
    {
        AiChatResponse {
            session_id: self.session_id,
            chat_id: self.chat_id,
            text: string_from_chars(self.text.as_slice()),
            finished: true,
            error: None,
        }
    }
}

/// Whether a streamed chat may start: the messages are not blank and the
/// user is given.
pub fn stream_request_ok(query: &StreamChatQuery) -> (b: bool)
    ensures
        b == (trim(query.messages@).len() > 0 && query.user_id is Some),
{
    let t = trim_chars(str_chars(query.messages.as_str()).as_slice());
    t.len() > 0 && query.user_id.is_some()
}

/// Whether a role is `user` without regard to ASCII case.
pub open spec fn is_user_role(role: Seq<char>) -> bool {
    role.len() == 4 && forall|i: int| 0 <= i < 4 ==> ascii_lower_char(#[trigger] role[i]) == "user"@[i]
}

fn lower_matches(c: char, e: char) -> (b: bool)
    requires
        'a' <= e <= 'z',
    ensures
        b == (ascii_lower_char(c) == e),
{
    c == e || (c as u32) + 32 == (e as u32)
}

fn role_is_user(role: &str) -> (b: bool)
    ensures
        b == is_user_role(role@),
{
    let chars = str_chars(role);
    let user = str_chars("user");
    proof {
        reveal_strlit("user");
        assert("user"@ =~= seq!['u', 's', 'e', 'r']);
    }
    if chars.len() != 4 {
        return false;
    }
    let mut i: usize = 0;
    while i < 4
        invariant
            i <= 4,
            chars@ == role@,
            chars@.len() == 4,
            user@ == "user"@,
            user@ == seq!['u', 's', 'e', 'r'],
            forall|k: int| 0 <= k < i ==> ascii_lower_char(#[trigger] role@[k]) == "user"@[k],
        decreases 4 - i,
    {
        if !lower_matches(chars[i], user[i]) {
            return false;
        }
        i = i + 1;
    }
    true
}

/// The text of the latest message of the user in a conversation, trimmed;
/// `你好` where the user said nothing.
pub open spec fn latest_user_message_of(messages: Seq<IncomingMessage>) -> Seq<char>
    decreases messages.len(),
{
    if messages.len() == 0 {
        "你好"@
    } else if is_user_role(messages.last().role@) {
        trim(messages.last().content@)
    } else {
        latest_user_message_of(messages.drop_last())
    }
}

/// The text of the latest message of the user in a conversation, trimmed;
/// `你好` where the user said nothing.
pub fn latest_user_message(messages: &Vec<IncomingMessage>) -> (r: String)
    ensures
        r@ == latest_user_message_of(messages@),
{
    let mut i: usize = messages.len();
    proof {
        assert(messages@.take(i as int) =~= messages@);
    }
    while i > 0
        invariant
            i <= messages@.len(),
            latest_user_message_of(messages@) == latest_user_message_of(messages@.take(i as int)),
        decreases i,
    {
        proof {
            assert(messages@.take(i as int).drop_last() =~= messages@.take(i - 1));
            assert(messages@.take(i as int).last() == messages@[i - 1]);
        }
        if role_is_user(messages[i - 1].role.as_str()) {
            let t = trim_chars(str_chars(messages[i - 1].content.as_str()).as_slice());
            return string_from_chars(t.as_slice());
        }
        i = i - 1;
    }
    proof {
        assert(messages@.take(0) =~= Seq::<IncomingMessage>::empty());
    }
    String::from_str("你好")
}

/// The session name of a streamed chat started at `now_secs`.
pub fn stream_session_id(now_secs: i64) -> (r: String)
    ensures
        r@ == "stream_session_"@ + signed_decimal(now_secs as int),
{
    let mut m: Vec<char> = Vec::new();
    push_str_chars(&mut m, "stream_session_");
    push_chars(&mut m, i64_decimal(now_secs).as_slice());
    string_from_chars(m.as_slice())
}

/// The id under which a started chat is answered: `chat_` and the stored
/// history id.
pub fn chat_reply_id(history_id: i64) -> (r: String)
    ensures
        r@ == "chat_"@ + signed_decimal(history_id as int),
{
    let mut m: Vec<char> = Vec::new();
    push_str_chars(&mut m, "chat_");
    push_chars(&mut m, i64_decimal(history_id).as_slice());
    string_from_chars(m.as_slice())
}

/// What an event sent to a streaming chat client carries: the assistant's
/// text, whether it was the last piece (where that is known), and an error.
#[derive(Debug, Clone)]
pub struct ChatEventPayload {
    pub content: String,
    pub finished: Option<bool>,
    pub error: Option<String>,
}

/// An event sent to a streaming chat client.
#[derive(Debug, Clone)]
pub enum SseEvent {
    /// A data event with a payload.
    Data(ChatEventPayload),
    /// The `complete` event that ends the stream.
    Complete,
}

/// `e` is a data event with the given content, finished flag and error.
pub open spec fn is_data_event(e: SseEvent, content: Seq<char>, finished: Option<bool>, error: Option<Seq<char>>) -> bool {
    e matches SseEvent::Data(p) && p.content@ == content && p.finished == finished && p.error.deep_view() == error
}

fn data_event(content: String, finished: Option<bool>, error: Option<String>) -> (e: SseEvent)
    ensures
        is_data_event(e, content@, finished, error.deep_view()),
{
    SseEvent::Data(ChatEventPayload { content, finished, error })
}

/// The events that answer a streamed chat whose messages are blank or whose
/// user is missing: an error data event, then `complete`.
pub open spec fn is_refusal_events(r: Seq<SseEvent>) -> bool {
    &&& r.len() == 2
    &&& is_data_event(
        r[0],
        "参数错误：messages 或 userId 不能为空。"@,
        None,
        Some("missing messages or userId"@),
    )
    &&& r[1] is Complete
}

/// The events that answer a refused streamed chat, as `is_refusal_events`
/// says.
pub fn stream_refusal_events() -> (r: Vec<SseEvent>)
    ensures
        is_refusal_events(r@),
{
    let mut r: Vec<SseEvent> = Vec::new();
    r.push(data_event(
        String::from_str("参数错误：messages 或 userId 不能为空。"),
        None,
        Some(String::from_str("missing messages or userId")),
    ));
    r.push(SseEvent::Complete);
    r
}

/// How a streamed chat begins.
pub enum StreamStart {
    /// The query is refused with these events, and the assistant is not
    /// asked.
    Refuse(Vec<SseEvent>),
    /// The assistant is asked for a reply to these messages, by this user,
    /// under this session name.
    Ask { session_id: String, messages: String, user_id: Option<i64> },
}

/// Begins a streamed chat at `now_secs`: a query that `stream_request_ok`
/// refuses is answered with the refusal events before the assistant is asked
/// anything; any other is put to the assistant under the session name of
/// `stream_session_id`.
pub fn stream_start_step(query: StreamChatQuery, now_secs: i64) -> (r: StreamStart)
    ensures
        !(trim(query.messages@).len() > 0 && query.user_id is Some) ==> (r matches StreamStart::Refuse(
            events,
        ) && is_refusal_events(events@)),
        trim(query.messages@).len() > 0 && query.user_id is Some ==> (r matches StreamStart::Ask {
            session_id,
            messages,
            user_id,
        } && session_id@ == "stream_session_"@ + signed_decimal(now_secs as int) && messages
            == query.messages && user_id == query.user_id),
{
    if !stream_request_ok(&query) {
        return StreamStart::Refuse(stream_refusal_events());
    }
    StreamStart::Ask {
        session_id: stream_session_id(now_secs),
        messages: query.messages,
        user_id: query.user_id,
    }
}

/// The events that answer a streamed chat the assistant could not start: an
/// apology with the error, then `complete`.
pub fn stream_start_failure_events(error: &str) -> (r: Vec<SseEvent>)
    ensures
        r@.len() == 2,
        is_data_event(r@[0], "很抱歉，AI服务当前不可用，请稍后重试。"@, None, Some(error@)),
        r@[1] is Complete,
{
    let mut r: Vec<SseEvent> = Vec::new();
    r.push(data_event(
        String::from_str("很抱歉，AI服务当前不可用，请稍后重试。"),
        None,
        Some(String::from_str(error)),
    ));
    r.push(SseEvent::Complete);
    r
}

/// The events for the next piece of a streamed reply, and whether the stream
/// ends with them: a piece is sent with its text and finished flag, and a
/// finished piece is followed by `complete`; an error is answered with an
/// apology carrying the error, then `complete`, and ends the stream.
pub fn stream_chunk_step(chunk: Result<AiChatChunk, String>) -> (r: (Vec<SseEvent>, bool))
    ensures
        match chunk {
            Ok(c) => {
                &&& r.1 == c.finished
                &&& r.0@.len() == (if c.finished { 2int } else { 1int })
                &&& is_data_event(r.0@[0], c.text@, Some(c.finished), None)
                &&& c.finished ==> r.0@[1] is Complete
            },
            Err(e) => {
                &&& r.1
                &&& r.0@.len() == 2
                &&& is_data_event(r.0@[0], "抱歉，处理您的请求时出现错误。"@, None, Some(e@))
                &&& r.0@[1] is Complete
            },
        },
{
    let mut events: Vec<SseEvent> = Vec::new();
    match chunk {
        Ok(c) => {
            let finished = c.finished;
            events.push(data_event(c.text, Some(finished), None));
            if finished {
                events.push(SseEvent::Complete);
            }
            (events, finished)
        },
        Err(e) => {
            events.push(data_event(String::from_str("抱歉，处理您的请求时出现错误。"), None, Some(e)));
            events.push(SseEvent::Complete);
            (events, true)
        },
    }
}

/// What the assistant's event bus delivered: an event, with its type, the
/// value of a custom payload (none for other payloads) and, where that value
/// is an array, its items; or a failure to receive.
pub enum BusReceipt<V> {
    Event { event_type: String, payload: Option<V>, items: Option<Vec<V>> },
    Failed,
}

/// What to do with what the bus delivered.
pub enum BusStep<V> {
    /// Decode this value as a reply piece.
    Decode(V),
    /// Ignore the event and wait for the next.
    Skip,
    /// End the stream.
    Stop,
}

/// What to do with what the bus delivered: a failure to receive ends the
/// stream; only custom events of type `ai.chat_stream` are read, and of
/// those a two-item array `[topic, piece]` gives its second item, any other
/// value itself.
pub fn bus_step<V>(receipt: BusReceipt<V>) -> (r: BusStep<V>)
    ensures
        match receipt {
            BusReceipt::Failed => r is Stop,
            BusReceipt::Event { event_type, payload, items } => if event_type@ != "ai.chat_stream"@
                || payload is None {
                r is Skip
            } else if items is Some && items->0@.len() == 2 {
                r == BusStep::Decode(items->0@[1])
            } else {
                r == BusStep::Decode(payload->0)
            },
        },
{
    match receipt {
        BusReceipt::Failed => BusStep::Stop,
        BusReceipt::Event { event_type, payload, items } => {
            if !str_eq(event_type.as_str(), "ai.chat_stream") {
                return BusStep::Skip;
            }
            let value = match payload {
                Some(v) => v,
                None => {
                    return BusStep::Skip;
                },
            };
            match items {
                Some(mut v) => {
                    if v.len() == 2 {
                        let second = v.pop().unwrap();
                        BusStep::Decode(second)
                    } else {
                        BusStep::Decode(value)
                    }
                },
                None => BusStep::Decode(value),
            }
        },
    }
}

/// What to do with a decoded piece.
pub enum PieceStep {
    /// Hand the piece on; `last` when the stream ends after it.
    Yield { chunk: AiChatChunk, last: bool },
    /// The value was not a reply piece: ignore it and wait for the next.
    Skip,
}

/// What to do with a value decoded as a reply piece: a piece is handed on,
/// and a finished one is the last; a value that is not a piece is skipped.
pub fn piece_step(decoded: Result<AiChatChunk, String>) -> (r: PieceStep)
    ensures
        match decoded {
            Ok(c) => r == PieceStep::Yield { chunk: c, last: c.finished },
            Err(_) => r is Skip,
        },
{
    match decoded {
        Ok(c) => {
            let last = c.finished;
            PieceStep::Yield { chunk: c, last }
        },
        Err(_) => PieceStep::Skip,
    }
}

} // verus!

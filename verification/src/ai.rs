//! Messages of a conversation and the chat turns that a prompt is made of.

use vstd::prelude::*;
use vstd::string::StringExecFns;
use crate::context::chronology::lemma_append_latest;
use crate::context::{LogView, MakaiContextChannel, chronological, last_n};
use crate::model::{CommandInteraction, Embed, EmbedView, PlatformMessage, PlatformMessageView};
use crate::time::{TimeKey, key_lt};
use crate::time::Timestamp;
use crate::utils::{display_name, user_to_name};

pub mod prompt;
pub mod response;

verus! {

/// Who wrote a message: the bot itself, or a user known by a display name.
#[derive(Debug, PartialEq, Eq)]
pub enum MessageSender {
    MakaiBot,
    User(String),
}

/// A sender as contracts see it.
pub enum SenderView {
    MakaiBot,
    User(Seq<char>),
}

impl View for MessageSender {
    type V = SenderView;

    open spec fn view(&self) -> SenderView {
        match self {
            MessageSender::MakaiBot => SenderView::MakaiBot,
            MessageSender::User(name) => SenderView::User(name@),
        }
    }
}

impl DeepView for MessageSender {
    type V = SenderView;

    open spec fn deep_view(&self) -> SenderView {
        self@
    }
}

impl Clone for MessageSender {
    fn clone(&self) -> (res: Self)
        ensures
            res == *self,
    {
        match self {
            MessageSender::MakaiBot => MessageSender::MakaiBot,
            MessageSender::User(name) => MessageSender::User(name.clone()),
        }
    }
}

/// One turn of a conversation.
#[derive(Debug, PartialEq, Eq)]
pub struct MakaiMessage {
    /// The platform's identifier of the message; `None` for a reply that the
    /// bot made up itself.
    pub message_id: Option<u64>,
    /// When the message was written: the one key by which a log orders it.
    pub timestamp: Timestamp,
    pub sender: MessageSender,
    pub content: String,
}

/// A message as contracts see it.
pub struct MessageView {
    pub message_id: Option<u64>,
    pub timestamp: Timestamp,
    pub sender: SenderView,
    pub content: Seq<char>,
}

impl View for MakaiMessage {
    type V = MessageView;

    open spec fn view(&self) -> MessageView {
        MessageView {
            message_id: self.message_id,
            timestamp: self.timestamp,
            sender: self.sender@,
            content: self.content@,
        }
    }
}

impl DeepView for MakaiMessage {
    type V = MessageView;

    open spec fn deep_view(&self) -> MessageView {
        self@
    }
}

impl Clone for MakaiMessage {
    fn clone(&self) -> (res: Self)
        ensures
            res == *self,
    {
        MakaiMessage {
            message_id: self.message_id,
            timestamp: self.timestamp,
            sender: self.sender.clone(),
            content: self.content.clone(),
        }
    }
}

/// Which side of the dialogue a chat turn is on.
#[derive(Clone, Copy, Debug, PartialEq, Eq, Structural)]
pub enum ChatRole {
    User,
    Assistant,
}

/// One turn of a prompt: a role and the text spoken in it.
#[derive(Debug, PartialEq, Eq)]
pub struct ChatMessage {
    pub role: ChatRole,
    pub content: String,
}

/// A chat turn as contracts see it.
pub struct ChatMessageView {
    pub role: ChatRole,
    pub content: Seq<char>,
}

impl View for ChatMessage {
    type V = ChatMessageView;

    open spec fn view(&self) -> ChatMessageView {
        ChatMessageView { role: self.role, content: self.content@ }
    }
}

impl DeepView for ChatMessage {
    type V = ChatMessageView;

    open spec fn deep_view(&self) -> ChatMessageView {
        self@
    }
}

impl ChatMessage {
    /// A turn spoken by a user.
    pub fn user(content: String) -> (res: Self)
        ensures
            res@ == (ChatMessageView { role: ChatRole::User, content: content@ }),
    {
        ChatMessage { role: ChatRole::User, content }
    }

    /// A turn spoken by the model.
    pub fn assistant(content: String) -> (res: Self)
        ensures
            res@ == (ChatMessageView { role: ChatRole::Assistant, content: content@ }),
    {
        ChatMessage { role: ChatRole::Assistant, content }
    }
}

/// The chat turn that stands for a message in a prompt: the bot's own words
/// become an assistant turn, a user's words a user turn that names the user.
pub open spec fn chat_turn(m: MessageView) -> ChatMessageView {
    match m.sender {
        SenderView::MakaiBot => ChatMessageView {
            role: ChatRole::Assistant,
            content: "You (MakAI) said: "@ + m.content,
        },
        SenderView::User(name) => ChatMessageView {
            role: ChatRole::User,
            content: "User `"@ + name + "` said: "@ + m.content,
        },
    }
}

/// The text of an optional field of an embed, or `Unknown` where it has none.
pub open spec fn or_unknown(field: Option<Seq<char>>) -> Seq<char> {
    match field {
        Some(text) => text,
        None => "Unknown"@,
    }
}

/// The line that tells the model of one link in a quoted message.
pub open spec fn embed_note(embed: EmbedView) -> Seq<char> {
    "\nThe user's message included a link: Title: `"@ + or_unknown(embed.title)
        + "`, Description: `"@ + or_unknown(embed.description) + "`"@
}

/// The lines for all links of a quoted message, in their order.
pub open spec fn embed_notes(embeds: Seq<EmbedView>) -> Seq<char>
    decreases embeds.len(),
{
    if embeds.len() == 0 {
        Seq::empty()
    } else {
        embed_notes(embeds.drop_last()) + embed_note(embeds.last())
    }
}

/// The message that a log keeps of a posted message: the bot's own where the
/// author is the bot, else the author's by display name; the text followed by
/// one line for each link.
pub open spec fn quoted_message(bot_id: u64, posted: PlatformMessageView) -> MessageView {
    MessageView {
        message_id: Some(posted.id),
        timestamp: posted.timestamp,
        sender: if bot_id == posted.author.id {
            SenderView::MakaiBot
        } else {
            SenderView::User(display_name(posted.author))
        },
        content: posted.content + embed_notes(posted.embeds),
    }
}

fn or_unknown_text(field: &Option<String>) -> (text: &str)
    ensures
        text@ == or_unknown(
            match *field {
                Some(t) => Some(t@),
                None => None,
            },
        ),
{
    match field {
        Some(text) => text.as_str(),
        None => "Unknown",
    }
}

fn push_embed_note(content: &mut String, embed: &Embed)
    ensures
        final(content)@ == old(content)@ + embed_note(embed@),
{
    content.append("\nThe user's message included a link: Title: `");
    content.append(or_unknown_text(&embed.title));
    content.append("`, Description: `");
    content.append(or_unknown_text(&embed.description));
    content.append("`");
    assert(content@ =~= old(content)@ + embed_note(embed@));
}

impl MakaiMessage {
    /// The message that a log keeps of a message posted on the platform.
    pub fn from_platform_message(bot_id: u64, posted: &PlatformMessage) -> (res: Self)
        ensures
            res@ == quoted_message(bot_id, posted@),
    {
        let sender = if bot_id == posted.author.id {
            MessageSender::MakaiBot
        } else {
            MessageSender::User(String::from_str(user_to_name(&posted.author)))
        };
        let mut content = posted.content.clone();
        let mut i: usize = 0;
        assert(posted.embeds.deep_view().take(0) =~= Seq::<EmbedView>::empty());
        while i < posted.embeds.len()
            invariant
                i <= posted.embeds.len(),
                content@ == posted.content@ + embed_notes(posted.embeds.deep_view().take(i as int)),
            decreases posted.embeds.len() - i,
        {
            push_embed_note(&mut content, &posted.embeds[i]);
            proof {
                let views = posted.embeds.deep_view();
                assert(views.take(i + 1).drop_last() =~= views.take(i as int));
                assert(views.take(i + 1).last() == posted.embeds[i as int]@);
                assert(content@ =~= posted.content@ + embed_notes(views.take(i + 1)));
            }
            i = i + 1;
        }
        assert(posted.embeds.deep_view().take(i as int) =~= posted.embeds.deep_view());
        MakaiMessage { message_id: Some(posted.id), timestamp: posted.timestamp, sender, content }
    }

    /// The message that a command on a message points at, as a log keeps it:
    /// the first of the messages that came with the invocation. `None` where
    /// none came.
    pub fn from_message_command(bot_id: u64, interaction: &CommandInteraction) -> (res: Option<
        Self,
    >)
        ensures
            interaction.messages.len() == 0 ==> res is None,
            interaction.messages.len() > 0 ==> res is Some && res->0@ == quoted_message(
                bot_id,
                interaction.messages[0]@,
            ),
    {
        if interaction.messages.len() > 0 {
            Some(Self::from_platform_message(bot_id, &interaction.messages[0]))
        } else {
            None
        }
    }

    /// The bot's own message of the instant `now`, with `content` as its text.
    pub open spec fn spec_reply(content: Seq<char>, now: Timestamp) -> MessageView {
        MessageView { message_id: None, timestamp: now, sender: SenderView::MakaiBot, content }
    }

    /// A message that the bot wrote at the instant `now`.
    pub fn reply_at(content: String, now: Timestamp) -> (res: Self)
        ensures
            res@ == Self::spec_reply(content@, now),
    {
        MakaiMessage { message_id: None, timestamp: now, sender: MessageSender::MakaiBot, content }
    }

    /// A message that the bot writes now: no platform identifier, the bot as
    /// sender, and the clock's reading as its instant, whatever that is.
    pub fn from_assistant_response(content: String) -> (res: Self)
        ensures
            res@ == Self::spec_reply(content@, res.timestamp),
            res.timestamp.in_range(),
    {
        let now = Timestamp::now();
        Self::reply_at(content, now)
    }

    /// The chat turn that stands for this message in a prompt.
    pub fn to_chat_message(&self) -> (res: ChatMessage)
        ensures
            res@ == chat_turn(self@),
    {
        match &self.sender {
            MessageSender::MakaiBot => {
                let mut text = String::from_str("You (MakAI) said: ");
                text.append(self.content.as_str());
                ChatMessage::assistant(text)
            },
            MessageSender::User(sender) => {
                let mut text = String::from_str("User `");
                text.append(sender.as_str());
                text.append("` said: ");
                text.append(self.content.as_str());
                ChatMessage::user(text)
            },
        }
    }
}

/// How many of the most recent messages of a log go into a prompt.
pub const HISTORY_LIMIT: usize = 20;

/// The turns of the prompt for `message` in a channel with the log `log`: the
/// most recent messages of the log from the oldest to the newest, then the
/// new message as the last turn. The system instruction is no turn: it goes
/// to the model beside them.
pub open spec fn prompt_turns(log: LogView, message: MessageView) -> Seq<ChatMessageView> {
    last_n(chronological(log), HISTORY_LIMIT as nat).map_values(|m: MessageView| chat_turn(m)).push(
        chat_turn(message),
    )
}

/// The turns of the prompt for `message` in the channel of `ctx`.
pub fn prompt_messages(ctx: &MakaiContextChannel, message: &MakaiMessage) -> (res: Vec<ChatMessage>)
    ensures
        res.deep_view() == prompt_turns(ctx@, message@),
{
    let mut messages = ctx.chat_messages(HISTORY_LIMIT);
    let ghost recent = messages.deep_view();
    messages.push(message.to_chat_message());
    assert(messages.deep_view() =~= prompt_turns(ctx@, message@)) by {
        assert forall|i: int| 0 <= i < recent.len() implies messages.deep_view()[i]
            == recent[i] by {
            assert(messages.deep_view()[i] == messages[i]@);
        }
    }
    messages
}

/// How many tokens an answer of the model took.
#[derive(Clone, Copy, Debug, PartialEq, Eq, Structural)]
pub struct Usage {
    pub prompt_tokens: u32,
    pub completion_tokens: u32,
    pub total_tokens: u32,
}

/// What came back from the model when the call went well.
#[derive(Debug, PartialEq, Eq)]
pub struct LlmReply {
    /// The text of the answer, where the model gave one.
    pub text: Option<String>,
    pub usage: Option<Usage>,
}

/// Why an exchange with the model came to nothing.
#[derive(Debug, PartialEq, Eq)]
pub enum LlmError {
    /// The call itself failed; the words are those of whoever made it.
    Call(String),
    /// The call came back, but without the text that an answer must have.
    MissingText,
}

/// The bot's answer to one message, ready to be sent to the channel.
#[derive(Debug, PartialEq, Eq)]
pub struct LlmResponse {
    pub response: String,
    pub usage: Option<Usage>,
}

/// The log after an exchange: the incoming message filed first, then the
/// bot's answer of the instant `now`.
pub open spec fn log_after_exchange(
    log: LogView,
    message: MessageView,
    text: Seq<char>,
    now: Timestamp,
) -> LogView {
    log.insert(message.timestamp.key(), message).insert(
        now.key(),
        MakaiMessage::spec_reply(text, now),
    )
}

/// Files an exchange in the log of its channel: the incoming message, then
/// the bot's answer `text`, written at the instant `now`.
pub fn record_exchange(
    ctx: &mut MakaiContextChannel,
    message: MakaiMessage,
    text: String,
    now: Timestamp,
)
    ensures
        final(ctx)@ == log_after_exchange(old(ctx)@, message@, text@, now),
{
    ctx.add_message(message);
    ctx.add_message(MakaiMessage::reply_at(text, now));
}

/// Ends an exchange with the model, given what the call brought.
///
/// Where the call brought an answer with a text, the incoming message and
/// the bot's answer are filed in the log, the answer under the instant that
/// the clock shows, and the answer is handed back with its token count. An
/// answer without a text is no answer: it counts as a failed call. Where the
/// call failed, the log stays as it was and the failure is handed back.
pub fn run_llm(
    ctx: &mut MakaiContextChannel,
    message: MakaiMessage,
    outcome: Result<LlmReply, LlmError>,
) -> (res: Result<LlmResponse, LlmError>)
    ensures
        match outcome {
            Ok(reply) => match reply.text {
                Some(text) => {
                    &&& res matches Ok(response)
                    &&& response.response@ == text@
                    &&& response.usage == reply.usage
                    &&& exists|now: Timestamp|
                        now.in_range() && final(ctx)@ == #[trigger] log_after_exchange(
                            old(ctx)@,
                            message@,
                            text@,
                            now,
                        )
                },
                None => res == Err::<LlmResponse, LlmError>(LlmError::MissingText) && final(ctx)@
                    == old(ctx)@,
            },
            Err(error) => res == Err::<LlmResponse, LlmError>(error) && final(ctx)@ == old(ctx)@,
        },
{
    match outcome {
        Ok(reply) => match reply.text {
            Some(text) => {
                let now = Timestamp::now();
                record_exchange(ctx, message, text.clone(), now);
                assert(ctx@ == log_after_exchange(old(ctx)@, message@, text@, now));
                Ok(LlmResponse { response: text, usage: reply.usage })
            },
            None => Err(LlmError::MissingText),
        },
        Err(error) => Err(error),
    }
}

/// An exchange whose incoming message is later than all that the log holds,
/// and whose answer is later still, adds these two messages to the end of the
/// history, in this order, and changes nothing before them.
pub proof fn lemma_exchange_appends_two(
    log: LogView,
    message: MessageView,
    text: Seq<char>,
    now: Timestamp,
)
    requires
        log.dom().finite(),
        forall|k: TimeKey| #[trigger] log.contains_key(k) ==> key_lt(k, message.timestamp.key()),
        message.timestamp.is_before(now),
    ensures
        chronological(log_after_exchange(log, message, text, now)) == chronological(log).push(
            message,
        ).push(MakaiMessage::spec_reply(text, now)),
{
    let middle = log.insert(message.timestamp.key(), message);
    lemma_append_latest(log, message);
    lemma_append_latest(middle, MakaiMessage::spec_reply(text, now));
}

} // verus!

//! Plain values for what the chat platform hands over: users, messages and
//! the invocation of a command.

use vstd::prelude::*;
use crate::time::Timestamp;

verus! {

/// A user of the platform, the bot itself included.
#[derive(Debug, PartialEq, Eq)]
pub struct User {
    pub id: u64,
    /// The account name.
    pub name: String,
    /// The name that the user chose to be shown, if any.
    pub global_name: Option<String>,
}

/// A user as contracts see it.
pub struct UserView {
    pub id: u64,
    pub name: Seq<char>,
    pub global_name: Option<Seq<char>>,
}

impl View for User {
    type V = UserView;

    open spec fn view(&self) -> UserView {
        UserView {
            id: self.id,
            name: self.name@,
            global_name: match self.global_name {
                Some(n) => Some(n@),
                None => None,
            },
        }
    }
}

impl DeepView for User {
    type V = UserView;

    open spec fn deep_view(&self) -> UserView {
        self@
    }
}

impl Clone for User {
    fn clone(&self) -> (res: Self)
        ensures
            res == *self,
    {
        User {
            id: self.id,
            name: self.name.clone(),
            global_name: match &self.global_name {
                Some(n) => Some(n.clone()),
                None => None,
            },
        }
    }
}

/// What the platform shows of a link that a message holds.
#[derive(Debug, PartialEq, Eq)]
pub struct Embed {
    pub title: Option<String>,
    pub description: Option<String>,
}

/// An embed as contracts see it.
pub struct EmbedView {
    pub title: Option<Seq<char>>,
    pub description: Option<Seq<char>>,
}

impl View for Embed {
    type V = EmbedView;

    open spec fn view(&self) -> EmbedView {
        EmbedView {
            title: match self.title {
                Some(t) => Some(t@),
                None => None,
            },
            description: match self.description {
                Some(d) => Some(d@),
                None => None,
            },
        }
    }
}

impl DeepView for Embed {
    type V = EmbedView;

    open spec fn deep_view(&self) -> EmbedView {
        self@
    }
}

/// A message as it was posted on the platform.
#[derive(Debug, PartialEq, Eq)]
pub struct PlatformMessage {
    pub id: u64,
    pub author: User,
    pub timestamp: Timestamp,
    pub content: String,
    pub embeds: Vec<Embed>,
}

/// A posted message as contracts see it.
pub struct PlatformMessageView {
    pub id: u64,
    pub author: UserView,
    pub timestamp: Timestamp,
    pub content: Seq<char>,
    pub embeds: Seq<EmbedView>,
}

impl View for PlatformMessage {
    type V = PlatformMessageView;

    open spec fn view(&self) -> PlatformMessageView {
        PlatformMessageView {
            id: self.id,
            author: self.author@,
            timestamp: self.timestamp,
            content: self.content@,
            embeds: self.embeds.deep_view(),
        }
    }
}

impl DeepView for PlatformMessage {
    type V = PlatformMessageView;

    open spec fn deep_view(&self) -> PlatformMessageView {
        self@
    }
}

/// The value that the invoking user gave to an option of a command.
#[derive(Debug, PartialEq, Eq)]
pub enum OptionValue {
    String(String),
    /// A value of any other kind; no command here reads one.
    Other,
}

/// An option value as contracts see it.
pub enum OptionValueView {
    String(Seq<char>),
    Other,
}

impl View for OptionValue {
    type V = OptionValueView;

    open spec fn view(&self) -> OptionValueView {
        match self {
            OptionValue::String(text) => OptionValueView::String(text@),
            OptionValue::Other => OptionValueView::Other,
        }
    }
}

/// An option of an invoked command, by name.
#[derive(Debug, PartialEq, Eq)]
pub struct CommandOption {
    pub name: String,
    pub value: OptionValue,
}

/// An option as contracts see it.
pub struct CommandOptionView {
    pub name: Seq<char>,
    pub value: OptionValueView,
}

impl View for CommandOption {
    type V = CommandOptionView;

    open spec fn view(&self) -> CommandOptionView {
        CommandOptionView { name: self.name@, value: self.value@ }
    }
}

impl DeepView for CommandOption {
    type V = CommandOptionView;

    open spec fn deep_view(&self) -> CommandOptionView {
        self@
    }
}

/// The invocation of a command, as far as the commands read it.
#[derive(Debug, PartialEq, Eq)]
pub struct CommandInteraction {
    /// The name of the invoked command.
    pub name: String,
    /// The channel in which it was invoked.
    pub channel_id: u64,
    /// Who invoked it.
    pub user: User,
    /// The options given, in the order given.
    pub options: Vec<CommandOption>,
    /// The messages that the invocation points at; a command on a message
    /// comes with one.
    pub messages: Vec<PlatformMessage>,
}

/// An invocation as contracts see it.
pub struct CommandInteractionView {
    pub name: Seq<char>,
    pub channel_id: u64,
    pub user: UserView,
    pub options: Seq<CommandOptionView>,
    pub messages: Seq<PlatformMessageView>,
}

impl View for CommandInteraction {
    type V = CommandInteractionView;

    open spec fn view(&self) -> CommandInteractionView {
        CommandInteractionView {
            name: self.name@,
            channel_id: self.channel_id,
            user: self.user@,
            options: self.options.deep_view(),
            messages: self.messages.deep_view(),
        }
    }
}

} // verus!

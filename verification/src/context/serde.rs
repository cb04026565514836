//! The plain image of the registry that is written to the state file and
//! read back from it.

use vstd::prelude::*;
use std::collections::BTreeMap;
use std::collections::HashMap;
use crate::ai::MakaiMessage;
use crate::context::{ContextView, LogView};
use crate::model::User;
use crate::time::TimeKey;

verus! {

/// The image of one channel's log: each message under the key it is filed by.
#[derive(Clone, Debug, PartialEq, Eq)]
pub struct MakaiContextChannelSerde {
    pub messages: BTreeMap<TimeKey, MakaiMessage>,
}

impl View for MakaiContextChannelSerde {
    type V = LogView;

    open spec fn view(&self) -> LogView {
        self.messages@.map_values(|m: MakaiMessage| m@)
    }
}

/// The views of the logs that an image of the registry holds.
pub open spec fn image_views(channels: Map<u64, MakaiContextChannelSerde>) -> Map<u64, LogView> {
    channels.map_values(|c: MakaiContextChannelSerde| c@)
}

/// The image of the whole registry.
#[derive(Clone, Debug, PartialEq, Eq)]
pub struct MakaiContextSerde {
    pub channels: HashMap<u64, MakaiContextChannelSerde>,
    pub bot_user: Option<User>,
}

impl View for MakaiContextSerde {
    type V = ContextView;

    open spec fn view(&self) -> ContextView {
        ContextView {
            channels: image_views(self.channels@),
            bot_user: match self.bot_user {
                Some(u) => Some(u@),
                None => None,
            },
        }
    }
}

} // verus!

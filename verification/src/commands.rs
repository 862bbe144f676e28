//! Commands the coordinator asks its surroundings to carry out.
//!
//! The coordinator itself performs no bus traffic and no drawing: every
//! externally visible effect it wants is returned as a [`Command`] value, in
//! the order the effects must happen.

use vstd::prelude::*;

verus! {

/// One instruction to the bus client or the display renderer.
pub enum Command {
    /// Subscribe to the named channel.
    Subscribe(String),
    /// Unsubscribe from the named channel.
    Unsubscribe(String),
    /// Publish `payload` on `topic`; `retained` asks the broker to keep the
    /// value for late subscribers.
    Publish { topic: String, payload: String, retained: bool },
    /// Redraw the screen with the finalized triple.
    Render { bench: String, software: String, description: String },
}

/// Mathematical image of a [`Command`], over character sequences.
pub enum CommandModel {
    Subscribe(Seq<char>),
    Unsubscribe(Seq<char>),
    Publish { topic: Seq<char>, payload: Seq<char>, retained: bool },
    Render { bench: Seq<char>, software: Seq<char>, description: Seq<char> },
}

impl View for Command {
    type V = CommandModel;

    open spec fn view(&self) -> CommandModel {
        match self {
            Command::Subscribe(t) => CommandModel::Subscribe(t@),
            Command::Unsubscribe(t) => CommandModel::Unsubscribe(t@),
            Command::Publish { topic, payload, retained } => CommandModel::Publish {
                topic: topic@,
                payload: payload@,
                retained: *retained,
            },
            Command::Render { bench, software, description } => CommandModel::Render {
                bench: bench@,
                software: software@,
                description: description@,
            },
        }
    }
}

impl DeepView for Command {
    type V = CommandModel;

    open spec fn deep_view(&self) -> CommandModel {
        self.view()
    }
}

} // verus!

//! The unit of work that travels from the decoder to the audio processor.

use vstd::prelude::*;

verus! {

/// One decoded event of the feed.
#[derive(Clone, Debug, PartialEq, Eq)]
pub enum Command {
    /// Fetch the clip at this address and play it.
    PlayAudio(String),
    /// The player's status changed to this token.
    SetStatus(String),
}

/// A `Command` as mathematical values.
pub enum CommandView {
    PlayAudio(Seq<char>),
    SetStatus(Seq<char>),
}

impl View for Command {
    type V = CommandView;

    open spec fn view(&self) -> CommandView {
        match self {
            Command::PlayAudio(url) => CommandView::PlayAudio(url@),
            Command::SetStatus(token) => CommandView::SetStatus(token@),
        }
    }
}

impl DeepView for Command {
    type V = CommandView;

    open spec fn deep_view(&self) -> CommandView {
        self@
    }
}

} // verus!

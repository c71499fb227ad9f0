//! The commands that a sound handle issues to its playback sink.

use vstd::prelude::*;

verus! {

/// One instruction for the playback sink.
///
/// A volume level travels as the IEEE 754 single-precision bit pattern of the
/// level, so that the handle stores and forwards it without computing on it.
#[derive(Debug, PartialEq, Eq)]
pub enum SinkCommand {
    /// Open and decode the file at this path, and append it to the queue.
    Append(String),
    /// Set the output volume to the level with this bit pattern.
    SetVolume(u32),
    /// Resume playback.
    Play,
    /// Stop playback.
    Stop,
    /// Remove everything that is queued. The sink is left paused.
    Clear,
}

/// The mathematical value of a `SinkCommand`: a path is a sequence of characters.
pub enum CommandView {
    Append(Seq<char>),
    SetVolume(u32),
    Play,
    Stop,
    Clear,
}

impl View for SinkCommand {
    type V = CommandView;

    open spec fn view(&self) -> CommandView {
        match self {
            SinkCommand::Append(path) => CommandView::Append(path@),
            SinkCommand::SetVolume(level) => CommandView::SetVolume(*level),
            SinkCommand::Play => CommandView::Play,
            SinkCommand::Stop => CommandView::Stop,
            SinkCommand::Clear => CommandView::Clear,
        }
    }
}

impl DeepView for SinkCommand {
    type V = CommandView;

    open spec fn deep_view(&self) -> CommandView {
        self@
    }
}

} // verus!

//! The handle as a mathematical value, and what each operation does to it.

use vstd::prelude::*;
use crate::command::CommandView;

verus! {

/// The state of a sound handle.
pub struct SoundView {
    /// Path of the file that plays.
    pub source: Seq<char>,
    /// Bit pattern of the volume that loading applies.
    pub volume: u32,
    /// Whether the source has been queued since it was last set.
    pub loaded: bool,
    /// Whether the queue held anything when it was last polled.
    pub playing: bool,
    /// Whether the source is queued again when the queue runs low.
    pub looping: bool,
}

/// A queue that has drained to a single sound is topped up while looping.
pub open spec fn requeue_is_due(queue_len: nat, looping: bool) -> bool {
    queue_len == 1 && looping
}

impl SoundView {
    /// A handle as it is constructed: nothing loaded, nothing playing, looping.
    pub open spec fn fresh(source: Seq<char>, volume: u32) -> SoundView {
        SoundView { source, volume, loaded: false, playing: false, looping: true }
    }

    /// Queue the source once, then apply the stored volume.
    pub open spec fn queue_source(self) -> Seq<CommandView> {
        seq![CommandView::Append(self.source), CommandView::SetVolume(self.volume)]
    }

    /// Loading queues the source unless that has been done already.
    pub open spec fn load_commands(self) -> Seq<CommandView> {
        if self.loaded {
            Seq::empty()
        } else {
            self.queue_source()
        }
    }

    /// Loading, playing and reloading all leave the handle loaded, and change
    /// nothing else.
    pub open spec fn after_load(self) -> SoundView {
        SoundView { loaded: true, ..self }
    }

    /// Whether the sink may hold a sound of this handle: the source has been
    /// queued, or the queue was not empty when it was last polled.
    pub open spec fn may_have_queued(self) -> bool {
        self.loaded || self.playing
    }

    /// A handle that may have queued a sound stops the sink and empties its
    /// queue; one that has queued nothing leaves the sink alone.
    pub open spec fn clear_commands(self) -> Seq<CommandView> {
        if self.may_have_queued() {
            seq![CommandView::Stop, CommandView::Clear]
        } else {
            Seq::empty()
        }
    }

    /// Playing loads first and then resumes the sink.
    pub open spec fn play_commands(self) -> Seq<CommandView> {
        self.load_commands().push(CommandView::Play)
    }

    /// Reloading clears what is queued and queues the source afresh.
    pub open spec fn reload_commands(self) -> Seq<CommandView> {
        self.clear_commands() + self.queue_source()
    }

    /// The same handle with another file to play.
    pub open spec fn with_source(self, source: Seq<char>) -> SoundView {
        SoundView { source, ..self }
    }

    /// Changing the source clears what is queued and queues the new source.
    pub open spec fn set_source_commands(self, source: Seq<char>) -> Seq<CommandView> {
        self.clear_commands() + self.with_source(source).queue_source()
    }

    /// Changing the source leaves the handle loaded with the new source.
    pub open spec fn after_set_source(self, source: Seq<char>) -> SoundView {
        self.with_source(source).after_load()
    }

    /// Polling appends one more copy of the source when a requeue is due.
    pub open spec fn update_commands(self, queue_len: nat) -> Seq<CommandView> {
        if requeue_is_due(queue_len, self.looping) {
            seq![CommandView::Append(self.source)]
        } else {
            Seq::empty()
        }
    }

    /// Polling records whether the queue held anything.
    pub open spec fn after_update(self, queue_len: nat) -> SoundView {
        SoundView { playing: queue_len != 0, ..self }
    }
}

} // verus!

//! The executable sound handle.

use vstd::prelude::*;
use crate::command::{CommandView, SinkCommand};
use crate::model::{requeue_is_due, SoundView};

verus! {

/// Decides whether a polled queue length calls for another copy of the source.
pub fn requeue_due(queue_len: usize, looping: bool) -> (due: bool)
    ensures
        due == requeue_is_due(queue_len as nat, looping),
{
    queue_len == 1 && looping
}

/// A looping sound: the file that plays, its volume, and the progress flags.
pub struct Sound {
    source: String,
    volume: u32,
    loaded: bool,
    is_playing: bool,
    loop_sound: bool,
}

impl View for Sound {
    type V = SoundView;

    closed spec fn view(&self) -> SoundView {
        SoundView {
            source: self.source@,
            volume: self.volume,
            loaded: self.loaded,
            playing: self.is_playing,
            looping: self.loop_sound,
        }
    }
}

impl Sound {
    /// Makes a handle for the file at `source`, to be played at the volume with
    /// bit pattern `volume`. Nothing is queued until the handle is loaded.
    pub fn new(source: &String, volume: u32) -> (sound: Sound)
        ensures
            sound@ == SoundView::fresh(source@, volume),
    {
        Sound {
            source: source.clone(),
            volume,
            loaded: false,
            is_playing: false,
            loop_sound: true,
        }
    }

    /// Queues the source and applies the stored volume, once: a handle that is
    /// loaded already issues nothing and stays as it is.
    pub fn load(&mut self) -> (commands: Vec<SinkCommand>)
        ensures
            commands.deep_view() == old(self)@.load_commands(),
            final(self)@ == old(self)@.after_load(),
    {
        let mut commands: Vec<SinkCommand> = Vec::new();
        if !self.loaded {
            commands.push(self.add_to_queue(&self.source));
            commands.push(self.set_volume(self.volume));
            self.loaded = true;
        }
        assert(commands.deep_view() =~= old(self)@.load_commands());
        commands
    }

    /// Replaces the source. Whatever the handle may have queued is cleared
    /// first, and the new source is queued, so that it alone is left in the
    /// queue. Clearing pauses the sink: `play` resumes it.
    pub fn set_source(&mut self, source: &String) -> (commands: Vec<SinkCommand>)
        ensures
            commands.deep_view() == old(self)@.set_source_commands(source@),
            final(self)@ == old(self)@.after_set_source(source@),
    {
        let mut commands = self.clear_if_playing();
        self.source = source.clone();
        self.loaded = false;
        let mut queued = self.load();
        commands.append(&mut queued);
        assert(commands.deep_view() =~= old(self)@.set_source_commands(source@));
        commands
    }

    /// Queues the source afresh. Whatever the handle may have queued is cleared
    /// first, so that one fresh copy is left in the queue. Clearing pauses the
    /// sink: `play` resumes it.
    pub fn reload(&mut self) -> (commands: Vec<SinkCommand>)
        ensures
            commands.deep_view() == old(self)@.reload_commands(),
            final(self)@ == old(self)@.after_load(),
    {
        let mut commands = self.clear_if_playing();
        self.loaded = false;
        let mut queued = self.load();
        commands.append(&mut queued);
        assert(commands.deep_view() =~= old(self)@.reload_commands());
        commands
    }

    /// Loads the handle if need be, then resumes the sink.
    pub fn play(&mut self) -> (commands: Vec<SinkCommand>)
        ensures
            commands.deep_view() == old(self)@.play_commands(),
            final(self)@ == old(self)@.after_load(),
    {
        let mut commands = self.load();
        commands.push(SinkCommand::Play);
        assert(commands.deep_view() =~= old(self)@.play_commands());
        commands
    }

    /// The command that decodes the file at `source` and appends it to the queue.
    pub fn add_to_queue(&self, source: &String) -> (command: SinkCommand)
        ensures
            command@ == CommandView::Append(source@),
    {
        SinkCommand::Append(source.clone())
    }

    /// Takes in the queue length that the sink reports. The handle counts as
    /// playing exactly when the queue is not empty, and asks for one more copy
    /// of the source when a requeue is due.
    pub fn update(&mut self, queue_len: usize) -> (commands: Vec<SinkCommand>)
        ensures
            commands.deep_view() == old(self)@.update_commands(queue_len as nat),
            final(self)@ == old(self)@.after_update(queue_len as nat),
    {
        let mut commands: Vec<SinkCommand> = Vec::new();
        self.is_playing = queue_len != 0;
        if requeue_due(queue_len, self.loop_sound) {
            commands.push(self.add_to_queue(&self.source));
        }
        assert(commands.deep_view() =~= old(self)@.update_commands(queue_len as nat));
        commands
    }

    /// Whether the queue held anything at the last `update`.
    pub fn is_playing(&self) -> (playing: bool)
        ensures
            playing == self@.playing,
    {
        self.is_playing
    }

    /// Whether the source has been queued since it was last set.
    pub fn is_loaded(&self) -> (loaded: bool)
        ensures
            loaded == self@.loaded,
    {
        self.loaded
    }

    /// Whether the source is queued again when the queue runs low.
    pub fn is_looping(&self) -> (looping: bool)
        ensures
            looping == self@.looping,
    {
        self.loop_sound
    }

    /// The path of the file that plays.
    pub fn source(&self) -> (source: &String)
        ensures
            source@ == self@.source,
    {
        &self.source
    }

    /// The bit pattern of the volume that loading applies.
    pub fn volume(&self) -> (volume: u32)
        ensures
            volume == self@.volume,
    {
        self.volume
    }

    /// The command that stops the sink.
    pub fn stop(&self) -> (command: SinkCommand)
        ensures
            command@ == CommandView::Stop,
    {
        SinkCommand::Stop
    }

    /// The command that sets the sink's volume to the level with bit pattern
    /// `volume`. The volume that loading applies stays what it was.
    pub fn set_volume(&self, volume: u32) -> (command: SinkCommand)
        ensures
            command@ == CommandView::SetVolume(volume),
    {
        SinkCommand::SetVolume(volume)
    }

    /// Stops and clears the sink if a sound of this handle may be playing: the
    /// handle is loaded, or the queue was not empty at the last `update`.
    fn clear_if_playing(&self) -> (commands: Vec<SinkCommand>)
        ensures
            commands.deep_view() == self@.clear_commands(),
    {
        let mut commands: Vec<SinkCommand> = Vec::new();
        if self.loaded || self.is_playing() {
            commands.push(self.stop());
            commands.push(SinkCommand::Clear);
        }
        assert(commands.deep_view() =~= self@.clear_commands());
        commands
    }
}

} // verus!

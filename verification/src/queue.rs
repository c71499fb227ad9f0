//! The sink's queue as the handle's commands shape it, and the bounds that the
//! handle keeps on it.
//!
//! A queue is written as the paths of the sounds in it, oldest first.

use vstd::prelude::*;
use crate::command::CommandView;
use crate::model::SoundView;

verus! {

/// The queue once the sink has carried out `command` on `queue`: an append
/// adds the sound at the end, stopping and clearing empty the queue, and the
/// volume and resuming leave it alone.
pub open spec fn queue_after(command: CommandView, queue: Seq<Seq<char>>) -> Seq<Seq<char>> {
    match command {
        CommandView::Append(path) => queue.push(path),
        CommandView::Stop => Seq::empty(),
        CommandView::Clear => Seq::empty(),
        CommandView::SetVolume(_) => queue,
        CommandView::Play => queue,
    }
}

/// The queue once the sink has carried out `commands` in order.
pub open spec fn queue_after_all(commands: Seq<CommandView>, queue: Seq<Seq<char>>) -> Seq<
    Seq<char>,
>
    decreases commands.len(),
{
    if commands.len() == 0 {
        queue
    } else {
        queue_after(commands.last(), queue_after_all(commands.drop_last(), queue))
    }
}

/// The queues that go with a handle: the queue is empty, holds the one sound
/// that is about to loop, or holds that sound and its next copy; every sound
/// in it is the handle's source; and an unloaded handle has queued nothing.
pub open spec fn queue_fits(sound: SoundView, queue: Seq<Seq<char>>) -> bool {
    &&& queue.len() <= 2
    &&& !sound.loaded ==> queue.len() == 0
    &&& forall|i: int| 0 <= i < queue.len() ==> queue[i] == sound.source
}

/// Carrying out one more command continues from where the earlier ones ended.
pub proof fn lemma_queue_push(commands: Seq<CommandView>, command: CommandView, queue: Seq<Seq<char>>)
    ensures
        queue_after_all(commands.push(command), queue) == queue_after(
            command,
            queue_after_all(commands, queue),
        ),
{
    assert(commands.push(command).drop_last() =~= commands);
}

/// Carrying out two lists of commands one after the other.
pub proof fn lemma_queue_concat(
    first: Seq<CommandView>,
    second: Seq<CommandView>,
    queue: Seq<Seq<char>>,
)
    ensures
        queue_after_all(first + second, queue) == queue_after_all(
            second,
            queue_after_all(first, queue),
        ),
    decreases second.len(),
{
    if second.len() == 0 {
        assert(first + second =~= first);
    } else {
        lemma_queue_concat(first, second.drop_last(), queue);
        assert((first + second).drop_last() =~= first + second.drop_last());
    }
}

/// Queueing the source puts it at the end of the queue, once.
pub proof fn lemma_queue_source_appends(sound: SoundView, queue: Seq<Seq<char>>)
    ensures
        queue_after_all(sound.queue_source(), queue) == queue.push(sound.source),
{
    let append = CommandView::Append(sound.source);
    let volume = CommandView::SetVolume(sound.volume);
    lemma_queue_push(Seq::empty(), append, queue);
    lemma_queue_push(Seq::empty().push(append), volume, queue);
    assert(sound.queue_source() =~= Seq::empty().push(append).push(volume));
}

/// Clearing empties the queue of a handle that may have queued a sound, and
/// does nothing otherwise.
pub proof fn lemma_clear_empties_what_is_queued(sound: SoundView, queue: Seq<Seq<char>>)
    ensures
        queue_after_all(sound.clear_commands(), queue) == if sound.may_have_queued() {
            Seq::empty()
        } else {
            queue
        },
{
    if sound.may_have_queued() {
        lemma_queue_push(Seq::empty(), CommandView::Stop, queue);
        lemma_queue_push(Seq::empty().push(CommandView::Stop), CommandView::Clear, queue);
        assert(sound.clear_commands() =~= Seq::empty().push(CommandView::Stop).push(
            CommandView::Clear,
        ));
    }
}

/// Loading is idempotent: a handle that has been loaded issues nothing when it
/// is loaded again, and does not change.
pub proof fn law_load_is_idempotent(sound: SoundView)
    ensures
        sound.after_load().load_commands() == Seq::<CommandView>::empty(),
        sound.after_load().after_load() == sound.after_load(),
{
}

/// Loading appends the source to the queue of a handle that was not loaded,
/// and leaves the queue of a loaded handle as it was.
pub proof fn law_load_queues_once(sound: SoundView, queue: Seq<Seq<char>>)
    ensures
        queue_after_all(sound.load_commands(), queue) == if sound.loaded {
            queue
        } else {
            queue.push(sound.source)
        },
{
    lemma_queue_source_appends(sound, queue);
}

/// Playing changes the queue as loading does: resuming adds nothing.
pub proof fn law_play_queues_as_load(sound: SoundView, queue: Seq<Seq<char>>)
    ensures
        queue_after_all(sound.play_commands(), queue) == queue_after_all(
            sound.load_commands(),
            queue,
        ),
{
    lemma_queue_push(sound.load_commands(), CommandView::Play, queue);
}

/// Polling tops a looping queue up: a queue of one sound gets a copy of the
/// source behind it, and any other queue is left as it was. A handle that does
/// not loop never adds. The handle counts as playing exactly when the queue
/// was not empty.
pub proof fn law_update_tops_up(sound: SoundView, queue: Seq<Seq<char>>)
    ensures
        queue_after_all(sound.update_commands(queue.len()), queue) == if queue.len() == 1
            && sound.looping {
            queue.push(sound.source)
        } else {
            queue
        },
        sound.after_update(queue.len()).playing <==> queue.len() != 0,
{
    if queue.len() == 1 && sound.looping {
        lemma_queue_push(Seq::empty(), CommandView::Append(sound.source), queue);
        assert(sound.update_commands(queue.len()) =~= Seq::empty().push(
            CommandView::Append(sound.source),
        ));
    }
}

/// Reloading leaves exactly one sound in the queue: one fresh copy of the
/// source. This holds whenever the handle may have queued a sound, whatever
/// the queue had come to hold, and whenever the queue was empty; so it holds
/// of every queue that goes with the handle.
pub proof fn law_reload_leaves_one(sound: SoundView, queue: Seq<Seq<char>>)
    ensures
        sound.may_have_queued() || queue.len() == 0 ==> queue_after_all(
            sound.reload_commands(),
            queue,
        ) == seq![sound.source],
        queue_fits(sound, queue) ==> queue_after_all(sound.reload_commands(), queue)
            == seq![sound.source],
{
    lemma_queue_concat(sound.clear_commands(), sound.queue_source(), queue);
    lemma_clear_empties_what_is_queued(sound, queue);
    lemma_queue_source_appends(sound, Seq::empty());
    lemma_queue_source_appends(sound, queue);
    assert(Seq::<Seq<char>>::empty().push(sound.source) =~= seq![sound.source]);
    if queue.len() == 0 {
        assert(queue =~= Seq::empty());
    }
}

/// Changing the source leaves exactly one sound in the queue: the new source.
/// This holds whenever the handle may have queued a sound, whatever the queue
/// had come to hold, and whenever the queue was empty; so it holds of every
/// queue that goes with the handle.
pub proof fn law_set_source_leaves_one(
    sound: SoundView,
    source: Seq<char>,
    queue: Seq<Seq<char>>,
)
    ensures
        sound.may_have_queued() || queue.len() == 0 ==> queue_after_all(
            sound.set_source_commands(source),
            queue,
        ) == seq![source],
        queue_fits(sound, queue) ==> queue_after_all(sound.set_source_commands(source), queue)
            == seq![source],
{
    let renamed = sound.with_source(source);
    lemma_queue_concat(sound.clear_commands(), renamed.queue_source(), queue);
    lemma_clear_empties_what_is_queued(sound, queue);
    lemma_queue_source_appends(renamed, Seq::empty());
    lemma_queue_source_appends(renamed, queue);
    assert(Seq::<Seq<char>>::empty().push(source) =~= seq![source]);
    if queue.len() == 0 {
        assert(queue =~= Seq::empty());
    }
}

/// A handle as it is constructed goes with an empty queue.
pub proof fn law_fresh_fits(source: Seq<char>, volume: u32)
    ensures
        queue_fits(SoundView::fresh(source, volume), Seq::empty()),
{
}

/// Sounds that finish playing leave the front of the queue, and keep it within
/// bounds.
pub proof fn law_draining_fits(sound: SoundView, queue: Seq<Seq<char>>, finished: int)
    requires
        queue_fits(sound, queue),
        0 <= finished <= queue.len(),
    ensures
        queue_fits(sound, queue.skip(finished)),
{
}

/// Stopping empties the queue, whatever it held, and so keeps it within bounds.
pub proof fn law_stop_fits(sound: SoundView, queue: Seq<Seq<char>>)
    ensures
        queue_after(CommandView::Stop, queue) == Seq::<Seq<char>>::empty(),
        queue_fits(sound, queue_after(CommandView::Stop, queue)),
{
}

/// Loading keeps the queue within bounds.
pub proof fn law_load_fits(sound: SoundView, queue: Seq<Seq<char>>)
    requires
        queue_fits(sound, queue),
    ensures
        queue_fits(sound.after_load(), queue_after_all(sound.load_commands(), queue)),
{
    law_load_queues_once(sound, queue);
}

/// Playing keeps the queue within bounds.
pub proof fn law_play_fits(sound: SoundView, queue: Seq<Seq<char>>)
    requires
        queue_fits(sound, queue),
    ensures
        queue_fits(sound.after_load(), queue_after_all(sound.play_commands(), queue)),
{
    law_play_queues_as_load(sound, queue);
    law_load_queues_once(sound, queue);
}

/// Polling with the length of the queue keeps it within bounds, and never
/// leaves a looping queue at a single sound.
pub proof fn law_update_fits(sound: SoundView, queue: Seq<Seq<char>>)
    requires
        queue_fits(sound, queue),
    ensures
        queue_fits(
            sound.after_update(queue.len()),
            queue_after_all(sound.update_commands(queue.len()), queue),
        ),
        sound.looping ==> queue_after_all(sound.update_commands(queue.len()), queue).len() != 1,
{
    law_update_tops_up(sound, queue);
}

/// Reloading keeps the queue within bounds.
pub proof fn law_reload_fits(sound: SoundView, queue: Seq<Seq<char>>)
    requires
        queue_fits(sound, queue),
    ensures
        queue_fits(sound.after_load(), queue_after_all(sound.reload_commands(), queue)),
{
    law_reload_leaves_one(sound, queue);
}

/// Changing the source keeps the queue within bounds: the new source is all
/// that the queue holds.
pub proof fn law_set_source_fits(sound: SoundView, source: Seq<char>, queue: Seq<Seq<char>>)
    requires
        queue_fits(sound, queue),
    ensures
        queue_fits(
            sound.after_set_source(source),
            queue_after_all(sound.set_source_commands(source), queue),
        ),
{
    law_set_source_leaves_one(sound, source, queue);
}

} // verus!

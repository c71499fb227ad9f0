use loop_sound::{SinkCommand, Sound};

fn carry_out(commands: Vec<SinkCommand>, queue: Vec<String>) -> Vec<String> {
    let mut queue = queue;
    for command in commands {
        match command {
            SinkCommand::Append(path) => queue.push(path),
            SinkCommand::Stop | SinkCommand::Clear => queue.clear(),
            SinkCommand::SetVolume(_) | SinkCommand::Play => {}
        }
    }
    queue
}

fn names(paths: &[&str]) -> Vec<String> {
    paths.iter().map(|path| String::from(*path)).collect()
}

#[test]
fn polled_loop_keeps_one_or_two_sounds_queued() {
    let mut sound = Sound::new(&String::from("theme.ogg"), 7);
    let mut queue = carry_out(sound.play(), Vec::new());
    assert_eq!(queue, names(&["theme.ogg"]));
    for _ in 0..5 {
        let polled = queue.len();
        queue = carry_out(sound.update(polled), queue);
        assert_eq!(queue, names(&["theme.ogg", "theme.ogg"]));
        assert!(sound.is_playing());
        queue.remove(0);
    }
    assert_eq!(queue, names(&["theme.ogg"]));
}

#[test]
fn queue_that_ran_dry_stays_empty() {
    let mut sound = Sound::new(&String::from("theme.ogg"), 7);
    let mut queue = carry_out(sound.play(), Vec::new());
    queue = carry_out(sound.update(1), queue);
    assert_eq!(queue.len(), 2);
    queue = carry_out(sound.update(0), Vec::new());
    assert_eq!(queue, names(&[]));
    assert!(!sound.is_playing());
    queue = carry_out(sound.play(), queue);
    assert_eq!(queue, names(&[]));
}

#[test]
fn second_load_adds_nothing_to_the_queue() {
    let mut sound = Sound::new(&String::from("theme.ogg"), 7);
    let mut queue = carry_out(sound.load(), Vec::new());
    assert_eq!(queue, names(&["theme.ogg"]));
    queue = carry_out(sound.load(), queue);
    assert_eq!(queue, names(&["theme.ogg"]));
    queue = carry_out(sound.play(), queue);
    assert_eq!(queue, names(&["theme.ogg"]));
}

#[test]
fn reload_after_update_leaves_one_sound_queued() {
    let mut sound = Sound::new(&String::from("theme.ogg"), 7);
    let mut queue = carry_out(sound.play(), Vec::new());
    queue = carry_out(sound.update(1), queue);
    assert_eq!(queue.len(), 2);
    queue = carry_out(sound.reload(), queue);
    assert_eq!(queue, names(&["theme.ogg"]));
    queue = carry_out(sound.update(1), queue);
    assert_eq!(queue.len(), 2);
    queue = carry_out(sound.set_source(&String::from("battle.ogg")), queue);
    assert_eq!(queue, names(&["battle.ogg"]));
}

#[test]
fn reload_after_the_queue_ran_dry_leaves_one_sound_queued() {
    let mut sound = Sound::new(&String::from("theme.ogg"), 7);
    sound.play();
    let mut queue = carry_out(sound.update(0), Vec::new());
    assert_eq!(queue, names(&[]));
    queue = carry_out(sound.reload(), queue);
    assert_eq!(queue, names(&["theme.ogg"]));
}

#[test]
fn reload_before_any_poll_leaves_one_fresh_copy() {
    let mut sound = Sound::new(&String::from("a.ogg"), 7);
    let mut queue = carry_out(sound.load(), Vec::new());
    queue = carry_out(sound.reload(), queue);
    assert_eq!(queue, names(&["a.ogg"]));
    assert!(sound.is_loaded());
    assert_eq!(sound.source(), &String::from("a.ogg"));
}

#[test]
fn repeated_reload_never_piles_up() {
    let mut sound = Sound::new(&String::from("a.ogg"), 7);
    let mut queue = carry_out(sound.load(), Vec::new());
    for _ in 0..4 {
        queue = carry_out(sound.reload(), queue);
        assert_eq!(queue, names(&["a.ogg"]));
    }
}

#[test]
fn set_source_before_any_poll_leaves_only_the_new_source() {
    let mut sound = Sound::new(&String::from("a.ogg"), 7);
    let mut queue = carry_out(sound.load(), Vec::new());
    assert_eq!(queue, names(&["a.ogg"]));
    queue = carry_out(sound.set_source(&String::from("b.ogg")), queue);
    assert_eq!(queue, names(&["b.ogg"]));
    assert_eq!(sound.source(), &String::from("b.ogg"));
    assert!(sound.is_loaded());
}

#[test]
fn set_source_of_a_fresh_handle_queues_without_clearing() {
    let mut sound = Sound::new(&String::from("a.ogg"), 7);
    let commands = sound.set_source(&String::from("b.ogg"));
    assert_eq!(commands.len(), 2);
    assert_eq!(carry_out(commands, Vec::new()), names(&["b.ogg"]));
}

#[test]
fn stop_empties_the_queue() {
    let mut sound = Sound::new(&String::from("theme.ogg"), 7);
    let mut queue = carry_out(sound.play(), Vec::new());
    queue = carry_out(sound.update(1), queue);
    queue = carry_out(vec![sound.stop()], queue);
    assert_eq!(queue, names(&[]));
    queue = carry_out(sound.update(0), queue);
    assert_eq!(queue, names(&[]));
    assert!(!sound.is_playing());
}

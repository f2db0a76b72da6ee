//! The keyboard shortcut that starts and stops recording.
//!
//! The application watches the keyboard and hands every event to
//! [`Hotkeys::handle_event`], which keeps track of which keys of the shortcut
//! are held and answers with what the recorder is to do. Keys are plain
//! numbers here; which number stands for which key is the caller's choice.

use std::collections::HashSet;
use vstd::prelude::*;
use vstd::set_lib::lemma_subset_equality;
use vstd::std_specs::hash::group_hash_axioms;

verus! {

/// A key of the keyboard.
pub type KeyCode = u64;

/// How the shortcut controls recording.
#[derive(Debug, Clone, Copy, PartialEq, Eq, Structural)]
pub enum Activation {
    /// Recording lasts while the shortcut is held.
    PushToTalk,
    /// Each press of the shortcut switches listening on or off.
    ToggleVad,
}

/// An event of the keyboard.
#[derive(Debug, Clone, Copy, PartialEq, Eq, Structural)]
pub enum KeyEvent {
    /// The key went down.
    Press(KeyCode),
    /// The key came up.
    Release(KeyCode),
    /// Anything else.
    Other,
}

/// What the recorder is to do.
#[derive(Debug, Clone, Copy, PartialEq, Eq, Structural)]
pub enum RecorderCommand {
    Start,
    Stop,
}

/// The shortcut as a mathematical value.
pub struct HotkeyModel {
    /// How the shortcut controls recording.
    pub activation: Activation,
    /// The keys of the shortcut.
    pub keys: Set<KeyCode>,
    /// The keys of the shortcut that are held.
    pub pressed: Set<KeyCode>,
    /// Whether the recorder was last told to start.
    pub recording: bool,
}

/// The held keys after an event: a key of the shortcut is added when it goes
/// down, and any key is taken out when it comes up.
pub open spec fn pressed_after(m: HotkeyModel, event: KeyEvent) -> Set<KeyCode> {
    match event {
        KeyEvent::Press(key) => if m.keys.contains(key) {
            m.pressed.insert(key)
        } else {
            m.pressed
        },
        KeyEvent::Release(key) => m.pressed.remove(key),
        KeyEvent::Other => m.pressed,
    }
}

/// Whether the whole shortcut is held after the event.
pub open spec fn all_pressed_after(m: HotkeyModel, event: KeyEvent) -> bool {
    pressed_after(m, event) == m.keys
}

/// What the event tells the recorder.
///
/// A key going down with the whole shortcut held starts a push-to-talk
/// recording that is not running, and switches voice-triggered listening to
/// the other state. A key coming up that breaks the shortcut stops a
/// push-to-talk recording that is running. Nothing else has an effect.
pub open spec fn command_for(m: HotkeyModel, event: KeyEvent) -> Option<RecorderCommand> {
    match (event, m.activation) {
        (KeyEvent::Press(_), Activation::ToggleVad) => if !all_pressed_after(m, event) {
            None
        } else if m.recording {
            Some(RecorderCommand::Stop)
        } else {
            Some(RecorderCommand::Start)
        },
        (KeyEvent::Press(_), Activation::PushToTalk) => if all_pressed_after(m, event)
            && !m.recording {
            Some(RecorderCommand::Start)
        } else {
            None
        },
        (KeyEvent::Release(_), Activation::PushToTalk) => if m.recording && !all_pressed_after(
            m,
            event,
        ) {
            Some(RecorderCommand::Stop)
        } else {
            None
        },
        _ => None,
    }
}

/// The shortcut after an event.
pub open spec fn after_event(m: HotkeyModel, event: KeyEvent) -> HotkeyModel {
    HotkeyModel {
        activation: m.activation,
        keys: m.keys,
        pressed: pressed_after(m, event),
        recording: match command_for(m, event) {
            Some(RecorderCommand::Start) => true,
            Some(RecorderCommand::Stop) => false,
            None => m.recording,
        },
    }
}

/// Commands alternate. The recorder is told to start only while it is
/// stopped and to stop only while it is running, so that it is never told
/// twice in a row to do the same; an event without a command leaves it as it
/// was.
pub proof fn lemma_commands_alternate(m: HotkeyModel, event: KeyEvent)
    ensures
        command_for(m, event) == Some(RecorderCommand::Start) ==> !m.recording && after_event(
            m,
            event,
        ).recording,
        command_for(m, event) == Some(RecorderCommand::Stop) ==> m.recording && !after_event(
            m,
            event,
        ).recording,
        command_for(m, event) is None ==> after_event(m, event).recording == m.recording,
{
}

/// Only keys of the shortcut are ever held: an event keeps the held keys
/// within the shortcut.
pub proof fn lemma_pressed_stays_within_keys(m: HotkeyModel, event: KeyEvent)
    requires
        m.pressed.subset_of(m.keys),
    ensures
        after_event(m, event).pressed.subset_of(m.keys),
        after_event(m, event).keys == m.keys,
        after_event(m, event).activation == m.activation,
{
}

/// The keys of a list, as a set.
pub open spec fn key_set(keys: Seq<KeyCode>) -> Set<KeyCode> {
    keys.to_set()
}

/// The state of the shortcut.
pub struct Hotkeys {
    activation: Activation,
    keys: HashSet<KeyCode>,
    pressed: HashSet<KeyCode>,
    recording: bool,
}

impl View for Hotkeys {
    type V = HotkeyModel;

    closed spec fn view(&self) -> HotkeyModel {
        HotkeyModel {
            activation: self.activation,
            keys: self.keys@,
            pressed: self.pressed@,
            recording: self.recording,
        }
    }
}

impl Hotkeys {
    /// Only keys of the shortcut are ever held, and both sets are finite.
    pub closed spec fn wf(&self) -> bool {
        &&& self.keys@.finite()
        &&& self.pressed@.finite()
        &&& self.pressed@.subset_of(self.keys@)
    }

    /// A shortcut of the given keys, none of them held, with the recorder
    /// stopped.
    pub fn new(activation: Activation, keys: &[KeyCode]) -> (hotkeys: Self)
        ensures
            hotkeys.wf(),
            hotkeys@ == (HotkeyModel {
                activation,
                keys: key_set(keys@),
                pressed: Set::<KeyCode>::empty(),
                recording: false,
            }),
    {
        broadcast use group_hash_axioms;

        let mut set: HashSet<KeyCode> = HashSet::new();
        let mut i: usize = 0;
        while i < keys.len()
            invariant
                i <= keys.len(),
                set@.finite(),
                set@ == keys@.take(i as int).to_set(),
            decreases keys.len() - i,
        {
            let _ = set.insert(keys[i]);
            proof {
                let before = keys@.take(i as int);
                let now = keys@.take(i + 1);
                assert(now == before.push(keys@[i as int]));
                assert forall|k: KeyCode| now.to_set().contains(k) <==> before.to_set().insert(
                    keys@[i as int],
                ).contains(k) by {
                    if before.contains(k) {
                        let j = choose|j: int| 0 <= j < before.len() && before[j] == k;
                        assert(now[j] == k);
                    }
                    if now.contains(k) {
                        let j = choose|j: int| 0 <= j < now.len() && now[j] == k;
                        if j < i {
                            assert(before[j] == k);
                        }
                    }
                    assert(now[i as int] == keys@[i as int]);
                }
                assert(now.to_set() =~= before.to_set().insert(keys@[i as int]));
            }
            i = i + 1;
        }
        assert(keys@.take(i as int) == keys@);
        Hotkeys { activation, keys: set, pressed: HashSet::new(), recording: false }
    }

    /// Whether the recorder was last told to start.
    pub fn is_recording(&self) -> (recording: bool)
        ensures
            recording == self@.recording,
    {
        self.recording
    }

    /// Whether every key of the shortcut is held.
    pub fn all_pressed(&self) -> (all: bool)
        requires
            self.wf(),
        ensures
            all == (self@.pressed == self@.keys),
    {
        broadcast use group_hash_axioms;

        let all: bool = self.pressed.len() == self.keys.len();
        proof {
            if all {
                lemma_subset_equality(self.pressed@, self.keys@);
            }
        }
        all
    }

    /// Takes in one keyboard event and returns what the recorder is to do.
    pub fn handle_event(&mut self, event: KeyEvent) -> (command: Option<RecorderCommand>)
        requires
            old(self).wf(),
        ensures
            final(self).wf(),
            final(self)@ == after_event(old(self)@, event),
            command == command_for(old(self)@, event),
    {
        broadcast use group_hash_axioms;

        match event {
            KeyEvent::Press(key) => {
                if self.keys.contains(&key) {
                    let _ = self.pressed.insert(key);
                }
                if !self.all_pressed() {
                    None
                } else {
                    match self.activation {
                        Activation::ToggleVad => {
                            self.recording = !self.recording;
                            if self.recording {
                                Some(RecorderCommand::Start)
                            } else {
                                Some(RecorderCommand::Stop)
                            }
                        },
                        Activation::PushToTalk => {
                            if self.recording {
                                None
                            } else {
                                self.recording = true;
                                Some(RecorderCommand::Start)
                            }
                        },
                    }
                }
            },
            KeyEvent::Release(key) => {
                let _ = self.pressed.remove(&key);
                match self.activation {
                    Activation::ToggleVad => None,
                    Activation::PushToTalk => {
                        if self.recording && !self.all_pressed() {
                            self.recording = false;
                            Some(RecorderCommand::Stop)
                        } else {
                            None
                        }
                    },
                }
            },
            KeyEvent::Other => None,
        }
    }
}

} // verus!

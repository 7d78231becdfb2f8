use vstd::prelude::*;
use crate::message::GuiMessage;

verus! {

/// The keys the chord detector tells apart.
#[derive(Clone, Copy, PartialEq, Eq, Structural, Debug)]
pub enum Key {
    AltGr,
    MetaLeft,
    Other,
}

/// A raw keyboard event as the detector sees it.
#[derive(Clone, Copy, PartialEq, Eq, Structural, Debug)]
pub enum KeyEvent {
    KeyPress(Key),
    KeyRelease(Key),
    Other,
}

/// Tracks whether the two watched modifier keys are held.
#[derive(Clone, Copy, PartialEq, Eq, Structural, Debug)]
pub struct ChordDetector {
    pub modifier_pressed: bool,
    pub meta_pressed: bool,
}

impl ChordDetector {
    /// The detector after `ev`: a press of a watched key marks it held, a
    /// release clears it, and every other event leaves it as it is.
    pub open spec fn after(self, ev: KeyEvent) -> ChordDetector {
        match ev {
            KeyEvent::KeyPress(Key::AltGr) => ChordDetector { modifier_pressed: true, ..self },
            KeyEvent::KeyPress(Key::MetaLeft) => ChordDetector { meta_pressed: true, ..self },
            KeyEvent::KeyRelease(Key::AltGr) => ChordDetector { modifier_pressed: false, ..self },
            KeyEvent::KeyRelease(Key::MetaLeft) => ChordDetector { meta_pressed: false, ..self },
            _ => self,
        }
    }

    /// Whether `ev`, seen in this state, completes the chord: it is a press
    /// (of any key) after which both watched keys are held.
    pub open spec fn fires(self, ev: KeyEvent) -> bool {
        &&& ev is KeyPress
        &&& self.after(ev).modifier_pressed
        &&& self.after(ev).meta_pressed
    }

    pub fn new() -> (r: ChordDetector)
        ensures
            !r.modifier_pressed,
            !r.meta_pressed,
    {
        ChordDetector { modifier_pressed: false, meta_pressed: false }
    }

    /// Takes one event into account and tells whether the chord fired.
    pub fn observe(&mut self, ev: KeyEvent) -> (fired: bool)
        ensures
            *final(self) == old(self).after(ev),
            fired == old(self).fires(ev),
    {
        match ev {
            KeyEvent::KeyPress(key) => {
                match key {
                    Key::AltGr => self.modifier_pressed = true,
                    Key::MetaLeft => self.meta_pressed = true,
                    Key::Other => {},
                }
                self.modifier_pressed && self.meta_pressed
            },
            KeyEvent::KeyRelease(key) => {
                match key {
                    Key::AltGr => self.modifier_pressed = false,
                    Key::MetaLeft => self.meta_pressed = false,
                    Key::Other => {},
                }
                false
            },
            KeyEvent::Other => false,
        }
    }
}

/// One step of the hotkey listener: takes `ev` into account and returns the
/// message to send to the coordinator, `CycleProfiles`, exactly when the chord
/// fired. The caller sends it and asks the window to repaint.
pub fn listener_step(detector: &mut ChordDetector, ev: KeyEvent) -> (message: Option<GuiMessage>)
    ensures
        *final(detector) == old(detector).after(ev),
        message == (if old(detector).fires(ev) {
            Some(GuiMessage::CycleProfiles)
        } else {
            None
        }),
{
    if detector.observe(ev) {
        Some(GuiMessage::CycleProfiles)
    } else {
        None
    }
}

} // verus!

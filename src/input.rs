//! The latched record of held controls that the simulation reads each tick.
use vstd::prelude::*;

use crate::event::{WindowEvent, KEY_DOWN, KEY_LEFT, KEY_RIGHT, KEY_UP, Rect};

verus! {

/// A logical movement control.
#[derive(Clone, Copy, Debug, PartialEq, Eq, Structural)]
pub enum Control {
    Forward,
    Backward,
    Left,
    Right,
}

/// The control a key drives, if any.
pub open spec fn control_of(key: u16) -> Option<Control> {
    if key == KEY_LEFT {
        Some(Control::Left)
    } else if key == KEY_RIGHT {
        Some(Control::Right)
    } else if key == KEY_UP {
        Some(Control::Forward)
    } else if key == KEY_DOWN {
        Some(Control::Backward)
    } else {
        None
    }
}

/// Maps a virtual-key code to the control it drives.
pub fn control_for_key(key: u16) -> (r: Option<Control>)
    ensures
        r == control_of(key),
{
    if key == KEY_LEFT {
        Some(Control::Left)
    } else if key == KEY_RIGHT {
        Some(Control::Right)
    } else if key == KEY_UP {
        Some(Control::Forward)
    } else if key == KEY_DOWN {
        Some(Control::Backward)
    } else {
        None
    }
}

/// What a tick does along one axis of motion.
#[derive(Clone, Copy, Debug, PartialEq, Eq, Structural)]
pub enum AxisDrive {
    /// Accelerate towards the positive side.
    Positive,
    /// Accelerate towards the negative side.
    Negative,
    /// Neither or both sides held: let the velocity decay.
    Damp,
}

/// Exactly one side of a pair accelerates; neither or both damp.
pub open spec fn drive_of(negative: bool, positive: bool) -> AxisDrive {
    if positive && !negative {
        AxisDrive::Positive
    } else if negative && !positive {
        AxisDrive::Negative
    } else {
        AxisDrive::Damp
    }
}

/// Decides the drive along an axis from the two controls of its pair.
pub fn axis_drive(negative: bool, positive: bool) -> (r: AxisDrive)
    ensures
        r == drive_of(negative, positive),
{
    if positive && !negative {
        AxisDrive::Positive
    } else if negative && !positive {
        AxisDrive::Negative
    } else {
        AxisDrive::Damp
    }
}

/// Controls currently held, and the pointer delta gathered since the last reset.
#[derive(Clone, Copy, Debug, PartialEq, Eq, Structural)]
pub struct InputState {
    pub mouse_x: i32,
    pub mouse_y: i32,
    pub forward: bool,
    pub backward: bool,
    pub left: bool,
    pub right: bool,
}

impl InputState {
    /// Whether control `c` is held.
    pub open spec fn held(self, c: Control) -> bool {
        match c {
            Control::Forward => self.forward,
            Control::Backward => self.backward,
            Control::Left => self.left,
            Control::Right => self.right,
        }
    }

    /// This state with control `c` set to `v`.
    pub open spec fn with_held(self, c: Control, v: bool) -> InputState {
        match c {
            Control::Forward => InputState { forward: v, ..self },
            Control::Backward => InputState { backward: v, ..self },
            Control::Left => InputState { left: v, ..self },
            Control::Right => InputState { right: v, ..self },
        }
    }

    /// The state after a key press; an autorepeat press changes nothing.
    pub open spec fn after_key_down(self, key: u16, repeat: bool) -> InputState {
        match control_of(key) {
            Some(c) => if repeat { self } else { self.with_held(c, true) },
            None => self,
        }
    }

    /// The state after a key release.
    pub open spec fn after_key_up(self, key: u16) -> InputState {
        match control_of(key) {
            Some(c) => self.with_held(c, false),
            None => self,
        }
    }

    /// The state after one event of the simulation queue; only key events change it.
    pub open spec fn after_event(self, e: WindowEvent) -> InputState {
        match e {
            WindowEvent::KeyDown { key, repeat } => self.after_key_down(key, repeat),
            WindowEvent::KeyUp { key } => self.after_key_up(key),
            _ => self,
        }
    }

    /// The state after a sequence of events, applied first to last.
    pub open spec fn after_events(self, es: Seq<WindowEvent>) -> InputState
        decreases es.len(),
    {
        if es.len() == 0 {
            self
        } else {
            self.after_events(es.drop_last()).after_event(es.last())
        }
    }

    /// Nothing held, no pointer movement.
    pub open spec fn new_spec() -> InputState {
        InputState { mouse_x: 0, mouse_y: 0, forward: false, backward: false, left: false, right: false }
    }

    /// Nothing held, no pointer movement.
    pub fn new() -> (r: Self)
        ensures
            r == Self::new_spec(),
    {
        InputState { mouse_x: 0, mouse_y: 0, forward: false, backward: false, left: false, right: false }
    }

    /// Clears the pointer delta once a tick-processing pass has consumed it.
    pub fn post_update_reset(&mut self)
        ensures
            *final(self) == (InputState { mouse_x: 0, mouse_y: 0, ..*old(self) }),
    {
        self.mouse_x = 0;
        self.mouse_y = 0;
    }

    /// Drive along the sideways axis: right is positive, left negative.
    pub fn lateral_drive(&self) -> (r: AxisDrive)
        ensures
            r == drive_of(self.left, self.right),
    {
        axis_drive(self.left, self.right)
    }

    /// Drive along the look axis: forward is positive, backward negative.
    pub fn forward_drive(&self) -> (r: AxisDrive)
        ensures
            r == drive_of(self.backward, self.forward),
    {
        axis_drive(self.backward, self.forward)
    }

    /// Sets whether control `c` is held, leaving everything else as it was.
    pub fn set_held(&mut self, c: Control, v: bool)
        ensures
            *final(self) == old(self).with_held(c, v),
    {
        match c {
            Control::Forward => self.forward = v,
            Control::Backward => self.backward = v,
            Control::Left => self.left = v,
            Control::Right => self.right = v,
        }
    }

    /// A fresh press holds the key's control; an autorepeat press is ignored.
    pub fn key_down(&mut self, key: u16, repeat: bool)
        ensures
            *final(self) == old(self).after_key_down(key, repeat),
            repeat ==> *final(self) == *old(self),
    {
        if !repeat {
            match control_for_key(key) {
                Some(c) => self.set_held(c, true),
                None => {},
            }
        }
    }

    /// A release lets go of the key's control.
    pub fn key_up(&mut self, key: u16)
        ensures
            *final(self) == old(self).after_key_up(key),
    {
        match control_for_key(key) {
            Some(c) => self.set_held(c, false),
            None => {},
        }
    }

    /// Applies one event of the simulation queue and returns the new client
    /// area when the event is a resize.
    pub fn apply_event(&mut self, e: WindowEvent) -> (r: Option<Rect>)
        ensures
            *final(self) == old(self).after_event(e),
            r == resize_of(e),
    {
        match e {
            WindowEvent::KeyDown { key, repeat } => {
                self.key_down(key, repeat);
                None
            },
            WindowEvent::KeyUp { key } => {
                self.key_up(key);
                None
            },
            WindowEvent::Resize(rect) => Some(rect),
            _ => None,
        }
    }

    /// Applies a drained batch of events in order and returns the client area
    /// of the last resize among them, which fixes the aspect ratio.
    pub fn apply_events(&mut self, es: &Vec<WindowEvent>) -> (r: Option<Rect>)
        ensures
            *final(self) == old(self).after_events(es@),
            r == last_resize(es@),
    {
        let ghost start = *self;
        let mut last: Option<Rect> = None;
        let mut i: usize = 0;
        while i < es.len()
            invariant
                i <= es.len(),
                *self == start.after_events(es@.take(i as int)),
                last == last_resize(es@.take(i as int)),
            decreases es.len() - i,
        {
            let e = es[i];
            let got = self.apply_event(e);
            if got.is_some() {
                last = got;
            }
            proof {
                let t = es@.take(i as int + 1);
                assert(t.drop_last() =~= es@.take(i as int));
                assert(t.last() == e);
            }
            i = i + 1;
        }
        assert(es@.take(es.len() as int) =~= es@);
        last
    }
}

/// The client area an event carries, if it is a resize.
pub open spec fn resize_of(e: WindowEvent) -> Option<Rect> {
    match e {
        WindowEvent::Resize(rect) => Some(rect),
        _ => None,
    }
}

/// The client area of the last resize in a sequence of events.
pub open spec fn last_resize(es: Seq<WindowEvent>) -> Option<Rect>
    decreases es.len(),
{
    if es.len() == 0 {
        None
    } else {
        match resize_of(es.last()) {
            Some(rect) => Some(rect),
            None => last_resize(es.drop_last()),
        }
    }
}

/// What an event does to control `c`: `Some(true)` for a fresh press of its
/// key, `Some(false)` for a release, `None` for anything else (an autorepeat
/// press included).
pub open spec fn key_effect(e: WindowEvent, c: Control) -> Option<bool> {
    match e {
        WindowEvent::KeyDown { key, repeat } => if !repeat && control_of(key) == Some(c) {
            Some(true)
        } else {
            None
        },
        WindowEvent::KeyUp { key } => if control_of(key) == Some(c) {
            Some(false)
        } else {
            None
        },
        _ => None,
    }
}

/// After any sequence of events, a control is held exactly when the latest
/// press or release of its key was a fresh press; with neither in the
/// sequence it keeps its earlier state. An autorepeat press never changes the
/// state.
pub proof fn lemma_held_follows_latest_key(s: InputState, es: Seq<WindowEvent>, c: Control)
    ensures
        forall|i: int|
            #![trigger key_effect(es[i], c)]
            0 <= i < es.len() && key_effect(es[i], c).is_some() && (forall|j: int|
                i < j < es.len() ==> key_effect(#[trigger] es[j], c).is_none())
                ==> s.after_events(es).held(c) == key_effect(es[i], c).unwrap(),
        (forall|i: int| 0 <= i < es.len() ==> key_effect(#[trigger] es[i], c).is_none())
            ==> s.after_events(es).held(c) == s.held(c),
        forall|key: u16| #[trigger] s.after_key_down(key, true) == s,
    decreases es.len(),
{
    if es.len() > 0 {
        let p = es.drop_last();
        let e = es.last();
        let n = es.len() - 1;
        lemma_held_follows_latest_key(s, p, c);
        let q = s.after_events(p);
        assert(q.after_event(e).held(c) == match key_effect(e, c) {
            Some(b) => b,
            None => q.held(c),
        });
        assert(es[n] == e);
        assert forall|i: int|
            #![trigger key_effect(es[i], c)]
            0 <= i < es.len() && key_effect(es[i], c).is_some() && (forall|j: int|
                i < j < es.len() ==> key_effect(#[trigger] es[j], c).is_none())
                implies s.after_events(es).held(c) == key_effect(es[i], c).unwrap() by {
            if i < n {
                assert(key_effect(es[n], c).is_none());
                assert(p[i] == es[i]);
                assert forall|j: int| i < j < p.len() implies key_effect(#[trigger] p[j], c).is_none() by {
                    assert(p[j] == es[j]);
                }
            }
        }
        if forall|i: int| 0 <= i < es.len() ==> key_effect(#[trigger] es[i], c).is_none() {
            assert(key_effect(es[n], c).is_none());
            assert forall|i: int| 0 <= i < p.len() implies key_effect(#[trigger] p[i], c).is_none() by {
                assert(p[i] == es[i]);
            }
        }
    }
}

} // verus!

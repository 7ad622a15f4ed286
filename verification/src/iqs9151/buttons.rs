//! Trackpad sides, the eight trackpad buttons and their virtual key positions,
//! and the edge trackers that turn button state into key press/release events.
use vstd::prelude::*;
use crate::rmk::{Event, KeyboardEvent};

verus! {

/// Which half of the split keyboard a trackpad sits on.
#[derive(Clone, Copy, Debug, PartialEq, Eq, Structural)]
pub enum TrackpadSide {
    Left,
    Right,
}

/// Wire encoding of a side.
pub open spec fn side_wire(side: TrackpadSide) -> u8 {
    match side {
        TrackpadSide::Left => 0,
        TrackpadSide::Right => 1,
    }
}

/// Decoding of a wire byte into a side.
pub open spec fn side_from_wire_spec(value: u8) -> Option<TrackpadSide> {
    if value == 0 {
        Some(TrackpadSide::Left)
    } else if value == 1 {
        Some(TrackpadSide::Right)
    } else {
        None
    }
}

impl TrackpadSide {
    /// The byte that carries this side in a custom event.
    pub fn to_wire(self) -> (r: u8)
        ensures
            r == side_wire(self),
    {
        match self {
            TrackpadSide::Left => 0,
            TrackpadSide::Right => 1,
        }
    }

    /// The side a wire byte names, if any.
    pub fn from_wire(value: u8) -> (r: Option<TrackpadSide>)
        ensures
            r == side_from_wire_spec(value),
    {
        match value {
            0 => Some(TrackpadSide::Left),
            1 => Some(TrackpadSide::Right),
            _ => None,
        }
    }
}

/// The eight button codes a trackpad produces (`INPUT_BTN_0..7`).
#[derive(Clone, Copy, Debug, PartialEq, Eq, Structural)]
pub enum TrackpadButton {
    LeftClick,
    RightClick,
    MiddleClick,
    GestureLeft,
    GestureRight,
    GestureUp,
    GestureDown,
    Pinch,
}

/// The input button code of a button.
pub open spec fn button_code(button: TrackpadButton) -> u8 {
    match button {
        TrackpadButton::LeftClick => 0,
        TrackpadButton::RightClick => 1,
        TrackpadButton::MiddleClick => 2,
        TrackpadButton::GestureLeft => 3,
        TrackpadButton::GestureRight => 4,
        TrackpadButton::GestureUp => 5,
        TrackpadButton::GestureDown => 6,
        TrackpadButton::Pinch => 7,
    }
}

/// The button with a given input code, if the code is one of `0..8`.
pub open spec fn button_from_code(code: u8) -> Option<TrackpadButton> {
    if code == 0 {
        Some(TrackpadButton::LeftClick)
    } else if code == 1 {
        Some(TrackpadButton::RightClick)
    } else if code == 2 {
        Some(TrackpadButton::MiddleClick)
    } else if code == 3 {
        Some(TrackpadButton::GestureLeft)
    } else if code == 4 {
        Some(TrackpadButton::GestureRight)
    } else if code == 5 {
        Some(TrackpadButton::GestureUp)
    } else if code == 6 {
        Some(TrackpadButton::GestureDown)
    } else if code == 7 {
        Some(TrackpadButton::Pinch)
    } else {
        None
    }
}

/// `2^code` for a button code.
pub open spec fn bit_of_code(code: u8) -> u8 {
    if code == 0 {
        1
    } else if code == 1 {
        2
    } else if code == 2 {
        4
    } else if code == 3 {
        8
    } else if code == 4 {
        16
    } else if code == 5 {
        32
    } else if code == 6 {
        64
    } else {
        128
    }
}

/// The HID mouse button mask of a button; only the three clicks are mouse buttons.
pub open spec fn mouse_mask_spec(button: TrackpadButton) -> Option<u8> {
    match button {
        TrackpadButton::LeftClick => Some(1u8),
        TrackpadButton::RightClick => Some(2u8),
        TrackpadButton::MiddleClick => Some(4u8),
        _ => None,
    }
}

impl TrackpadButton {
    /// The button for an input code.
    pub fn from_input_btn_code(code: u8) -> (r: Option<Self>)
        ensures
            r == button_from_code(code),
            r matches Some(b) ==> button_code(b) == code,
    {
        match code {
            0 => Some(TrackpadButton::LeftClick),
            1 => Some(TrackpadButton::RightClick),
            2 => Some(TrackpadButton::MiddleClick),
            3 => Some(TrackpadButton::GestureLeft),
            4 => Some(TrackpadButton::GestureRight),
            5 => Some(TrackpadButton::GestureUp),
            6 => Some(TrackpadButton::GestureDown),
            7 => Some(TrackpadButton::Pinch),
            _ => None,
        }
    }

    /// The input code of this button.
    pub fn input_btn_code(self) -> (r: u8)
        ensures
            r == button_code(self),
            r < 8,
            button_from_code(r) == Some(self),
    {
        match self {
            TrackpadButton::LeftClick => 0,
            TrackpadButton::RightClick => 1,
            TrackpadButton::MiddleClick => 2,
            TrackpadButton::GestureLeft => 3,
            TrackpadButton::GestureRight => 4,
            TrackpadButton::GestureUp => 5,
            TrackpadButton::GestureDown => 6,
            TrackpadButton::Pinch => 7,
        }
    }

    /// The single bit `1 << code` of this button in a button bitmask.
    pub fn bit(self) -> (r: u8)
        ensures
            r == bit_of_code(button_code(self)),
    {
        let code = self.input_btn_code();
        let r: u8 = 1u8 << code;
        assert(code < 8 ==> (1u8 << code) == bit_of_code(code)) by (bit_vector);
        r
    }

    /// The HID mouse button mask, for the three click buttons only.
    pub fn mouse_button_mask(self) -> (r: Option<u8>)
        ensures
            r == mouse_mask_spec(self),
    {
        match self {
            TrackpadButton::LeftClick => Some(1u8),
            TrackpadButton::RightClick => Some(2u8),
            TrackpadButton::MiddleClick => Some(4u8),
            _ => None,
        }
    }
}

/// A key position in the virtual rows that trackpad buttons drive.
#[derive(Clone, Copy, Debug, PartialEq, Eq, Structural)]
pub struct VirtualKeyPosition {
    pub row: u8,
    pub col: u8,
}

/// The virtual key position of `button` on `side`: clicks on row 5, gestures
/// and pinch on row 6; the right half's columns sit to the right.
pub open spec fn button_position_spec(side: TrackpadSide, button: TrackpadButton) -> VirtualKeyPosition {
    let code = button_code(button);
    match side {
        TrackpadSide::Left => if code < 3 {
            VirtualKeyPosition { row: 5, col: code }
        } else {
            VirtualKeyPosition { row: 6, col: (code - 3) as u8 }
        },
        TrackpadSide::Right => if code < 3 {
            VirtualKeyPosition { row: 5, col: (code + 9) as u8 }
        } else {
            VirtualKeyPosition { row: 6, col: (code + 4) as u8 }
        },
    }
}

/// The virtual key position a trackpad button raises.
pub fn trackpad_button_position(side: TrackpadSide, button: TrackpadButton) -> (r:
    VirtualKeyPosition)
    ensures
        r == button_position_spec(side, button),
{
    let code = button.input_btn_code();
    match side {
        TrackpadSide::Left => if code < 3 {
            VirtualKeyPosition { row: 5, col: code }
        } else {
            VirtualKeyPosition { row: 6, col: code - 3 }
        },
        TrackpadSide::Right => if code < 3 {
            VirtualKeyPosition { row: 5, col: code + 9 }
        } else {
            VirtualKeyPosition { row: 6, col: code + 4 }
        },
    }
}

/// A press or release of a trackpad button at its virtual key position.
#[derive(Clone, Copy, Debug, PartialEq, Eq, Structural)]
pub struct TrackpadButtonEvent {
    pub button: TrackpadButton,
    pub position: VirtualKeyPosition,
    pub pressed: bool,
}

impl TrackpadButtonEvent {
    /// The key event for this button edge.
    pub fn into_rmk_event(self) -> (r: Event)
        ensures
            r == Event::Key(
                KeyboardEvent { row: self.position.row, col: self.position.col, pressed: self.pressed },
            ),
    {
        Event::Key(KeyboardEvent::key(self.position.row, self.position.col, self.pressed))
    }
}

/// The pressed-button bitmask of one trackpad side.
#[derive(Clone, Copy, Debug, PartialEq, Eq, Structural)]
pub struct TrackpadButtonState {
    pub side: TrackpadSide,
    pub pressed_bits: u8,
}

impl TrackpadButtonState {
    /// No button pressed on `side`.
    pub fn new(side: TrackpadSide) -> (r: Self)
        ensures
            r.side == side,
            r.pressed_bits == 0,
    {
        TrackpadButtonState { side, pressed_bits: 0 }
    }

    /// The current pressed-button bitmask.
    pub fn pressed_bits(self) -> (r: u8)
        ensures
            r == self.pressed_bits,
    {
        self.pressed_bits
    }

    /// Replace the bitmask and return the edges between the old and new masks.
    pub fn update(&mut self, next_pressed_bits: u8) -> (r: TrackpadButtonEvents)
        ensures
            final(self).side == old(self).side,
            final(self).pressed_bits == next_pressed_bits,
            r.side == old(self).side,
            r.changed_bits == old(self).pressed_bits ^ next_pressed_bits,
            r.pressed_bits == next_pressed_bits,
            r.next_code == 0,
    {
        let previous_bits = self.pressed_bits;
        self.pressed_bits = next_pressed_bits;
        TrackpadButtonEvents {
            side: self.side,
            changed_bits: previous_bits ^ self.pressed_bits,
            pressed_bits: self.pressed_bits,
            next_code: 0,
        }
    }
}

/// Whether bit `code` of `bits` is set.
pub open spec fn bit_set(bits: u8, code: u8) -> bool {
    bits & bit_of_code(code) != 0
}

/// The edge event for button code `code` of a pending edge set.
pub open spec fn edge_event(side: TrackpadSide, pressed_bits: u8, code: u8) -> TrackpadButtonEvent {
    let button = button_from_code(code).unwrap();
    TrackpadButtonEvent {
        button,
        position: button_position_spec(side, button),
        pressed: bit_set(pressed_bits, code),
    }
}

/// The smallest changed code at or above `from`, if there is one below 8.
pub open spec fn next_changed_code(changed: u8, from: int) -> Option<u8>
    decreases 8 - from,
{
    if from >= 8 || from < 0 {
        None
    } else if bit_set(changed, from as u8) {
        Some(from as u8)
    } else {
        next_changed_code(changed, from + 1)
    }
}

/// The sequence after handing out its next edge, and that edge.
pub open spec fn events_next_spec(e: TrackpadButtonEvents) -> (TrackpadButtonEvents, Option<TrackpadButtonEvent>) {
    match next_changed_code(e.changed_bits, e.next_code as int) {
        Some(code) => (TrackpadButtonEvents { next_code: (code + 1) as u8, ..e }, Some(edge_event(e.side, e.pressed_bits, code))),
        None => (TrackpadButtonEvents {
            next_code: if e.next_code < 8 {
                8u8
            } else {
                e.next_code
            },
            ..e
        }, None),
    }
}

/// The button edges between two bitmasks, lowest code first.
#[derive(Clone, Copy, Debug, PartialEq, Eq, Structural)]
pub struct TrackpadButtonEvents {
    pub side: TrackpadSide,
    pub changed_bits: u8,
    pub pressed_bits: u8,
    pub next_code: u8,
}

impl TrackpadButtonEvents {
    /// The next edge, in increasing button-code order; `None` once all are out.
    pub fn next(&mut self) -> (r: Option<TrackpadButtonEvent>)
        ensures
            (*final(self), r) == events_next_spec(*old(self)),
            final(self).side == old(self).side,
            final(self).changed_bits == old(self).changed_bits,
            final(self).pressed_bits == old(self).pressed_bits,
            match next_changed_code(old(self).changed_bits, old(self).next_code as int) {
                Some(code) => r == Some(edge_event(old(self).side, old(self).pressed_bits, code))
                    && final(self).next_code == code + 1,
                None => r is None && final(self).next_code == (if old(self).next_code < 8 {
                    8
                } else {
                    old(self).next_code
                }),
            },
    {
        while self.next_code < 8
            invariant
                self.side == old(self).side,
                self.changed_bits == old(self).changed_bits,
                self.pressed_bits == old(self).pressed_bits,
                self.next_code <= 8 || self.next_code == old(self).next_code,
                old(self).next_code <= self.next_code,
                next_changed_code(old(self).changed_bits, old(self).next_code as int)
                    == next_changed_code(self.changed_bits, self.next_code as int),
            decreases 8 - self.next_code,
        {
            let code = self.next_code;
            self.next_code = self.next_code + 1;
            let bit: u8 = 1u8 << code;
            assert(code < 8 ==> (1u8 << code) == bit_of_code(code)) by (bit_vector);
            if self.changed_bits & bit == 0 {
                continue;
            }
            let button = match TrackpadButton::from_input_btn_code(code) {
                Some(b) => b,
                None => {
                    return None;
                },
            };
            return Some(
                TrackpadButtonEvent {
                    button,
                    position: trackpad_button_position(self.side, button),
                    pressed: self.pressed_bits & bit != 0,
                },
            );
        }
        None
    }
}

/// The click sequence after handing out its next event, and that event.
pub open spec fn click_next_spec(c: TrackpadClickEvents) -> (TrackpadClickEvents, Option<TrackpadButtonEvent>) {
    if c.next_pressed < 2 {
        (TrackpadClickEvents { next_pressed: (c.next_pressed + 1) as u8, ..c }, Some(TrackpadButtonEvent {
            button: c.button,
            position: button_position_spec(c.side, c.button),
            pressed: c.next_pressed == 0,
        }))
    } else {
        (c, None)
    }
}

/// A press followed by a release of one button, as a two-event sequence.
#[derive(Clone, Copy, Debug, PartialEq, Eq, Structural)]
pub struct TrackpadClickEvents {
    pub side: TrackpadSide,
    pub button: TrackpadButton,
    pub next_pressed: u8,
}

impl TrackpadClickEvents {
    /// The press-then-release sequence of `button` on `side`.
    pub fn new(side: TrackpadSide, button: TrackpadButton) -> (r: Self)
        ensures
            r.side == side,
            r.button == button,
            r.next_pressed == 0,
    {
        TrackpadClickEvents { side, button, next_pressed: 0 }
    }

    /// A sequence that yields nothing.
    pub fn empty(side: TrackpadSide) -> (r: Self)
        ensures
            r.side == side,
            r.button == TrackpadButton::LeftClick,
            r.next_pressed == 2,
    {
        TrackpadClickEvents { side, button: TrackpadButton::LeftClick, next_pressed: 2 }
    }

    /// The press on the first call, the release on the second, then nothing.
    pub fn next(&mut self) -> (r: Option<TrackpadButtonEvent>)
        ensures
            (*final(self), r) == click_next_spec(*old(self)),
            final(self).side == old(self).side,
            final(self).button == old(self).button,
            old(self).next_pressed < 2 ==> final(self).next_pressed == old(self).next_pressed + 1
                && r == Some(
                TrackpadButtonEvent {
                    button: old(self).button,
                    position: button_position_spec(old(self).side, old(self).button),
                    pressed: old(self).next_pressed == 0,
                },
            ),
            old(self).next_pressed >= 2 ==> final(self).next_pressed == old(self).next_pressed
                && r is None,
    {
        let pressed = match self.next_pressed {
            0 => true,
            1 => false,
            _ => {
                return None;
            },
        };
        self.next_pressed = self.next_pressed + 1;
        Some(
            TrackpadButtonEvent {
                button: self.button,
                position: trackpad_button_position(self.side, self.button),
                pressed,
            },
        )
    }
}


/// A side survives the wire: decoding its byte gives it back, and only the
/// two side bytes decode.
pub proof fn lemma_side_wire_roundtrip(side: TrackpadSide, value: u8)
    ensures
        side_from_wire_spec(side_wire(side)) == Some(side),
        side_from_wire_spec(value) is Some ==> side_wire(side_from_wire_spec(value)->0) == value,
{
}

/// Button codes are a bijection onto `0..8`: decoding a button's code gives
/// the button back, and every code below 8 names the button it decodes to.
pub proof fn lemma_button_code_roundtrip(button: TrackpadButton, code: u8)
    ensures
        button_from_code(button_code(button)) == Some(button),
        button_code(button) < 8,
        code < 8 <==> button_from_code(code) is Some,
        button_from_code(code) is Some ==> button_code(button_from_code(code)->0) == code,
{
}

/// Distinct buttons sit at distinct virtual key positions on each side.
pub proof fn lemma_button_positions_distinct(side: TrackpadSide, a: TrackpadButton, b: TrackpadButton)
    requires
        a != b,
    ensures
        button_position_spec(side, a) != button_position_spec(side, b),
{
}


/// The edge sequence hands out changed buttons in increasing code order and
/// skips none: the next edge after code `from` is the lowest changed code at
/// or above it, and when there is none, no code from there up to 8 changed.
pub proof fn lemma_next_edge_is_lowest_changed(changed: u8, from: int)
    requires
        0 <= from <= 8,
    ensures
        match next_changed_code(changed, from) {
            Some(c) => from <= c < 8 && bit_set(changed, c) && forall|k: int|
                from <= k < c ==> !#[trigger] bit_set(changed, k as u8),
            None => forall|k: int| from <= k < 8 ==> !#[trigger] bit_set(changed, k as u8),
        },
    decreases 8 - from,
{
    if from < 8 && !bit_set(changed, from as u8) {
        lemma_next_edge_is_lowest_changed(changed, from + 1);
    }
}

} // verus!

//! The keyboard-framework event and channel types that the trackpad and LED
//! logic exchange with the rest of the firmware, in their host form.
use vstd::prelude::*;

verus! {

/// State of the BLE host link.
#[derive(Clone, Copy, Debug, PartialEq, Eq, Structural)]
pub enum BleState {
    Connected,
    Advertising,
    Disconnected,
}

/// A key press or release at a matrix position.
#[derive(Clone, Copy, Debug, PartialEq, Eq, Structural)]
pub struct KeyboardEvent {
    pub row: u8,
    pub col: u8,
    pub pressed: bool,
}

impl KeyboardEvent {
    /// The event for `(row, col)` with the given press state.
    pub fn key(row: u8, col: u8, pressed: bool) -> (r: Self)
        ensures
            r == (KeyboardEvent { row, col, pressed }),
    {
        KeyboardEvent { row, col, pressed }
    }
}

/// Status notifications that controllers receive.
#[derive(Clone, Copy, Debug, PartialEq, Eq, Structural)]
pub enum ControllerEvent {
    Battery(u8),
    Layer(u8),
    BleState(u8, BleState),
    SplitPeripheral(usize, bool),
    SplitCentral(bool),
    Sleep(bool),
    Other,
}

/// An input event: a key edge or a 16-byte custom payload.
#[derive(Clone, Copy, Debug, PartialEq, Eq)]
pub enum Event {
    Key(KeyboardEvent),
    Custom([u8; 16]),
}

/// An input event as a value: a key edge or the 16 payload bytes.
pub enum EventView {
    Key(KeyboardEvent),
    Custom(Seq<u8>),
}

impl View for Event {
    type V = EventView;

    open spec fn view(&self) -> EventView {
        match self {
            Event::Key(k) => EventView::Key(*k),
            Event::Custom(p) => EventView::Custom(p@),
        }
    }
}

/// The view of an optional event.
pub open spec fn opt_event_view(e: Option<Event>) -> Option<EventView> {
    match e {
        Some(ev) => Some(ev@),
        None => None,
    }
}

/// The transport that reports currently go out on.
#[derive(Clone, Copy, Debug, PartialEq, Eq, Structural)]
pub enum ConnectionType {
    Usb,
    Ble,
}

/// The active connection; the host form always reports USB.
pub fn get_active_connection_type() -> (r: ConnectionType)
    ensures
        r == ConnectionType::Usb,
{
    ConnectionType::Usb
}

/// A bounded message channel in its host form: sends always succeed, nothing
/// is ever received and it is never full.
pub struct Channel<T> {
    _marker: core::marker::PhantomData<T>,
}

impl<T> Channel<T> {
    /// A new, empty channel.
    pub fn new() -> (r: Self) {
        Channel { _marker: core::marker::PhantomData }
    }

    /// Non-blocking send; accepted in the host form.
    pub fn try_send(&self, value: T) -> (r: Result<(), ()>)
        ensures
            r == Ok::<(), ()>(()),
    {
        Ok(())
    }

    /// Non-blocking receive; the host form never holds a message.
    pub fn try_receive(&self) -> (r: Result<T, ()>)
        ensures
            r == Err::<T, ()>(()),
    {
        Err(())
    }

    /// Whether the channel is full; never in the host form.
    pub fn is_full(&self) -> (r: bool)
        ensures
            !r,
    {
        false
    }
}

/// A subscription to controller status events.
pub struct ControllerSub;

/// The broadcast channel of controller status events.
pub struct ControllerChannel;

impl ControllerChannel {
    /// A new controller channel.
    pub fn new() -> (r: Self) {
        ControllerChannel
    }

    /// A subscription; the host form always grants one.
    pub fn subscriber(&self) -> (r: Result<ControllerSub, ()>)
        ensures
            r is Ok,
    {
        Ok(ControllerSub)
    }
}

} // verus!

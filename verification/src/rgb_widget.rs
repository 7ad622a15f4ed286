//! The status LED: an RGB LED that blinks battery, connection and layer
//! changes, driven by controller events and a periodic tick.
//!
//! The widget decides which level each of the three pins should be at; the
//! firmware drives its output pins to those levels.
use vstd::prelude::*;
use crate::rmk::{BleState, ControllerChannel, ControllerEvent, ControllerSub};

verus! {

/// Battery level (percent) at or above which the LED shows green.
pub const BATTERY_LEVEL_HIGH: u8 = 30;

/// Battery level at or above which the LED shows yellow (else red).
pub const BATTERY_LEVEL_LOW: u8 = 20;

/// Battery level at or below which every report blinks again.
pub const BATTERY_LEVEL_CRITICAL: u8 = 10;

/// Ticks a battery blink stays lit.
pub const BATTERY_BLINK_TICKS: u8 = 20;

/// Ticks a connection blink stays lit.
pub const CONNECTION_BLINK_TICKS: u8 = 10;

/// Ticks a layer change waits before it is shown.
pub const LAYER_DEBOUNCE_TICKS: u8 = 1;

/// Ticks per on or off phase of a layer blink.
pub const LAYER_BLINK_PHASE_TICKS: u8 = 1;

/// The eight colors an RGB LED with on/off channels can show.
#[derive(Clone, Copy, Debug, PartialEq, Eq, Structural)]
pub enum RgbColor {
    Off,
    Red,
    Green,
    Yellow,
    Blue,
    Magenta,
    Cyan,
    White,
}

/// Which of the red, green and blue channels a color lights.
pub open spec fn channels_spec(c: RgbColor) -> (bool, bool, bool) {
    match c {
        RgbColor::Off => (false, false, false),
        RgbColor::Red => (true, false, false),
        RgbColor::Green => (false, true, false),
        RgbColor::Yellow => (true, true, false),
        RgbColor::Blue => (false, false, true),
        RgbColor::Magenta => (true, false, true),
        RgbColor::Cyan => (false, true, true),
        RgbColor::White => (true, true, true),
    }
}

impl RgbColor {
    /// The lit channels, as (red, green, blue).
    pub fn channels(self) -> (r: (bool, bool, bool))
        ensures
            r == channels_spec(self),
    {
        match self {
            RgbColor::Off => (false, false, false),
            RgbColor::Red => (true, false, false),
            RgbColor::Green => (false, true, false),
            RgbColor::Yellow => (true, true, false),
            RgbColor::Blue => (false, false, true),
            RgbColor::Magenta => (true, false, true),
            RgbColor::Cyan => (false, true, true),
            RgbColor::White => (true, true, true),
        }
    }
}

/// The electrical level of an output pin.
#[derive(Clone, Copy, Debug, PartialEq, Eq, Structural)]
pub enum PinLevel {
    Low,
    High,
}

/// What the LED is doing between ticks.
#[derive(Clone, Copy, Debug, PartialEq, Eq, Structural)]
pub enum WidgetMode {
    Idle,
    Blink { color: RgbColor, ticks_left: u8 },
    LayerDelay { layer: u8, ticks_left: u8 },
    LayerBlink { phases_left: u8, phase_ticks_left: u8, on: bool },
}

/// The status LED's state and the levels it has set its three pins to.
pub struct RgbLedWidget {
    pub red: PinLevel,
    pub green: PinLevel,
    pub blue: PinLevel,
    pub low_active: bool,
    pub sub: ControllerSub,
    pub mode: WidgetMode,
    pub current_color: RgbColor,
    pub battery_seen: bool,
    pub layer: u8,
    pub show_layer_change: bool,
}

/// The widget's state apart from its event subscription.
pub struct WidgetState {
    pub red: PinLevel,
    pub green: PinLevel,
    pub blue: PinLevel,
    pub low_active: bool,
    pub mode: WidgetMode,
    pub current_color: RgbColor,
    pub battery_seen: bool,
    pub layer: u8,
    pub show_layer_change: bool,
}

impl View for RgbLedWidget {
    type V = WidgetState;

    open spec fn view(&self) -> WidgetState {
        WidgetState {
            red: self.red,
            green: self.green,
            blue: self.blue,
            low_active: self.low_active,
            mode: self.mode,
            current_color: self.current_color,
            battery_seen: self.battery_seen,
            layer: self.layer,
            show_layer_change: self.show_layer_change,
        }
    }
}

/// The level that lights (or darkens) a channel: active-low LEDs light on a
/// low pin.
pub open spec fn pin_level_spec(low_active: bool, active: bool) -> PinLevel {
    if active == low_active {
        PinLevel::Low
    } else {
        PinLevel::High
    }
}

/// Whether the three pins show `color`.
pub open spec fn pins_show(w: WidgetState, color: RgbColor) -> bool {
    let (r, g, b) = channels_spec(color);
    &&& w.red == pin_level_spec(w.low_active, r)
    &&& w.green == pin_level_spec(w.low_active, g)
    &&& w.blue == pin_level_spec(w.low_active, b)
}

/// Showing `color`: pins are only written when the color changes.
pub open spec fn apply_color_spec(w: WidgetState, color: RgbColor) -> WidgetState {
    if w.current_color == color {
        w
    } else {
        let (r, g, b) = channels_spec(color);
        WidgetState {
            red: pin_level_spec(w.low_active, r),
            green: pin_level_spec(w.low_active, g),
            blue: pin_level_spec(w.low_active, b),
            current_color: color,
            ..w
        }
    }
}

/// Back to idle with the LED off.
pub open spec fn set_idle_spec(w: WidgetState) -> WidgetState {
    apply_color_spec(WidgetState { mode: WidgetMode::Idle, ..w }, RgbColor::Off)
}

/// Start a blink of `color` for `ticks` ticks.
pub open spec fn queue_blink_spec(w: WidgetState, color: RgbColor, ticks: u8) -> WidgetState {
    apply_color_spec(WidgetState { mode: WidgetMode::Blink { color, ticks_left: ticks }, ..w }, color)
}

/// Show a change to `layer`: the base layer just goes idle; any other waits
/// out the debounce with the LED off.
pub open spec fn queue_layer_change_spec(w: WidgetState, layer: u8) -> WidgetState {
    if layer == 0 {
        set_idle_spec(w)
    } else {
        apply_color_spec(
            WidgetState { mode: WidgetMode::LayerDelay { layer, ticks_left: LAYER_DEBOUNCE_TICKS }, ..w },
            RgbColor::Off,
        )
    }
}

/// The color a battery level is shown in.
pub open spec fn battery_color_spec(level: u8) -> RgbColor {
    if level >= BATTERY_LEVEL_HIGH {
        RgbColor::Green
    } else if level >= BATTERY_LEVEL_LOW {
        RgbColor::Yellow
    } else {
        RgbColor::Red
    }
}

/// The color a BLE link state is shown in.
pub open spec fn ble_color_spec(state: BleState) -> RgbColor {
    match state {
        BleState::Connected => RgbColor::Blue,
        BleState::Advertising => RgbColor::Yellow,
        BleState::Disconnected => RgbColor::Red,
    }
}

/// How the widget reacts to a controller event: a battery report blinks its
/// color the first time and whenever the level is critical; a layer change
/// (when enabled and different) is queued; BLE and split link changes blink
/// blue when connected and red (or yellow while advertising) otherwise;
/// going to sleep turns the LED off; anything else is ignored.
pub open spec fn process_event_spec(w: WidgetState, event: ControllerEvent) -> WidgetState {
    match event {
        ControllerEvent::Battery(level) => {
            let should_blink = !w.battery_seen || level <= BATTERY_LEVEL_CRITICAL;
            let w1 = WidgetState { battery_seen: true, ..w };
            if should_blink {
                queue_blink_spec(w1, battery_color_spec(level), BATTERY_BLINK_TICKS)
            } else {
                w1
            }
        },
        ControllerEvent::Layer(layer) => if w.show_layer_change && layer != w.layer {
            queue_layer_change_spec(WidgetState { layer, ..w }, layer)
        } else {
            w
        },
        ControllerEvent::BleState(_, state) => queue_blink_spec(w, ble_color_spec(state), CONNECTION_BLINK_TICKS),
        ControllerEvent::SplitPeripheral(_, connected) => queue_blink_spec(
            w,
            if connected {
                RgbColor::Blue
            } else {
                RgbColor::Red
            },
            CONNECTION_BLINK_TICKS,
        ),
        ControllerEvent::SplitCentral(connected) => queue_blink_spec(
            w,
            if connected {
                RgbColor::Blue
            } else {
                RgbColor::Red
            },
            CONNECTION_BLINK_TICKS,
        ),
        ControllerEvent::Sleep(true) => set_idle_spec(w),
        _ => w,
    }
}

/// One periodic tick: a blink counts down and goes idle; a layer change
/// counts down its debounce, then blinks cyan twice per layer number, one
/// phase per tick group, and goes idle.
pub open spec fn update_spec(w: WidgetState) -> WidgetState {
    match w.mode {
        WidgetMode::Idle => apply_color_spec(w, RgbColor::Off),
        WidgetMode::Blink { color, ticks_left } => if ticks_left == 0 {
            set_idle_spec(w)
        } else {
            apply_color_spec(
                WidgetState { mode: WidgetMode::Blink { color, ticks_left: (ticks_left - 1) as u8 }, ..w },
                color,
            )
        },
        WidgetMode::LayerDelay { layer, ticks_left } => if ticks_left == 0 {
            WidgetState {
                mode: WidgetMode::LayerBlink {
                    phases_left: if layer * 2 > 255 {
                        255u8
                    } else {
                        (layer * 2) as u8
                    },
                    phase_ticks_left: LAYER_BLINK_PHASE_TICKS,
                    on: true,
                },
                ..w
            }
        } else {
            apply_color_spec(
                WidgetState { mode: WidgetMode::LayerDelay { layer, ticks_left: (ticks_left - 1) as u8 }, ..w },
                RgbColor::Off,
            )
        },
        WidgetMode::LayerBlink { phases_left, phase_ticks_left, on } => {
            let color = if on {
                RgbColor::Cyan
            } else {
                RgbColor::Off
            };
            if phases_left == 0 {
                set_idle_spec(w)
            } else if phase_ticks_left > 1 {
                apply_color_spec(
                    WidgetState {
                        mode: WidgetMode::LayerBlink {
                            phases_left,
                            phase_ticks_left: (phase_ticks_left - 1) as u8,
                            on,
                        },
                        ..w
                    },
                    color,
                )
            } else {
                apply_color_spec(
                    WidgetState {
                        mode: WidgetMode::LayerBlink {
                            phases_left: (phases_left - 1) as u8,
                            phase_ticks_left: LAYER_BLINK_PHASE_TICKS,
                            on: !on,
                        },
                        ..w
                    },
                    color,
                )
            }
        },
    }
}

/// The level a pin is driven to so that its channel is `active`.
pub fn pin_level(low_active: bool, active: bool) -> (r: PinLevel)
    ensures
        r == pin_level_spec(low_active, active),
{
    if active == low_active {
        PinLevel::Low
    } else {
        PinLevel::High
    }
}

impl RgbLedWidget {
    /// A widget whose pins are currently at the given levels, with the LED
    /// logically off and idle.
    pub fn new(red: PinLevel, green: PinLevel, blue: PinLevel, low_active: bool, show_layer_change: bool) -> (w: Self)
        ensures
            w@ == (WidgetState {
                red,
                green,
                blue,
                low_active,
                mode: WidgetMode::Idle,
                current_color: RgbColor::Off,
                battery_seen: false,
                layer: 0,
                show_layer_change,
            }),
    {
        let channel = ControllerChannel::new();
        let sub = match channel.subscriber() {
            Ok(sub) => sub,
            Err(_) => ControllerSub,
        };
        let mut widget = RgbLedWidget {
            red,
            green,
            blue,
            low_active,
            sub,
            mode: WidgetMode::Idle,
            current_color: RgbColor::Off,
            battery_seen: false,
            layer: 0,
            show_layer_change,
        };
        widget.apply_color(RgbColor::Off);
        widget
    }

    /// The color shown for a battery level.
    pub fn battery_color(level: u8) -> (r: RgbColor)
        ensures
            r == battery_color_spec(level),
    {
        if level >= BATTERY_LEVEL_HIGH {
            RgbColor::Green
        } else if level >= BATTERY_LEVEL_LOW {
            RgbColor::Yellow
        } else {
            RgbColor::Red
        }
    }

    /// Show `color`, setting the pins only if it differs from the current one.
    pub fn apply_color(&mut self, color: RgbColor)
        ensures
            final(self)@ == apply_color_spec(old(self)@, color),
    {
        if self.current_color == color {
            return;
        }
        let (red, green, blue) = color.channels();
        self.red = pin_level(self.low_active, red);
        self.green = pin_level(self.low_active, green);
        self.blue = pin_level(self.low_active, blue);
        self.current_color = color;
    }

    fn set_idle(&mut self)
        ensures
            final(self)@ == set_idle_spec(old(self)@),
    {
        self.mode = WidgetMode::Idle;
        self.apply_color(RgbColor::Off);
    }

    fn queue_blink(&mut self, color: RgbColor, ticks_left: u8)
        ensures
            final(self)@ == queue_blink_spec(old(self)@, color, ticks_left),
    {
        self.mode = WidgetMode::Blink { color, ticks_left };
        self.apply_color(color);
    }

    fn queue_layer_change(&mut self, layer: u8)
        ensures
            final(self)@ == queue_layer_change_spec(old(self)@, layer),
    {
        if layer == 0 {
            self.set_idle();
            return;
        }
        self.mode = WidgetMode::LayerDelay { layer, ticks_left: LAYER_DEBOUNCE_TICKS };
        self.apply_color(RgbColor::Off);
    }

    /// React to a controller status event.
    pub fn process_event(&mut self, event: ControllerEvent)
        ensures
            final(self)@ == process_event_spec(old(self)@, event),
    {
        match event {
            ControllerEvent::Battery(level) => {
                let color = Self::battery_color(level);
                let should_blink = !self.battery_seen || level <= BATTERY_LEVEL_CRITICAL;
                self.battery_seen = true;
                if should_blink {
                    self.queue_blink(color, BATTERY_BLINK_TICKS);
                }
            },
            ControllerEvent::Layer(layer) => {
                if self.show_layer_change && layer != self.layer {
                    self.layer = layer;
                    self.queue_layer_change(layer);
                }
            },
            ControllerEvent::BleState(_, state) => {
                let color = match state {
                    BleState::Connected => RgbColor::Blue,
                    BleState::Advertising => RgbColor::Yellow,
                    BleState::Disconnected => RgbColor::Red,
                };
                self.queue_blink(color, CONNECTION_BLINK_TICKS);
            },
            ControllerEvent::SplitPeripheral(_, connected) => {
                self.queue_blink(
                    if connected {
                        RgbColor::Blue
                    } else {
                        RgbColor::Red
                    },
                    CONNECTION_BLINK_TICKS,
                );
            },
            ControllerEvent::SplitCentral(connected) => {
                self.queue_blink(
                    if connected {
                        RgbColor::Blue
                    } else {
                        RgbColor::Red
                    },
                    CONNECTION_BLINK_TICKS,
                );
            },
            ControllerEvent::Sleep(true) => {
                self.set_idle();
            },
            _ => {},
        }
    }

    /// One periodic tick of the LED animation.
    pub fn update(&mut self)
        ensures
            final(self)@ == update_spec(old(self)@),
    {
        match self.mode {
            WidgetMode::Idle => {
                self.apply_color(RgbColor::Off);
            },
            WidgetMode::Blink { color, ticks_left } => {
                if ticks_left == 0 {
                    self.set_idle();
                } else {
                    self.mode = WidgetMode::Blink { color, ticks_left: ticks_left - 1 };
                    self.apply_color(color);
                }
            },
            WidgetMode::LayerDelay { layer, ticks_left } => {
                if ticks_left == 0 {
                    let phases_left: u8 = if layer > 127 {
                        255
                    } else {
                        layer * 2
                    };
                    self.mode = WidgetMode::LayerBlink {
                        phases_left,
                        phase_ticks_left: LAYER_BLINK_PHASE_TICKS,
                        on: true,
                    };
                } else {
                    self.mode = WidgetMode::LayerDelay { layer, ticks_left: ticks_left - 1 };
                    self.apply_color(RgbColor::Off);
                }
            },
            WidgetMode::LayerBlink { phases_left, phase_ticks_left, on } => {
                let color = if on {
                    RgbColor::Cyan
                } else {
                    RgbColor::Off
                };
                if phases_left == 0 {
                    self.set_idle();
                } else if phase_ticks_left > 1 {
                    self.mode = WidgetMode::LayerBlink {
                        phases_left,
                        phase_ticks_left: phase_ticks_left - 1,
                        on,
                    };
                    self.apply_color(color);
                } else {
                    self.mode = WidgetMode::LayerBlink {
                        phases_left: phases_left - 1,
                        phase_ticks_left: LAYER_BLINK_PHASE_TICKS,
                        on: !on,
                    };
                    self.apply_color(color);
                }
            },
        }
    }
}

// ---------------------------------------------------------------- laws

/// `n` ticks with no events in between.
pub open spec fn updates(w: WidgetState, n: nat) -> WidgetState
    decreases n,
{
    if n == 0 {
        w
    } else {
        updates(update_spec(w), (n - 1) as nat)
    }
}

/// Once the pins show the current color they keep doing so: every event and
/// every tick leaves the LED showing exactly the color the widget records.
pub proof fn lemma_pins_follow_color(w: WidgetState, event: ControllerEvent)
    requires
        pins_show(w, w.current_color),
    ensures
        pins_show(process_event_spec(w, event), process_event_spec(w, event).current_color),
        pins_show(update_spec(w), update_spec(w).current_color),
{
}

/// A blink with `n` ticks left ends after `n + 1` ticks: the widget is idle
/// with the LED off.
pub proof fn lemma_blink_ends(w: WidgetState, color: RgbColor, n: u8)
    requires
        w.mode == (WidgetMode::Blink { color, ticks_left: n }),
    ensures
        updates(w, (n + 1) as nat).mode == WidgetMode::Idle,
        updates(w, (n + 1) as nat).current_color == RgbColor::Off,
    decreases n,
{
    if n == 0 {
        assert(updates(w, 1) == updates(update_spec(w), 0));
    } else {
        let w1 = update_spec(w);
        lemma_blink_ends(w1, color, (n - 1) as u8);
        assert(updates(w, (n + 1) as nat) == updates(w1, n as nat));
    }
}

/// An idle LED stays idle and dark under ticks.
pub proof fn lemma_idle_stays_off(w: WidgetState)
    requires
        w.mode == WidgetMode::Idle,
    ensures
        update_spec(w).mode == WidgetMode::Idle,
        update_spec(w).current_color == RgbColor::Off,
{
}

/// A critical battery report always blinks red, however many reports came
/// before.
pub proof fn lemma_critical_battery_blinks(w: WidgetState, level: u8)
    requires
        level <= BATTERY_LEVEL_CRITICAL,
    ensures
        process_event_spec(w, ControllerEvent::Battery(level)).mode == (WidgetMode::Blink {
            color: RgbColor::Red,
            ticks_left: BATTERY_BLINK_TICKS,
        }),
        process_event_spec(w, ControllerEvent::Battery(level)).current_color == RgbColor::Red,
{
}

/// Split-link status: whichever half reports it, a link that comes up
/// blinks blue and a link that goes down blinks red, for the connection
/// blink time, and the LED shows that color at once.
pub proof fn lemma_split_link_colors(w: WidgetState, peer: usize, connected: bool)
    ensures
        connected ==> process_event_spec(w, ControllerEvent::SplitPeripheral(peer, connected)).current_color == RgbColor::Blue
            && process_event_spec(w, ControllerEvent::SplitPeripheral(peer, connected)).mode
                == (WidgetMode::Blink { color: RgbColor::Blue, ticks_left: CONNECTION_BLINK_TICKS }),
        !connected ==> process_event_spec(w, ControllerEvent::SplitPeripheral(peer, connected)).current_color == RgbColor::Red
            && process_event_spec(w, ControllerEvent::SplitPeripheral(peer, connected)).mode
                == (WidgetMode::Blink { color: RgbColor::Red, ticks_left: CONNECTION_BLINK_TICKS }),
        connected ==> process_event_spec(w, ControllerEvent::SplitCentral(connected)).current_color == RgbColor::Blue
            && process_event_spec(w, ControllerEvent::SplitCentral(connected)).mode
                == (WidgetMode::Blink { color: RgbColor::Blue, ticks_left: CONNECTION_BLINK_TICKS }),
        !connected ==> process_event_spec(w, ControllerEvent::SplitCentral(connected)).current_color == RgbColor::Red
            && process_event_spec(w, ControllerEvent::SplitCentral(connected)).mode
                == (WidgetMode::Blink { color: RgbColor::Red, ticks_left: CONNECTION_BLINK_TICKS }),
{
}

/// BLE link status: a connected link blinks blue, an advertising one yellow
/// and a lost one red, for the connection blink time; going to sleep turns
/// the LED off and idle.
pub proof fn lemma_ble_and_sleep_colors(w: WidgetState, profile: u8)
    ensures
        process_event_spec(w, ControllerEvent::BleState(profile, BleState::Connected)).current_color == RgbColor::Blue,
        process_event_spec(w, ControllerEvent::BleState(profile, BleState::Connected)).mode
            == (WidgetMode::Blink { color: RgbColor::Blue, ticks_left: CONNECTION_BLINK_TICKS }),
        process_event_spec(w, ControllerEvent::BleState(profile, BleState::Advertising)).current_color == RgbColor::Yellow,
        process_event_spec(w, ControllerEvent::BleState(profile, BleState::Advertising)).mode
            == (WidgetMode::Blink { color: RgbColor::Yellow, ticks_left: CONNECTION_BLINK_TICKS }),
        process_event_spec(w, ControllerEvent::BleState(profile, BleState::Disconnected)).current_color == RgbColor::Red,
        process_event_spec(w, ControllerEvent::BleState(profile, BleState::Disconnected)).mode
            == (WidgetMode::Blink { color: RgbColor::Red, ticks_left: CONNECTION_BLINK_TICKS }),
        process_event_spec(w, ControllerEvent::Sleep(true)).current_color == RgbColor::Off,
        process_event_spec(w, ControllerEvent::Sleep(true)).mode == WidgetMode::Idle,
{
}

} // verus!

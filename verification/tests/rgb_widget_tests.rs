use core::future::Future;
use core::task::{Context, Poll, Waker};

use lalapad_gen2_rmk::rgb_widget::{
    PinLevel, RgbColor, RgbLedWidget, WidgetMode, BATTERY_BLINK_TICKS, LAYER_BLINK_PHASE_TICKS,
    LAYER_DEBOUNCE_TICKS,
};
use lalapad_gen2_rmk::rmk::{BleState, ControllerEvent};

struct PendingOnce {
    pending: bool,
}

impl Future for PendingOnce {
    type Output = u8;

    fn poll(mut self: core::pin::Pin<&mut Self>, _cx: &mut Context<'_>) -> Poll<Self::Output> {
        if self.pending {
            self.pending = false;
            Poll::Pending
        } else {
            Poll::Ready(7)
        }
    }
}

fn block_on<F: Future>(future: F) -> F::Output {
    let waker = Waker::noop();
    let mut cx = Context::from_waker(&waker);
    let mut future = Box::pin(future);
    loop {
        if let Poll::Ready(output) = future.as_mut().poll(&mut cx) {
            return output;
        }
    }
}

/// A widget on pins that start out high, as unconfigured mock pins do.
fn widget(low_active: bool, show_layer_change: bool) -> RgbLedWidget {
    RgbLedWidget::new(
        PinLevel::High,
        PinLevel::High,
        PinLevel::High,
        low_active,
        show_layer_change,
    )
}

#[test]
fn block_on_polls_again_after_pending() {
    assert_eq!(block_on(PendingOnce { pending: true }), 7);
}

#[test]
fn battery_color_matches_upstream_thresholds() {
    assert_eq!(RgbLedWidget::battery_color(30), RgbColor::Green);
    assert_eq!(RgbLedWidget::battery_color(20), RgbColor::Yellow);
    assert_eq!(RgbLedWidget::battery_color(10), RgbColor::Red);
}

#[test]
fn active_low_color_drives_xiao_rgb_pins_low_when_on() {
    let mut widget = widget(true, true);

    widget.apply_color(RgbColor::Cyan);

    assert_eq!(widget.red, PinLevel::High);
    assert_eq!(widget.green, PinLevel::Low);
    assert_eq!(widget.blue, PinLevel::Low);
}

#[test]
fn active_high_color_drives_channels_high_when_on() {
    let mut widget = widget(false, true);

    widget.apply_color(RgbColor::Magenta);

    assert_eq!(widget.red, PinLevel::High);
    assert_eq!(widget.green, PinLevel::Low);
    assert_eq!(widget.blue, PinLevel::High);
}

#[test]
fn color_channel_table_covers_all_status_colors() {
    assert_eq!(RgbColor::Off.channels(), (false, false, false));
    assert_eq!(RgbColor::Red.channels(), (true, false, false));
    assert_eq!(RgbColor::Green.channels(), (false, true, false));
    assert_eq!(RgbColor::Yellow.channels(), (true, true, false));
    assert_eq!(RgbColor::Blue.channels(), (false, false, true));
    assert_eq!(RgbColor::Magenta.channels(), (true, false, true));
    assert_eq!(RgbColor::Cyan.channels(), (false, true, true));
    assert_eq!(RgbColor::White.channels(), (true, true, true));
}

#[test]
fn battery_event_blinks_then_returns_to_idle() {
    let mut widget = widget(true, true);

    widget.process_event(ControllerEvent::Battery(30));

    assert_eq!(widget.current_color, RgbColor::Green);
    assert_eq!(
        widget.mode,
        WidgetMode::Blink {
            color: RgbColor::Green,
            ticks_left: BATTERY_BLINK_TICKS
        }
    );

    for _ in 0..=BATTERY_BLINK_TICKS {
        widget.update();
    }

    assert_eq!(widget.mode, WidgetMode::Idle);
    assert_eq!(widget.current_color, RgbColor::Off);
}

#[test]
fn critical_battery_requeues_after_first_battery_report() {
    let mut widget = widget(true, true);

    widget.process_event(ControllerEvent::Battery(30));
    widget.process_event(ControllerEvent::Battery(25));
    assert_eq!(widget.current_color, RgbColor::Green);

    widget.process_event(ControllerEvent::Battery(10));

    assert_eq!(widget.current_color, RgbColor::Red);
    assert_eq!(
        widget.mode,
        WidgetMode::Blink {
            color: RgbColor::Red,
            ticks_left: BATTERY_BLINK_TICKS
        }
    );
}

#[test]
fn layer_change_debounces_then_blinks_cyan() {
    let mut widget = widget(true, true);

    widget.process_event(ControllerEvent::Layer(2));
    assert_eq!(
        widget.mode,
        WidgetMode::LayerDelay {
            layer: 2,
            ticks_left: LAYER_DEBOUNCE_TICKS
        }
    );

    widget.update();
    assert_eq!(
        widget.mode,
        WidgetMode::LayerDelay {
            layer: 2,
            ticks_left: 0
        }
    );

    widget.update();
    assert_eq!(
        widget.mode,
        WidgetMode::LayerBlink {
            phases_left: 4,
            phase_ticks_left: LAYER_BLINK_PHASE_TICKS,
            on: true,
        }
    );

    widget.update();
    assert_eq!(widget.current_color, RgbColor::Cyan);

    widget.process_event(ControllerEvent::Layer(0));
    assert_eq!(widget.mode, WidgetMode::Idle);
    assert_eq!(widget.current_color, RgbColor::Off);
}

#[test]
fn connection_and_sleep_events_map_to_status_colors() {
    let mut widget = widget(true, true);

    widget.process_event(ControllerEvent::BleState(0, BleState::Connected));
    assert_eq!(widget.current_color, RgbColor::Blue);

    widget.process_event(ControllerEvent::BleState(0, BleState::Advertising));
    assert_eq!(widget.current_color, RgbColor::Yellow);

    widget.process_event(ControllerEvent::BleState(0, BleState::Disconnected));
    assert_eq!(widget.current_color, RgbColor::Red);

    widget.process_event(ControllerEvent::SplitPeripheral(0, true));
    assert_eq!(widget.current_color, RgbColor::Blue);

    widget.process_event(ControllerEvent::SplitCentral(false));
    assert_eq!(widget.current_color, RgbColor::Red);

    widget.process_event(ControllerEvent::Sleep(true));
    assert_eq!(widget.mode, WidgetMode::Idle);
    assert_eq!(widget.current_color, RgbColor::Off);
}

#[test]
fn ignored_events_and_idle_layer_edges_do_not_change_status() {
    let mut widget1 = widget(true, false);

    widget1.update();
    assert_eq!(widget1.mode, WidgetMode::Idle);
    assert_eq!(widget1.current_color, RgbColor::Off);

    widget1.process_event(ControllerEvent::Other);
    widget1.process_event(ControllerEvent::Sleep(false));
    widget1.process_event(ControllerEvent::Layer(1));
    assert_eq!(widget1.mode, WidgetMode::Idle);
    assert_eq!(widget1.layer, 0);

    let mut widget2 = widget(true, true);
    widget2.process_event(ControllerEvent::Layer(2));
    widget2.process_event(ControllerEvent::Layer(2));
    assert_eq!(
        widget2.mode,
        WidgetMode::LayerDelay {
            layer: 2,
            ticks_left: LAYER_DEBOUNCE_TICKS
        }
    );
}

#[test]
fn layer_blink_handles_long_phase_and_done_phase() {
    let mut widget = widget(true, true);

    widget.mode = WidgetMode::LayerBlink {
        phases_left: 2,
        phase_ticks_left: 2,
        on: true,
    };
    widget.update();
    assert_eq!(
        widget.mode,
        WidgetMode::LayerBlink {
            phases_left: 2,
            phase_ticks_left: 1,
            on: true,
        }
    );
    assert_eq!(widget.current_color, RgbColor::Cyan);

    widget.mode = WidgetMode::LayerBlink {
        phases_left: 2,
        phase_ticks_left: 2,
        on: false,
    };
    widget.update();
    assert_eq!(
        widget.mode,
        WidgetMode::LayerBlink {
            phases_left: 2,
            phase_ticks_left: 1,
            on: false,
        }
    );
    assert_eq!(widget.current_color, RgbColor::Off);

    widget.mode = WidgetMode::LayerBlink {
        phases_left: 2,
        phase_ticks_left: 1,
        on: false,
    };
    widget.update();
    assert_eq!(
        widget.mode,
        WidgetMode::LayerBlink {
            phases_left: 1,
            phase_ticks_left: LAYER_BLINK_PHASE_TICKS,
            on: true,
        }
    );
    assert_eq!(widget.current_color, RgbColor::Off);

    widget.mode = WidgetMode::LayerBlink {
        phases_left: 0,
        phase_ticks_left: 1,
        on: false,
    };
    widget.update();
    assert_eq!(widget.mode, WidgetMode::Idle);
    assert_eq!(widget.current_color, RgbColor::Off);
}

#[test]
fn pins_keep_showing_the_color_after_events_and_ticks() {
    let mut widget = widget(true, true);
    widget.process_event(ControllerEvent::BleState(0, BleState::Connected));
    assert_eq!(
        (widget.red, widget.green, widget.blue),
        (PinLevel::High, PinLevel::High, PinLevel::Low)
    );
    for _ in 0..20 {
        widget.update();
    }
    assert_eq!(widget.current_color, RgbColor::Off);
    assert_eq!(
        (widget.red, widget.green, widget.blue),
        (PinLevel::High, PinLevel::High, PinLevel::High)
    );
}

#[test]
fn connection_blink_ends_after_its_ticks_plus_one() {
    let mut widget = widget(false, true);
    widget.process_event(ControllerEvent::SplitCentral(true));
    for _ in 0..10 {
        widget.update();
        assert_eq!(widget.current_color, RgbColor::Blue);
    }
    widget.update();
    assert_eq!(widget.mode, WidgetMode::Idle);
    assert_eq!(widget.current_color, RgbColor::Off);
}

#[test]
fn high_layer_blink_count_saturates() {
    let mut widget = widget(true, true);
    widget.process_event(ControllerEvent::Layer(200));
    widget.update();
    widget.update();
    assert_eq!(
        widget.mode,
        WidgetMode::LayerBlink {
            phases_left: 255,
            phase_ticks_left: LAYER_BLINK_PHASE_TICKS,
            on: true,
        }
    );
}

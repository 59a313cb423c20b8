//! What the watch decides on a wake-up.

use crate::buttons::WakeupButtons;
use crate::gdeh0154d67::{
    hibernate, hibernate_plan, init, init_plan, select_temperature_sensor,
    select_temperature_sensor_plan, set_border_color, set_border_color_plan,
    set_partial_ram_area, set_partial_ram_area_plan, update_display, update_display_plan,
    write_image_data, write_image_data_plan, BorderColor, DisplayUpdateSequence, Operation,
    TemperatureSensor, HEIGHT, WIDTH,
};
use vstd::prelude::*;

verus! {

/// What the chip reports to have ended its sleep. `S` is the report of the
/// chip, kept for the sources that the watch does not use.
pub enum WakeupSource<S> {
    /// No sleep was ended.
    Undefined,
    /// The first external wake-up line.
    Ext0,
    /// One of the second external wake-up lines.
    Ext1,
    /// Anything else.
    Other(S),
}

/// Why the watch is awake.
pub enum WakeupCause<S> {
    /// First boot or manual reset from serial monitor
    Reset,
    /// The external RTC told us to wake up
    ExternalRtcAlarm,
    /// One (or more?) of the buttons was pressed
    ButtonPress(WakeupButtons),
    /// Probably shouldn't happen
    Unknown(S),
}

/// Why the watch is awake, from what the chip reports to have ended its
/// sleep and the value of its wake-up status register: the clock is on the
/// first external wake-up line, the buttons are on the second.
pub fn get_wakeup_cause<S>(source: WakeupSource<S>, wakeup_bits: u32) -> (cause: WakeupCause<S>)
    ensures
        cause == match source {
            WakeupSource::Undefined => WakeupCause::Reset,
            WakeupSource::Ext0 => WakeupCause::ExternalRtcAlarm,
            WakeupSource::Ext1 => WakeupCause::ButtonPress(WakeupButtons { bits: wakeup_bits }),
            WakeupSource::Other(cause) => WakeupCause::Unknown(cause),
        },
{
    match source {
        WakeupSource::Undefined => WakeupCause::Reset,
        WakeupSource::Ext0 => WakeupCause::ExternalRtcAlarm,
        WakeupSource::Ext1 => {
            let buttons = WakeupButtons::from_wakeup_status(wakeup_bits);
            WakeupCause::ButtonPress(buttons)
        },
        WakeupSource::Other(cause) => WakeupCause::Unknown(cause),
    }
}

/// The minute of the next alarm, for a watch that wakes up every minute: the
/// minute after `minute`, which is the first of the hour after the last.
pub fn next_alarm_minute(minute: u8) -> (next: u8)
    ensures
        next == if minute >= 59 {
            0
        } else {
            minute + 1
        },
{
    if minute >= 59 {
        0
    } else {
        minute + 1
    }
}

/// The plan of [`draw_buffer_to_display`].
pub open spec fn draw_buffer_to_display_plan() -> Seq<Operation> {
    init_plan() + set_border_color_plan(BorderColor::White) + set_partial_ram_area_plan(
        0,
        0,
        WIDTH,
        HEIGHT,
    ) + write_image_data_plan() + select_temperature_sensor_plan(TemperatureSensor::Internal)
        + update_display_plan(DisplayUpdateSequence { bits: 0xf7 }, None) + hibernate_plan()
}

/// What the watch sends to its display to show a picture: it brings the
/// display up, with a white border, writes the picture to the whole screen,
/// updates the screen in full, with the analog part and the clock signal
/// switched off afterwards, and sends the display to sleep.
pub fn draw_buffer_to_display() -> (ops: Vec<Operation>)
    ensures
        ops@ == draw_buffer_to_display_plan(),
{
    let sequence = DisplayUpdateSequence::watchy_update_full().union(
        DisplayUpdateSequence::disable_analog(),
    ).union(DisplayUpdateSequence::disable_clock_signal());
    assert(0xf4u8 | 0x02u8 | 0x01u8 == 0xf7u8) by (bit_vector);

    let mut ops = init();
    let mut border = set_border_color(BorderColor::White);
    let mut area = set_partial_ram_area(0, 0, WIDTH, HEIGHT);
    let mut image = write_image_data();
    let mut sensor = select_temperature_sensor(TemperatureSensor::Internal);
    let mut update = update_display(sequence, None);
    let mut sleep = hibernate();
    ops.append(&mut border);
    ops.append(&mut area);
    ops.append(&mut image);
    ops.append(&mut sensor);
    ops.append(&mut update);
    ops.append(&mut sleep);
    ops
}

} // verus!

use watchy_core::gdeh0154d67::{
    hardware_reset, hibernate, init, load_waveform_lut_from_otp, master_activation,
    select_temperature_sensor, set_border_color, set_border_waveform, set_data_entry_mode,
    set_deep_sleep_mode, set_display_update_ram_options, set_display_update_sequence,
    set_driver_output, set_partial_ram_area, set_ram_x_address_position,
    set_ram_x_start_end_position, set_ram_y_address_position, set_ram_y_start_end_position,
    software_reset, update_display, watchy_init, watchy_init_display, watchy_power_off,
    watchy_power_on, watchy_refresh, watchy_refresh_full, watchy_refresh_partial,
    watchy_update_full, watchy_update_partial, write_bw_ram, write_image_data, BorderColor,
    DataEntryMode, DeepSleepMode, DisplayUpdateSequence, Error, Operation, RamOptions,
    TemperatureSensor, GDEH0154D67,
};

fn command(code: u8) -> Operation {
    Operation::Command(code)
}

fn data(bytes: &[u8]) -> Operation {
    let mut padded = [0u8; 4];
    padded[..bytes.len()].copy_from_slice(bytes);
    Operation::Data {
        len: bytes.len() as u8,
        b0: padded[0],
        b1: padded[1],
        b2: padded[2],
        b3: padded[3],
    }
}

fn whole_screen() -> Vec<Operation> {
    vec![
        command(0x11),
        data(&[0x03]),
        command(0x44),
        data(&[0, 24]),
        command(0x45),
        data(&[0, 0, 199, 0]),
        command(0x4e),
        data(&[0]),
        command(0x4f),
        data(&[0, 0]),
    ]
}

#[test]
fn resets() {
    assert_eq!(
        hardware_reset(),
        vec![
            Operation::ResetLow,
            Operation::DelayMs(10),
            Operation::ResetHigh,
            Operation::DelayMs(10)
        ]
    );
    assert_eq!(software_reset(), vec![command(0x12), Operation::DelayMs(10)]);
}

#[test]
fn init_plan() {
    assert_eq!(
        init(),
        vec![
            Operation::DelayMs(10),
            Operation::ResetLow,
            Operation::DelayMs(10),
            Operation::ResetHigh,
            Operation::DelayMs(10),
            command(0x12),
            Operation::DelayMs(10),
            command(0x01),
            data(&[0xc7, 0x00, 0x00]),
        ]
    );
    assert_eq!(set_driver_output(), vec![command(0x01), data(&[0xc7, 0x00, 0x00])]);
}

#[test]
fn ram_positions() {
    assert_eq!(set_ram_x_start_end_position(0, 200), vec![command(0x44), data(&[0, 24])]);
    assert_eq!(set_ram_x_start_end_position(16, 8), vec![command(0x44), data(&[2, 2])]);
    assert_eq!(set_ram_x_start_end_position(4096, 1), vec![command(0x44), data(&[0, 0])]);
    assert_eq!(set_ram_y_start_end_position(0, 200), vec![command(0x45), data(&[0, 0, 199, 0])]);
    assert_eq!(set_ram_y_start_end_position(255, 1), vec![command(0x45), data(&[0, 1, 0, 1])]);
    assert_eq!(
        set_ram_y_start_end_position(300, 300),
        vec![command(0x45), data(&[45, 1, 89, 2])]
    );
    assert_eq!(set_ram_x_address_position(199), vec![command(0x4e), data(&[24])]);
    assert_eq!(set_ram_y_address_position(199), vec![command(0x4f), data(&[199, 0])]);
    assert_eq!(set_ram_y_address_position(0x1234), vec![command(0x4f), data(&[0x34, 0x12])]);
}

#[test]
fn partial_ram_area() {
    assert_eq!(set_partial_ram_area(0, 0, 200, 200), whole_screen());
    assert_eq!(
        set_partial_ram_area(8, 10, 16, 20),
        vec![
            command(0x11),
            data(&[0x03]),
            command(0x44),
            data(&[1, 2]),
            command(0x45),
            data(&[10, 0, 29, 0]),
            command(0x4e),
            data(&[1]),
            command(0x4f),
            data(&[10, 0]),
        ]
    );
}

#[test]
fn single_commands() {
    assert_eq!(
        set_data_entry_mode(DataEntryMode::default_mode()),
        vec![command(0x11), data(&[3])]
    );
    assert_eq!(set_data_entry_mode(DataEntryMode::addr_mode_y()), vec![command(0x11), data(&[4])]);
    assert_eq!(DataEntryMode::x_increment().bits(), 1);
    assert_eq!(DataEntryMode::y_increment().bits(), 2);
    assert_eq!(set_border_waveform(0x02), vec![command(0x3c), data(&[0x02])]);
    assert_eq!(set_border_color(BorderColor::White), vec![command(0x3c), data(&[0b101])]);
    assert_eq!(set_border_color(BorderColor::Black), vec![command(0x3c), data(&[0b110])]);
    assert_eq!(
        select_temperature_sensor(TemperatureSensor::Internal),
        vec![command(0x18), data(&[0x80])]
    );
    assert_eq!(
        select_temperature_sensor(TemperatureSensor::External),
        vec![command(0x18), data(&[0x48])]
    );
    assert_eq!(
        set_display_update_ram_options(RamOptions::Normal),
        vec![command(0x21), data(&[0])]
    );
    assert_eq!(
        set_display_update_ram_options(RamOptions::Bypass0),
        vec![command(0x21), data(&[0b100])]
    );
    assert_eq!(
        set_display_update_ram_options(RamOptions::Invert),
        vec![command(0x21), data(&[0b1000])]
    );
    assert_eq!(
        set_display_update_sequence(DisplayUpdateSequence::drive_display_panel()),
        vec![command(0x22), data(&[0xc7])]
    );
    assert_eq!(master_activation(), vec![command(0x20), Operation::WaitUntilIdle]);
    assert_eq!(write_bw_ram(), vec![command(0x24), Operation::Image]);
    assert_eq!(write_image_data(), vec![command(0x24), Operation::Image]);
    assert_eq!(set_deep_sleep_mode(DeepSleepMode::Normal), vec![command(0x10), data(&[0])]);
    assert_eq!(set_deep_sleep_mode(DeepSleepMode::ResetRAM), vec![command(0x10), data(&[3])]);
    assert_eq!(hibernate(), vec![command(0x10), data(&[1])]);
}

#[test]
fn update_sequences() {
    assert_eq!(DisplayUpdateSequence::enable_clock_signal().bits(), 0x80);
    assert_eq!(DisplayUpdateSequence::enable_analog().bits(), 0x40);
    assert_eq!(DisplayUpdateSequence::load_temperature_value().bits(), 0x20);
    assert_eq!(DisplayUpdateSequence::load_lut().bits(), 0x10);
    assert_eq!(DisplayUpdateSequence::use_display_mode_2().bits(), 0x08);
    assert_eq!(DisplayUpdateSequence::display().bits(), 0x04);
    assert_eq!(DisplayUpdateSequence::disable_analog().bits(), 0x02);
    assert_eq!(DisplayUpdateSequence::disable_clock_signal().bits(), 0x01);
    assert_eq!(DisplayUpdateSequence::load_waveform_lut_from_otp().bits(), 0xb1);
    assert_eq!(DisplayUpdateSequence::drive_display_panel().bits(), 0xc7);
    assert_eq!(DisplayUpdateSequence::watchy_display_power_on().bits(), 0xf8);
    assert_eq!(DisplayUpdateSequence::watchy_display_power_off().bits(), 0x83);
    assert_eq!(DisplayUpdateSequence::watchy_update_partial().bits(), 0xfc);
    assert_eq!(DisplayUpdateSequence::watchy_update_full().bits(), 0xf4);
    let sequence = DisplayUpdateSequence::watchy_update_full()
        .union(DisplayUpdateSequence::disable_analog())
        .union(DisplayUpdateSequence::disable_clock_signal());
    assert_eq!(sequence.bits(), 0xf7);
}

#[test]
fn update_display_plan() {
    assert_eq!(
        update_display(DisplayUpdateSequence::drive_display_panel(), None),
        vec![command(0x22), data(&[0xc7]), command(0x20), Operation::WaitUntilIdle]
    );
    assert_eq!(
        update_display(DisplayUpdateSequence::drive_display_panel(), Some(RamOptions::Invert)),
        vec![
            command(0x21),
            data(&[0b1000]),
            command(0x22),
            data(&[0xc7]),
            command(0x20),
            Operation::WaitUntilIdle
        ]
    );
    assert_eq!(
        load_waveform_lut_from_otp(),
        vec![
            command(0x18),
            data(&[0x80]),
            command(0x22),
            data(&[0xb1]),
            command(0x20),
            Operation::WaitUntilIdle
        ]
    );
}

fn init_display(is_hybernating: bool) -> Vec<Operation> {
    let mut ops = Vec::new();
    if is_hybernating {
        ops.extend(hardware_reset());
    }
    ops.extend([
        command(0x12),
        Operation::DelayMs(10),
        command(0x01),
        data(&[0xc7, 0, 0]),
        command(0x3c),
        data(&[0b101]),
        command(0x22),
        data(&[0x80]),
    ]);
    ops.extend(whole_screen());
    ops
}

fn activate(sequence: u8) -> Vec<Operation> {
    vec![command(0x22), data(&[sequence]), command(0x20), Operation::WaitUntilIdle]
}

#[test]
fn watchy_plans() {
    for is_hybernating in [false, true] {
        assert_eq!(watchy_init_display(is_hybernating), init_display(is_hybernating));
        let mut expected = init_display(is_hybernating);
        expected.extend(activate(0xf8));
        assert_eq!(watchy_init(is_hybernating), expected);

        let mut full = expected.clone();
        full.extend(whole_screen());
        full.extend(activate(0xf4));
        assert_eq!(watchy_refresh_full(is_hybernating), full);

        let mut partial = expected.clone();
        partial.extend(whole_screen());
        partial.extend(activate(0xfc));
        assert_eq!(watchy_refresh(is_hybernating), partial);
        assert_eq!(watchy_refresh_partial(0, 0, 200, 200, is_hybernating), partial);
    }
    assert_eq!(watchy_power_on(), activate(0xf8));
    assert_eq!(watchy_power_off(), activate(0x83));
    assert_eq!(watchy_update_partial(), activate(0xfc));
    assert_eq!(watchy_update_full(), activate(0xf4));
}

#[test]
fn partial_refresh_is_aligned_to_bytes() {
    // Columns 13 to 22 lie in the bytes 1 and 2: columns 8 to 23.
    let plan = watchy_refresh_partial(13, 5, 10, 7, false);
    let mut expected = watchy_init(false);
    expected.extend(set_partial_ram_area(8, 5, 16, 7));
    expected.extend(activate(0xfc));
    assert_eq!(plan, expected);

    // Columns 16 to 23 are one byte already.
    let plan = watchy_refresh_partial(16, 0, 8, 1, false);
    let mut expected = watchy_init(false);
    expected.extend(set_partial_ram_area(16, 0, 8, 1));
    expected.extend(activate(0xfc));
    assert_eq!(plan, expected);

    // Column 7 alone is the first byte.
    let plan = watchy_refresh_partial(7, 0, 1, 1, true);
    let mut expected = watchy_init(true);
    expected.extend(set_partial_ram_area(0, 0, 8, 1));
    expected.extend(activate(0xfc));
    assert_eq!(plan, expected);
}

#[test]
fn display_handle_keeps_its_parts() {
    let mut display = GDEH0154D67::new(1u8, 2u16, 3u32, 4u64, String::from("timer"));
    {
        let (spi, dc, reset, busy, delay) = display.parts();
        *spi += 10;
        *dc += 10;
        *reset += 10;
        *busy += 10;
        delay.push('!');
    }
    let (spi, dc, reset, busy, delay) = display.parts();
    assert_eq!((*spi, *dc, *reset, *busy, delay.as_str()), (11, 12, 13, 14, "timer!"));
}

#[test]
fn display_error_wraps_a_bus_error() {
    let error: Error<u8> = Error::from(5u8);
    assert!(matches!(error, Error::Spi(5)));
}

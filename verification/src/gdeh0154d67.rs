//! Protocol core of the GDEH0154D67 e-paper display.
//!
//! The display takes commands and their parameters over a serial bus, with a
//! pin that tells the two apart, a reset pin and a pin that shows that it is
//! busy. Nothing that it takes depends on an answer, so every function here
//! is a plan: the list of the [`Operation`]s that the caller performs in order,
//! stopping at the first that fails.

use vstd::prelude::*;

verus! {

/// An error of the display driver. `E` is the error of the serial bus.
#[derive(Debug)]
pub enum Error<E> {
    /// A bus transfer failed.
    Spi(E),
}

impl<E> core::convert::From<E> for Error<E> {
    fn from(error: E) -> (wrapped: Self) {
        Error::Spi(error)
    }
}

impl<E> vstd::std_specs::convert::FromSpecImpl<E> for Error<E> {
    open spec fn obeys_from_spec() -> bool {
        true
    }

    open spec fn from_spec(error: E) -> Self {
        Error::Spi(error)
    }
}

/// Sets the number of rows and the order in which they are scanned.
pub const COMMAND_DRIVER_OUTPUT_CONTROL: u8 = 0x01;

/// Sends the display to sleep.
pub const COMMAND_DEEP_SLEEP_MODE: u8 = 0x10;

/// Sets how the place in RAM counts up while RAM is written.
pub const COMMAND_DATA_ENTRY_MODE_SETTING: u8 = 0x11;

/// Resets commands and parameters to their defaults.
pub const COMMAND_SW_RESET: u8 = 0x12;

/// Selects the temperature sensor.
pub const COMMAND_TEMPERATURE_SENSOR_CONTROL: u8 = 0x18;

/// Starts the update sequence.
pub const COMMAND_MASTER_ACTIVATION: u8 = 0x20;

/// Sets how the bits in RAM are drawn.
pub const COMMAND_DISPLAY_UPDATE_CONTROL_1: u8 = 0x21;

/// Sets the steps of the update sequence.
pub const COMMAND_DISPLAY_UPDATE_CONTROL_2: u8 = 0x22;

/// Writes to the black and white RAM.
pub const COMMAND_WRITE_RAM_BW: u8 = 0x24;

/// Sets the waveform of the border.
pub const COMMAND_BORDER_WAVEFORM_CONTROL: u8 = 0x3c;

/// Sets the first and last column of the window in RAM.
pub const COMMAND_SET_RAM_X_START_END_POSITION: u8 = 0x44;

/// Sets the first and last row of the window in RAM.
pub const COMMAND_SET_RAM_Y_START_END_POSITION: u8 = 0x45;

/// Sets the column at which writing to RAM starts.
pub const COMMAND_SET_RAM_X_ADDRESS_POSITION: u8 = 0x4e;

/// Sets the row at which writing to RAM starts.
pub const COMMAND_SET_RAM_Y_ADDRESS_POSITION: u8 = 0x4f;

/// Width of the display in pixels.
pub const WIDTH: u16 = 200;

/// Height of the display in pixels.
pub const HEIGHT: u16 = 200;

/// The sensor that the display takes the temperature from.
#[derive(Debug, Clone, Copy, PartialEq, Eq, Structural)]
pub enum TemperatureSensor {
    External,
    Internal,
}

/// How deep the display sleeps.
#[derive(Debug, Clone, Copy, PartialEq, Eq, Structural)]
pub enum DeepSleepMode {
    Normal,
    /// AKA Deep Sleep Mode 1
    RetainRAM,
    /// AKA Deep Sleep Mode 2
    ResetRAM,
}

/// The color of the border of the display.
#[derive(Debug, Clone, Copy, PartialEq, Eq, Structural)]
pub enum BorderColor {
    White,
    Black,
}

/// Control how the bits in RAM are drawn to the display
#[derive(Debug, Clone, Copy, PartialEq, Eq, Structural)]
pub enum RamOptions {
    /// Set 0 bytes to white and 1 bytes to black
    Normal,
    /// Set 1 bytes to black and ignore 0 bytes
    Bypass0,
    /// Set 0 bytes to black and 1 bytes to white
    Invert,
}

impl TemperatureSensor {
    /// The parameter that stands for the sensor.
    pub open spec fn code(self) -> u8 {
        match self {
            TemperatureSensor::External => 0x48,
            TemperatureSensor::Internal => 0x80,
        }
    }

    /// The parameter that stands for the sensor.
    pub fn bits(self) -> (code: u8)
        ensures
            code == self.code(),
    {
        match self {
            TemperatureSensor::External => 0x48,
            TemperatureSensor::Internal => 0x80,
        }
    }
}

impl DeepSleepMode {
    /// The parameter that stands for the mode.
    pub open spec fn code(self) -> u8 {
        match self {
            DeepSleepMode::Normal => 0b00,
            DeepSleepMode::RetainRAM => 0b01,
            DeepSleepMode::ResetRAM => 0b11,
        }
    }

    /// The parameter that stands for the mode.
    pub fn bits(self) -> (code: u8)
        ensures
            code == self.code(),
    {
        match self {
            DeepSleepMode::Normal => 0b00,
            DeepSleepMode::RetainRAM => 0b01,
            DeepSleepMode::ResetRAM => 0b11,
        }
    }
}

impl BorderColor {
    /// The parameter that stands for the color.
    pub open spec fn code(self) -> u8 {
        match self {
            BorderColor::White => 0b101,
            BorderColor::Black => 0b110,
        }
    }

    /// The parameter that stands for the color.
    pub fn bits(self) -> (code: u8)
        ensures
            code == self.code(),
    {
        match self {
            BorderColor::White => 0b101,
            BorderColor::Black => 0b110,
        }
    }
}

impl RamOptions {
    /// The parameter that stands for the options.
    pub open spec fn code(self) -> u8 {
        match self {
            RamOptions::Normal => 0,
            RamOptions::Bypass0 => 0b100,
            RamOptions::Invert => 0b1000,
        }
    }

    /// The parameter that stands for the options.
    pub fn bits(self) -> (code: u8)
        ensures
            code == self.code(),
    {
        match self {
            RamOptions::Normal => 0,
            RamOptions::Bypass0 => 0b100,
            RamOptions::Invert => 0b1000,
        }
    }
}

/// How the display counts the place in its memory up while it is written.
#[derive(Clone, Copy, Debug, PartialEq, Eq, Structural)]
pub struct DataEntryMode {
    /// The flags, as the parameter holds them.
    pub bits: u8,
}

impl DataEntryMode {
    /// Count up along the rows.
    pub fn x_increment() -> (mode: Self)
        ensures
            mode.bits == 1,
    {
        DataEntryMode { bits: 1 }
    }

    /// Count up along the columns.
    pub fn y_increment() -> (mode: Self)
        ensures
            mode.bits == 2,
    {
        DataEntryMode { bits: 2 }
    }

    /// Move along the columns first.
    pub fn addr_mode_y() -> (mode: Self)
        ensures
            mode.bits == 4,
    {
        DataEntryMode { bits: 4 }
    }

    /// Count up along rows and columns, and move along the rows first.
    pub fn default_mode() -> (mode: Self)
        ensures
            mode.bits == 3,
    {
        DataEntryMode { bits: 3 }
    }

    /// The flags as a parameter.
    pub fn bits(&self) -> (bits: u8)
        ensures
            bits == self.bits,
    {
        self.bits
    }
}

/// The steps of an update of the display, one bit a step.
#[derive(Clone, Copy, Debug, PartialEq, Eq, Structural)]
pub struct DisplayUpdateSequence {
    /// The flags, as the parameter holds them.
    pub bits: u8,
}

impl DisplayUpdateSequence {
    /// Switch the clock signal on.
    pub fn enable_clock_signal() -> (sequence: Self)
        ensures
            sequence.bits == 0x80,
    {
        DisplayUpdateSequence { bits: 0x80 }
    }

    /// Switch the analog part on.
    pub fn enable_analog() -> (sequence: Self)
        ensures
            sequence.bits == 0x40,
    {
        DisplayUpdateSequence { bits: 0x40 }
    }

    /// Load the temperature.
    pub fn load_temperature_value() -> (sequence: Self)
        ensures
            sequence.bits == 0x20,
    {
        DisplayUpdateSequence { bits: 0x20 }
    }

    /// Load the waveform table.
    pub fn load_lut() -> (sequence: Self)
        ensures
            sequence.bits == 0x10,
    {
        DisplayUpdateSequence { bits: 0x10 }
    }

    /// Toggle between DISPLAY mode 1 and 2
    pub fn use_display_mode_2() -> (sequence: Self)
        ensures
            sequence.bits == 0x8,
    {
        DisplayUpdateSequence { bits: 0x8 }
    }

    /// Drive the panel.
    pub fn display() -> (sequence: Self)
        ensures
            sequence.bits == 0x4,
    {
        DisplayUpdateSequence { bits: 0x4 }
    }

    /// Switch the analog part off.
    pub fn disable_analog() -> (sequence: Self)
        ensures
            sequence.bits == 0x2,
    {
        DisplayUpdateSequence { bits: 0x2 }
    }

    /// Switch the clock signal off.
    pub fn disable_clock_signal() -> (sequence: Self)
        ensures
            sequence.bits == 0x1,
    {
        DisplayUpdateSequence { bits: 0x1 }
    }

    /// Load the waveform table that fits the temperature.
    pub fn load_waveform_lut_from_otp() -> (sequence: Self)
        ensures
            sequence.bits == 0xb1,
    {
        DisplayUpdateSequence { bits: 0xb1 }
    }

    /// Drive the panel, with all that it needs switched on before and off after.
    pub fn drive_display_panel() -> (sequence: Self)
        ensures
            sequence.bits == 0xc7,
    {
        DisplayUpdateSequence { bits: 0xc7 }
    }

    /// Power the display on.
    pub fn watchy_display_power_on() -> (sequence: Self)
        ensures
            sequence.bits == 0xf8,
    {
        DisplayUpdateSequence { bits: 0xf8 }
    }

    /// Power the display off.
    pub fn watchy_display_power_off() -> (sequence: Self)
        ensures
            sequence.bits == 0x83,
    {
        DisplayUpdateSequence { bits: 0x83 }
    }

    /// Update a part of the display.
    pub fn watchy_update_partial() -> (sequence: Self)
        ensures
            sequence.bits == 0xfc,
    {
        DisplayUpdateSequence { bits: 0xfc }
    }

    /// Update the whole display.
    pub fn watchy_update_full() -> (sequence: Self)
        ensures
            sequence.bits == 0xf4,
    {
        DisplayUpdateSequence { bits: 0xf4 }
    }

    /// The flags as a parameter.
    pub fn bits(&self) -> (bits: u8)
        ensures
            bits == self.bits,
    {
        self.bits
    }

    /// The steps of this sequence and of `other`.
    pub fn union(self, other: Self) -> (both: Self)
        ensures
            both.bits == self.bits | other.bits,
    {
        DisplayUpdateSequence { bits: self.bits | other.bits }
    }
}

/// One thing that the caller does to the display.
#[derive(Clone, Copy, Debug, PartialEq, Eq, Structural)]
pub enum Operation {
    /// Wait for the given number of milliseconds.
    DelayMs(u32),
    /// Pull the reset pin low.
    ResetLow,
    /// Pull the reset pin high.
    ResetHigh,
    /// Pull the data/command pin low and write the command.
    Command(u8),
    /// Pull the data/command pin high and write the first `len` of the
    /// bytes, as one transfer.
    Data { len: u8, b0: u8, b1: u8, b2: u8, b3: u8 },
    /// Pull the data/command pin high and write the caller's image, as one
    /// transfer.
    Image,
    /// Wait until the busy pin is low.
    WaitUntilIdle,
}

/// A data transfer of one byte.
pub open spec fn data1(b0: u8) -> Operation {
    Operation::Data { len: 1, b0, b1: 0, b2: 0, b3: 0 }
}

/// A data transfer of two bytes.
pub open spec fn data2(b0: u8, b1: u8) -> Operation {
    Operation::Data { len: 2, b0, b1, b2: 0, b3: 0 }
}

/// A data transfer of three bytes.
pub open spec fn data3(b0: u8, b1: u8, b2: u8) -> Operation {
    Operation::Data { len: 3, b0, b1, b2, b3: 0 }
}

/// A data transfer of four bytes.
pub open spec fn data4(b0: u8, b1: u8, b2: u8, b3: u8) -> Operation {
    Operation::Data { len: 4, b0, b1, b2, b3 }
}

fn join(first: Vec<Operation>, second: Vec<Operation>) -> (both: Vec<Operation>)
    ensures
        both@ == first@ + second@,
{
    let mut both = first;
    let mut rest = second;
    both.append(&mut rest);
    both
}

/// The low eight bits of a number.
fn low_byte(value: u16) -> (byte: u8)
    ensures
        byte == value % 256,
{
    (value % 256) as u8
}

/// The left edge of the bytes that hold the column `x`.
pub open spec fn aligned_x(x: u16) -> u16 {
    (x - x % 8) as u16
}

/// The width of the whole bytes that hold `width` columns from `x` on.
pub open spec fn aligned_width(x: u16, width: u16) -> u16 {
    let reach = width + x % 8;
    if reach % 8 > 0 {
        (reach + 8 - reach % 8) as u16
    } else {
        reach as u16
    }
}

/// The plan of [`hardware_reset`].
pub open spec fn hardware_reset_plan() -> Seq<Operation> {
    seq![Operation::ResetLow, Operation::DelayMs(10), Operation::ResetHigh, Operation::DelayMs(10)]
}

/// Resets the display by its reset pin.
pub fn hardware_reset() -> (ops: Vec<Operation>)
    ensures
        ops@ == hardware_reset_plan(),
{
    vec![Operation::ResetLow, Operation::DelayMs(10), Operation::ResetHigh, Operation::DelayMs(10)]
}

/// The plan of [`software_reset`].
pub open spec fn software_reset_plan() -> Seq<Operation> {
    seq![Operation::Command(COMMAND_SW_RESET), Operation::DelayMs(10)]
}

/// Resets the commands and parameters to their S/W Reset default values
/// except Deep Sleep Mode. RAM is unaffected by this command.
pub fn software_reset() -> (ops: Vec<Operation>)
    ensures
        ops@ == software_reset_plan(),
{
    vec![Operation::Command(COMMAND_SW_RESET), Operation::DelayMs(10)]
}

/// The plan of [`set_driver_output`].
pub open spec fn set_driver_output_plan() -> Seq<Operation> {
    seq![Operation::Command(COMMAND_DRIVER_OUTPUT_CONTROL), data3(0xc7, 0x00, 0x00)]
}

/// Sets the number of rows of the display and the order in which they are
/// scanned.
pub fn set_driver_output() -> (ops: Vec<Operation>)
    ensures
        ops@ == set_driver_output_plan(),
{
    vec![
        Operation::Command(COMMAND_DRIVER_OUTPUT_CONTROL),
        Operation::Data { len: 3, b0: 0xc7, b1: 0x00, b2: 0x00, b3: 0 },
    ]
}

/// The plan of [`set_data_entry_mode`].
pub open spec fn set_data_entry_mode_plan(data_entry_mode: DataEntryMode) -> Seq<Operation> {
    seq![Operation::Command(COMMAND_DATA_ENTRY_MODE_SETTING), data1(data_entry_mode.bits)]
}

/// Set how the X and Y coordinates are incremented while drawing to the display.
pub fn set_data_entry_mode(data_entry_mode: DataEntryMode) -> (ops: Vec<Operation>)
    ensures
        ops@ == set_data_entry_mode_plan(data_entry_mode),
{
    vec![
        Operation::Command(COMMAND_DATA_ENTRY_MODE_SETTING),
        Operation::Data { len: 1, b0: data_entry_mode.bits(), b1: 0, b2: 0, b3: 0 },
    ]
}

/// The plan of [`set_ram_x_start_end_position`].
pub open spec fn set_ram_x_start_end_position_plan(x: u16, width: u16) -> Seq<Operation> {
    seq![
        Operation::Command(COMMAND_SET_RAM_X_START_END_POSITION),
        data2(((x / 8) % 256) as u8, (((x + width - 1) / 8) % 256) as u8),
    ]
}

/// Set the horizontal window in display RAM where image data will be written.
/// The parameters are the first and the last column of the window, in bytes
/// of eight pixels, each cut to eight bits.
pub fn set_ram_x_start_end_position(x: u16, width: u16) -> (ops: Vec<Operation>)
    requires
        1 <= x + width <= 65535,
    ensures
        ops@ == set_ram_x_start_end_position_plan(x, width),
{
    vec![
        Operation::Command(COMMAND_SET_RAM_X_START_END_POSITION),
        Operation::Data {
            len: 2,
            b0: low_byte(x / 8),
            b1: low_byte((x + width - 1) / 8),
            b2: 0,
            b3: 0,
        },
    ]
}

/// The plan of [`set_ram_y_start_end_position`].
pub open spec fn set_ram_y_start_end_position_plan(y: u16, height: u16) -> Seq<Operation> {
    seq![
        Operation::Command(COMMAND_SET_RAM_Y_START_END_POSITION),
        data4(
            (y % 0xFF) as u8,
            ((y / 0xFF) % 256) as u8,
            ((y + height - 1) % 0xFF) as u8,
            (((y + height - 1) / 0xFF) % 256) as u8,
        ),
    ]
}

/// Set the vertical window in display RAM where image data will be written.
/// The parameters are the first and the last row of the window, each as its
/// remainder and its quotient by 255, cut to eight bits.
pub fn set_ram_y_start_end_position(y: u16, height: u16) -> (ops: Vec<Operation>)
    requires
        1 <= y + height <= 65535,
    ensures
        ops@ == set_ram_y_start_end_position_plan(y, height),
{
    vec![
        Operation::Command(COMMAND_SET_RAM_Y_START_END_POSITION),
        Operation::Data {
            len: 4,
            b0: low_byte(y % 0xFF),
            b1: low_byte(y / 0xFF),
            b2: low_byte((y + height - 1) % 0xFF),
            b3: low_byte((y + height - 1) / 0xFF),
        },
    ]
}

/// The plan of [`set_ram_x_address_position`].
pub open spec fn set_ram_x_address_position_plan(x: u16) -> Seq<Operation> {
    seq![
        Operation::Command(COMMAND_SET_RAM_X_ADDRESS_POSITION),
        data1(((x / 8) % 256) as u8),
    ]
}

/// Set the absolute starting X position in RAM where data will be written.
pub fn set_ram_x_address_position(x: u16) -> (ops: Vec<Operation>)
    ensures
        ops@ == set_ram_x_address_position_plan(x),
{
    vec![
        Operation::Command(COMMAND_SET_RAM_X_ADDRESS_POSITION),
        Operation::Data { len: 1, b0: low_byte(x / 8), b1: 0, b2: 0, b3: 0 },
    ]
}

/// The plan of [`set_ram_y_address_position`].
pub open spec fn set_ram_y_address_position_plan(y: u16) -> Seq<Operation> {
    seq![
        Operation::Command(COMMAND_SET_RAM_Y_ADDRESS_POSITION),
        data2((y % 256) as u8, (y / 256) as u8),
    ]
}

/// Set the absolute starting Y position in RAM where data will be written.
pub fn set_ram_y_address_position(y: u16) -> (ops: Vec<Operation>)
    ensures
        ops@ == set_ram_y_address_position_plan(y),
{
    vec![
        Operation::Command(COMMAND_SET_RAM_Y_ADDRESS_POSITION),
        Operation::Data { len: 2, b0: low_byte(y % 256), b1: low_byte(y / 256), b2: 0, b3: 0 },
    ]
}

/// The plan of [`set_border_waveform`].
pub open spec fn set_border_waveform_plan(border_waveform: u8) -> Seq<Operation> {
    seq![Operation::Command(COMMAND_BORDER_WAVEFORM_CONTROL), data1(border_waveform)]
}

/// Sets the waveform of the border.
pub fn set_border_waveform(border_waveform: u8) -> (ops: Vec<Operation>)
    ensures
        ops@ == set_border_waveform_plan(border_waveform),
{
    vec![
        Operation::Command(COMMAND_BORDER_WAVEFORM_CONTROL),
        Operation::Data { len: 1, b0: border_waveform, b1: 0, b2: 0, b3: 0 },
    ]
}

/// The plan of [`set_border_color`].
pub open spec fn set_border_color_plan(color: BorderColor) -> Seq<Operation> {
    set_border_waveform_plan(color.code())
}

/// Sets the color of the border.
pub fn set_border_color(color: BorderColor) -> (ops: Vec<Operation>)
    ensures
        ops@ == set_border_color_plan(color),
{
    set_border_waveform(color.bits())
}

/// The plan of [`select_temperature_sensor`].
pub open spec fn select_temperature_sensor_plan(sensor: TemperatureSensor) -> Seq<Operation> {
    seq![Operation::Command(COMMAND_TEMPERATURE_SENSOR_CONTROL), data1(sensor.code())]
}

/// Selects the sensor that the display takes the temperature from.
pub fn select_temperature_sensor(sensor: TemperatureSensor) -> (ops: Vec<Operation>)
    ensures
        ops@ == select_temperature_sensor_plan(sensor),
{
    vec![
        Operation::Command(COMMAND_TEMPERATURE_SENSOR_CONTROL),
        Operation::Data { len: 1, b0: sensor.bits(), b1: 0, b2: 0, b3: 0 },
    ]
}

/// The plan of [`set_display_update_ram_options`].
pub open spec fn set_display_update_ram_options_plan(options: RamOptions) -> Seq<Operation> {
    seq![Operation::Command(COMMAND_DISPLAY_UPDATE_CONTROL_1), data1(options.code())]
}

/// Sets how the bits in RAM are drawn at the next update.
pub fn set_display_update_ram_options(options: RamOptions) -> (ops: Vec<Operation>)
    ensures
        ops@ == set_display_update_ram_options_plan(options),
{
    vec![
        Operation::Command(COMMAND_DISPLAY_UPDATE_CONTROL_1),
        Operation::Data { len: 1, b0: options.bits(), b1: 0, b2: 0, b3: 0 },
    ]
}

/// The plan of [`set_display_update_sequence`].
pub open spec fn set_display_update_sequence_plan(sequence: DisplayUpdateSequence) -> Seq<Operation> {
    seq![Operation::Command(COMMAND_DISPLAY_UPDATE_CONTROL_2), data1(sequence.bits)]
}

/// Sets the steps of the next update.
pub fn set_display_update_sequence(sequence: DisplayUpdateSequence) -> (ops: Vec<Operation>)
    ensures
        ops@ == set_display_update_sequence_plan(sequence),
{
    vec![
        Operation::Command(COMMAND_DISPLAY_UPDATE_CONTROL_2),
        Operation::Data { len: 1, b0: sequence.bits(), b1: 0, b2: 0, b3: 0 },
    ]
}

/// The plan of [`master_activation`].
pub open spec fn master_activation_plan() -> Seq<Operation> {
    seq![Operation::Command(COMMAND_MASTER_ACTIVATION), Operation::WaitUntilIdle]
}

/// Starts the update, and waits until the display is done with it.
pub fn master_activation() -> (ops: Vec<Operation>)
    ensures
        ops@ == master_activation_plan(),
{
    vec![Operation::Command(COMMAND_MASTER_ACTIVATION), Operation::WaitUntilIdle]
}

/// The plan of [`write_bw_ram`].
pub open spec fn write_bw_ram_plan() -> Seq<Operation> {
    seq![Operation::Command(COMMAND_WRITE_RAM_BW), Operation::Image]
}

/// Writes the caller's image to the black and white RAM.
pub fn write_bw_ram() -> (ops: Vec<Operation>)
    ensures
        ops@ == write_bw_ram_plan(),
{
    vec![Operation::Command(COMMAND_WRITE_RAM_BW), Operation::Image]
}

/// The plan of [`write_image_data`].
pub open spec fn write_image_data_plan() -> Seq<Operation> {
    write_bw_ram_plan()
}

/// Writes the caller's image to the display.
pub fn write_image_data() -> (ops: Vec<Operation>)
    ensures
        ops@ == write_image_data_plan(),
{
    write_bw_ram()
}

/// The plan of [`set_deep_sleep_mode`].
pub open spec fn set_deep_sleep_mode_plan(mode: DeepSleepMode) -> Seq<Operation> {
    seq![Operation::Command(COMMAND_DEEP_SLEEP_MODE), data1(mode.code())]
}

/// Sends the display to sleep.
pub fn set_deep_sleep_mode(mode: DeepSleepMode) -> (ops: Vec<Operation>)
    ensures
        ops@ == set_deep_sleep_mode_plan(mode),
{
    vec![
        Operation::Command(COMMAND_DEEP_SLEEP_MODE),
        Operation::Data { len: 1, b0: mode.bits(), b1: 0, b2: 0, b3: 0 },
    ]
}

/// The plan of [`hibernate`].
pub open spec fn hibernate_plan() -> Seq<Operation> {
    set_deep_sleep_mode_plan(DeepSleepMode::RetainRAM)
}

/// Sends the display to the sleep that keeps its RAM.
pub fn hibernate() -> (ops: Vec<Operation>)
    ensures
        ops@ == hibernate_plan(),
{
    set_deep_sleep_mode(DeepSleepMode::RetainRAM)
}

/// The plan of [`init`].
pub open spec fn init_plan() -> Seq<Operation> {
    seq![Operation::DelayMs(10)] + hardware_reset_plan() + software_reset_plan()
        + set_driver_output_plan()
}

/// Brings the display up after power has been supplied: a wait of 10 ms, a
/// reset by pin and by command, and the driver output.
pub fn init() -> (ops: Vec<Operation>)
    ensures
        ops@ == init_plan(),
{
    let ops = vec![Operation::DelayMs(10)];
    let ops = join(ops, hardware_reset());
    let ops = join(ops, software_reset());
    join(ops, set_driver_output())
}

/// The plan of [`set_partial_ram_area`].
pub open spec fn set_partial_ram_area_plan(x: u16, y: u16, width: u16, height: u16) -> Seq<Operation> {
    set_data_entry_mode_plan(DataEntryMode { bits: 3 }) + set_ram_x_start_end_position_plan(
        x,
        width,
    ) + set_ram_y_start_end_position_plan(y, height) + set_ram_x_address_position_plan(x)
        + set_ram_y_address_position_plan(y)
}

/// Sets the window of the display RAM that image data is written to, and the
/// place in it where writing starts.
pub fn set_partial_ram_area(x: u16, y: u16, width: u16, height: u16) -> (ops: Vec<Operation>)
    requires
        1 <= x + width <= 65535,
        1 <= y + height <= 65535,
    ensures
        ops@ == set_partial_ram_area_plan(x, y, width, height),
{
    let ops = set_data_entry_mode(DataEntryMode::default_mode());
    let ops = join(ops, set_ram_x_start_end_position(x, width));
    let ops = join(ops, set_ram_y_start_end_position(y, height));
    let ops = join(ops, set_ram_x_address_position(x));
    join(ops, set_ram_y_address_position(y))
}

/// The plan of [`update_display`].
pub open spec fn update_display_plan(sequence: DisplayUpdateSequence, options: Option<RamOptions>) -> Seq<Operation> {
    (match options {
        Some(options) => set_display_update_ram_options_plan(options),
        None => Seq::empty(),
    }) + set_display_update_sequence_plan(sequence) + master_activation_plan()
}

/// Update the display with the contents of the RAM.
pub fn update_display(sequence: DisplayUpdateSequence, options: Option<RamOptions>) -> (ops: Vec<Operation>)
    ensures
        ops@ == update_display_plan(sequence, options),
{
    let ops = match options {
        Some(options) => set_display_update_ram_options(options),
        None => Vec::new(),
    };
    let ops = join(ops, set_display_update_sequence(sequence));
    join(ops, master_activation())
}

/// The plan of [`load_waveform_lut_from_otp`].
pub open spec fn load_waveform_lut_from_otp_plan() -> Seq<Operation> {
    select_temperature_sensor_plan(TemperatureSensor::Internal) + update_display_plan(
        DisplayUpdateSequence { bits: 0xb1 },
        None,
    )
}

/// Loads the waveform table that fits the temperature of the internal sensor.
pub fn load_waveform_lut_from_otp() -> (ops: Vec<Operation>)
    ensures
        ops@ == load_waveform_lut_from_otp_plan(),
{
    let ops = select_temperature_sensor(TemperatureSensor::Internal);
    join(ops, update_display(DisplayUpdateSequence::load_waveform_lut_from_otp(), None))
}

/// The plan of [`watchy_init_display`].
pub open spec fn watchy_init_display_plan(is_hybernating: bool) -> Seq<Operation> {
    (if is_hybernating {
        hardware_reset_plan()
    } else {
        Seq::empty()
    }) + software_reset_plan() + set_driver_output_plan() + set_border_waveform_plan(0b101)
        + set_display_update_sequence_plan(DisplayUpdateSequence { bits: 0x80 })
        + set_partial_ram_area_plan(0, 0, WIDTH, HEIGHT)
}

/// Resets the display, by its pin too if it sleeps, and sets it up for the
/// whole screen.
pub fn watchy_init_display(is_hybernating: bool) -> (ops: Vec<Operation>)
    ensures
        ops@ == watchy_init_display_plan(is_hybernating),
{
    let ops = if is_hybernating {
        hardware_reset()
    } else {
        Vec::new()
    };
    let ops = join(ops, software_reset());
    let ops = join(ops, set_driver_output());
    let ops = join(ops, set_border_waveform(0b101));
    let ops = join(ops, set_display_update_sequence(DisplayUpdateSequence::enable_clock_signal()));
    join(ops, set_partial_ram_area(0, 0, WIDTH, HEIGHT))
}

/// The plan of [`watchy_power_on`].
pub open spec fn watchy_power_on_plan() -> Seq<Operation> {
    set_display_update_sequence_plan(DisplayUpdateSequence { bits: 0xf8 })
        + master_activation_plan()
}

/// Powers the display on.
pub fn watchy_power_on() -> (ops: Vec<Operation>)
    ensures
        ops@ == watchy_power_on_plan(),
{
    let ops = set_display_update_sequence(DisplayUpdateSequence::watchy_display_power_on());
    join(ops, master_activation())
}

/// The plan of [`watchy_init`].
pub open spec fn watchy_init_plan(is_hybernating: bool) -> Seq<Operation> {
    watchy_init_display_plan(is_hybernating) + watchy_power_on_plan()
}

/// Sets the display up and powers it on.
pub fn watchy_init(is_hybernating: bool) -> (ops: Vec<Operation>)
    ensures
        ops@ == watchy_init_plan(is_hybernating),
{
    join(watchy_init_display(is_hybernating), watchy_power_on())
}

/// The plan of [`watchy_power_off`].
pub open spec fn watchy_power_off_plan() -> Seq<Operation> {
    set_display_update_sequence_plan(DisplayUpdateSequence { bits: 0x83 })
        + master_activation_plan()
}

/// Powers the display off.
pub fn watchy_power_off() -> (ops: Vec<Operation>)
    ensures
        ops@ == watchy_power_off_plan(),
{
    let ops = set_display_update_sequence(DisplayUpdateSequence::watchy_display_power_off());
    join(ops, master_activation())
}

/// The plan of [`watchy_update_partial`].
pub open spec fn watchy_update_partial_plan() -> Seq<Operation> {
    set_display_update_sequence_plan(DisplayUpdateSequence { bits: 0xfc })
        + master_activation_plan()
}

/// Updates the part of the display that was set.
pub fn watchy_update_partial() -> (ops: Vec<Operation>)
    ensures
        ops@ == watchy_update_partial_plan(),
{
    let ops = set_display_update_sequence(DisplayUpdateSequence::watchy_update_partial());
    join(ops, master_activation())
}

/// The plan of [`watchy_update_full`].
pub open spec fn watchy_update_full_plan() -> Seq<Operation> {
    set_display_update_sequence_plan(DisplayUpdateSequence { bits: 0xf4 })
        + master_activation_plan()
}

/// Updates the whole display.
pub fn watchy_update_full() -> (ops: Vec<Operation>)
    ensures
        ops@ == watchy_update_full_plan(),
{
    let ops = set_display_update_sequence(DisplayUpdateSequence::watchy_update_full());
    join(ops, master_activation())
}

/// The plan of [`watchy_refresh_full`].
pub open spec fn watchy_refresh_full_plan(is_hybernating: bool) -> Seq<Operation> {
    watchy_init_plan(is_hybernating) + set_partial_ram_area_plan(0, 0, WIDTH, HEIGHT)
        + watchy_update_full_plan()
}

/// Sets the display up and updates the whole of it.
pub fn watchy_refresh_full(is_hybernating: bool) -> (ops: Vec<Operation>)
    ensures
        ops@ == watchy_refresh_full_plan(is_hybernating),
{
    let ops = watchy_init(is_hybernating);
    let ops = join(ops, set_partial_ram_area(0, 0, WIDTH, HEIGHT));
    join(ops, watchy_update_full())
}

/// The plan of [`watchy_refresh_partial`].
pub open spec fn watchy_refresh_partial_plan(x: u16, y: u16, width: u16, height: u16, is_hybernating: bool) -> Seq<Operation> {
    watchy_init_plan(is_hybernating) + set_partial_ram_area_plan(
        aligned_x(x),
        y,
        aligned_width(x, width),
        height,
    ) + watchy_update_partial_plan()
}

/// Sets the display up and updates the part of it that holds the given
/// rectangle. The part starts at the byte that holds the left edge, and is
/// as wide as the whole bytes that hold the rectangle.
pub fn watchy_refresh_partial(x: u16, y: u16, width: u16, height: u16, is_hybernating: bool) -> (ops: Vec<Operation>)
    requires
        1 <= x + width <= 65528,
        1 <= y + height <= 65535,
    ensures
        ops@ == watchy_refresh_partial_plan(x, y, width, height, is_hybernating),
{
    let width = width + (x % 8);
    let width = if width % 8 > 0 {
        width + 8 - (width % 8)
    } else {
        width
    };
    let x = x - (x % 8);

    let ops = watchy_init(is_hybernating);
    let ops = join(ops, set_partial_ram_area(x, y, width, height));
    join(ops, watchy_update_partial())
}

/// The plan of [`watchy_refresh`].
pub open spec fn watchy_refresh_plan(is_hybernating: bool) -> Seq<Operation> {
    watchy_refresh_partial_plan(0, 0, WIDTH, HEIGHT, is_hybernating)
}

/// Sets the display up and updates all of it as a part.
pub fn watchy_refresh(is_hybernating: bool) -> (ops: Vec<Operation>)
    ensures
        ops@ == watchy_refresh_plan(is_hybernating),
{
    watchy_refresh_partial(0, 0, WIDTH, HEIGHT, is_hybernating)
}

/// A display on its bus and pins.
pub struct GDEH0154D67<SPI, DC, RES, Busy, Delay> {
    spi: SPI,
    dc: DC,
    reset: RES,
    busy: Busy,
    delay: Delay,
}

impl<SPI, DC, RES, Busy, Delay> GDEH0154D67<SPI, DC, RES, Busy, Delay> {
    /// The bus, the three pins and the timer, in the order of [`Self::new`].
    pub closed spec fn spec_parts(&self) -> (SPI, DC, RES, Busy, Delay) {
        (self.spi, self.dc, self.reset, self.busy, self.delay)
    }

    /// The display on the bus `spi`, with its data/command, reset and busy
    /// pins, and a timer to wait with.
    pub fn new(spi: SPI, data_command_pin: DC, reset_pin: RES, busy_pin: Busy, delay: Delay) -> (display:
        Self)
        ensures
            display.spec_parts() == (spi, data_command_pin, reset_pin, busy_pin, delay),
    {
        GDEH0154D67 { spi, dc: data_command_pin, reset: reset_pin, busy: busy_pin, delay }
    }

    /// The bus, the three pins and the timer, to perform an operation with.
    pub fn parts(&mut self) -> (parts: (&mut SPI, &mut DC, &mut RES, &mut Busy, &mut Delay))
        ensures
            (*parts.0, *parts.1, *parts.2, *parts.3, *parts.4) == old(self).spec_parts(),
            final(self).spec_parts() == (
                *final(parts.0),
                *final(parts.1),
                *final(parts.2),
                *final(parts.3),
                *final(parts.4),
            ),
    {
        (&mut self.spi, &mut self.dc, &mut self.reset, &mut self.busy, &mut self.delay)
    }
}

} // verus!

use watchy_core::bma423::flags::{Feature, PowerMode, SensorPower, SensorStatus};
use watchy_core::bma423::initialization::Initialization;
use watchy_core::bma423::transaction::{port_frame, Request, Response};
use watchy_core::bma423::{
    accelerometer_xyz, check_chip_id, reset_step_counter, sensor_temperature_as_celsius,
    sensor_time, set_interrupt_pin_config, step_count, Error, InterruptPin, InterruptPinConfig,
    InterruptPinDrain, InterruptPinLevel, InterruptPinTriggerCondition, BMA423,
};

#[test]
fn test_temperature_sensor_celsius_conversion() {
    assert_eq!(Some(150), sensor_temperature_as_celsius(0x7f));
    assert_eq!(Some(23), sensor_temperature_as_celsius(0x00));
    assert_eq!(Some(-104), sensor_temperature_as_celsius(0x81));
    assert_eq!(None, sensor_temperature_as_celsius(0x80))
}

#[test]
fn temperature_below_zero() {
    assert_eq!(Some(22), sensor_temperature_as_celsius(0xFF));
    assert_eq!(Some(0), sensor_temperature_as_celsius(0xE9));
    assert_eq!(Some(24), sensor_temperature_as_celsius(0x01));
}

#[test]
fn interrupt_pin_config_bits() {
    let config = InterruptPinConfig {
        trigger_condition: InterruptPinTriggerCondition::Edge,
        level: InterruptPinLevel::ActiveLow,
        drain_behavior: InterruptPinDrain::OpenDrain,
        output_enabled: true,
        input_enabled: false,
    };
    assert_eq!(config.bits(), 0b01101);
    let all = InterruptPinConfig {
        trigger_condition: InterruptPinTriggerCondition::Edge,
        level: InterruptPinLevel::ActiveHigh,
        drain_behavior: InterruptPinDrain::OpenDrain,
        output_enabled: true,
        input_enabled: true,
    };
    assert_eq!(all.bits(), 0b11111);
    let none = InterruptPinConfig {
        trigger_condition: InterruptPinTriggerCondition::Level,
        level: InterruptPinLevel::ActiveLow,
        drain_behavior: InterruptPinDrain::PushPull,
        output_enabled: false,
        input_enabled: false,
    };
    assert_eq!(none.bits(), 0);
}

#[test]
fn interrupt_pin_config_from_bits() {
    let config = InterruptPinConfig::from_bits_truncate(0b10101);
    assert_eq!(config.trigger_condition, InterruptPinTriggerCondition::Level);
    assert_eq!(config.level, InterruptPinLevel::ActiveHigh);
    assert_eq!(config.drain_behavior, InterruptPinDrain::PushPull);
    assert!(!config.output_enabled);
    assert!(config.input_enabled);

    let config = InterruptPinConfig::from_bits_truncate(0b1110_1010);
    assert_eq!(config.trigger_condition, InterruptPinTriggerCondition::Edge);
    assert_eq!(config.level, InterruptPinLevel::ActiveLow);
    assert_eq!(config.drain_behavior, InterruptPinDrain::OpenDrain);
    assert!(config.output_enabled);
    assert!(!config.input_enabled);
}

#[test]
fn interrupt_pin_config_frame() {
    let config = InterruptPinConfig {
        trigger_condition: InterruptPinTriggerCondition::Level,
        level: InterruptPinLevel::ActiveHigh,
        drain_behavior: InterruptPinDrain::PushPull,
        output_enabled: true,
        input_enabled: false,
    };
    assert_eq!(set_interrupt_pin_config(InterruptPin::Pin1, config), [0x53, 0b01010]);
    assert_eq!(set_interrupt_pin_config(InterruptPin::Pin2, config), [0x54, 0b01010]);
}

#[test]
fn readings_from_registers() {
    assert_eq!(sensor_time([0x01, 0x02, 0x03]), 0x030201);
    assert_eq!(sensor_time([0xFF, 0xFF, 0xFF]), 0xFFFFFF);
    assert_eq!(step_count([0x78, 0x56, 0x34, 0x12]), 0x12345678);
    assert_eq!(step_count([0xFF, 0xFF, 0xFF, 0xFF]), u32::MAX);
    assert_eq!(step_count([0, 0, 0, 0]), 0);
    assert_eq!(
        accelerometer_xyz([0x10, 0x00, 0xF0, 0xFF, 0x34, 0x12]),
        (0x001, 0xFFF, 0x123)
    );
    assert_eq!(accelerometer_xyz([0x0F, 0x00, 0x00, 0x80, 0xFF, 0xFF]), (0, 0x800, 0xFFF));
}

#[test]
fn chip_id_is_checked() {
    assert!(matches!(check_chip_id::<()>(0x13), Ok(())));
    assert!(matches!(check_chip_id::<()>(0x12), Err(Error::InvalidChipId(0x12))));
    assert!(matches!(check_chip_id::<()>(0x00), Err(Error::InvalidChipId(0x00))));
}

#[test]
fn step_counter_reset_sets_one_flag() {
    let mut window = [0u8; 64];
    window[0x37] = 0b0000_0011;
    window[0x36] = 0xAA;
    reset_step_counter(&mut window);
    let mut expected = [0u8; 64];
    expected[0x37] = 0b0000_0111;
    expected[0x36] = 0xAA;
    assert_eq!(window, expected);
    reset_step_counter(&mut window);
    assert_eq!(window, expected);
}

#[test]
fn power_mode_flags() {
    let mode = PowerMode::from_bits_truncate(0xFF);
    assert_eq!(mode.bits(), 0b11);
    assert!(mode.contains(PowerMode::advanced_power_save()));
    assert!(mode.contains(PowerMode::fifo_self_wakeup()));
    let cleared = mode.difference(PowerMode::advanced_power_save());
    assert_eq!(cleared.bits(), 0b10);
    assert!(!cleared.contains(PowerMode::advanced_power_save()));
    assert_eq!(PowerMode::empty().bits(), 0);
    assert!(mode.contains(PowerMode::empty()));
    assert_eq!(PowerMode::from_bits_truncate(0xFC), PowerMode::empty());
}

#[test]
fn other_flags_are_cut_to_their_bits() {
    assert_eq!(SensorPower::from_bits_truncate(0xFF).bits(), 0b101);
    assert!(SensorPower::from_bits_truncate(0x04).contains(SensorPower::accelerometer()));
    assert!(!SensorPower::from_bits_truncate(0x04).contains(SensorPower::auxiliary()));
    assert_eq!(SensorStatus::from_bits_truncate(0xFF).bits(), 0b0111_0100);
    assert!(SensorStatus::from_bits_truncate(0x40).contains(SensorStatus::accelerometer_data_ready()));
    assert_eq!(SensorStatus::command_decoder_ready().bits(), 0x10);
    assert_eq!(Feature::from_bits_truncate(0xFF).bits(), 0b11111);
    assert_eq!(Feature::step_counter().bits(), 0b10);
    assert_eq!(Feature::wrist_tilt().bits(), 0b10000);
}

#[test]
fn handle_keeps_its_parts() {
    let mut sensor = BMA423::new(0x18, String::from("bus"), 7u32);
    assert_eq!(sensor.address(), 0x18);
    {
        let (bus, delay) = sensor.parts();
        bus.push_str(" in use");
        *delay += 1;
    }
    let (bus, delay) = sensor.parts();
    assert_eq!(bus.as_str(), "bus in use");
    assert_eq!(*delay, 8);
}

/// What a device answers during its start: its chip id, and its status at
/// each look.
struct Startup {
    chip_id: u8,
    status: Vec<u8>,
    looks: usize,
    writes: Vec<Vec<u8>>,
    delays: Vec<u32>,
    fail_write: Option<usize>,
}

fn start(startup: &mut Startup, image: &[u8]) -> Result<(), Error<u8>> {
    let mut initialization = Initialization::<u8>::new();
    for _ in 0..100_000 {
        let response = match initialization.request() {
            Request::ReadRegister { register: 0x00 } => Response::Value(startup.chip_id),
            Request::ReadRegister { register: 0x2A } => {
                startup.looks += 1;
                Response::Value(startup.status[startup.looks - 1])
            }
            Request::ReadRegister { register: 0x5B } => {
                Response::Value(startup.writes.iter().rev().find(|w| w[0] == 0x5B).unwrap()[1])
            }
            Request::ReadRegister { register: 0x5C } => {
                Response::Value(startup.writes.iter().rev().find(|w| w[0] == 0x5C).unwrap()[1])
            }
            Request::ReadRegister { register } => panic!("read of register {register}"),
            Request::WriteRegister { register, value } => {
                startup.writes.push(vec![register, value]);
                if startup.fail_write == Some(startup.writes.len() - 1) {
                    Response::Failed(0xEE)
                } else {
                    Response::Completed
                }
            }
            Request::WritePort { offset, len } => {
                startup.writes.push(port_frame(image, offset, len).to_vec());
                if startup.fail_write == Some(startup.writes.len() - 1) {
                    Response::Failed(0xEE)
                } else {
                    Response::Completed
                }
            }
            Request::Delay { micros } => {
                startup.delays.push(micros);
                Response::Completed
            }
            Request::ReadPort { .. } | Request::Stage => panic!("not part of a start"),
            Request::Done => return initialization.result().unwrap(),
        };
        assert!(initialization.accepts(&response));
        initialization = initialization.respond(response);
    }
    panic!("the initialization does not end");
}

fn image() -> Vec<u8> {
    (0..0x1800usize).map(|i| (i % 251) as u8).collect()
}

#[test]
fn initialization_loads_the_image_and_waits_for_the_device() {
    let image = image();
    let mut startup = Startup {
        chip_id: 0x13,
        status: vec![0x00, 0xF0, 0x01],
        looks: 0,
        writes: Vec::new(),
        delays: Vec::new(),
        fail_write: None,
    };
    assert!(matches!(start(&mut startup, &image), Ok(())));
    assert_eq!(startup.looks, 3);
    assert_eq!(startup.delays, vec![450, 50_000, 50_000, 50_000]);
    assert_eq!(startup.writes[0], vec![0x7C, 0x00]);
    assert_eq!(startup.writes[1], vec![0x59, 0x00]);
    assert_eq!(startup.writes[2], vec![0x5B, 0x00]);
    assert_eq!(startup.writes[3], vec![0x5C, 0x00]);
    let port: Vec<&Vec<u8>> = startup.writes.iter().filter(|w| w[0] == 0x5E).collect();
    assert_eq!(port.len(), 0x1800 / 8);
    let loaded: Vec<u8> = port.iter().flat_map(|w| w[1..].iter().copied()).collect();
    assert_eq!(loaded, image);
    let count = startup.writes.len();
    assert_eq!(startup.writes[count - 2], vec![0x59, 0x01]);
    assert_eq!(startup.writes[count - 1], vec![0x7C, 0x01]);
    // The pointer ends at the end of the image.
    let lsb = startup.writes.iter().rev().find(|w| w[0] == 0x5B).unwrap()[1];
    let msb = startup.writes.iter().rev().find(|w| w[0] == 0x5C).unwrap()[1];
    assert_eq!((lsb, msb), (0x00, 0xC0));
}

#[test]
fn initialization_refuses_another_chip() {
    let mut startup = Startup {
        chip_id: 0x14,
        status: vec![],
        looks: 0,
        writes: Vec::new(),
        delays: Vec::new(),
        fail_write: None,
    };
    assert!(matches!(start(&mut startup, &image()), Err(Error::InvalidChipId(0x14))));
    assert!(startup.writes.is_empty());
    assert!(startup.delays.is_empty());
}

#[test]
fn initialization_gives_up_after_four_looks() {
    let mut startup = Startup {
        chip_id: 0x13,
        status: vec![0x00, 0x10, 0x20, 0x00, 0x01],
        looks: 0,
        writes: Vec::new(),
        delays: Vec::new(),
        fail_write: None,
    };
    assert!(matches!(start(&mut startup, &image()), Err(Error::ASICInitialization)));
    assert_eq!(startup.looks, 4);
    assert_eq!(startup.delays, vec![450, 50_000, 50_000, 50_000, 50_000]);
    assert_eq!(startup.writes.last(), Some(&vec![0x59, 0x01]));
}

#[test]
fn initialization_fails_on_an_error_status() {
    for status in [0x02u8, 0x03, 0x04, 0x0F, 0xF2] {
        let mut startup = Startup {
            chip_id: 0x13,
            status: vec![0x00, status],
            looks: 0,
            writes: Vec::new(),
            delays: Vec::new(),
            fail_write: None,
        };
        assert!(matches!(start(&mut startup, &image()), Err(Error::ASICInitialization)));
        assert_eq!(startup.looks, 2);
    }
}

#[test]
fn initialization_ends_at_the_first_bus_error() {
    for fail_write in [0usize, 1, 2, 10, 1000] {
        let mut startup = Startup {
            chip_id: 0x13,
            status: vec![0x01],
            looks: 0,
            writes: Vec::new(),
            delays: Vec::new(),
            fail_write: Some(fail_write),
        };
        assert!(matches!(start(&mut startup, &image()), Err(Error::Bus(0xEE))));
        assert_eq!(startup.writes.len(), fail_write + 1);
        assert_eq!(startup.looks, 0);
    }
}

#[test]
fn error_wraps_a_bus_error() {
    let error: Error<u8> = Error::from(5u8);
    assert!(matches!(error, Error::Bus(5)));
}

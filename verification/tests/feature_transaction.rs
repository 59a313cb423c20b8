use watchy_core::bma423::feature_offset;
use watchy_core::bma423::register;
use watchy_core::bma423::reset_step_counter;
use watchy_core::bma423::transaction::{
    port_frame, FeatureTransaction, PreconditionViolation, Request, Response, FEATURE_SIZE,
    SENSOR_TIME_SYNCHRONIZATION_US,
};
use watchy_core::bma423::Error;

/// The error of the simulated bus: the number of the transfer that failed.
#[derive(Clone, Copy, Debug, PartialEq, Eq)]
struct Nack(usize);

/// One transfer on the simulated bus.
#[derive(Clone, Debug, PartialEq, Eq)]
enum Transfer {
    Write(Vec<u8>),
    Read { register: u8, len: usize },
}

/// A device that keeps its configuration memory behind the port, and a bus
/// that can be told to fail.
struct Device {
    power_conf: u8,
    pointer_lsb: u8,
    pointer_msb: u8,
    memory: Vec<u8>,
    transfers: Vec<Transfer>,
    /// The pointer at every port transfer, with the length of the data.
    port_transfers: Vec<(usize, usize)>,
    /// Whether the power save mode was on at some port transfer.
    port_used_in_power_save: bool,
    delays: Vec<u32>,
    stagings: usize,
    fail_at: Option<usize>,
}

impl Device {
    fn new(power_conf: u8) -> Device {
        let mut memory = vec![0u8; 8192 + 8];
        for (i, byte) in memory.iter_mut().enumerate() {
            *byte = (i * 7 + 3) as u8;
        }
        Device {
            power_conf,
            pointer_lsb: 0xA,
            pointer_msb: 0x55,
            memory,
            transfers: Vec::new(),
            port_transfers: Vec::new(),
            port_used_in_power_save: false,
            delays: Vec::new(),
            stagings: 0,
            fail_at: None,
        }
    }

    fn pointer(&self) -> usize {
        (((self.pointer_msb as usize) << 4) | (self.pointer_lsb as usize & 0x0F)) * 2
    }

    fn fails(&self) -> Option<Nack> {
        let number = self.transfers.len();
        if self.fail_at == Some(number) {
            Some(Nack(number))
        } else {
            None
        }
    }

    fn write(&mut self, bytes: &[u8]) -> Result<(), Nack> {
        let fault = self.fails();
        self.transfers.push(Transfer::Write(bytes.to_vec()));
        if let Some(nack) = fault {
            return Err(nack);
        }
        match bytes[0] {
            register::PWR_CONF => self.power_conf = bytes[1],
            register::RESERVED_REG_5B => self.pointer_lsb = bytes[1],
            register::RESERVED_REG_5C => self.pointer_msb = bytes[1],
            register::FEATURES_IN => {
                let at = self.pointer();
                self.port_transfers.push((at, bytes.len() - 1));
                self.port_used_in_power_save |= self.power_conf & 1 == 1;
                self.memory[at..at + bytes.len() - 1].copy_from_slice(&bytes[1..]);
            }
            _ => {}
        }
        Ok(())
    }

    fn write_read(&mut self, register: u8, out: &mut [u8]) -> Result<(), Nack> {
        let fault = self.fails();
        self.transfers.push(Transfer::Read { register, len: out.len() });
        if let Some(nack) = fault {
            return Err(nack);
        }
        match register {
            register::PWR_CONF => out[0] = self.power_conf,
            register::RESERVED_REG_5B => out[0] = self.pointer_lsb,
            register::RESERVED_REG_5C => out[0] = self.pointer_msb,
            register::FEATURES_IN => {
                let at = self.pointer();
                self.port_transfers.push((at, out.len()));
                self.port_used_in_power_save |= self.power_conf & 1 == 1;
                out.copy_from_slice(&self.memory[at..at + out.len()]);
            }
            _ => out.fill(0),
        }
        Ok(())
    }

    fn power_mode_writes(&self) -> Vec<u8> {
        let mut values = Vec::new();
        for transfer in &self.transfers {
            if let Transfer::Write(bytes) = transfer {
                if bytes[0] == register::PWR_CONF {
                    values.push(bytes[1]);
                }
            }
        }
        values
    }
}

/// Performs the requests of a transaction until it is over.
fn drive(
    mut transaction: FeatureTransaction<Nack>,
    device: &mut Device,
    buffer: &mut [u8],
    mutator: &dyn Fn(&mut [u8]),
) -> Result<(), Error<Nack>> {
    for _ in 0..100_000 {
        let response = match transaction.request() {
            Request::ReadRegister { register } => {
                let mut value = [0u8; 1];
                match device.write_read(register, &mut value) {
                    Ok(()) => Response::Value(value[0]),
                    Err(nack) => Response::Failed(nack),
                }
            }
            Request::WriteRegister { register, value } => match device.write(&[register, value]) {
                Ok(()) => Response::Completed,
                Err(nack) => Response::Failed(nack),
            },
            Request::ReadPort { offset, len } => {
                match device.write_read(register::FEATURES_IN, &mut buffer[offset..offset + len]) {
                    Ok(()) => Response::Completed,
                    Err(nack) => Response::Failed(nack),
                }
            }
            Request::WritePort { offset, len } => {
                match device.write(&port_frame(buffer, offset, len)) {
                    Ok(()) => Response::Completed,
                    Err(nack) => Response::Failed(nack),
                }
            }
            Request::Delay { micros } => {
                device.delays.push(micros);
                Response::Completed
            }
            Request::Stage => {
                device.stagings += 1;
                mutator(buffer);
                Response::Completed
            }
            Request::Done => {
                assert!(transaction.is_finished());
                return transaction.result().unwrap();
            }
        };
        assert!(transaction.accepts(&response));
        transaction = transaction.respond(response);
    }
    panic!("the transaction does not end");
}

fn untouched(_: &mut [u8]) {}

fn write_region(device: &mut Device, start: usize, data: &[u8]) -> Result<(), Error<Nack>> {
    let mut buffer = data.to_vec();
    let transaction = FeatureTransaction::write_region(start, data.len()).unwrap();
    drive(transaction, device, &mut buffer, &untouched)
}

fn read_region(device: &mut Device, start: usize, out: &mut [u8]) -> Result<(), Error<Nack>> {
    let transaction = FeatureTransaction::read_region(start, out.len()).unwrap();
    drive(transaction, device, out, &untouched)
}

fn pattern(len: usize) -> Vec<u8> {
    (0..len).map(|i| (0xC0 ^ (i * 5)) as u8).collect()
}

#[test]
fn write_then_read_returns_what_was_written() {
    for power_conf in [0x00u8, 0x01, 0x02, 0x03] {
        for start in [0usize, 100, 0x17F8, 8192 - 64] {
            for len in [0usize, 8, 16, 10, 14, 64] {
                let mut device = Device::new(power_conf);
                let data = pattern(len);
                assert!(write_region(&mut device, start, &data).is_ok());
                let mut out = vec![0xEEu8; len];
                assert!(read_region(&mut device, start, &mut out).is_ok());
                assert_eq!(out, data);
                assert_eq!(&device.memory[start..start + len], &data[..]);
                assert_eq!(device.power_conf, power_conf);
                assert!(!device.port_used_in_power_save);
            }
        }
    }
}

#[test]
fn write_leaves_the_memory_around_the_region() {
    let mut device = Device::new(0x00);
    let before = device.memory.clone();
    let data = pattern(10);
    write_region(&mut device, 100, &data).unwrap();
    assert_eq!(&device.memory[..100], &before[..100]);
    assert_eq!(&device.memory[100..110], &data[..]);
    // The last chunk was filled up with zeros.
    assert_eq!(&device.memory[110..116], &[0u8; 6]);
    assert_eq!(&device.memory[116..], &before[116..]);
}

#[test]
fn read_leaves_the_memory_and_the_rest_of_the_buffer() {
    let mut device = Device::new(0x01);
    let before = device.memory.clone();
    let mut buffer = vec![0xEEu8; 20];
    let transaction = FeatureTransaction::read_region(512, 14).unwrap();
    drive(transaction, &mut device, &mut buffer, &untouched).unwrap();
    assert_eq!(&buffer[..14], &before[512..526]);
    assert_eq!(&buffer[14..], &[0xEEu8; 6]);
    assert_eq!(device.memory, before);
}

#[test]
fn requests_of_a_read_with_power_save_on() {
    let mut transaction = FeatureTransaction::<Nack>::read_region(0x17F8, 10).unwrap();
    let mut requests = Vec::new();
    // The device answers the power mode with 0x03 and its pointer with what
    // was written to it.
    let answers = [
        Response::Value(0x03),
        Response::Completed,
        Response::Completed,
        Response::Completed,
        Response::Completed,
        Response::Completed,
        Response::Value(0x0C),
        Response::Value(0xBF),
        Response::Completed,
        Response::Completed,
        Response::Completed,
        Response::Completed,
        Response::Completed,
    ];
    for answer in answers {
        requests.push(transaction.request());
        transaction = transaction.respond(answer);
    }
    requests.push(transaction.request());
    assert_eq!(
        requests,
        vec![
            Request::ReadRegister { register: 0x7C },
            Request::WriteRegister { register: 0x7C, value: 0x02 },
            Request::Delay { micros: 450 },
            Request::WriteRegister { register: 0x5B, value: 0x0C },
            Request::WriteRegister { register: 0x5C, value: 0xBF },
            Request::ReadPort { offset: 0, len: 8 },
            Request::ReadRegister { register: 0x5B },
            Request::ReadRegister { register: 0x5C },
            Request::WriteRegister { register: 0x5B, value: 0x00 },
            Request::WriteRegister { register: 0x5C, value: 0xC0 },
            Request::ReadPort { offset: 8, len: 2 },
            Request::WriteRegister { register: 0x7C, value: 0x03 },
            Request::Delay { micros: 450 },
            Request::Done,
        ]
    );
    assert!(transaction.is_finished());
    assert!(matches!(transaction.result(), Some(Ok(()))));
}

#[test]
fn power_mode_is_cut_to_its_flags() {
    let mut device = Device::new(0xF1);
    write_region(&mut device, 0, &pattern(8)).unwrap();
    assert_eq!(device.power_mode_writes(), vec![0x00, 0x01]);
    assert_eq!(device.power_conf, 0x01);
}

#[test]
fn zero_length_transfer_still_brackets_and_sets_the_pointer() {
    let mut device = Device::new(0x01);
    let mut nothing: [u8; 0] = [];
    assert!(read_region(&mut device, 0x200, &mut nothing).is_ok());
    assert_eq!(
        device.transfers,
        vec![
            Transfer::Read { register: register::PWR_CONF, len: 1 },
            Transfer::Write(vec![register::PWR_CONF, 0x00]),
            Transfer::Write(vec![register::RESERVED_REG_5B, 0x00]),
            Transfer::Write(vec![register::RESERVED_REG_5C, 0x10]),
            Transfer::Write(vec![register::PWR_CONF, 0x01]),
        ]
    );
    assert_eq!(device.delays, vec![SENSOR_TIME_SYNCHRONIZATION_US, SENSOR_TIME_SYNCHRONIZATION_US]);
    assert!(device.port_transfers.is_empty());
}

#[test]
fn power_save_is_on_again_whichever_transfer_fails() {
    let set_flag = |window: &mut [u8]| window[0x37] |= 0b100;
    // How many bus transfers a change of the window takes.
    let mut device = Device::new(0x03);
    let mut window = [0u8; FEATURE_SIZE];
    drive(FeatureTransaction::with_feature_access(), &mut device, &mut window, &set_flag).unwrap();
    let transfers = device.transfers.len();
    assert_eq!(transfers, 1 + 1 + 2 * (2 + 8 * 5) + 1);

    for fail_at in 0..transfers {
        let mut device = Device::new(0x03);
        device.fail_at = Some(fail_at);
        let mut window = [0u8; FEATURE_SIZE];
        let result =
            drive(FeatureTransaction::with_feature_access(), &mut device, &mut window, &set_flag);
        assert!(matches!(result, Err(Error::Bus(Nack(number))) if number == fail_at));
        assert!(!device.port_used_in_power_save);
        if fail_at == 0 {
            // The power mode could not be read: nothing else was tried.
            assert_eq!(device.transfers.len(), 1);
            assert_eq!(device.power_conf, 0x03);
        } else if fail_at == transfers - 1 {
            // The write that puts the mode back failed itself.
            assert_eq!(device.transfers.last(), Some(&Transfer::Write(vec![0x7C, 0x03])));
            assert_eq!(device.power_conf, 0x02);
        } else {
            // The transfer was given up, and the mode was put back at once.
            assert_eq!(device.transfers.len(), fail_at + 2);
            assert_eq!(device.transfers.last(), Some(&Transfer::Write(vec![0x7C, 0x03])));
            assert_eq!(device.power_conf, 0x03);
            assert_eq!(device.delays.last(), Some(&SENSOR_TIME_SYNCHRONIZATION_US));
        }
    }
}

#[test]
fn power_save_is_on_again_after_a_failed_read_of_a_region() {
    let mut device = Device::new(0x01);
    // Transfers: mode read, clear, two pointer writes, then the first port
    // read, which fails.
    device.fail_at = Some(4);
    let mut out = [0u8; 16];
    let result = read_region(&mut device, 64, &mut out);
    assert!(matches!(result, Err(Error::Bus(Nack(4)))));
    assert_eq!(device.power_mode_writes(), vec![0x00, 0x01]);
    assert_eq!(device.power_conf, 0x01);
    assert_eq!(device.transfers.len(), 6);
}

#[test]
fn the_first_error_is_reported_when_the_restore_fails_too() {
    let mut transaction = FeatureTransaction::<Nack>::write_region(0, 8).unwrap();
    transaction = transaction.respond(Response::Value(0x01));
    transaction = transaction.respond(Response::Completed);
    transaction = transaction.respond(Response::Completed);
    assert_eq!(transaction.request(), Request::WriteRegister { register: 0x5B, value: 0 });
    transaction = transaction.respond(Response::Failed(Nack(1)));
    assert_eq!(transaction.request(), Request::WriteRegister { register: 0x7C, value: 0x01 });
    transaction = transaction.respond(Response::Failed(Nack(2)));
    assert_eq!(transaction.request(), Request::Done);
    assert!(matches!(transaction.result(), Some(Err(Error::Bus(Nack(1))))));
}

#[test]
fn a_failed_restore_is_reported_after_a_good_transfer() {
    let mut device = Device::new(0x01);
    let mut out: [u8; 0] = [];
    device.fail_at = Some(4);
    let result = read_region(&mut device, 0, &mut out);
    assert!(matches!(result, Err(Error::Bus(Nack(4)))));
    assert_eq!(device.power_conf, 0x00);
    // No wait follows a write that failed.
    assert_eq!(device.delays, vec![SENSOR_TIME_SYNCHRONIZATION_US]);
}

#[test]
fn no_power_mode_write_when_power_save_is_off() {
    for power_conf in [0x00u8, 0x02, 0xFE] {
        let mut device = Device::new(power_conf);
        let mut window = [0u8; FEATURE_SIZE];
        let set_flag = |window: &mut [u8]| window[0x37] |= 0b100;
        drive(FeatureTransaction::with_feature_access(), &mut device, &mut window, &set_flag)
            .unwrap();
        assert!(device.power_mode_writes().is_empty());
        assert!(device.delays.is_empty());
        assert_eq!(device.power_conf, power_conf);

        // Nor when a transfer fails.
        let mut device = Device::new(power_conf);
        device.fail_at = Some(7);
        let mut window = [0u8; FEATURE_SIZE];
        let result =
            drive(FeatureTransaction::with_feature_access(), &mut device, &mut window, &set_flag);
        assert!(matches!(result, Err(Error::Bus(Nack(7)))));
        assert!(device.power_mode_writes().is_empty());
        assert_eq!(device.transfers.len(), 8);
    }
}

#[test]
fn odd_offset_or_length_is_refused() {
    assert!(matches!(
        FeatureTransaction::<Nack>::read_region(3, 8),
        Err(PreconditionViolation::OddOffset)
    ));
    assert!(matches!(
        FeatureTransaction::<Nack>::read_region(2, 7),
        Err(PreconditionViolation::OddLength)
    ));
    assert!(matches!(
        FeatureTransaction::<Nack>::read_region(1, 1),
        Err(PreconditionViolation::OddOffset)
    ));
    assert!(matches!(
        FeatureTransaction::<Nack>::write_region(101, 10),
        Err(PreconditionViolation::OddOffset)
    ));
    assert!(matches!(
        FeatureTransaction::<Nack>::write_region(100, 9),
        Err(PreconditionViolation::OddLength)
    ));
    assert!(matches!(
        FeatureTransaction::<Nack>::burst_read_features(5, 2),
        Err(PreconditionViolation::OddOffset)
    ));
    assert!(matches!(
        FeatureTransaction::<Nack>::burst_write_features(0, 0x17FF),
        Err(PreconditionViolation::OddLength)
    ));
    assert!(FeatureTransaction::<Nack>::read_region(2, 8).is_ok());
    assert!(FeatureTransaction::<Nack>::write_region(0, 0).is_ok());
}

#[test]
fn feature_window_is_written_in_eight_chunks() {
    let mut device = Device::new(0x01);
    let mut window = [0u8; 64];
    window[0x37] = 0b100;
    assert_eq!(feature_offset::START, 0x17F8);
    write_region(&mut device, feature_offset::START, &window).unwrap();

    let port_writes: Vec<(usize, usize)> = device.port_transfers.clone();
    assert_eq!(
        port_writes,
        vec![
            (0x17F8, 8),
            (0x1800, 8),
            (0x1808, 8),
            (0x1810, 8),
            (0x1818, 8),
            (0x1820, 8),
            (0x1828, 8),
            (0x1830, 8),
        ]
    );

    let mut out = [0xFFu8; 64];
    read_region(&mut device, feature_offset::START, &mut out).unwrap();
    assert_eq!(out, window);
    assert_eq!(device.memory[0x17F8 + 0x37], 0b100);
}

#[test]
fn partial_trailing_chunk_of_a_read() {
    let mut device = Device::new(0x00);
    let expected = device.memory[100..110].to_vec();
    let mut out = [0u8; 10];
    read_region(&mut device, 100, &mut out).unwrap();
    assert_eq!(device.port_transfers, vec![(100, 8), (108, 2)]);
    assert_eq!(&out[..], &expected[..]);
    assert_eq!(
        device.transfers,
        vec![
            Transfer::Read { register: 0x7C, len: 1 },
            Transfer::Write(vec![0x5B, 0x02]),
            Transfer::Write(vec![0x5C, 0x03]),
            Transfer::Read { register: 0x5E, len: 8 },
            Transfer::Read { register: 0x5B, len: 1 },
            Transfer::Read { register: 0x5C, len: 1 },
            Transfer::Write(vec![0x5B, 0x06]),
            Transfer::Write(vec![0x5C, 0x03]),
            Transfer::Read { register: 0x5E, len: 2 },
        ]
    );
}

#[test]
fn partial_trailing_chunk_of_a_write_is_padded_with_zeros() {
    let mut device = Device::new(0x00);
    let data = [1u8, 2, 3, 4, 5, 6, 7, 8, 9, 10];
    write_region(&mut device, 100, &data).unwrap();
    assert_eq!(device.port_transfers, vec![(100, 8), (108, 8)]);
    assert_eq!(
        device.transfers[3],
        Transfer::Write(vec![0x5E, 1, 2, 3, 4, 5, 6, 7, 8])
    );
    assert_eq!(
        device.transfers[8],
        Transfer::Write(vec![0x5E, 9, 10, 0, 0, 0, 0, 0, 0])
    );
    assert_eq!(device.transfers.len(), 9);
}

#[test]
fn pointer_is_left_after_the_last_full_chunk() {
    let mut device = Device::new(0x00);
    write_region(&mut device, 0x40, &pattern(16)).unwrap();
    assert_eq!(device.pointer(), 0x40 + 16);
    write_region(&mut device, 0x40, &pattern(10)).unwrap();
    assert_eq!(device.pointer(), 0x40 + 8);
}

#[test]
fn port_frame_holds_register_data_and_zeros() {
    let data = [10u8, 11, 12, 13, 14, 15, 16, 17, 18, 19];
    assert_eq!(port_frame(&data, 0, 8), [0x5E, 10, 11, 12, 13, 14, 15, 16, 17]);
    assert_eq!(port_frame(&data, 8, 2), [0x5E, 18, 19, 0, 0, 0, 0, 0, 0]);
    assert_eq!(port_frame(&data, 4, 0), [0x5E, 0, 0, 0, 0, 0, 0, 0, 0]);
}

#[test]
fn feature_access_changes_the_window_in_the_device() {
    for power_conf in [0x00u8, 0x03] {
        let mut device = Device::new(power_conf);
        let before = device.memory.clone();
        let mut window = [0u8; FEATURE_SIZE];
        drive(
            FeatureTransaction::with_feature_access(),
            &mut device,
            &mut window,
            &|window: &mut [u8]| reset_step_counter(window),
        )
        .unwrap();
        let start = feature_offset::START;
        assert_eq!(device.stagings, 1);
        assert_eq!(device.memory[start + 0x37], before[start + 0x37] | 0b100);
        assert_eq!(&device.memory[start..start + 0x37], &before[start..start + 0x37]);
        assert_eq!(&device.memory[start + 0x38..], &before[start + 0x38..]);
        assert_eq!(&device.memory[..start], &before[..start]);
        assert_eq!(&window[..], &device.memory[start..start + 64]);
        assert_eq!(device.power_conf, power_conf);
        assert_eq!(device.port_transfers.len(), 16);
    }
}

#[test]
fn burst_transfers_leave_the_power_mode_alone() {
    let mut device = Device::new(0x00);
    let mut data = pattern(16);
    let transaction = FeatureTransaction::burst_write_features(0, 16).unwrap();
    drive(transaction, &mut device, &mut data, &untouched).unwrap();
    assert_eq!(device.transfers[0], Transfer::Write(vec![0x5B, 0x00]));
    assert!(device.power_mode_writes().is_empty());
    assert!(!device.transfers.contains(&Transfer::Read { register: 0x7C, len: 1 }));

    let mut out = [0u8; 16];
    let transaction = FeatureTransaction::burst_read_features(0, 16).unwrap();
    drive(transaction, &mut device, &mut out, &untouched).unwrap();
    assert_eq!(&out[..], &data[..]);
}

#[test]
fn a_response_that_is_no_answer_is_dropped() {
    let mut transaction = FeatureTransaction::<Nack>::read_region(0, 8).unwrap();
    let first = transaction.request();
    assert_eq!(first, Request::ReadRegister { register: 0x7C });
    assert!(!transaction.accepts(&Response::Completed));
    transaction = transaction.respond(Response::Completed);
    assert_eq!(transaction.request(), first);
    assert!(transaction.accepts(&Response::Value(0)));
    assert!(transaction.accepts(&Response::Failed(Nack(0))));
    transaction = transaction.respond(Response::Value(0));
    assert_eq!(transaction.request(), Request::WriteRegister { register: 0x5B, value: 0 });
    assert!(!transaction.accepts(&Response::Value(1)));
    transaction = transaction.respond(Response::Value(1));
    assert_eq!(transaction.request(), Request::WriteRegister { register: 0x5B, value: 0 });
    assert!(!transaction.is_finished());
    assert!(transaction.result().is_none());
}

#[test]
fn nothing_answers_a_finished_transaction() {
    let mut transaction = FeatureTransaction::<Nack>::read_region(0, 0).unwrap();
    transaction = transaction.respond(Response::Failed(Nack(9)));
    assert!(transaction.is_finished());
    assert_eq!(transaction.request(), Request::Done);
    assert!(!transaction.accepts(&Response::Completed));
    transaction = transaction.respond(Response::Completed);
    assert!(matches!(transaction.result(), Some(Err(Error::Bus(Nack(9))))));
}

#[test]
fn write_then_read_where_the_pointer_turns_over() {
    // The region starts one port width before the end of what the pointer
    // can address: the second chunk is moved to the start of the memory.
    let mut device = Device::new(0x01);
    let data = pattern(16);
    write_region(&mut device, 8184, &data).unwrap();
    assert_eq!(device.port_transfers, vec![(8184, 8), (0, 8)]);
    assert_eq!(&device.memory[8184..8192], &data[..8]);
    assert_eq!(&device.memory[..8], &data[8..]);
    let mut out = vec![0u8; 16];
    read_region(&mut device, 8184, &mut out).unwrap();
    assert_eq!(out, data);

    // A start beyond what the pointer can address is cut to it.
    let mut device = Device::new(0x00);
    write_region(&mut device, 8192 + 64, &data).unwrap();
    assert_eq!(&device.memory[64..80], &data[..]);
    let mut out = vec![0u8; 16];
    read_region(&mut device, 64, &mut out).unwrap();
    assert_eq!(out, data);
}

#[test]
fn a_region_longer_than_the_reach_of_the_pointer_meets_itself() {
    let mut device = Device::new(0x00);
    let data: Vec<u8> = (0..8200usize).map(|i| (i % 251) as u8).collect();
    write_region(&mut device, 0, &data).unwrap();
    // The last chunk was moved to where the first had been.
    assert_eq!(device.port_transfers.len(), 1025);
    assert_eq!(device.port_transfers[1024], (0, 8));
    assert_eq!(&device.memory[..8], &data[8192..]);
    let mut out = vec![0u8; 8200];
    read_region(&mut device, 0, &mut out).unwrap();
    assert_ne!(out, data);
    assert_eq!(&out[8..], &data[8..]);
}

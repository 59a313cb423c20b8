//! A model of the device as the feature transaction sees it.
//!
//! The model is ghost: it says what the registers and the configuration
//! memory of a device hold, and how they answer the requests of a
//! [`TransactionState`]. Bus transfers can fail; a transfer that fails leaves
//! the device and the buffer as they were. What a transaction achieves on such
//! a device is proved in the modules `bracket` and `transfer`.

use crate::bma423::pointer::pointer_address;
use crate::bma423::register;
use crate::bma423::transaction::{port_frame_bytes, Request, Response, TransactionState};
use vstd::prelude::*;

verus! {

/// What the device holds.
pub struct Device {
    /// The power mode register.
    pub power_conf: u8,
    /// The low pointer register.
    pub pointer_lsb: u8,
    /// The high pointer register.
    pub pointer_msb: u8,
    /// The configuration memory, byte by byte.
    pub memory: spec_fn(int) -> u8,
}

/// One request that was served.
pub struct Transfer {
    /// What was asked.
    pub request: Request,
    /// Whether the bus transfer failed.
    pub failed: bool,
    /// Whether the power save mode of the device was on at that time.
    pub power_save: bool,
}

/// The device, the caller's buffer, and the requests served so far.
pub struct World {
    pub device: Device,
    pub buffer: Seq<u8>,
    pub log: Seq<Transfer>,
}

impl Device {
    /// The address that the pointer registers name.
    pub open spec fn pointer(self) -> int {
        pointer_address(self.pointer_lsb as int, self.pointer_msb as int)
    }

    /// Whether the advanced power save mode is on.
    pub open spec fn power_save_on(self) -> bool {
        self.power_conf & 0b01 == 0b01
    }

    /// What a read of `register` gives.
    pub open spec fn read_register(self, register: u8) -> u8 {
        if register == register::PWR_CONF {
            self.power_conf
        } else if register == register::RESERVED_REG_5B {
            self.pointer_lsb
        } else if register == register::RESERVED_REG_5C {
            self.pointer_msb
        } else {
            0
        }
    }

    /// The device after `value` has been written to `register`.
    pub open spec fn write_register(self, register: u8, value: u8) -> Device {
        if register == register::PWR_CONF {
            Device { power_conf: value, ..self }
        } else if register == register::RESERVED_REG_5B {
            Device { pointer_lsb: value, ..self }
        } else if register == register::RESERVED_REG_5C {
            Device { pointer_msb: value, ..self }
        } else {
            self
        }
    }

    /// The device after the data bytes of `frame` have been written through
    /// the port: they stand in the memory from the pointer on.
    pub open spec fn write_port(self, frame: Seq<u8>) -> Device {
        let at = self.pointer();
        Device {
            memory: |addr: int|
                if at <= addr < at + frame.len() - 1 {
                    frame[addr - at + 1]
                } else {
                    (self.memory)(addr)
                },
            ..self
        }
    }
}

impl World {
    /// The buffer after `len` bytes have been read through the port into it,
    /// at `offset`.
    pub open spec fn read_port(self, offset: int, len: int) -> Seq<u8> {
        Seq::new(
            self.buffer.len(),
            |i: int|
                if offset <= i < offset + len {
                    (self.device.memory)(self.device.pointer() + i - offset)
                } else {
                    self.buffer[i]
                },
        )
    }

    /// The world after `request` has been served, and the response. `fault`
    /// is the error with which the bus transfer fails, if it does; waiting
    /// and staging are no bus transfers and cannot fail. `mutator` is what the
    /// caller does to a staged window.
    pub open spec fn serve<E>(
        self,
        request: Request,
        fault: Option<E>,
        mutator: spec_fn(Seq<u8>) -> Seq<u8>,
    ) -> (World, Response<E>) {
        let on_bus = !(request is Delay || request is Stage || request is Done);
        let failed = on_bus && fault is Some;
        let log = self.log.push(
            Transfer { request, failed, power_save: self.device.power_save_on() },
        );
        if failed {
            (World { log, ..self }, Response::Failed(fault->0))
        } else {
            match request {
                Request::ReadRegister { register } => (
                    World { log, ..self },
                    Response::Value(self.device.read_register(register)),
                ),
                Request::WriteRegister { register, value } => (
                    World { device: self.device.write_register(register, value), log, ..self },
                    Response::Completed,
                ),
                Request::ReadPort { offset, len } => (
                    World { buffer: self.read_port(offset as int, len as int), log, ..self },
                    Response::Completed,
                ),
                Request::WritePort { offset, len } => (
                    World {
                        device: self.device.write_port(
                            port_frame_bytes(self.buffer, offset as int, len as int),
                        ),
                        log,
                        ..self
                    },
                    Response::Completed,
                ),
                Request::Stage => (
                    World { buffer: mutator(self.buffer), log, ..self },
                    Response::Completed,
                ),
                _ => (World { log, ..self }, Response::Completed),
            }
        }
    }
}

/// The transaction and the world after the request that the transaction is
/// waiting on has been served and answered. `faults` says which of the
/// requests fail, counted as the log counts them.
#[verifier::opaque]
pub open spec fn step<E>(
    state: TransactionState<E>,
    world: World,
    faults: spec_fn(nat) -> Option<E>,
    mutator: spec_fn(Seq<u8>) -> Seq<u8>,
) -> (TransactionState<E>, World) {
    let (served, response) = world.serve(state.request(), faults(world.log.len()), mutator);
    (state.respond(response), served)
}

/// The transaction and the world after at most `steps` requests: the
/// transaction is driven until it is over.
pub open spec fn drive<E>(
    state: TransactionState<E>,
    world: World,
    faults: spec_fn(nat) -> Option<E>,
    mutator: spec_fn(Seq<u8>) -> Seq<u8>,
    steps: nat,
) -> (TransactionState<E>, World)
    decreases steps,
{
    if steps == 0 || state.phase is Finished {
        (state, world)
    } else {
        let (next, served) = step(state, world, faults, mutator);
        drive(next, served, faults, mutator, (steps - 1) as nat)
    }
}

} // verus!

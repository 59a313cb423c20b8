//! What holds of a feature transaction whichever bus transfers fail: the
//! power save mode is cleared only where it is on, the port is used only
//! while it is off, it is put back whatever happens, and the first failure
//! is what the transaction reports.

use crate::bma423::device::{drive, step, Transfer, World};
use crate::bma423::flags::PowerMode;
use crate::bma423::register;
use crate::bma423::transaction::{Phase, Plan, Request, TransactionState};
use crate::bma423::Error;
use vstd::prelude::*;

verus! {

/// Whether `transfer` is a write to the power mode register.
pub open spec fn writes_power_mode(transfer: Transfer) -> bool {
    transfer.request matches Request::WriteRegister { register, .. } && register
        == register::PWR_CONF
}

pub(crate) proof fn lemma_power_save_bit(value: u8)
    ensures
        ((value & 0b11) & 0b01 == 0b01) == (value & 0b01 == 0b01),
        (value & 0b11) & 0b11 == value & 0b11,
{
    assert(((value & 0b11) & 0b01 == 0b01) == (value & 0b01 == 0b01)) by (bit_vector);
    assert((value & 0b11) & 0b11 == value & 0b11) by (bit_vector);
}

/// What holds at every step of a transaction on a device that came with the
/// power save mode off.
spec fn save_off_invariant<E>(
    state: TransactionState<E>,
    world: World,
    power_conf: u8,
    served_before: nat,
) -> bool {
    &&& world.device.power_conf == power_conf
    &&& served_before <= world.log.len()
    &&& forall|i: int| served_before <= i < world.log.len() ==> !writes_power_mode(#[trigger] world.log[i])
    &&& match state.phase {
        Phase::ReadMode => state.bracket && !state.power_save_was_on(),
        Phase::ClearMode | Phase::ClearSettle | Phase::RestoreMode | Phase::RestoreSettle => false,
        _ => !(state.bracket && state.power_save_was_on()),
    }
}

proof fn lemma_save_off_step<E>(
    state: TransactionState<E>,
    world: World,
    faults: spec_fn(nat) -> Option<E>,
    mutator: spec_fn(Seq<u8>) -> Seq<u8>,
    power_conf: u8,
    served_before: nat,
)
    requires
        power_conf & 0b01 != 0b01,
        save_off_invariant(state, world, power_conf, served_before),
    ensures
        save_off_invariant(
            step(state, world, faults, mutator).0,
            step(state, world, faults, mutator).1,
            power_conf,
            served_before,
        ),
{
    reveal(step);
    lemma_power_save_bit(power_conf);
    assert(PowerMode::all_bits() == 0b11u8);
}

proof fn lemma_save_off_drive<E>(
    state: TransactionState<E>,
    world: World,
    faults: spec_fn(nat) -> Option<E>,
    mutator: spec_fn(Seq<u8>) -> Seq<u8>,
    steps: nat,
    power_conf: u8,
    served_before: nat,
)
    requires
        power_conf & 0b01 != 0b01,
        save_off_invariant(state, world, power_conf, served_before),
    ensures
        save_off_invariant(
            drive(state, world, faults, mutator, steps).0,
            drive(state, world, faults, mutator, steps).1,
            power_conf,
            served_before,
        ),
    decreases steps,
{
    if steps == 0 || state.phase is Finished {
    } else {
        lemma_save_off_step(state, world, faults, mutator, power_conf, served_before);
        let (next, served) = step(state, world, faults, mutator);
        lemma_save_off_drive(next, served, faults, mutator, (steps - 1) as nat, power_conf, served_before);
    }
}

/// On a device whose power save mode is off, a transaction never writes the
/// power mode register, whatever it moves, whichever bus transfers fail and
/// however far it is driven; the register holds at the end what it held at
/// the start.
pub proof fn lemma_no_power_mode_write_when_save_off<E>(
    bracket: bool,
    plan: Plan,
    start: usize,
    length: usize,
    world: World,
    faults: spec_fn(nat) -> Option<E>,
    mutator: spec_fn(Seq<u8>) -> Seq<u8>,
    steps: nat,
)
    requires
        !world.device.power_save_on(),
    ensures
        ({
            let end = drive(
                TransactionState::initial(bracket, plan, start, length),
                world,
                faults,
                mutator,
                steps,
            ).1;
            &&& end.device.power_conf == world.device.power_conf
            &&& world.log.len() <= end.log.len()
            &&& forall|i: int|
                world.log.len() <= i < end.log.len() ==> !writes_power_mode(#[trigger] end.log[i])
        }),
{
    let state = TransactionState::<E>::initial(bracket, plan, start, length);
    assert(0u8 & 0b01 == 0) by (bit_vector);
    lemma_save_off_drive(
        state,
        world,
        faults,
        mutator,
        steps,
        world.device.power_conf,
        world.log.len(),
    );
}

/// Whether `transfer` is the write that puts back the power mode
/// `power_conf`, and failed.
pub open spec fn failed_restore(transfer: Transfer, power_conf: u8) -> bool {
    &&& transfer.failed
    &&& transfer.request == Request::WriteRegister {
        register: register::PWR_CONF,
        value: power_conf & PowerMode::all_bits(),
    }
}

/// What holds at every step of a bracketed transaction on a device that came
/// with the power save mode on.
spec fn save_on_invariant<E>(state: TransactionState<E>, world: World, power_conf: u8) -> bool {
    &&& state.bracket
    &&& match state.phase {
        Phase::ReadMode => world.device.power_conf == power_conf,
        Phase::RestoreSettle => world.device.power_conf == power_conf & PowerMode::all_bits(),
        Phase::Finished => {
            ||| world.device.power_save_on()
            ||| world.log.len() > 0 && failed_restore(world.log.last(), power_conf)
        },
        _ => state.prev_mode.bits == power_conf & PowerMode::all_bits(),
    }
}

proof fn lemma_save_on_step<E>(
    state: TransactionState<E>,
    world: World,
    faults: spec_fn(nat) -> Option<E>,
    mutator: spec_fn(Seq<u8>) -> Seq<u8>,
    power_conf: u8,
)
    requires
        power_conf & 0b01 == 0b01,
        save_on_invariant(state, world, power_conf),
        !(state.phase is Finished),
    ensures
        save_on_invariant(
            step(state, world, faults, mutator).0,
            step(state, world, faults, mutator).1,
            power_conf,
        ),
{
    reveal(step);
    lemma_power_save_bit(power_conf);
    assert(PowerMode::all_bits() == 0b11u8);
}

proof fn lemma_save_on_drive<E>(
    state: TransactionState<E>,
    world: World,
    faults: spec_fn(nat) -> Option<E>,
    mutator: spec_fn(Seq<u8>) -> Seq<u8>,
    steps: nat,
    power_conf: u8,
)
    requires
        power_conf & 0b01 == 0b01,
        save_on_invariant(state, world, power_conf),
    ensures
        save_on_invariant(
            drive(state, world, faults, mutator, steps).0,
            drive(state, world, faults, mutator, steps).1,
            power_conf,
        ),
    decreases steps,
{
    if steps == 0 || state.phase is Finished {
    } else {
        lemma_save_on_step(state, world, faults, mutator, power_conf);
        let (next, served) = step(state, world, faults, mutator);
        lemma_save_on_drive(next, served, faults, mutator, (steps - 1) as nat, power_conf);
    }
}

/// On a device whose power save mode is on, a bracketed transaction that has
/// come to its end has put the power save mode back on, whatever it moved,
/// whatever the caller did to a staged window and whichever bus transfers
/// failed. The one exception is a failure of the very write that puts the mode
/// back: it is then the last request served.
pub proof fn lemma_power_save_restored<E>(
    plan: Plan,
    start: usize,
    length: usize,
    world: World,
    faults: spec_fn(nat) -> Option<E>,
    mutator: spec_fn(Seq<u8>) -> Seq<u8>,
    steps: nat,
)
    requires
        world.device.power_save_on(),
    ensures
        ({
            let (state, end) = drive(
                TransactionState::initial(true, plan, start, length),
                world,
                faults,
                mutator,
                steps,
            );
            state.phase is Finished ==> {
                ||| end.device.power_save_on()
                ||| end.log.len() > 0 && failed_restore(end.log.last(), world.device.power_conf)
            }
        }),
{
    let state = TransactionState::<E>::initial(true, plan, start, length);
    lemma_save_on_drive(state, world, faults, mutator, steps, world.device.power_conf);
}

/// Whether `transfer` goes through the port.
pub open spec fn uses_port(transfer: Transfer) -> bool {
    transfer.request is ReadPort || transfer.request is WritePort
}

/// What holds at every step of a bracketed transaction, of the requests
/// served from `served_before` on.
spec fn port_invariant<E>(state: TransactionState<E>, world: World, served_before: nat) -> bool {
    &&& state.bracket
    &&& served_before <= world.log.len()
    &&& forall|i: int|
        served_before <= i < world.log.len() && uses_port(#[trigger] world.log[i])
            ==> !world.log[i].power_save
    &&& match state.phase {
        Phase::ClearSettle
        | Phase::SetPointerLsb
        | Phase::SetPointerMsb
        | Phase::Port
        | Phase::FetchPointerLsb
        | Phase::FetchPointerMsb
        | Phase::Staged => !world.device.power_save_on(),
        _ => true,
    }
}

proof fn lemma_port_step<E>(
    state: TransactionState<E>,
    world: World,
    faults: spec_fn(nat) -> Option<E>,
    mutator: spec_fn(Seq<u8>) -> Seq<u8>,
    served_before: nat,
)
    requires
        port_invariant(state, world, served_before),
    ensures
        port_invariant(
            step(state, world, faults, mutator).0,
            step(state, world, faults, mutator).1,
            served_before,
        ),
{
    reveal(step);
    let value = world.device.power_conf;
    let found = state.prev_mode.bits;
    lemma_power_save_bit(value);
    assert(PowerMode::all_bits() == 0b11u8);
    assert((found & !0b01u8) & 0b01 != 0b01) by (bit_vector);
}

proof fn lemma_port_drive<E>(
    state: TransactionState<E>,
    world: World,
    faults: spec_fn(nat) -> Option<E>,
    mutator: spec_fn(Seq<u8>) -> Seq<u8>,
    steps: nat,
    served_before: nat,
)
    requires
        port_invariant(state, world, served_before),
    ensures
        port_invariant(
            drive(state, world, faults, mutator, steps).0,
            drive(state, world, faults, mutator, steps).1,
            served_before,
        ),
    decreases steps,
{
    if steps == 0 || state.phase is Finished {
    } else {
        lemma_port_step(state, world, faults, mutator, served_before);
        let (next, served) = step(state, world, faults, mutator);
        lemma_port_drive(next, served, faults, mutator, (steps - 1) as nat, served_before);
    }
}

/// A bracketed transaction goes through the port only while the power save
/// mode of the device is off, whatever mode the device came with, whichever
/// bus transfers fail and however far the transaction is driven.
pub proof fn lemma_port_used_with_power_save_off<E>(
    plan: Plan,
    start: usize,
    length: usize,
    world: World,
    faults: spec_fn(nat) -> Option<E>,
    mutator: spec_fn(Seq<u8>) -> Seq<u8>,
    steps: nat,
)
    ensures
        ({
            let end = drive(
                TransactionState::initial(true, plan, start, length),
                world,
                faults,
                mutator,
                steps,
            ).1;
            &&& world.log.len() <= end.log.len()
            &&& forall|i: int|
                world.log.len() <= i < end.log.len() && uses_port(#[trigger] end.log[i])
                    ==> !end.log[i].power_save
        }),
{
    let state = TransactionState::<E>::initial(true, plan, start, length);
    lemma_port_drive(state, world, faults, mutator, steps, world.log.len());
}

/// Index in `log` of the first transfer from `from` on that failed, or the
/// length of `log` if none did.
pub open spec fn first_failed(log: Seq<Transfer>, from: nat) -> nat
    decreases log.len() - from,
{
    if from >= log.len() {
        log.len()
    } else if log[from as int].failed {
        from
    } else {
        first_failed(log, from + 1)
    }
}

proof fn lemma_first_failed(log: Seq<Transfer>, from: nat)
    requires
        from <= log.len(),
    ensures
        from <= first_failed(log, from) <= log.len(),
        first_failed(log, from) < log.len() ==> log[first_failed(log, from) as int].failed,
        forall|i: int| from <= i < first_failed(log, from) ==> !(#[trigger] log[i]).failed,
    decreases log.len() - from,
{
    if from < log.len() && !log[from as int].failed {
        lemma_first_failed(log, from + 1);
    }
}

proof fn lemma_first_failed_push(log: Seq<Transfer>, transfer: Transfer, from: nat)
    requires
        from <= log.len(),
    ensures
        first_failed(log.push(transfer), from) == if first_failed(log, from) < log.len() {
            first_failed(log, from)
        } else if transfer.failed {
            log.len()
        } else {
            log.len() + 1
        },
    decreases log.len() - from,
{
    let pushed = log.push(transfer);
    if from < log.len() {
        assert(pushed[from as int] == log[from as int]);
        if !log[from as int].failed {
            lemma_first_failed_push(log, transfer, from + 1);
        }
    } else {
        assert(pushed[from as int] == transfer);
        if !transfer.failed {
            assert(first_failed(pushed, from + 1) == pushed.len());
        }
    }
}

/// Whether `transfer` is one that follows a failure: it puts the power mode
/// back, or waits.
pub open spec fn cleans_up(transfer: Transfer) -> bool {
    writes_power_mode(transfer) || transfer.request is Delay
}

/// What holds at every step of a transaction, of the requests served from
/// `served_before` on.
spec fn failure_invariant<E>(
    state: TransactionState<E>,
    world: World,
    faults: spec_fn(nat) -> Option<E>,
    served_before: nat,
) -> bool {
    let at = first_failed(world.log, served_before);
    &&& served_before <= world.log.len()
    &&& at == world.log.len() ==> state.failure is None
    &&& at < world.log.len() ==> {
        &&& faults(at) is Some
        &&& state.failure == faults(at)
        &&& state.phase is RestoreMode || state.phase is RestoreSettle || state.phase is Finished
        &&& forall|j: int| at < j < world.log.len() ==> cleans_up(#[trigger] world.log[j])
    }
}

proof fn lemma_failure_step<E>(
    state: TransactionState<E>,
    world: World,
    faults: spec_fn(nat) -> Option<E>,
    mutator: spec_fn(Seq<u8>) -> Seq<u8>,
    served_before: nat,
)
    requires
        failure_invariant(state, world, faults, served_before),
        !(state.phase is Finished),
    ensures
        failure_invariant(
            step(state, world, faults, mutator).0,
            step(state, world, faults, mutator).1,
            faults,
            served_before,
        ),
{
    reveal(step);
    let request = state.request();
    let fault = faults(world.log.len());
    let on_bus = !(request is Delay || request is Stage || request is Done);
    let transfer = Transfer {
        request,
        failed: on_bus && fault is Some,
        power_save: world.device.power_save_on(),
    };
    let (next, served) = step(state, world, faults, mutator);
    assert(served.log == world.log.push(transfer));
    lemma_first_failed_push(world.log, transfer, served_before);
    lemma_first_failed(world.log, served_before);
}

proof fn lemma_failure_drive<E>(
    state: TransactionState<E>,
    world: World,
    faults: spec_fn(nat) -> Option<E>,
    mutator: spec_fn(Seq<u8>) -> Seq<u8>,
    steps: nat,
    served_before: nat,
)
    requires
        failure_invariant(state, world, faults, served_before),
    ensures
        failure_invariant(
            drive(state, world, faults, mutator, steps).0,
            drive(state, world, faults, mutator, steps).1,
            faults,
            served_before,
        ),
    decreases steps,
{
    if steps == 0 || state.phase is Finished {
    } else {
        lemma_failure_step(state, world, faults, mutator, served_before);
        let (next, served) = step(state, world, faults, mutator);
        lemma_failure_drive(next, served, faults, mutator, (steps - 1) as nat, served_before);
    }
}

/// A transaction reports the error of the first bus transfer that failed, and
/// success if none did. After a failure it moves no further chunk and does not
/// touch the pointer: all that follows puts the power mode back, or waits.
/// This holds whatever the transaction moves, whichever bus transfers fail
/// and however far the transaction is driven.
pub proof fn lemma_first_failure_is_reported<E>(
    bracket: bool,
    plan: Plan,
    start: usize,
    length: usize,
    world: World,
    faults: spec_fn(nat) -> Option<E>,
    mutator: spec_fn(Seq<u8>) -> Seq<u8>,
    steps: nat,
)
    ensures
        ({
            let (last, end) = drive(
                TransactionState::initial(bracket, plan, start, length),
                world,
                faults,
                mutator,
                steps,
            );
            let at = first_failed(end.log, world.log.len());
            &&& world.log.len() <= at <= end.log.len()
            &&& forall|j: int| at < j < end.log.len() ==> cleans_up(#[trigger] end.log[j])
            &&& last.phase is Finished ==> last.result() == Some(
                if at < end.log.len() {
                    Err::<(), Error<E>>(Error::Bus(faults(at)->0))
                } else {
                    Ok::<(), Error<E>>(())
                },
            )
        }),
{
    let state = TransactionState::<E>::initial(bracket, plan, start, length);
    lemma_first_failed(world.log, world.log.len());
    lemma_failure_drive(state, world, faults, mutator, steps, world.log.len());
    let end = drive(state, world, faults, mutator, steps).1;
    lemma_first_failed(end.log, world.log.len());
}

} // verus!

//! What a feature transaction achieves on a bus that does not fail: a write
//! stores its region in the memory of the device, a read fetches it, and what
//! was written is what is read.

use crate::bma423::bracket::lemma_power_save_bit;
use crate::bma423::device::{drive, step, Device, World};
use crate::bma423::feature_offset;
use crate::bma423::flags::PowerMode;
use crate::bma423::pointer::{pointer_address, pointer_lsb, pointer_msb, POINTER_SPAN};
use crate::bma423::transaction::{
    port_frame_bytes, Phase, Plan, TransactionState, FEATURE_RW_SIZE, FEATURE_SIZE,
};
use crate::bma423::Error;
use vstd::prelude::*;

verus! {

/// No bus transfer fails.
pub open spec fn no_faults<E>(faults: spec_fn(nat) -> Option<E>) -> bool {
    forall|n: nat| (#[trigger] faults(n)) is None
}

/// Number of requests that are enough to bring a transaction of `length`
/// bytes to its end.
pub open spec fn enough_steps(length: usize) -> nat {
    (5 * (length / 8) + 8) as nat
}

/// Number of bytes that the port writes of a region of `length` bytes take
/// in the memory: the last chunk is filled up to the width of the port.
pub open spec fn padded(length: int) -> int {
    (length + 7) / 8 * 8
}

proof fn lemma_drive_step<E>(
    state: TransactionState<E>,
    world: World,
    faults: spec_fn(nat) -> Option<E>,
    mutator: spec_fn(Seq<u8>) -> Seq<u8>,
    steps: nat,
)
    requires
        steps > 0,
        !(state.phase is Finished),
    ensures
        drive(state, world, faults, mutator, steps) == drive(
            step(state, world, faults, mutator).0,
            step(state, world, faults, mutator).1,
            faults,
            mutator,
            (steps - 1) as nat,
        ),
{
}

/// The read of the power mode.
proof fn lemma_step_read_mode<E>(
    state: TransactionState<E>,
    world: World,
    faults: spec_fn(nat) -> Option<E>,
    mutator: spec_fn(Seq<u8>) -> Seq<u8>,
)
    requires
        faults(world.log.len()) is None,
        state.phase is ReadMode,
    ensures
        step(state, world, faults, mutator).1.log.len() == world.log.len() + 1,
        step(state, world, faults, mutator).0 == ({
            let found = TransactionState {
                prev_mode: PowerMode { bits: world.device.power_conf & 0b11 },
                ..state
            };
            if found.power_save_was_on() {
                TransactionState { phase: Phase::ClearMode, ..found }
            } else {
                found.begin_transfer()
            }
        }),
        step(state, world, faults, mutator).1.device == world.device,
        step(state, world, faults, mutator).1.buffer == world.buffer,
{
    reveal(step);
}

/// The write that clears the power save flag.
proof fn lemma_step_clear_mode<E>(
    state: TransactionState<E>,
    world: World,
    faults: spec_fn(nat) -> Option<E>,
    mutator: spec_fn(Seq<u8>) -> Seq<u8>,
)
    requires
        faults(world.log.len()) is None,
        state.phase is ClearMode,
    ensures
        step(state, world, faults, mutator).1.log.len() == world.log.len() + 1,
        step(state, world, faults, mutator).0 == (TransactionState { phase: Phase::ClearSettle, ..state }),
        step(state, world, faults, mutator).1.device == (Device { power_conf: state.prev_mode.bits & !0b01u8, ..world.device }),
        step(state, world, faults, mutator).1.buffer == world.buffer,
{
    reveal(step);
}

/// The wait after the power save flag has been cleared.
proof fn lemma_step_clear_settle<E>(
    state: TransactionState<E>,
    world: World,
    faults: spec_fn(nat) -> Option<E>,
    mutator: spec_fn(Seq<u8>) -> Seq<u8>,
)
    requires
        state.phase is ClearSettle,
    ensures
        step(state, world, faults, mutator).1.log.len() == world.log.len() + 1,
        step(state, world, faults, mutator).0 == state.begin_transfer(),
        step(state, world, faults, mutator).1.device == world.device,
        step(state, world, faults, mutator).1.buffer == world.buffer,
{
    reveal(step);
}

/// The write of the low pointer register.
proof fn lemma_step_set_pointer_lsb<E>(
    state: TransactionState<E>,
    world: World,
    faults: spec_fn(nat) -> Option<E>,
    mutator: spec_fn(Seq<u8>) -> Seq<u8>,
)
    requires
        faults(world.log.len()) is None,
        state.phase is SetPointerLsb,
    ensures
        step(state, world, faults, mutator).1.log.len() == world.log.len() + 1,
        step(state, world, faults, mutator).0 == (TransactionState { phase: Phase::SetPointerMsb, ..state }),
        step(state, world, faults, mutator).1.device == (Device { pointer_lsb: state.next_lsb, ..world.device }),
        step(state, world, faults, mutator).1.buffer == world.buffer,
{
    reveal(step);
}

/// The write of the high pointer register.
proof fn lemma_step_set_pointer_msb<E>(
    state: TransactionState<E>,
    world: World,
    faults: spec_fn(nat) -> Option<E>,
    mutator: spec_fn(Seq<u8>) -> Seq<u8>,
)
    requires
        faults(world.log.len()) is None,
        state.phase is SetPointerMsb,
    ensures
        step(state, world, faults, mutator).1.log.len() == world.log.len() + 1,
        step(state, world, faults, mutator).0 == state.next_chunk(),
        step(state, world, faults, mutator).1.device == (Device { pointer_msb: state.next_msb, ..world.device }),
        step(state, world, faults, mutator).1.buffer == world.buffer,
{
    reveal(step);
}

/// The write of one chunk through the port.
proof fn lemma_step_write_port<E>(
    state: TransactionState<E>,
    world: World,
    faults: spec_fn(nat) -> Option<E>,
    mutator: spec_fn(Seq<u8>) -> Seq<u8>,
)
    requires
        faults(world.log.len()) is None,
        state.phase is Port,
        state.writing,
        state.wf(),
        state.position < state.length,
    ensures
        step(state, world, faults, mutator).1.log.len() == world.log.len() + 1,
        step(state, world, faults, mutator).0 == (if state.length - state.position >= FEATURE_RW_SIZE {
            TransactionState {
                phase: Phase::FetchPointerLsb,
                position: (state.position + FEATURE_RW_SIZE) as usize,
                ..state
            }
        } else {
            TransactionState { position: state.length, ..state }.end_transfer()
        }),
        step(state, world, faults, mutator).1.device == world.device.write_port(
            port_frame_bytes(world.buffer, state.position as int, state.chunk_len() as int),
        ),
        step(state, world, faults, mutator).1.buffer == world.buffer,
{
    reveal(step);
}

/// The read of one chunk through the port.
proof fn lemma_step_read_port<E>(
    state: TransactionState<E>,
    world: World,
    faults: spec_fn(nat) -> Option<E>,
    mutator: spec_fn(Seq<u8>) -> Seq<u8>,
)
    requires
        faults(world.log.len()) is None,
        state.phase is Port,
        !state.writing,
        state.wf(),
        state.position < state.length,
    ensures
        step(state, world, faults, mutator).1.log.len() == world.log.len() + 1,
        step(state, world, faults, mutator).0 == (if state.length - state.position >= FEATURE_RW_SIZE {
            TransactionState {
                phase: Phase::FetchPointerLsb,
                position: (state.position + FEATURE_RW_SIZE) as usize,
                ..state
            }
        } else {
            TransactionState { position: state.length, ..state }.end_transfer()
        }),
        step(state, world, faults, mutator).1.device == world.device,
        step(state, world, faults, mutator).1.buffer == world.read_port(state.position as int, state.chunk_len() as int),
{
    reveal(step);
}

/// The read of the low pointer register.
proof fn lemma_step_fetch_pointer_lsb<E>(
    state: TransactionState<E>,
    world: World,
    faults: spec_fn(nat) -> Option<E>,
    mutator: spec_fn(Seq<u8>) -> Seq<u8>,
)
    requires
        faults(world.log.len()) is None,
        state.phase is FetchPointerLsb,
    ensures
        step(state, world, faults, mutator).1.log.len() == world.log.len() + 1,
        step(state, world, faults, mutator).0 == (TransactionState {
            phase: Phase::FetchPointerMsb,
            next_lsb: world.device.pointer_lsb,
            ..state
        }),
        step(state, world, faults, mutator).1.device == world.device,
        step(state, world, faults, mutator).1.buffer == world.buffer,
{
    reveal(step);
}

/// The read of the high pointer register.
proof fn lemma_step_fetch_pointer_msb<E>(
    state: TransactionState<E>,
    world: World,
    faults: spec_fn(nat) -> Option<E>,
    mutator: spec_fn(Seq<u8>) -> Seq<u8>,
)
    requires
        faults(world.log.len()) is None,
        state.phase is FetchPointerMsb,
    ensures
        step(state, world, faults, mutator).1.log.len() == world.log.len() + 1,
        step(state, world, faults, mutator).0 == ({
            let advanced = pointer_address(
                state.next_lsb as int,
                world.device.pointer_msb as int,
            ) + FEATURE_RW_SIZE;
            TransactionState {
                phase: Phase::SetPointerLsb,
                next_lsb: pointer_lsb(advanced) as u8,
                next_msb: pointer_msb(advanced) as u8,
                ..state
            }
        }),
        step(state, world, faults, mutator).1.device == world.device,
        step(state, world, faults, mutator).1.buffer == world.buffer,
{
    reveal(step);
}

/// The change of the staged window by the caller.
proof fn lemma_step_stage<E>(
    state: TransactionState<E>,
    world: World,
    faults: spec_fn(nat) -> Option<E>,
    mutator: spec_fn(Seq<u8>) -> Seq<u8>,
)
    requires
        state.phase is Staged,
    ensures
        step(state, world, faults, mutator).1.log.len() == world.log.len() + 1,
        step(state, world, faults, mutator).0 == (TransactionState { writing: true, ..state }).begin_transfer(),
        step(state, world, faults, mutator).1.device == world.device,
        step(state, world, faults, mutator).1.buffer == mutator(world.buffer),
{
    reveal(step);
}

/// The write that puts the power mode back.
proof fn lemma_step_restore_mode<E>(
    state: TransactionState<E>,
    world: World,
    faults: spec_fn(nat) -> Option<E>,
    mutator: spec_fn(Seq<u8>) -> Seq<u8>,
)
    requires
        faults(world.log.len()) is None,
        state.phase is RestoreMode,
    ensures
        step(state, world, faults, mutator).1.log.len() == world.log.len() + 1,
        step(state, world, faults, mutator).0 == (TransactionState { phase: Phase::RestoreSettle, ..state }),
        step(state, world, faults, mutator).1.device == (Device { power_conf: state.prev_mode.bits, ..world.device }),
        step(state, world, faults, mutator).1.buffer == world.buffer,
{
    reveal(step);
}

/// The wait after the power mode has been put back.
proof fn lemma_step_restore_settle<E>(
    state: TransactionState<E>,
    world: World,
    faults: spec_fn(nat) -> Option<E>,
    mutator: spec_fn(Seq<u8>) -> Seq<u8>,
)
    requires
        state.phase is RestoreSettle,
    ensures
        step(state, world, faults, mutator).1.log.len() == world.log.len() + 1,
        step(state, world, faults, mutator).0 == (TransactionState { phase: Phase::Finished, ..state }),
        step(state, world, faults, mutator).1.device == world.device,
        step(state, world, faults, mutator).1.buffer == world.buffer,
{
    reveal(step);
}

/// The address that the pointer registers name once they have been set to
/// `addr`: what is left of `addr` after whole turns of the pointer.
#[verifier::opaque]
pub open spec fn reach(addr: int) -> int {
    pointer_address(pointer_lsb(addr), pointer_msb(addr))
}

/// The address in the memory of the device at which byte `k` of a region
/// that starts at `start` is moved: the pointer is set for the chunk of the
/// byte, and the byte has its place in the chunk.
#[verifier::opaque]
pub open spec fn place(start: int, k: int) -> int {
    reach(start + k - k % 8) + k % 8
}

/// Whether `addr` lies in one of the port widths that the chunks from `from`
/// up to `to` of a region that starts at `start` are moved to.
pub open spec fn touched(start: int, addr: int, from: int, to: int) -> bool
    decreases to - from + 8,
{
    if from >= to {
        false
    } else {
        (reach(start + from) <= addr < reach(start + from) + 8) || touched(
            start,
            addr,
            from + 8,
            to,
        )
    }
}

/// Setting the pointer to an even address leaves in it what is left of the
/// address after whole turns of the pointer.
#[verifier::rlimit(50)]
pub proof fn lemma_reach(addr: int)
    requires
        addr >= 0,
        addr % 2 == 0,
    ensures
        reach(addr) == addr % (POINTER_SPAN as int),
        reach(addr) == pointer_address(
            (pointer_lsb(addr) as u8) as int,
            (pointer_msb(addr) as u8) as int,
        ),
{
    reveal(reach);
    let half = addr / 2;
    let low = half % 16;
    let high = half / 16;
    let kept = high % 256;
    let turns = high / 256;
    assert(addr == 2 * half);
    assert(half == 16 * high + low);
    assert(high == 256 * turns + kept);
    assert(pointer_lsb(addr) == low);
    assert(pointer_msb(addr) == kept);
    assert(reach(addr) == (kept * 16 + low) * 2);
    assert(reach(addr) == addr - 8192 * turns);
    assert(0 <= reach(addr) < 8192);
}

/// Advancing the pointer by a port width from where it stands after it has
/// been set to an even address is setting it to the address a port width
/// further.
#[verifier::rlimit(50)]
proof fn lemma_reach_advances(addr: int)
    requires
        addr >= 0,
        addr % 2 == 0,
    ensures
        pointer_lsb(reach(addr) + 8) == pointer_lsb(addr + 8),
        pointer_msb(reach(addr) + 8) == pointer_msb(addr + 8),
{
    lemma_reach(addr);
    let turns = addr / 8192;
    let far = addr + 8;
    let near = reach(addr) + 8;
    assert(near == far - 8192 * turns);
    assert(near / 2 == far / 2 - 4096 * turns);
    assert((near / 2) % 16 == (far / 2) % 16);
    assert(near / 2 / 16 == far / 2 / 16 - 256 * turns);
    assert((near / 2 / 16) % 256 == (far / 2 / 16) % 256);
}

proof fn lemma_residues_apart(addr: int, distance: int)
    requires
        addr >= 0,
        0 < distance < 8192,
        distance % 8 == 0,
    ensures
        (addr + distance) % 8192 + 8 <= addr % 8192 || addr % 8192 + 8 <= (addr + distance) % 8192,
{
    let low = addr % 8192;
    let turns = addr / 8192;
    let far = (addr + distance) % 8192;
    let far_turns = (addr + distance) / 8192;
    assert(addr == 8192 * turns + low);
    assert(addr + distance == 8192 * far_turns + far);
    assert(far_turns == turns || far_turns == turns + 1);
}

/// Two chunks of a region that is no longer than the reach of the pointer
/// are moved to port widths that do not meet.
proof fn lemma_apart(addr: int, distance: int)
    requires
        addr >= 0,
        addr % 2 == 0,
        0 < distance < POINTER_SPAN,
        distance % 8 == 0,
    ensures
        reach(addr + distance) + 8 <= reach(addr) || reach(addr) + 8 <= reach(addr + distance),
{
    lemma_reach(addr);
    lemma_reach(addr + distance);
    lemma_residues_apart(addr, distance);
}

/// A byte of a chunk has its place in the port width of the chunk.
proof fn lemma_place_in_chunk(start: int, chunk: int, k: int)
    requires
        chunk % 8 == 0,
        chunk <= k < chunk + 8,
    ensures
        place(start, k) == reach(start + chunk) + (k - chunk),
{
    reveal(place);
    assert(k - k % 8 == chunk);
}

/// What lies in the port width of one chunk is in the port width of no later
/// chunk.
proof fn lemma_not_touched(start: int, addr: int, chunk: int, from: int, to: int)
    requires
        start >= 0,
        start % 2 == 0,
        chunk >= 0,
        chunk % 8 == 0,
        from % 8 == 0,
        chunk < from,
        to - chunk <= POINTER_SPAN,
        reach(start + chunk) <= addr < reach(start + chunk) + 8,
    ensures
        !touched(start, addr, from, to),
    decreases to - from + 8,
{
    if from < to {
        lemma_apart(start + chunk, from - chunk);
        lemma_not_touched(start, addr, chunk, from + 8, to);
    }
}

/// Within the reach of the pointer, a byte of a region is moved to its own
/// address.
proof fn lemma_place_in_reach(start: int, k: int, length: int)
    requires
        start >= 0,
        start % 2 == 0,
        0 <= k < padded(length),
        start + length <= POINTER_SPAN,
    ensures
        place(start, k) == start + k,
{
    reveal(place);
    lemma_reach(start + k - k % 8);
}

/// Within the reach of the pointer, the chunks of a region are moved to the
/// region, filled up to whole port widths.
proof fn lemma_touched_in_region(start: int, addr: int, from: int, to: int)
    requires
        start >= 0,
        start % 2 == 0,
        from >= 0,
        from % 8 == 0,
        start + to <= POINTER_SPAN,
        touched(start, addr, from, to),
    ensures
        start + from <= addr < start + padded(to),
    decreases to - from + 8,
{
    if from < to {
        lemma_reach(start + from);
        if !(reach(start + from) <= addr < reach(start + from) + 8) {
            lemma_touched_in_region(start, addr, from + 8, to);
        }
    }
}

/// The state of a transfer that is about to set the pointer to the chunk at
/// its position.
spec fn at_cut<E>(state: TransactionState<E>) -> bool {
    &&& state.wf()
    &&& state.phase is SetPointerLsb
    &&& state.failure is None
    &&& state.position % 8 == 0
    &&& state.next_lsb == pointer_lsb(state.start + state.position)
    &&& state.next_msb == pointer_msb(state.start + state.position)
}

/// The state `end` in which the transfer that `state` is in has moved its
/// whole region.
spec fn transfer_end<E>(state: TransactionState<E>, end: TransactionState<E>) -> bool {
    &&& end.bracket == state.bracket
    &&& end.plan == state.plan
    &&& end.start == state.start
    &&& end.length == state.length
    &&& end.writing == state.writing
    &&& end.prev_mode == state.prev_mode
    &&& end.failure is None
    &&& end.position == state.length
    &&& end.phase == if state.plan is Modify && !state.writing {
        Phase::Staged
    } else if state.bracket && state.power_save_was_on() {
        Phase::RestoreMode
    } else {
        Phase::Finished
    }
}

/// Two requests set the pointer of the device to the chunk at the position.
proof fn lemma_set_pointer<E>(
    state: TransactionState<E>,
    world: World,
    faults: spec_fn(nat) -> Option<E>,
    mutator: spec_fn(Seq<u8>) -> Seq<u8>,
    steps: nat,
) -> (end: (TransactionState<E>, World))
    requires
        no_faults(faults),
        at_cut(state),
        steps >= 2,
    ensures
        drive(state, world, faults, mutator, steps) == drive(
            end.0,
            end.1,
            faults,
            mutator,
            (steps - 2) as nat,
        ),
        end.0 == state.next_chunk(),
        end.1.buffer == world.buffer,
        end.1.device.memory == world.device.memory,
        end.1.device.power_conf == world.device.power_conf,
        end.1.device.pointer() == reach(state.start + state.position),
{
    assert(faults(world.log.len()) is None);
    let (s1, w1) = step(state, world, faults, mutator);
    lemma_step_set_pointer_lsb(state, world, faults, mutator);
    lemma_drive_step(state, world, faults, mutator, steps);
    assert(faults(w1.log.len()) is None);
    let (s2, w2) = step(s1, w1, faults, mutator);
    lemma_step_set_pointer_msb(s1, w1, faults, mutator);
    lemma_drive_step(s1, w1, faults, mutator, (steps - 1) as nat);
    lemma_reach(state.start + state.position);
    (s2, w2)
}

/// Two requests fetch the pointer of the device and advance it by the width
/// of the port.
proof fn lemma_fetch_pointer<E>(
    state: TransactionState<E>,
    world: World,
    faults: spec_fn(nat) -> Option<E>,
    mutator: spec_fn(Seq<u8>) -> Seq<u8>,
    steps: nat,
) -> (end: (TransactionState<E>, World))
    requires
        no_faults(faults),
        state.wf(),
        state.phase is FetchPointerLsb,
        state.failure is None,
        state.position % 8 == 0,
        state.position >= FEATURE_RW_SIZE,
        world.device.pointer() == reach(state.start + state.position - FEATURE_RW_SIZE),
        steps >= 2,
    ensures
        drive(state, world, faults, mutator, steps) == drive(
            end.0,
            end.1,
            faults,
            mutator,
            (steps - 2) as nat,
        ),
        at_cut(end.0),
        end.0 == (TransactionState {
            phase: Phase::SetPointerLsb,
            next_lsb: end.0.next_lsb,
            next_msb: end.0.next_msb,
            ..state
        }),
        end.1.buffer == world.buffer,
        end.1.device == world.device,
{
    assert(faults(world.log.len()) is None);
    let (s1, w1) = step(state, world, faults, mutator);
    lemma_step_fetch_pointer_lsb(state, world, faults, mutator);
    lemma_drive_step(state, world, faults, mutator, steps);
    assert(faults(w1.log.len()) is None);
    let (s2, w2) = step(s1, w1, faults, mutator);
    lemma_step_fetch_pointer_msb(s1, w1, faults, mutator);
    lemma_drive_step(s1, w1, faults, mutator, (steps - 1) as nat);
    lemma_reach_advances(state.start + state.position - FEATURE_RW_SIZE);
    (s2, w2)
}

/// What a port write leaves in the memory.
proof fn lemma_write_port_memory(device: Device, buffer: Seq<u8>, offset: int, len: int)
    requires
        0 <= offset,
        0 < len <= FEATURE_RW_SIZE,
        offset + len <= buffer.len(),
    ensures
        ({
            let written = device.write_port(port_frame_bytes(buffer, offset, len));
            &&& forall|k: int|
                0 <= k < len ==> #[trigger] (written.memory)(device.pointer() + k) == buffer[offset
                    + k]
            &&& forall|k: int|
                len <= k < FEATURE_RW_SIZE ==> #[trigger] (written.memory)(device.pointer() + k)
                    == 0u8
            &&& forall|addr: int|
                addr < device.pointer() || addr >= device.pointer() + FEATURE_RW_SIZE
                    ==> #[trigger] (written.memory)(addr) == (device.memory)(addr)
        }),
{
    let frame = port_frame_bytes(buffer, offset, len);
    assert(frame.len() == FEATURE_RW_SIZE + 1);
    let written = device.write_port(frame);
    assert forall|k: int| 0 <= k < len implies #[trigger] (written.memory)(device.pointer() + k)
        == buffer[offset + k] by {
        assert(frame[k + 1] == buffer[offset + k]);
    }
    assert forall|k: int| len <= k < FEATURE_RW_SIZE implies #[trigger] (written.memory)(
        device.pointer() + k,
    ) == 0u8 by {
        assert(frame[k + 1] == 0u8);
    }
}

/// The state after the chunk at the position of `state` has been moved.
spec fn chunk_moved<E>(state: TransactionState<E>, next: TransactionState<E>) -> bool {
    if state.length - state.position >= FEATURE_RW_SIZE {
        next == (TransactionState {
            phase: Phase::FetchPointerLsb,
            position: (state.position + FEATURE_RW_SIZE) as usize,
            ..state
        })
    } else {
        transfer_end(state, next)
    }
}

/// One request writes the chunk at the position through the port.
proof fn lemma_write_chunk<E>(
    state: TransactionState<E>,
    world: World,
    faults: spec_fn(nat) -> Option<E>,
    mutator: spec_fn(Seq<u8>) -> Seq<u8>,
    steps: nat,
) -> (end: (TransactionState<E>, World))
    requires
        no_faults(faults),
        state.wf(),
        state.phase is Port,
        state.failure is None,
        state.writing,
        state.position % 8 == 0,
        state.position < state.length,
        state.length <= world.buffer.len(),
        steps >= 1,
    ensures
        drive(state, world, faults, mutator, steps) == drive(
            end.0,
            end.1,
            faults,
            mutator,
            (steps - 1) as nat,
        ),
        chunk_moved(state, end.0),
        end.1.buffer == world.buffer,
        end.1.device.power_conf == world.device.power_conf,
        end.1.device.pointer() == world.device.pointer(),
        forall|j: int|
            0 <= j < FEATURE_RW_SIZE && state.position + j < state.length ==> #[trigger] (
            end.1.device.memory)(world.device.pointer() + j) == world.buffer[state.position + j],
        forall|j: int|
            0 <= j < FEATURE_RW_SIZE && state.position + j >= state.length ==> #[trigger] (
            end.1.device.memory)(world.device.pointer() + j) == 0u8,
        forall|addr: int|
            !(world.device.pointer() <= addr < world.device.pointer() + FEATURE_RW_SIZE)
                ==> #[trigger] (end.1.device.memory)(addr) == (world.device.memory)(addr),
{
    let len = state.chunk_len();
    assert(faults(world.log.len()) is None);
    let (next, served) = step(state, world, faults, mutator);
    lemma_step_write_port(state, world, faults, mutator);
    lemma_drive_step(state, world, faults, mutator, steps);
    lemma_write_port_memory(world.device, world.buffer, state.position as int, len as int);
    (next, served)
}

/// One request reads the chunk at the position through the port.
proof fn lemma_read_chunk<E>(
    state: TransactionState<E>,
    world: World,
    faults: spec_fn(nat) -> Option<E>,
    mutator: spec_fn(Seq<u8>) -> Seq<u8>,
    steps: nat,
) -> (end: (TransactionState<E>, World))
    requires
        no_faults(faults),
        state.wf(),
        state.phase is Port,
        state.failure is None,
        !state.writing,
        state.position % 8 == 0,
        state.position < state.length,
        state.length <= world.buffer.len(),
        steps >= 1,
    ensures
        drive(state, world, faults, mutator, steps) == drive(
            end.0,
            end.1,
            faults,
            mutator,
            (steps - 1) as nat,
        ),
        chunk_moved(state, end.0),
        end.1.device == world.device,
        end.1.buffer.len() == world.buffer.len(),
        forall|k: int|
            state.position <= k < state.length && k < state.position + FEATURE_RW_SIZE
                ==> #[trigger] end.1.buffer[k] == (world.device.memory)(
                world.device.pointer() + (k - state.position),
            ),
        forall|k: int|
            0 <= k < state.position || (state.position + FEATURE_RW_SIZE <= k
                < world.buffer.len()) || (state.length <= k < world.buffer.len())
                ==> #[trigger] end.1.buffer[k] == world.buffer[k],
{
    assert(faults(world.log.len()) is None);
    let (next, served) = step(state, world, faults, mutator);
    lemma_step_read_port(state, world, faults, mutator);
    lemma_drive_step(state, world, faults, mutator, steps);
    (next, served)
}

/// A transfer from the buffer to the device moves what is left of its region.
#[verifier::rlimit(50)]
proof fn lemma_write_transfer<E>(
    state: TransactionState<E>,
    world: World,
    faults: spec_fn(nat) -> Option<E>,
    mutator: spec_fn(Seq<u8>) -> Seq<u8>,
    steps: nat,
) -> (end: (TransactionState<E>, World, nat))
    requires
        no_faults(faults),
        at_cut(state),
        state.writing,
        state.length <= world.buffer.len(),
        state.length - state.position <= POINTER_SPAN,
        steps >= 5 * ((state.length - state.position) / 8) + 3,
    ensures
        end.2 <= 5 * ((state.length - state.position) / 8) + 3,
        drive(state, world, faults, mutator, steps) == drive(
            end.0,
            end.1,
            faults,
            mutator,
            (steps - end.2) as nat,
        ),
        transfer_end(state, end.0),
        end.1.buffer == world.buffer,
        end.1.device.power_conf == world.device.power_conf,
        forall|k: int|
            state.position <= k < state.length ==> (end.1.device.memory)(
                #[trigger] place(state.start as int, k),
            ) == world.buffer[k],
        forall|k: int|
            state.length <= k < padded(state.length as int) && state.position <= k ==> (
            end.1.device.memory)(#[trigger] place(state.start as int, k)) == 0u8,
        forall|addr: int|
            !touched(state.start as int, addr, state.position as int, state.length as int)
                ==> #[trigger] (end.1.device.memory)(addr) == (world.device.memory)(addr),
    decreases state.length - state.position,
{
    let start = state.start as int;
    let at = reach(start + state.position);
    let next = state.position + FEATURE_RW_SIZE;
    let set = lemma_set_pointer(state, world, faults, mutator, steps);
    if state.position < state.length {
        let chunk = lemma_write_chunk(set.0, set.1, faults, mutator, (steps - 2) as nat);
        assert forall|k: int| state.position <= k < next implies (chunk.1.device.memory)(
            #[trigger] place(start, k),
        ) == if k < state.length {
            world.buffer[k]
        } else {
            0u8
        } by {
            lemma_place_in_chunk(start, state.position as int, k);
            assert((chunk.1.device.memory)(at + (k - state.position)) == if k < state.length {
                world.buffer[state.position + (k - state.position)]
            } else {
                0u8
            });
        }
        assert forall|addr: int|
            !touched(start, addr, state.position as int, state.length as int) implies !(at <= addr
            < at + 8) && !touched(start, addr, next, state.length as int) by {}
        if state.length - state.position >= FEATURE_RW_SIZE {
            let fetched = lemma_fetch_pointer(
                chunk.0,
                chunk.1,
                faults,
                mutator,
                (steps - 3) as nat,
            );
            let rest = lemma_write_transfer(
                fetched.0,
                fetched.1,
                faults,
                mutator,
                (steps - 5) as nat,
            );
            assert forall|k: int| state.position <= k < state.length implies (
            rest.1.device.memory)(#[trigger] place(start, k)) == world.buffer[k] by {
                if k < next {
                    lemma_place_in_chunk(start, state.position as int, k);
                    lemma_not_touched(
                        start,
                        place(start, k),
                        state.position as int,
                        next,
                        state.length as int,
                    );
                }
            }
            (rest.0, rest.1, rest.2 + 5)
        } else {
            assert(!touched(start, at, next, state.length as int));
            assert forall|addr: int|
                !touched(
                    start,
                    addr,
                    state.position as int,
                    state.length as int,
                ) implies #[trigger] (chunk.1.device.memory)(addr) == (world.device.memory)(
                addr,
            ) by {}
            (chunk.0, chunk.1, 3)
        }
    } else {
        (set.0, set.1, 2)
    }
}

/// A transfer from the device to the buffer moves what is left of its region.
#[verifier::rlimit(50)]
proof fn lemma_read_transfer<E>(
    state: TransactionState<E>,
    world: World,
    faults: spec_fn(nat) -> Option<E>,
    mutator: spec_fn(Seq<u8>) -> Seq<u8>,
    steps: nat,
) -> (end: (TransactionState<E>, World, nat))
    requires
        no_faults(faults),
        at_cut(state),
        !state.writing,
        state.length <= world.buffer.len(),
        steps >= 5 * ((state.length - state.position) / 8) + 3,
    ensures
        end.2 <= 5 * ((state.length - state.position) / 8) + 3,
        drive(state, world, faults, mutator, steps) == drive(
            end.0,
            end.1,
            faults,
            mutator,
            (steps - end.2) as nat,
        ),
        transfer_end(state, end.0),
        end.1.device.memory == world.device.memory,
        end.1.device.power_conf == world.device.power_conf,
        end.1.buffer.len() == world.buffer.len(),
        forall|k: int|
            state.position <= k < state.length ==> #[trigger] end.1.buffer[k] == (
            world.device.memory)(place(state.start as int, k)),
        forall|k: int|
            0 <= k < state.position || state.length <= k < world.buffer.len()
                ==> #[trigger] end.1.buffer[k] == world.buffer[k],
    decreases state.length - state.position,
{
    let start = state.start as int;
    let next = state.position + FEATURE_RW_SIZE;
    let set = lemma_set_pointer(state, world, faults, mutator, steps);
    if state.position < state.length {
        let chunk = lemma_read_chunk(set.0, set.1, faults, mutator, (steps - 2) as nat);
        assert forall|k: int| state.position <= k < state.length && k < next implies #[trigger] chunk.1.buffer[k]
            == (world.device.memory)(place(start, k)) by {
            lemma_place_in_chunk(start, state.position as int, k);
        }
        if state.length - state.position >= FEATURE_RW_SIZE {
            let fetched = lemma_fetch_pointer(
                chunk.0,
                chunk.1,
                faults,
                mutator,
                (steps - 3) as nat,
            );
            let rest = lemma_read_transfer(
                fetched.0,
                fetched.1,
                faults,
                mutator,
                (steps - 5) as nat,
            );
            assert forall|k: int| state.position <= k < state.length implies #[trigger] rest.1.buffer[k]
                == (world.device.memory)(place(start, k)) by {
                if k < next {
                    assert(rest.1.buffer[k] == chunk.1.buffer[k]);
                }
            }
            (rest.0, rest.1, rest.2 + 5)
        } else {
            (chunk.0, chunk.1, 3)
        }
    } else {
        (set.0, set.1, 2)
    }
}

/// The power mode that a bracketed transaction puts back on a device that it
/// found with the power mode `power_conf`.
pub open spec fn restored_power_conf(bracket: bool, power_conf: u8) -> u8 {
    if bracket && power_conf & 0b01 == 0b01 {
        power_conf & PowerMode::all_bits()
    } else {
        power_conf
    }
}

/// At most three requests bring a transaction to its first pointer write.
proof fn lemma_prologue<E>(
    bracket: bool,
    plan: Plan,
    start: usize,
    length: usize,
    world: World,
    faults: spec_fn(nat) -> Option<E>,
    mutator: spec_fn(Seq<u8>) -> Seq<u8>,
    steps: nat,
) -> (end: (TransactionState<E>, World, nat))
    requires
        no_faults(faults),
        start % 2 == 0,
        length % 2 == 0,
        steps >= 3,
    ensures
        end.2 <= 3,
        drive(TransactionState::initial(bracket, plan, start, length), world, faults, mutator, steps)
            == drive(end.0, end.1, faults, mutator, (steps - end.2) as nat),
        at_cut(end.0),
        end.0.position == 0,
        end.0.bracket == bracket,
        end.0.plan == plan,
        end.0.start == start,
        end.0.length == length,
        end.0.writing == (plan is Write),
        bracket ==> end.0.prev_mode.bits == world.device.power_conf & PowerMode::all_bits(),
        end.1.buffer == world.buffer,
        end.1.device.memory == world.device.memory,
        !(bracket && world.device.power_save_on()) ==> end.1.device.power_conf
            == world.device.power_conf,
{
    let state = TransactionState::<E>::initial(bracket, plan, start, length);
    assert(PowerMode::all_bits() == 0b11u8);
    lemma_power_save_bit(world.device.power_conf);
    if bracket {
        assert(faults(world.log.len()) is None);
        let (s1, w1) = step(state, world, faults, mutator);
        lemma_step_read_mode(state, world, faults, mutator);
        lemma_drive_step(state, world, faults, mutator, steps);
        if world.device.power_save_on() {
            assert(faults(w1.log.len()) is None);
            let (s2, w2) = step(s1, w1, faults, mutator);
            lemma_step_clear_mode(s1, w1, faults, mutator);
            lemma_drive_step(s1, w1, faults, mutator, (steps - 1) as nat);
            let (s3, w3) = step(s2, w2, faults, mutator);
            lemma_step_clear_settle(s2, w2, faults, mutator);
            lemma_drive_step(s2, w2, faults, mutator, (steps - 2) as nat);
            (s3, w3, 3)
        } else {
            (s1, w1, 1)
        }
    } else {
        (state, world, 0)
    }
}

/// At most two requests bring a transaction whose transfer is done to its
/// end.
proof fn lemma_epilogue<E>(
    state: TransactionState<E>,
    world: World,
    faults: spec_fn(nat) -> Option<E>,
    mutator: spec_fn(Seq<u8>) -> Seq<u8>,
    steps: nat,
)
    requires
        no_faults(faults),
        state.failure is None,
        state.phase == if state.bracket && state.power_save_was_on() {
            Phase::RestoreMode
        } else {
            Phase::Finished
        },
        steps >= 2,
    ensures
        ({
            let (last, end) = drive(state, world, faults, mutator, steps);
            &&& last.result() == Some(Ok::<(), Error<E>>(()))
            &&& end.buffer == world.buffer
            &&& end.device.memory == world.device.memory
            &&& end.device.power_conf == if state.phase is RestoreMode {
                state.prev_mode.bits
            } else {
                world.device.power_conf
            }
        }),
{
    if state.phase is RestoreMode {
        assert(faults(world.log.len()) is None);
        let (s1, w1) = step(state, world, faults, mutator);
        lemma_step_restore_mode(state, world, faults, mutator);
        lemma_drive_step(state, world, faults, mutator, steps);
        let (s2, w2) = step(s1, w1, faults, mutator);
        lemma_step_restore_settle(s1, w1, faults, mutator);
        lemma_drive_step(s1, w1, faults, mutator, (steps - 1) as nat);
        assert(drive(s2, w2, faults, mutator, (steps - 2) as nat) == (s2, w2));
    } else {
        assert(drive(state, world, faults, mutator, steps) == (state, world));
    }
}

/// A write, driven to its end on a bus that does not fail, succeeds and
/// leaves every byte of the first `length` of the buffer at its place in the
/// memory of the device, whatever the power mode of the device and wherever
/// the region starts. What is left of the last port width is filled with
/// zeros, the memory is otherwise as it was, and so is the buffer. The power
/// mode is as it was found, cut to the bits that are flags if the power save
/// flag had to be cleared. The region must not be longer than the reach of
/// the pointer: a longer one comes back to where it began.
pub proof fn lemma_write_stores_chunks<E>(
    bracket: bool,
    start: usize,
    length: usize,
    world: World,
    faults: spec_fn(nat) -> Option<E>,
    mutator: spec_fn(Seq<u8>) -> Seq<u8>,
    steps: nat,
)
    requires
        start % 2 == 0,
        length % 2 == 0,
        length <= POINTER_SPAN,
        length <= world.buffer.len(),
        no_faults(faults),
        steps >= enough_steps(length),
    ensures
        ({
            let (last, end) = drive(
                TransactionState::initial(bracket, Plan::Write, start, length),
                world,
                faults,
                mutator,
                steps,
            );
            &&& last.result() == Some(Ok::<(), Error<E>>(()))
            &&& end.buffer == world.buffer
            &&& end.device.power_conf == restored_power_conf(bracket, world.device.power_conf)
            &&& forall|k: int|
                0 <= k < length ==> (end.device.memory)(#[trigger] place(start as int, k))
                    == world.buffer[k]
            &&& forall|k: int|
                length <= k < padded(length as int) ==> (end.device.memory)(
                    #[trigger] place(start as int, k),
                ) == 0u8
            &&& forall|addr: int|
                !touched(start as int, addr, 0, length as int) ==> #[trigger] (end.device.memory)(
                    addr,
                ) == (world.device.memory)(addr)
        }),
{
    let begun = lemma_prologue(bracket, Plan::Write, start, length, world, faults, mutator, steps);
    let moved = lemma_write_transfer(
        begun.0,
        begun.1,
        faults,
        mutator,
        (steps - begun.2) as nat,
    );
    lemma_epilogue(moved.0, moved.1, faults, mutator, (steps - begun.2 - moved.2) as nat);
    lemma_power_save_bit(world.device.power_conf);
    assert(PowerMode::all_bits() == 0b11u8);
}

/// A read, driven to its end on a bus that does not fail, succeeds and leaves
/// in each of the first `length` bytes of the buffer what the memory of the
/// device holds at the place of the byte, whatever the power mode of the
/// device, wherever the region starts and however long it is. The rest of
/// the buffer is as it was, and so is the memory. The power mode is as it was
/// found, cut to the bits that are flags if the power save flag had to be
/// cleared.
pub proof fn lemma_read_fetches_chunks<E>(
    bracket: bool,
    start: usize,
    length: usize,
    world: World,
    faults: spec_fn(nat) -> Option<E>,
    mutator: spec_fn(Seq<u8>) -> Seq<u8>,
    steps: nat,
)
    requires
        start % 2 == 0,
        length % 2 == 0,
        length <= world.buffer.len(),
        no_faults(faults),
        steps >= enough_steps(length),
    ensures
        ({
            let (last, end) = drive(
                TransactionState::initial(bracket, Plan::Read, start, length),
                world,
                faults,
                mutator,
                steps,
            );
            &&& last.result() == Some(Ok::<(), Error<E>>(()))
            &&& end.device.memory == world.device.memory
            &&& end.device.power_conf == restored_power_conf(bracket, world.device.power_conf)
            &&& end.buffer.len() == world.buffer.len()
            &&& forall|k: int|
                0 <= k < length ==> #[trigger] end.buffer[k] == (world.device.memory)(
                    place(start as int, k),
                )
            &&& forall|k: int|
                length <= k < world.buffer.len() ==> #[trigger] end.buffer[k] == world.buffer[k]
        }),
{
    let begun = lemma_prologue(bracket, Plan::Read, start, length, world, faults, mutator, steps);
    let moved = lemma_read_transfer(begun.0, begun.1, faults, mutator, (steps - begun.2) as nat);
    lemma_epilogue(moved.0, moved.1, faults, mutator, (steps - begun.2 - moved.2) as nat);
    lemma_power_save_bit(world.device.power_conf);
    assert(PowerMode::all_bits() == 0b11u8);
}

/// A write of a region that lies within the reach of the pointer, driven to
/// its end on a bus that does not fail, succeeds and leaves the first
/// `length` bytes of the buffer in the memory of the device, from `start` on.
/// What is left of the last port width is filled with zeros, the memory is
/// otherwise as it was, and so is the buffer. The power mode is as it was
/// found, cut to the bits that are flags if the power save flag had to be
/// cleared.
pub proof fn lemma_write_stores_region<E>(
    bracket: bool,
    start: usize,
    length: usize,
    world: World,
    faults: spec_fn(nat) -> Option<E>,
    mutator: spec_fn(Seq<u8>) -> Seq<u8>,
    steps: nat,
)
    requires
        start % 2 == 0,
        length % 2 == 0,
        start + length <= POINTER_SPAN,
        length <= world.buffer.len(),
        no_faults(faults),
        steps >= enough_steps(length),
    ensures
        ({
            let (last, end) = drive(
                TransactionState::initial(bracket, Plan::Write, start, length),
                world,
                faults,
                mutator,
                steps,
            );
            &&& last.result() == Some(Ok::<(), Error<E>>(()))
            &&& end.buffer == world.buffer
            &&& end.device.power_conf == restored_power_conf(bracket, world.device.power_conf)
            &&& forall|k: int|
                0 <= k < length ==> #[trigger] (end.device.memory)(start + k) == world.buffer[k]
            &&& forall|k: int|
                length <= k < padded(length as int) ==> #[trigger] (end.device.memory)(start + k)
                    == 0u8
            &&& forall|addr: int|
                addr < start || addr >= start + padded(length as int) ==> #[trigger] (
                end.device.memory)(addr) == (world.device.memory)(addr)
        }),
{
    lemma_write_stores_chunks(bracket, start, length, world, faults, mutator, steps);
    let end = drive(
        TransactionState::<E>::initial(bracket, Plan::Write, start, length),
        world,
        faults,
        mutator,
        steps,
    ).1;
    assert forall|k: int| 0 <= k < padded(length as int) implies #[trigger] (end.device.memory)(
        start + k,
    ) == if k < length {
        world.buffer[k]
    } else {
        0u8
    } by {
        lemma_place_in_reach(start as int, k, length as int);
        assert((end.device.memory)(place(start as int, k)) == (end.device.memory)(start + k));
    }
    assert forall|addr: int|
        addr < start || addr >= start + padded(length as int) implies #[trigger] (
    end.device.memory)(addr) == (world.device.memory)(addr) by {
        if touched(start as int, addr, 0, length as int) {
            lemma_touched_in_region(start as int, addr, 0, length as int);
        }
    }
}

/// A read of a region that lies within the reach of the pointer, driven to
/// its end on a bus that does not fail, succeeds and leaves in the first
/// `length` bytes of the buffer what the memory of the device holds from
/// `start` on. The rest of the buffer is as it was, and so is the memory. The
/// power mode is as it was found, cut to the bits that are flags if the power
/// save flag had to be cleared.
pub proof fn lemma_read_fetches_region<E>(
    bracket: bool,
    start: usize,
    length: usize,
    world: World,
    faults: spec_fn(nat) -> Option<E>,
    mutator: spec_fn(Seq<u8>) -> Seq<u8>,
    steps: nat,
)
    requires
        start % 2 == 0,
        length % 2 == 0,
        start + length <= POINTER_SPAN,
        length <= world.buffer.len(),
        no_faults(faults),
        steps >= enough_steps(length),
    ensures
        ({
            let (last, end) = drive(
                TransactionState::initial(bracket, Plan::Read, start, length),
                world,
                faults,
                mutator,
                steps,
            );
            &&& last.result() == Some(Ok::<(), Error<E>>(()))
            &&& end.device.memory == world.device.memory
            &&& end.device.power_conf == restored_power_conf(bracket, world.device.power_conf)
            &&& end.buffer.len() == world.buffer.len()
            &&& forall|k: int|
                0 <= k < length ==> #[trigger] end.buffer[k] == (world.device.memory)(start + k)
            &&& forall|k: int|
                length <= k < world.buffer.len() ==> #[trigger] end.buffer[k] == world.buffer[k]
        }),
{
    lemma_read_fetches_chunks(bracket, start, length, world, faults, mutator, steps);
    assert forall|k: int| 0 <= k < length implies place(start as int, k) == start + k by {
        lemma_place_in_reach(start as int, k, length as int);
    }
}

/// What is written is what is read afterwards: a write of `data` from `start`
/// on, and then a read of as many bytes from `start` on into any buffer of
/// that length, both driven to their end on a bus that does not fail, succeed
/// and leave `data` in the buffer. This holds wherever the region starts and
/// for every even length up to the reach of the pointer, none and lengths
/// that are no multiple of the port width included.
pub proof fn lemma_write_then_read<E>(
    start: usize,
    device: Device,
    data: Seq<u8>,
    out: Seq<u8>,
    faults: spec_fn(nat) -> Option<E>,
    mutator: spec_fn(Seq<u8>) -> Seq<u8>,
    steps: nat,
)
    requires
        start % 2 == 0,
        data.len() % 2 == 0,
        data.len() <= POINTER_SPAN,
        out.len() == data.len(),
        no_faults(faults),
        steps >= enough_steps(data.len() as usize),
    ensures
        ({
            let length = data.len() as usize;
            let (wrote, written) = drive(
                TransactionState::initial(true, Plan::Write, start, length),
                World { device, buffer: data, log: Seq::empty() },
                faults,
                mutator,
                steps,
            );
            let (read, fetched) = drive(
                TransactionState::initial(true, Plan::Read, start, length),
                World { device: written.device, buffer: out, log: written.log },
                faults,
                mutator,
                steps,
            );
            &&& wrote.result() == Some(Ok::<(), Error<E>>(()))
            &&& read.result() == Some(Ok::<(), Error<E>>(()))
            &&& fetched.buffer == data
        }),
{
    let length = data.len() as usize;
    let before = World { device, buffer: data, log: Seq::empty() };
    lemma_write_stores_chunks(true, start, length, before, faults, mutator, steps);
    let written = drive(
        TransactionState::initial(true, Plan::Write, start, length),
        before,
        faults,
        mutator,
        steps,
    ).1;
    let between = World { device: written.device, buffer: out, log: written.log };
    lemma_read_fetches_chunks(true, start, length, between, faults, mutator, steps);
    let fetched = drive(
        TransactionState::initial(true, Plan::Read, start, length),
        between,
        faults,
        mutator,
        steps,
    ).1;
    assert forall|k: int| 0 <= k < length implies fetched.buffer[k] == data[k] by {
        assert((written.device.memory)(place(start as int, k)) == data[k]);
    }
    assert(fetched.buffer =~= data);
}

/// The feature window as the memory of `device` holds it.
pub open spec fn feature_window(device: Device) -> Seq<u8> {
    Seq::new(FEATURE_SIZE as nat, |k: int| (device.memory)(feature_offset::START + k))
}

/// A change of the feature window, driven to its end on a bus that does not
/// fail, succeeds and leaves in the feature window of the device, and in the
/// buffer, what the caller made of the window that the device held. The
/// memory is otherwise as it was. The power mode is as it was found, cut to
/// the bits that are flags if the power save flag had to be cleared.
pub proof fn lemma_feature_access_applies_mutator<E>(
    world: World,
    faults: spec_fn(nat) -> Option<E>,
    mutator: spec_fn(Seq<u8>) -> Seq<u8>,
    steps: nat,
)
    requires
        world.buffer.len() == FEATURE_SIZE,
        mutator(feature_window(world.device)).len() == FEATURE_SIZE,
        no_faults(faults),
        steps >= 2 * enough_steps(FEATURE_SIZE),
    ensures
        ({
            let (last, end) = drive(
                TransactionState::initial(true, Plan::Modify, feature_offset::START, FEATURE_SIZE),
                world,
                faults,
                mutator,
                steps,
            );
            &&& last.result() == Some(Ok::<(), Error<E>>(()))
            &&& end.buffer == mutator(feature_window(world.device))
            &&& feature_window(end.device) == end.buffer
            &&& end.device.power_conf == restored_power_conf(true, world.device.power_conf)
            &&& forall|addr: int|
                addr < feature_offset::START || addr >= feature_offset::START + FEATURE_SIZE
                    ==> #[trigger] (end.device.memory)(addr) == (world.device.memory)(addr)
        }),
{
    let start = feature_offset::START as int;
    let begun = lemma_prologue(
        true,
        Plan::Modify,
        feature_offset::START,
        FEATURE_SIZE,
        world,
        faults,
        mutator,
        steps,
    );
    let read = lemma_read_transfer(begun.0, begun.1, faults, mutator, (steps - begun.2) as nat);
    assert forall|k: int| 0 <= k < FEATURE_SIZE implies place(start, k) == start + k by {
        lemma_place_in_reach(start, k, FEATURE_SIZE as int);
    }
    assert(read.1.buffer =~= feature_window(world.device));
    let left = (steps - begun.2 - read.2) as nat;
    let (staged, changed) = step(read.0, read.1, faults, mutator);
    lemma_step_stage(read.0, read.1, faults, mutator);
    lemma_drive_step(read.0, read.1, faults, mutator, left);
    let written = lemma_write_transfer(staged, changed, faults, mutator, (left - 1) as nat);
    lemma_epilogue(written.0, written.1, faults, mutator, (left - 1 - written.2) as nat);
    lemma_power_save_bit(world.device.power_conf);
    assert(PowerMode::all_bits() == 0b11u8);
    let end = drive(
        TransactionState::<E>::initial(true, Plan::Modify, feature_offset::START, FEATURE_SIZE),
        world,
        faults,
        mutator,
        steps,
    ).1;
    assert forall|k: int| 0 <= k < FEATURE_SIZE implies (end.device.memory)(start + k)
        == end.buffer[k] by {
        assert((end.device.memory)(place(start, k)) == end.buffer[k]);
    }
    assert(feature_window(end.device) =~= end.buffer);
    assert forall|addr: int|
        addr < feature_offset::START || addr >= feature_offset::START
            + FEATURE_SIZE implies #[trigger] (end.device.memory)(addr) == (world.device.memory)(
        addr,
    ) by {
        if touched(start, addr, 0, FEATURE_SIZE as int) {
            lemma_touched_in_region(start, addr, 0, FEATURE_SIZE as int);
        }
    }
}

} // verus!

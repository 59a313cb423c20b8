//! Moving a region of the feature configuration memory through the port.
//!
//! The device shows its configuration memory through one port register that
//! takes eight bytes at a time, at the place that two pointer registers name.
//! The port is only defined while the advanced power save mode is off. A
//! [`FeatureTransaction`] sequences everything such a transfer needs: it reads
//! the power mode and clears the power save flag if it is set, sets the
//! pointer, moves the region chunk by chunk while advancing the pointer, and
//! puts the power mode back, also after a transfer that failed.
//!
//! The transaction touches no bus and owns no buffer. It names one
//! [`Request`] at a time; the caller performs it on the bus, on a buffer of
//! its own, and hands the [`Response`] back.

use crate::bma423::Error;
use crate::bma423::feature_offset;
use crate::bma423::flags::PowerMode;
use crate::bma423::pointer::{
    join_feature_conf_data_address, pointer_address, pointer_lsb, pointer_msb,
    split_feature_conf_data_address,
};
use crate::bma423::register;
use vstd::prelude::*;

verus! {

/// Size in bytes of the feature window.
pub const FEATURE_SIZE: usize = 64;

/// Number of bytes that the port takes or gives in one transfer.
pub const FEATURE_RW_SIZE: usize = 8;

/// Time in microseconds that the device needs after a change of its power
/// mode before it takes another register access.
pub const SENSOR_TIME_SYNCHRONIZATION_US: u32 = 450;

/// What the caller has to do next.
#[derive(Clone, Copy, Debug, PartialEq, Eq, Structural)]
pub enum Request {
    /// Read one register and answer with its value.
    ReadRegister { register: u8 },
    /// Write one value to one register.
    WriteRegister { register: u8, value: u8 },
    /// Read `len` bytes from the port register into the caller's buffer, at
    /// `offset`.
    ReadPort { offset: usize, len: usize },
    /// Write the frame that [`port_frame`] makes of the `len` bytes at
    /// `offset` of the caller's buffer.
    WritePort { offset: usize, len: usize },
    /// Wait for the given number of microseconds.
    Delay { micros: u32 },
    /// The buffer holds the feature window: change it in place.
    Stage,
    /// The transaction is over: nothing is left to do.
    Done,
}

/// How a request ended.
#[derive(Debug)]
pub enum Response<E> {
    /// A write, a port transfer, a wait or a change of the window was done.
    Completed,
    /// The register that was read holds this value.
    Value(u8),
    /// The bus transfer failed.
    Failed(E),
}

/// What a transaction moves.
#[derive(Clone, Copy, Debug, PartialEq, Eq, Structural)]
pub enum Plan {
    /// From the device into the buffer.
    Read,
    /// From the buffer into the device.
    Write,
    /// From the device into the buffer, and, once the caller has changed the
    /// buffer, back into the device.
    Modify,
}

/// The request that a transaction is waiting on.
#[derive(Clone, Copy, Debug, PartialEq, Eq, Structural)]
pub enum Phase {
    /// The read of the power mode register.
    ReadMode,
    /// The write of the power mode without the power save flag.
    ClearMode,
    /// The wait after that write.
    ClearSettle,
    /// The write of the low pointer register.
    SetPointerLsb,
    /// The write of the high pointer register.
    SetPointerMsb,
    /// The transfer of one chunk through the port.
    Port,
    /// The read of the low pointer register.
    FetchPointerLsb,
    /// The read of the high pointer register.
    FetchPointerMsb,
    /// The change of the window by the caller.
    Staged,
    /// The write of the power mode as it was found.
    RestoreMode,
    /// The wait after that write.
    RestoreSettle,
    /// Nothing: the transaction is over.
    Finished,
}

/// Why a region cannot be transferred.
#[derive(Clone, Copy, Debug, PartialEq, Eq, Structural)]
pub enum PreconditionViolation {
    /// The region starts at an odd address.
    OddOffset,
    /// The region has an odd number of bytes.
    OddLength,
}

/// Whether `response` is an answer to `request`: a register that is read
/// gives a value or fails; a write and a port transfer are done or fail; a
/// wait and a staging are done; nothing answers the end.
pub open spec fn answers<E>(request: Request, response: Response<E>) -> bool {
    match request {
        Request::ReadRegister { .. } => !(response is Completed),
        Request::WriteRegister { .. } | Request::ReadPort { .. } | Request::WritePort { .. } => !(
        response is Value),
        Request::Delay { .. } | Request::Stage => response is Completed,
        Request::Done => false,
    }
}

/// All that a transaction knows, as plain values.
pub struct TransactionState<E> {
    /// Whether the transfer stands between a clearing and a restoring of the
    /// power save flag.
    pub bracket: bool,
    /// What is moved.
    pub plan: Plan,
    /// Address of the first byte of the region in the configuration memory.
    pub start: usize,
    /// Number of bytes of the region.
    pub length: usize,
    /// The request that is waited on.
    pub phase: Phase,
    /// Whether the transfer under way goes from the buffer to the device.
    pub writing: bool,
    /// Number of bytes of the region that have been moved in the transfer
    /// under way.
    pub position: usize,
    /// The power mode as it was found.
    pub prev_mode: PowerMode,
    /// What is to be written to the low pointer register.
    pub next_lsb: u8,
    /// What is to be written to the high pointer register.
    pub next_msb: u8,
    /// The error of the first bus transfer that failed.
    pub failure: Option<E>,
}

impl<E> TransactionState<E> {
    /// The state in which a transaction starts.
    pub open spec fn initial(bracket: bool, plan: Plan, start: usize, length: usize) -> Self {
        let fresh = TransactionState {
            bracket,
            plan,
            start,
            length,
            phase: Phase::ReadMode,
            writing: plan is Write,
            position: 0,
            prev_mode: PowerMode { bits: 0 },
            next_lsb: 0,
            next_msb: 0,
            failure: None,
        };
        if bracket {
            fresh
        } else {
            fresh.begin_transfer()
        }
    }

    /// What holds of every state that a transaction can be in.
    pub open spec fn wf(self) -> bool {
        &&& self.start % 2 == 0
        &&& self.length % 2 == 0
        &&& self.position <= self.length
    }

    /// Whether the power save flag was set when the transaction started.
    pub open spec fn power_save_was_on(self) -> bool {
        self.prev_mode.bits & 0b01 == 0b01
    }

    /// Number of bytes of the chunk at `position`: a whole port width, or
    /// what is left of the region.
    pub open spec fn chunk_len(self) -> usize {
        if self.length - self.position >= FEATURE_RW_SIZE {
            FEATURE_RW_SIZE
        } else {
            (self.length - self.position) as usize
        }
    }

    /// The state that waits on the first pointer write of a transfer.
    pub open spec fn begin_transfer(self) -> Self {
        TransactionState {
            phase: Phase::SetPointerLsb,
            position: 0,
            next_lsb: pointer_lsb(self.start as int) as u8,
            next_msb: pointer_msb(self.start as int) as u8,
            ..self
        }
    }

    /// The state after the pointer has been set: the next chunk, or the end
    /// of the transfer when the whole region has been moved.
    pub open spec fn next_chunk(self) -> Self {
        if self.position < self.length {
            TransactionState { phase: Phase::Port, ..self }
        } else {
            self.end_transfer()
        }
    }

    /// The state after the last chunk of a transfer.
    pub open spec fn end_transfer(self) -> Self {
        if self.plan is Modify && !self.writing {
            TransactionState { phase: Phase::Staged, ..self }
        } else {
            self.release()
        }
    }

    /// The state after the transfer, done or given up: the power mode is put
    /// back if the power save flag was cleared for it.
    pub open spec fn release(self) -> Self {
        if self.bracket && self.power_save_was_on() {
            TransactionState { phase: Phase::RestoreMode, ..self }
        } else {
            TransactionState { phase: Phase::Finished, ..self }
        }
    }

    /// The state that remembers `error`, unless an earlier error is
    /// remembered already.
    pub open spec fn fail(self, error: E) -> Self {
        if self.failure is Some {
            self
        } else {
            TransactionState { failure: Some(error), ..self }
        }
    }

    /// The request that the transaction is waiting on.
    pub open spec fn request(self) -> Request {
        match self.phase {
            Phase::ReadMode => Request::ReadRegister { register: register::PWR_CONF },
            Phase::ClearMode => Request::WriteRegister {
                register: register::PWR_CONF,
                value: self.prev_mode.bits & !0b01u8,
            },
            Phase::ClearSettle => Request::Delay { micros: SENSOR_TIME_SYNCHRONIZATION_US },
            Phase::SetPointerLsb => Request::WriteRegister {
                register: register::RESERVED_REG_5B,
                value: self.next_lsb,
            },
            Phase::SetPointerMsb => Request::WriteRegister {
                register: register::RESERVED_REG_5C,
                value: self.next_msb,
            },
            Phase::Port => if self.writing {
                Request::WritePort { offset: self.position, len: self.chunk_len() }
            } else {
                Request::ReadPort { offset: self.position, len: self.chunk_len() }
            },
            Phase::FetchPointerLsb => Request::ReadRegister { register: register::RESERVED_REG_5B },
            Phase::FetchPointerMsb => Request::ReadRegister { register: register::RESERVED_REG_5C },
            Phase::Staged => Request::Stage,
            Phase::RestoreMode => Request::WriteRegister {
                register: register::PWR_CONF,
                value: self.prev_mode.bits,
            },
            Phase::RestoreSettle => Request::Delay { micros: SENSOR_TIME_SYNCHRONIZATION_US },
            Phase::Finished => Request::Done,
        }
    }

    /// Whether `response` is an answer to the request that is waited on.
    pub open spec fn accepts(self, response: Response<E>) -> bool {
        answers(self.request(), response)
    }

    /// The state after `response`. A response that is no answer to the
    /// request that is waited on changes nothing.
    pub open spec fn respond(self, response: Response<E>) -> Self {
        if !self.accepts(response) {
            self
        } else {
            match response {
                Response::Failed(error) => match self.phase {
                    Phase::ReadMode | Phase::RestoreMode => TransactionState {
                        phase: Phase::Finished,
                        ..self.fail(error)
                    },
                    _ => self.fail(error).release(),
                },
                Response::Value(value) => match self.phase {
                    Phase::ReadMode => {
                        let found = TransactionState {
                            prev_mode: PowerMode { bits: value & PowerMode::all_bits() },
                            ..self
                        };
                        if found.power_save_was_on() {
                            TransactionState { phase: Phase::ClearMode, ..found }
                        } else {
                            found.begin_transfer()
                        }
                    },
                    Phase::FetchPointerLsb => TransactionState {
                        phase: Phase::FetchPointerMsb,
                        next_lsb: value,
                        ..self
                    },
                    _ => {
                        let advanced = pointer_address(self.next_lsb as int, value as int)
                            + FEATURE_RW_SIZE;
                        TransactionState {
                            phase: Phase::SetPointerLsb,
                            next_lsb: pointer_lsb(advanced) as u8,
                            next_msb: pointer_msb(advanced) as u8,
                            ..self
                        }
                    },
                },
                Response::Completed => match self.phase {
                    Phase::ClearMode => TransactionState { phase: Phase::ClearSettle, ..self },
                    Phase::ClearSettle => self.begin_transfer(),
                    Phase::SetPointerLsb => TransactionState { phase: Phase::SetPointerMsb, ..self },
                    Phase::SetPointerMsb => self.next_chunk(),
                    Phase::Port => {
                        let moved = TransactionState {
                            position: (self.position + self.chunk_len()) as usize,
                            ..self
                        };
                        if self.chunk_len() == FEATURE_RW_SIZE {
                            TransactionState { phase: Phase::FetchPointerLsb, ..moved }
                        } else {
                            moved.end_transfer()
                        }
                    },
                    Phase::Staged => TransactionState { writing: true, ..self }.begin_transfer(),
                    Phase::RestoreMode => TransactionState { phase: Phase::RestoreSettle, ..self },
                    _ => TransactionState { phase: Phase::Finished, ..self },
                },
            }
        }
    }

    /// How the transaction ended: nothing while it is under way, then the
    /// error of the first bus transfer that failed, if one did.
    pub open spec fn result(self) -> Option<Result<(), Error<E>>> {
        if self.phase is Finished {
            Some(
                match self.failure {
                    Some(error) => Err(Error::Bus(error)),
                    None => Ok(()),
                },
            )
        } else {
            None
        }
    }
}


/// Every answer leaves the state well formed.
pub proof fn lemma_respond_keeps_wf<E>(state: TransactionState<E>, response: Response<E>)
    requires
        state.wf(),
    ensures
        state.respond(response).wf(),
{
}

fn chunk_len<E>(state: &TransactionState<E>) -> (len: usize)
    requires
        state.wf(),
    ensures
        len == state.chunk_len(),
{
    if state.length - state.position >= FEATURE_RW_SIZE {
        FEATURE_RW_SIZE
    } else {
        state.length - state.position
    }
}

pub(crate) fn begin_transfer<E>(state: TransactionState<E>) -> (next: TransactionState<E>)
    ensures
        next == state.begin_transfer(),
{
    let (next_lsb, next_msb) = split_feature_conf_data_address(state.start);
    TransactionState { phase: Phase::SetPointerLsb, position: 0, next_lsb, next_msb, ..state }
}

fn release<E>(state: TransactionState<E>) -> (next: TransactionState<E>)
    ensures
        next == state.release(),
{
    if state.bracket && state.prev_mode.contains(PowerMode::advanced_power_save()) {
        TransactionState { phase: Phase::RestoreMode, ..state }
    } else {
        TransactionState { phase: Phase::Finished, ..state }
    }
}

fn end_transfer<E>(state: TransactionState<E>) -> (next: TransactionState<E>)
    ensures
        next == state.end_transfer(),
{
    let staging = match state.plan {
        Plan::Modify => !state.writing,
        _ => false,
    };
    if staging {
        TransactionState { phase: Phase::Staged, ..state }
    } else {
        release(state)
    }
}

fn next_chunk<E>(state: TransactionState<E>) -> (next: TransactionState<E>)
    ensures
        next == state.next_chunk(),
{
    if state.position < state.length {
        TransactionState { phase: Phase::Port, ..state }
    } else {
        end_transfer(state)
    }
}

fn fail<E>(state: TransactionState<E>, error: E) -> (next: TransactionState<E>)
    ensures
        next == state.fail(error),
{
    if state.failure.is_some() {
        state
    } else {
        TransactionState { failure: Some(error), ..state }
    }
}

pub(crate) fn request_of<E>(state: &TransactionState<E>) -> (request: Request)
    requires
        state.wf(),
    ensures
        request == state.request(),
{
    match state.phase {
        Phase::ReadMode => Request::ReadRegister { register: register::PWR_CONF },
        Phase::ClearMode => Request::WriteRegister {
            register: register::PWR_CONF,
            value: state.prev_mode.difference(PowerMode::advanced_power_save()).bits(),
        },
        Phase::ClearSettle => Request::Delay { micros: SENSOR_TIME_SYNCHRONIZATION_US },
        Phase::SetPointerLsb => Request::WriteRegister {
            register: register::RESERVED_REG_5B,
            value: state.next_lsb,
        },
        Phase::SetPointerMsb => Request::WriteRegister {
            register: register::RESERVED_REG_5C,
            value: state.next_msb,
        },
        Phase::Port => if state.writing {
            Request::WritePort { offset: state.position, len: chunk_len(state) }
        } else {
            Request::ReadPort { offset: state.position, len: chunk_len(state) }
        },
        Phase::FetchPointerLsb => Request::ReadRegister { register: register::RESERVED_REG_5B },
        Phase::FetchPointerMsb => Request::ReadRegister { register: register::RESERVED_REG_5C },
        Phase::Staged => Request::Stage,
        Phase::RestoreMode => Request::WriteRegister {
            register: register::PWR_CONF,
            value: state.prev_mode.bits(),
        },
        Phase::RestoreSettle => Request::Delay { micros: SENSOR_TIME_SYNCHRONIZATION_US },
        Phase::Finished => Request::Done,
    }
}

/// Tells whether `response` is an answer to `request`.
pub fn is_answer<E>(request: Request, response: &Response<E>) -> (yes: bool)
    ensures
        yes == answers(request, *response),
{
    match request {
        Request::ReadRegister { .. } => match response {
            Response::Completed => false,
            _ => true,
        },
        Request::WriteRegister { .. } | Request::ReadPort { .. } | Request::WritePort { .. } => {
            match response {
                Response::Value(_) => false,
                _ => true,
            }
        },
        Request::Delay { .. } | Request::Stage => match response {
            Response::Completed => true,
            _ => false,
        },
        Request::Done => false,
    }
}

pub(crate) fn respond_to<E>(state: TransactionState<E>, response: Response<E>) -> (next: TransactionState<E>)
    requires
        state.wf(),
    ensures
        next == state.respond(response),
{
    if !is_answer(request_of(&state), &response) {
        return state;
    }
    match response {
        Response::Failed(error) => match state.phase {
            Phase::ReadMode | Phase::RestoreMode => {
                TransactionState { phase: Phase::Finished, ..fail(state, error) }
            },
            _ => release(fail(state, error)),
        },
        Response::Value(value) => match state.phase {
            Phase::ReadMode => {
                let prev_mode = PowerMode::from_bits_truncate(value);
                let found = TransactionState { prev_mode, ..state };
                if prev_mode.contains(PowerMode::advanced_power_save()) {
                    TransactionState { phase: Phase::ClearMode, ..found }
                } else {
                    begin_transfer(found)
                }
            },
            Phase::FetchPointerLsb => {
                TransactionState { phase: Phase::FetchPointerMsb, next_lsb: value, ..state }
            },
            _ => {
                let addr = join_feature_conf_data_address(state.next_lsb, value);
                let (next_lsb, next_msb) = split_feature_conf_data_address(addr + FEATURE_RW_SIZE);
                TransactionState { phase: Phase::SetPointerLsb, next_lsb, next_msb, ..state }
            },
        },
        Response::Completed => match state.phase {
            Phase::ClearMode => TransactionState { phase: Phase::ClearSettle, ..state },
            Phase::ClearSettle => begin_transfer(state),
            Phase::SetPointerLsb => TransactionState { phase: Phase::SetPointerMsb, ..state },
            Phase::SetPointerMsb => next_chunk(state),
            Phase::Port => {
                let len = chunk_len(&state);
                let moved = TransactionState { position: state.position + len, ..state };
                if len == FEATURE_RW_SIZE {
                    TransactionState { phase: Phase::FetchPointerLsb, ..moved }
                } else {
                    end_transfer(moved)
                }
            },
            Phase::Staged => begin_transfer(TransactionState { writing: true, ..state }),
            Phase::RestoreMode => TransactionState { phase: Phase::RestoreSettle, ..state },
            _ => TransactionState { phase: Phase::Finished, ..state },
        },
    }
}

/// One transfer of a region of the feature configuration memory, from its
/// first request to its result.
pub struct FeatureTransaction<E> {
    state: TransactionState<E>,
}

impl<E> View for FeatureTransaction<E> {
    type V = TransactionState<E>;

    closed spec fn view(&self) -> TransactionState<E> {
        self.state
    }
}

impl<E> FeatureTransaction<E> {
    #[verifier::type_invariant]
    spec fn well_formed(self) -> bool {
        self.state.wf()
    }

    fn begin(bracket: bool, plan: Plan, start: usize, length: usize) -> (made: Result<
        Self,
        PreconditionViolation,
    >)
        ensures
            match made {
                Ok(transaction) => {
                    &&& start % 2 == 0
                    &&& length % 2 == 0
                    &&& transaction@ == TransactionState::<E>::initial(bracket, plan, start, length)
                },
                Err(PreconditionViolation::OddOffset) => start % 2 != 0,
                Err(PreconditionViolation::OddLength) => start % 2 == 0 && length % 2 != 0,
            },
    {
        if start % 2 != 0 {
            return Err(PreconditionViolation::OddOffset);
        }
        if length % 2 != 0 {
            return Err(PreconditionViolation::OddLength);
        }
        let writing = match plan {
            Plan::Write => true,
            _ => false,
        };
        let fresh = TransactionState {
            bracket,
            plan,
            start,
            length,
            phase: Phase::ReadMode,
            writing,
            position: 0,
            prev_mode: PowerMode::empty(),
            next_lsb: 0,
            next_msb: 0,
            failure: None,
        };
        let state = if bracket {
            fresh
        } else {
            begin_transfer(fresh)
        };
        Ok(FeatureTransaction { state })
    }

    /// A transaction that reads the `length` bytes at `start_offset` of the
    /// configuration memory into the caller's buffer, with the power save
    /// flag cleared meanwhile. An odd offset or length is refused, the offset
    /// first.
    pub fn read_region(start_offset: usize, length: usize) -> (made: Result<
        Self,
        PreconditionViolation,
    >)
        ensures
            match made {
                Ok(transaction) => {
                    &&& start_offset % 2 == 0
                    &&& length % 2 == 0
                    &&& transaction@ == TransactionState::<E>::initial(
                        true,
                        Plan::Read,
                        start_offset,
                        length,
                    )
                },
                Err(PreconditionViolation::OddOffset) => start_offset % 2 != 0,
                Err(PreconditionViolation::OddLength) => start_offset % 2 == 0 && length % 2 != 0,
            },
    {
        Self::begin(true, Plan::Read, start_offset, length)
    }

    /// A transaction that writes the first `length` bytes of the caller's
    /// buffer to `start_offset` of the configuration memory, with the power
    /// save flag cleared meanwhile. An odd offset or length is refused, the
    /// offset first.
    pub fn write_region(start_offset: usize, length: usize) -> (made: Result<
        Self,
        PreconditionViolation,
    >)
        ensures
            match made {
                Ok(transaction) => {
                    &&& start_offset % 2 == 0
                    &&& length % 2 == 0
                    &&& transaction@ == TransactionState::<E>::initial(
                        true,
                        Plan::Write,
                        start_offset,
                        length,
                    )
                },
                Err(PreconditionViolation::OddOffset) => start_offset % 2 != 0,
                Err(PreconditionViolation::OddLength) => start_offset % 2 == 0 && length % 2 != 0,
            },
    {
        Self::begin(true, Plan::Write, start_offset, length)
    }

    /// A transaction that reads the feature window into the caller's buffer,
    /// lets the caller change it, and writes it back, with the power save
    /// flag cleared meanwhile.
    pub fn with_feature_access() -> (transaction: Self)
        ensures
            transaction@ == TransactionState::<E>::initial(
                true,
                Plan::Modify,
                feature_offset::START,
                FEATURE_SIZE,
            ),
    {
        let fresh = TransactionState {
            bracket: true,
            plan: Plan::Modify,
            start: feature_offset::START,
            length: FEATURE_SIZE,
            phase: Phase::ReadMode,
            writing: false,
            position: 0,
            prev_mode: PowerMode::empty(),
            next_lsb: 0,
            next_msb: 0,
            failure: None,
        };
        FeatureTransaction { state: fresh }
    }

    /// A transaction that reads the `length` bytes at `start_addr` of the
    /// configuration memory and leaves the power mode alone. An odd address
    /// or length is refused, the address first.
    pub fn burst_read_features(start_addr: usize, length: usize) -> (made: Result<
        Self,
        PreconditionViolation,
    >)
        ensures
            match made {
                Ok(transaction) => {
                    &&& start_addr % 2 == 0
                    &&& length % 2 == 0
                    &&& transaction@ == TransactionState::<E>::initial(
                        false,
                        Plan::Read,
                        start_addr,
                        length,
                    )
                },
                Err(PreconditionViolation::OddOffset) => start_addr % 2 != 0,
                Err(PreconditionViolation::OddLength) => start_addr % 2 == 0 && length % 2 != 0,
            },
    {
        Self::begin(false, Plan::Read, start_addr, length)
    }

    /// A transaction that writes the first `length` bytes of the caller's
    /// buffer to `start_addr` of the configuration memory and leaves the
    /// power mode alone. An odd address or length is refused, the address
    /// first.
    pub fn burst_write_features(start_addr: usize, length: usize) -> (made: Result<
        Self,
        PreconditionViolation,
    >)
        ensures
            match made {
                Ok(transaction) => {
                    &&& start_addr % 2 == 0
                    &&& length % 2 == 0
                    &&& transaction@ == TransactionState::<E>::initial(
                        false,
                        Plan::Write,
                        start_addr,
                        length,
                    )
                },
                Err(PreconditionViolation::OddOffset) => start_addr % 2 != 0,
                Err(PreconditionViolation::OddLength) => start_addr % 2 == 0 && length % 2 != 0,
            },
    {
        Self::begin(false, Plan::Write, start_addr, length)
    }

    /// The request that the transaction is waiting on.
    pub fn request(&self) -> (request: Request)
        ensures
            request == self@.request(),
            self@.wf(),
    {
        proof {
            use_type_invariant(self);
        }
        request_of(&self.state)
    }

    /// Tells whether `response` is an answer to the request that the
    /// transaction is waiting on.
    pub fn accepts(&self, response: &Response<E>) -> (yes: bool)
        ensures
            yes == self@.accepts(*response),
    {
        is_answer(self.request(), response)
    }

    /// Takes the answer to the request that the transaction is waiting on,
    /// and moves on to the next request. Any other response is dropped.
    pub fn respond(self, response: Response<E>) -> (next: Self)
        ensures
            next@ == self@.respond(response),
    {
        proof {
            use_type_invariant(&self);
            lemma_respond_keeps_wf(self.state, response);
        }
        FeatureTransaction { state: respond_to(self.state, response) }
    }

    /// Whether the transaction is over.
    pub fn is_finished(&self) -> (yes: bool)
        ensures
            yes == (self@.phase is Finished),
    {
        match self.state.phase {
            Phase::Finished => true,
            _ => false,
        }
    }

    /// How the transaction ended: nothing while it is under way; then
    /// success, or the error of the first bus transfer that failed.
    pub fn result(self) -> (result: Option<Result<(), Error<E>>>)
        ensures
            result == self@.result(),
    {
        match self.state.phase {
            Phase::Finished => Some(
                match self.state.failure {
                    Some(error) => Err(Error::Bus(error)),
                    None => Ok(()),
                },
            ),
            _ => None,
        }
    }
}

/// The bytes of a port write: the address of the port register, the `len`
/// bytes of `data` at `offset`, and zeros up to the width of the port.
pub open spec fn port_frame_bytes(data: Seq<u8>, offset: int, len: int) -> Seq<u8> {
    seq![register::FEATURES_IN] + data.subrange(offset, offset + len) + Seq::new(
        (FEATURE_RW_SIZE - len) as nat,
        |i: int| 0u8,
    )
}

/// Builds the frame of a port write from the `len` bytes of `data` at
/// `offset`.
pub fn port_frame(data: &[u8], offset: usize, len: usize) -> (frame: [u8; 9])
    requires
        len <= FEATURE_RW_SIZE,
        offset + len <= data@.len(),
    ensures
        frame@ == port_frame_bytes(data@, offset as int, len as int),
{
    let mut frame: [u8; 9] = [0u8; 9];
    frame[0] = register::FEATURES_IN;
    let mut i: usize = 0;
    while i < len
        invariant
            i <= len <= FEATURE_RW_SIZE,
            offset + len <= data.len(),
            frame@.len() == 9,
            frame@[0] == register::FEATURES_IN,
            forall|k: int| 1 <= k <= i ==> #[trigger] frame@[k] == data@[offset + k - 1],
            forall|k: int| i < k < 9 ==> #[trigger] frame@[k] == 0u8,
        decreases len - i,
    {
        frame[1 + i] = data[offset + i];
        i += 1;
    }
    assert(frame@ =~= port_frame_bytes(data@, offset as int, len as int));
    frame
}

} // verus!

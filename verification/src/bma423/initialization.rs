//! Bringing the device up after power-up.
//!
//! The device needs its configuration image before any feature works. An
//! [`Initialization`] checks the chip, switches the power save mode off,
//! loads the image through the feature configuration port, starts the device
//! and waits until it reports that it is up, and switches the power save mode
//! on. The first step that fails ends it.
//!
//! Like a feature transaction it touches no bus: it names one
//! [`Request`] at a time, and the image is the caller's buffer.

use crate::bma423::Error;
use crate::bma423::feature_offset;
use crate::bma423::register;
use crate::bma423::transaction::{
    answers, begin_transfer, is_answer, request_of, respond_to, Phase, Plan, Request, Response,
    TransactionState, SENSOR_TIME_SYNCHRONIZATION_US,
};
use crate::bma423::flags::PowerMode;
use crate::bma423::CHIP_ID;
use vstd::prelude::*;

verus! {

/// Time in milliseconds after which a device that has not come up is given
/// up.
pub const ASIC_INITIALIZATION_TIMEOUT_MS: u32 = 200;

/// Time in milliseconds between two looks at the status of the device.
pub const ASIC_INITIALIZATION_POLL_MS: u32 = 50;

/// The request that an initialization is waiting on.
#[derive(Clone, Copy, Debug, PartialEq, Eq, Structural)]
pub enum Stage {
    /// The read of the chip identification.
    CheckChipId,
    /// The write that switches the power save mode off.
    DisablePowerSave,
    /// The wait after that write.
    Settle,
    /// The write that stops the device from using its configuration.
    DisableLoading,
    /// A request of the transfer of the configuration image.
    Loading,
    /// The write that makes the device use its configuration.
    EnableLoading,
    /// The wait before a look at the status.
    PollWait,
    /// The read of the status.
    PollStatus,
    /// The write that switches the power save mode on.
    EnablePowerSave,
    /// Nothing: the initialization is over.
    Finished,
}

/// All that an initialization knows, as plain values.
pub struct InitializationState<E> {
    /// The request that is waited on.
    pub stage: Stage,
    /// The transfer of the configuration image.
    pub load: TransactionState<E>,
    /// Time in milliseconds waited for the device to come up.
    pub waited_ms: u32,
    /// Why the initialization failed.
    pub failure: Option<Error<E>>,
}

impl<E> InitializationState<E> {
    /// The state in which an initialization starts.
    pub open spec fn initial() -> Self {
        InitializationState {
            stage: Stage::CheckChipId,
            load: TransactionState::initial(
                false,
                Plan::Write,
                0,
                feature_offset::CONFIG_FILE_SIZE,
            ),
            waited_ms: 0,
            failure: None,
        }
    }

    /// What holds of every state that an initialization can be in.
    pub open spec fn wf(self) -> bool {
        &&& self.load.wf()
        &&& self.waited_ms <= ASIC_INITIALIZATION_TIMEOUT_MS
        &&& self.waited_ms % ASIC_INITIALIZATION_POLL_MS == 0
        &&& self.stage is PollWait ==> self.waited_ms < ASIC_INITIALIZATION_TIMEOUT_MS
    }

    /// The request that the initialization is waiting on.
    pub open spec fn request(self) -> Request {
        match self.stage {
            Stage::CheckChipId => Request::ReadRegister { register: register::CHIP_ID },
            Stage::DisablePowerSave => Request::WriteRegister {
                register: register::PWR_CONF,
                value: 0,
            },
            Stage::Settle => Request::Delay { micros: SENSOR_TIME_SYNCHRONIZATION_US },
            Stage::DisableLoading => Request::WriteRegister {
                register: register::INIT_CTRL,
                value: 0x00,
            },
            Stage::Loading => self.load.request(),
            Stage::EnableLoading => Request::WriteRegister {
                register: register::INIT_CTRL,
                value: 0x01,
            },
            Stage::PollWait => Request::Delay {
                micros: (ASIC_INITIALIZATION_POLL_MS * 1000) as u32,
            },
            Stage::PollStatus => Request::ReadRegister { register: register::INTERNAL_STATUS },
            Stage::EnablePowerSave => Request::WriteRegister {
                register: register::PWR_CONF,
                value: 0b01,
            },
            Stage::Finished => Request::Done,
        }
    }

    /// The state that has failed with `error`.
    pub open spec fn fail(self, error: Error<E>) -> Self {
        InitializationState { stage: Stage::Finished, failure: Some(error), ..self }
    }

    /// The state that looks at the status once more, or gives up when the
    /// time is over.
    pub open spec fn poll_again(self) -> Self {
        if self.waited_ms >= ASIC_INITIALIZATION_TIMEOUT_MS {
            self.fail(Error::ASICInitialization)
        } else {
            InitializationState { stage: Stage::PollWait, ..self }
        }
    }

    /// The state after `response`. A response that is no answer to the
    /// request that is waited on changes nothing.
    pub open spec fn respond(self, response: Response<E>) -> Self {
        if !answers(self.request(), response) {
            self
        } else if self.stage is Loading {
            let load = self.load.respond(response);
            if !(load.phase is Finished) {
                InitializationState { load, ..self }
            } else if load.failure is Some {
                InitializationState {
                    stage: Stage::Finished,
                    load: TransactionState { failure: None, ..load },
                    failure: Some(Error::Bus(load.failure->0)),
                    ..self
                }
            } else {
                InitializationState { stage: Stage::EnableLoading, load, ..self }
            }
        } else {
            match response {
                Response::Failed(error) => self.fail(Error::Bus(error)),
                Response::Value(value) => match self.stage {
                    Stage::CheckChipId => if value == CHIP_ID {
                        InitializationState { stage: Stage::DisablePowerSave, ..self }
                    } else {
                        self.fail(Error::InvalidChipId(value))
                    },
                    _ => if value & 0xF == 0x00 {
                        self.poll_again()
                    } else if value & 0xF == 0x01 {
                        InitializationState { stage: Stage::EnablePowerSave, ..self }
                    } else {
                        self.fail(Error::ASICInitialization)
                    },
                },
                Response::Completed => match self.stage {
                    Stage::DisablePowerSave => InitializationState { stage: Stage::Settle, ..self },
                    Stage::Settle => InitializationState { stage: Stage::DisableLoading, ..self },
                    Stage::DisableLoading => InitializationState { stage: Stage::Loading, ..self },
                    Stage::EnableLoading => self.poll_again(),
                    Stage::PollWait => InitializationState {
                        stage: Stage::PollStatus,
                        waited_ms: (self.waited_ms + ASIC_INITIALIZATION_POLL_MS) as u32,
                        ..self
                    },
                    _ => InitializationState { stage: Stage::Finished, ..self },
                },
            }
        }
    }

    /// How the initialization ended: nothing while it is under way, then
    /// success or the reason of the failure.
    pub open spec fn result(self) -> Option<Result<(), Error<E>>> {
        if self.stage is Finished {
            Some(
                match self.failure {
                    Some(error) => Err(error),
                    None => Ok(()),
                },
            )
        } else {
            None
        }
    }
}

/// Every answer leaves the state well formed: the device is never waited for
/// longer than the time after which it is given up.
pub proof fn lemma_respond_keeps_wf<E>(state: InitializationState<E>, response: Response<E>)
    requires
        state.wf(),
    ensures
        state.respond(response).wf(),
{
    crate::bma423::transaction::lemma_respond_keeps_wf(state.load, response);
}

/// The start of the device after power-up, from its first request to its
/// result.
pub struct Initialization<E> {
    state: InitializationState<E>,
}

impl<E> View for Initialization<E> {
    type V = InitializationState<E>;

    closed spec fn view(&self) -> InitializationState<E> {
        self.state
    }
}

impl<E> Initialization<E> {
    #[verifier::type_invariant]
    spec fn well_formed(self) -> bool {
        self.state.wf()
    }

    /// An initialization that has not asked for anything yet. The caller's
    /// buffer is the configuration image.
    pub fn new() -> (initialization: Self)
        ensures
            initialization@ == InitializationState::<E>::initial(),
    {
        let fresh = TransactionState {
            bracket: false,
            plan: Plan::Write,
            start: 0,
            length: feature_offset::CONFIG_FILE_SIZE,
            phase: Phase::ReadMode,
            writing: true,
            position: 0,
            prev_mode: PowerMode::empty(),
            next_lsb: 0,
            next_msb: 0,
            failure: None,
        };
        Initialization {
            state: InitializationState {
                stage: Stage::CheckChipId,
                load: begin_transfer(fresh),
                waited_ms: 0,
                failure: None,
            },
        }
    }

    /// The request that the initialization is waiting on.
    pub fn request(&self) -> (request: Request)
        ensures
            request == self@.request(),
    {
        proof {
            use_type_invariant(self);
        }
        match self.state.stage {
            Stage::CheckChipId => Request::ReadRegister { register: register::CHIP_ID },
            Stage::DisablePowerSave => Request::WriteRegister {
                register: register::PWR_CONF,
                value: PowerMode::empty().bits(),
            },
            Stage::Settle => Request::Delay { micros: SENSOR_TIME_SYNCHRONIZATION_US },
            Stage::DisableLoading => Request::WriteRegister {
                register: register::INIT_CTRL,
                value: 0x00,
            },
            Stage::Loading => request_of(&self.state.load),
            Stage::EnableLoading => Request::WriteRegister {
                register: register::INIT_CTRL,
                value: 0x01,
            },
            Stage::PollWait => Request::Delay { micros: ASIC_INITIALIZATION_POLL_MS * 1000 },
            Stage::PollStatus => Request::ReadRegister { register: register::INTERNAL_STATUS },
            Stage::EnablePowerSave => Request::WriteRegister {
                register: register::PWR_CONF,
                value: PowerMode::advanced_power_save().bits(),
            },
            Stage::Finished => Request::Done,
        }
    }

    /// Tells whether `response` is an answer to the request that the
    /// initialization is waiting on.
    pub fn accepts(&self, response: &Response<E>) -> (yes: bool)
        ensures
            yes == answers(self@.request(), *response),
    {
        is_answer(self.request(), response)
    }

    /// Takes the answer to the request that the initialization is waiting
    /// on, and moves on to the next request. Any other response is dropped.
    pub fn respond(self, response: Response<E>) -> (next: Self)
        ensures
            next@ == self@.respond(response),
    {
        proof {
            use_type_invariant(&self);
            lemma_respond_keeps_wf(self.state, response);
        }
        if !self.accepts(&response) {
            return self;
        }
        let state = self.state;
        let next = match state.stage {
            Stage::Loading => {
                let load = respond_to(state.load, response);
                match load.phase {
                    Phase::Finished => match load.failure {
                        Some(error) => InitializationState {
                            stage: Stage::Finished,
                            load: TransactionState { failure: None, ..load },
                            failure: Some(Error::Bus(error)),
                            ..state
                        },
                        None => InitializationState { stage: Stage::EnableLoading, load, ..state },
                    },
                    _ => InitializationState { load, ..state },
                }
            },
            _ => match response {
                Response::Failed(error) => fail(state, Error::Bus(error)),
                Response::Value(value) => match state.stage {
                    Stage::CheckChipId => if value == CHIP_ID {
                        InitializationState { stage: Stage::DisablePowerSave, ..state }
                    } else {
                        fail(state, Error::InvalidChipId(value))
                    },
                    _ => {
                        let status = value & 0xF;
                        if status == 0x00 {
                            poll_again(state)
                        } else if status == 0x01 {
                            InitializationState { stage: Stage::EnablePowerSave, ..state }
                        } else {
                            fail(state, Error::ASICInitialization)
                        }
                    },
                },
                Response::Completed => match state.stage {
                    Stage::DisablePowerSave => InitializationState { stage: Stage::Settle, ..state },
                    Stage::Settle => InitializationState { stage: Stage::DisableLoading, ..state },
                    Stage::DisableLoading => InitializationState { stage: Stage::Loading, ..state },
                    Stage::EnableLoading => poll_again(state),
                    Stage::PollWait => InitializationState {
                        stage: Stage::PollStatus,
                        waited_ms: state.waited_ms + ASIC_INITIALIZATION_POLL_MS,
                        ..state
                    },
                    _ => InitializationState { stage: Stage::Finished, ..state },
                },
            },
        };
        Initialization { state: next }
    }

    /// Whether the initialization is over.
    pub fn is_finished(&self) -> (yes: bool)
        ensures
            yes == (self@.stage is Finished),
    {
        match self.state.stage {
            Stage::Finished => true,
            _ => false,
        }
    }

    /// How the initialization ended: nothing while it is under way; then
    /// success, or the reason of the failure.
    pub fn result(self) -> (result: Option<Result<(), Error<E>>>)
        ensures
            result == self@.result(),
    {
        match self.state.stage {
            Stage::Finished => Some(
                match self.state.failure {
                    Some(error) => Err(error),
                    None => Ok(()),
                },
            ),
            _ => None,
        }
    }
}

fn fail<E>(state: InitializationState<E>, error: Error<E>) -> (next: InitializationState<E>)
    ensures
        next == state.fail(error),
{
    InitializationState { stage: Stage::Finished, failure: Some(error), ..state }
}

fn poll_again<E>(state: InitializationState<E>) -> (next: InitializationState<E>)
    ensures
        next == state.poll_again(),
{
    if state.waited_ms >= ASIC_INITIALIZATION_TIMEOUT_MS {
        fail(state, Error::ASICInitialization)
    } else {
        InitializationState { stage: Stage::PollWait, ..state }
    }
}

} // verus!

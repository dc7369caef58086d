//! The protocol between the harness and its driver, and the state of a run
//! as contracts speak of it.
//!
//! A cycle is a fixed sequence of outside work: load the module, initialize
//! it, stage the input at the module's heap base, execute, decode the
//! output. The driver does the work and reports each piece with an
//! [`Event`]; the [`Action`] that comes back says what to do next. A cycle
//! passes through the phases `Idle`, `Loaded`, `Initialized`, `InputStaged`
//! and `Executed`; the report of the decoded output completes it.
//!
//! Any report but the success that the phase awaits is fatal. The error
//! names the work that went wrong: the work that the report is about, or the
//! work that the harness was still waiting for, whichever comes first in a
//! cycle. So a module that is used before its init routine has run, or whose
//! init routine runs twice, gives an initialization error. A failure ends
//! the run: the module, if one is loaded, is ordered released, and every
//! later report gets the same error.

use vstd::prelude::*;
use crate::chain::{advanced, input_of, total, ChainedState, Fingerprint, ValidationInput};
use crate::codec::unpack_spec;
use crate::error::{HarnessError, LoadFailure};
use crate::timing::{all_ordered, CycleTiming};

verus! {

/// Where a run stands.
#[derive(Clone, Copy, Debug, PartialEq, Eq, Structural)]
pub enum Phase {
    /// Between two cycles: no module is loaded.
    Idle,
    /// A module is loaded and not yet initialized.
    Loaded,
    /// The module is initialized, and its memory layout is known.
    Initialized,
    /// The input lies in the module's memory.
    InputStaged,
    /// The module has returned its packed result.
    Executed,
    /// All cycles are done.
    Finished,
    /// The run has failed.
    Failed,
}

/// The outside work of a cycle, in its order.
#[derive(Clone, Copy, Debug, PartialEq, Eq, Structural)]
pub enum Work {
    /// Loading the module.
    Load,
    /// Running the init routine.
    Initialize,
    /// Staging the input and running the execution routine.
    Execute,
    /// Decoding the output.
    Decode,
}

/// A piece of outside work that the driver reports. A time is the time in
/// nanoseconds since the cycle began.
#[derive(Clone, Copy, Debug, PartialEq, Eq)]
pub enum Event {
    /// A fresh module was loaded.
    Loaded { elapsed: u64 },
    /// No module could be loaded.
    LoadFailed { cause: LoadFailure },
    /// The init routine returned; after it the module declared this memory
    /// base and this heap base.
    Initialized { memory_base: usize, heap_base: u32 },
    /// The init routine failed.
    InitializeFailed,
    /// `length` bytes of serialized input were written at the heap base.
    InputStaged { length: u32, elapsed: u64 },
    /// The execution routine returned this packed result.
    Executed { result: u64, elapsed: u64 },
    /// The execution routine failed.
    ExecuteFailed,
    /// The output was decoded, and its new head has this hash.
    OutputDecoded { fingerprint: Fingerprint, elapsed: u64 },
    /// The output could not be decoded.
    DecodeFailed,
}

/// What the driver is to do next.
#[derive(Clone, Copy, Debug, PartialEq, Eq)]
pub enum Action {
    /// Call the module's init routine, then read its memory base and its
    /// heap base.
    Initialize,
    /// Serialize `input` and write it to host address `address`.
    StageInput { address: usize, input: ValidationInput },
    /// Call the execution routine with these arguments.
    Execute { offset: u32, length: u32 },
    /// Read `length` bytes at host address `address`, and decode them.
    ReadOutput { address: usize, length: u32 },
    /// Release the module, and load it afresh for the next cycle.
    NextCycle,
    /// Release the module, if one is loaded: the run is complete.
    Finish,
}

impl Work {
    /// The place of the work in a cycle.
    pub open spec fn rank(self) -> int {
        match self {
            Work::Load => 0,
            Work::Initialize => 1,
            Work::Execute => 2,
            Work::Decode => 3,
        }
    }

    /// The one of two pieces of work that comes first in a cycle.
    pub open spec fn earlier(self, other: Work) -> Work {
        if self.rank() <= other.rank() {
            self
        } else {
            other
        }
    }
}

impl Phase {
    /// The work whose report the phase awaits.
    pub open spec fn awaits(self) -> Work {
        match self {
            Phase::Idle => Work::Load,
            Phase::Loaded => Work::Initialize,
            Phase::Initialized | Phase::InputStaged => Work::Execute,
            _ => Work::Decode,
        }
    }

    /// Whether a module is loaded in this phase.
    pub open spec fn holds_module(self) -> bool {
        self == Phase::Loaded || self == Phase::Initialized || self == Phase::InputStaged || self
            == Phase::Executed
    }
}

impl Event {
    /// The work that the event is about.
    pub open spec fn work(self) -> Work {
        match self {
            Event::Loaded { .. } | Event::LoadFailed { .. } => Work::Load,
            Event::Initialized { .. } | Event::InitializeFailed => Work::Initialize,
            Event::InputStaged { .. } | Event::Executed { .. } | Event::ExecuteFailed => {
                Work::Execute
            },
            Event::OutputDecoded { .. } | Event::DecodeFailed => Work::Decode,
        }
    }
}

/// The later of two marks.
pub open spec fn later(mark: u64, earlier: u64) -> u64 {
    if mark >= earlier {
        mark
    } else {
        earlier
    }
}

/// The state of a run.
pub struct Model {
    /// Where the run stands.
    pub phase: Phase,
    /// The state that the run began with.
    pub start: ChainedState,
    /// The state after the cycles completed so far.
    pub chain: ChainedState,
    /// What each cycle adds; as many cycles as entries.
    pub contributions: Seq<u64>,
    /// The timings of the completed cycles.
    pub timings: Seq<CycleTiming>,
    /// How often the harness has taken the report of a load, whether the
    /// load succeeded or not.
    pub loads: nat,
    /// How often the harness has ordered the module released.
    pub unloads: nat,
    /// The memory base that the module of this cycle declared.
    pub memory_base: usize,
    /// The heap base that the module of this cycle declared.
    pub heap_base: u32,
    /// This cycle's mark after loading.
    pub to_load: u64,
    /// This cycle's mark after staging.
    pub to_prepare_data: u64,
    /// This cycle's mark after executing.
    pub to_execute: u64,
    /// The error that ended the run.
    pub failure: Option<HarnessError>,
}

impl Model {
    /// The run before its first cycle.
    pub open spec fn initial(start: ChainedState, contributions: Seq<u64>) -> Model {
        Model {
            phase: if contributions.len() == 0 {
                Phase::Finished
            } else {
                Phase::Idle
            },
            start,
            chain: start,
            contributions,
            timings: Seq::empty(),
            loads: 0,
            unloads: 0,
            memory_base: 0,
            heap_base: 0,
            to_load: 0,
            to_prepare_data: 0,
            to_execute: 0,
            failure: None,
        }
    }

    /// The number of completed cycles.
    pub open spec fn completed(self) -> nat {
        self.timings.len()
    }

    /// Whether the cycle that is about to complete is the last.
    pub open spec fn on_last_cycle(self) -> bool {
        self.completed() + 1 >= self.contributions.len()
    }

    /// Whether `event` is the success that the phase awaits, with addresses
    /// that exist on this host.
    pub open spec fn accepts(self, event: Event) -> bool {
        match (self.phase, event) {
            (Phase::Idle, Event::Loaded { .. }) => true,
            (Phase::Loaded, Event::Initialized { memory_base, heap_base }) => memory_base
                + heap_base <= usize::MAX,
            (Phase::Initialized, Event::InputStaged { .. }) => true,
            (Phase::InputStaged, Event::Executed { result, .. }) => self.memory_base
                + unpack_spec(result).0 <= usize::MAX,
            (Phase::Executed, Event::OutputDecoded { .. }) => true,
            _ => false,
        }
    }

    /// The error with which an event that is not accepted ends the run.
    pub open spec fn refusal(self, event: Event) -> HarnessError {
        match self.phase.awaits().earlier(event.work()) {
            Work::Load => HarnessError::LoadError(
                match event {
                    Event::LoadFailed { cause } => cause,
                    _ => if self.phase == Phase::Idle {
                        LoadFailure::NotLoaded
                    } else {
                        LoadFailure::AlreadyLoaded
                    },
                },
            ),
            Work::Initialize => HarnessError::InitializationError,
            Work::Execute => HarnessError::ExecutionFault,
            Work::Decode => HarnessError::DecodeError,
        }
    }

    /// The run after it has failed with `error`: the module, if one is
    /// loaded, is ordered released, and nothing else changes.
    pub open spec fn failed(self, error: HarnessError) -> Model {
        Model {
            phase: Phase::Failed,
            failure: Some(error),
            unloads: if self.phase.holds_module() {
                self.unloads + 1
            } else {
                self.unloads
            },
            ..self
        }
    }

    /// The run after an event that is accepted.
    pub open spec fn proceeded(self, event: Event) -> Model {
        match event {
            Event::Loaded { elapsed } => Model {
                phase: Phase::Loaded,
                loads: self.loads + 1,
                to_load: elapsed,
                ..self
            },
            Event::Initialized { memory_base, heap_base } => Model {
                phase: Phase::Initialized,
                memory_base,
                heap_base,
                ..self
            },
            Event::InputStaged { elapsed, .. } => Model {
                phase: Phase::InputStaged,
                to_prepare_data: later(elapsed, self.to_load),
                ..self
            },
            Event::Executed { elapsed, .. } => Model {
                phase: Phase::Executed,
                to_execute: later(elapsed, self.to_prepare_data),
                ..self
            },
            Event::OutputDecoded { fingerprint, elapsed } => Model {
                phase: if self.on_last_cycle() {
                    Phase::Finished
                } else {
                    Phase::Idle
                },
                chain: advanced(
                    self.chain,
                    fingerprint,
                    self.contributions[self.completed() as int],
                ),
                timings: self.timings.push(
                    CycleTiming {
                        to_load: self.to_load,
                        to_prepare_data: self.to_prepare_data,
                        to_execute: self.to_execute,
                        to_postprocess: later(elapsed, self.to_execute),
                    },
                ),
                unloads: self.unloads + 1,
                ..self
            },
            _ => self,
        }
    }

    /// What the harness orders after an event that is accepted.
    pub open spec fn order(self, event: Event) -> Action {
        match event {
            Event::Loaded { .. } => Action::Initialize,
            Event::Initialized { memory_base, heap_base } => Action::StageInput {
                address: (memory_base + heap_base) as usize,
                input: input_of(self.chain, self.contributions[self.completed() as int]),
            },
            Event::InputStaged { length, .. } => Action::Execute {
                offset: self.heap_base,
                length,
            },
            Event::Executed { result, .. } => Action::ReadOutput {
                address: (self.memory_base + unpack_spec(result).0) as usize,
                length: unpack_spec(result).1,
            },
            _ => if self.on_last_cycle() {
                Action::Finish
            } else {
                Action::NextCycle
            },
        }
    }

    /// The run after `event`.
    pub open spec fn next(self, event: Event) -> Model {
        if self.phase == Phase::Finished || self.phase == Phase::Failed {
            self
        } else if self.accepts(event) {
            self.proceeded(event)
        } else if self.phase == Phase::Idle && event is LoadFailed {
            Model { loads: self.loads + 1, ..self.failed(self.refusal(event)) }
        } else {
            self.failed(self.refusal(event))
        }
    }

    /// What the harness answers to `event`.
    pub open spec fn answer(self, event: Event) -> Result<Action, HarnessError> {
        if self.phase == Phase::Finished {
            Ok(Action::Finish)
        } else if self.phase == Phase::Failed {
            match self.failure {
                Some(error) => Err(error),
                None => Ok(Action::Finish),
            }
        } else if self.accepts(event) {
            Ok(self.order(event))
        } else {
            Err(self.refusal(event))
        }
    }

    /// What holds of a run at every moment.
    pub open spec fn inv(self) -> bool {
        &&& self.completed() <= self.contributions.len() <= usize::MAX
        &&& self.start.sequence_number + self.contributions.len() <= u64::MAX
        &&& self.start.accumulated + total(self.contributions) <= u64::MAX
        &&& self.chain.sequence_number == self.start.sequence_number + self.completed()
        &&& self.chain.accumulated == self.start.accumulated + total(
            self.contributions.take(self.completed() as int),
        )
        &&& all_ordered(self.timings)
        &&& self.failure is Some <==> self.phase == Phase::Failed
        &&& self.completed() <= self.unloads <= self.loads <= self.completed() + 1
        &&& self.phase.holds_module() ==> self.loads == self.completed() + 1 && self.unloads
            == self.completed()
        &&& self.phase == Phase::Idle || self.phase == Phase::Finished ==> self.loads
            == self.completed() && self.unloads == self.completed()
        &&& self.phase == Phase::Finished <==> self.failure is None && self.completed()
            == self.contributions.len()
        &&& self.phase == Phase::Initialized || self.phase == Phase::InputStaged || self.phase
            == Phase::Executed ==> self.memory_base + self.heap_base <= usize::MAX
        &&& self.phase == Phase::InputStaged || self.phase == Phase::Executed ==> self.to_load
            <= self.to_prepare_data
        &&& self.phase == Phase::Executed ==> self.to_prepare_data <= self.to_execute
    }
}

} // verus!

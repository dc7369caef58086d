//! The execution harness: the decisions of a run, cycle by cycle.
//!
//! The harness does none of the outside work itself. What it takes from its
//! driver and what it answers is laid down in [`crate::protocol`].

use vstd::prelude::*;
use crate::chain::{lemma_total_prefix, lemma_total_step, total, ChainedState};
use crate::codec::unpack;
use crate::error::{HarnessError, LoadFailure};
use crate::memory::resolve;
use crate::protocol::{later, Action, Event, Model, Phase, Work};
use crate::timing::{all_ordered, CycleTiming};

verus! {

/// The harness of one run.
pub struct Harness {
    phase: Phase,
    start: ChainedState,
    chain: ChainedState,
    contributions: Vec<u64>,
    timings: Vec<CycleTiming>,
    loads: usize,
    unloads: usize,
    memory_base: usize,
    heap_base: u32,
    to_load: u64,
    to_prepare_data: u64,
    to_execute: u64,
    failure: Option<HarnessError>,
}

impl View for Harness {
    type V = Model;

    closed spec fn view(&self) -> Model {
        Model {
            phase: self.phase,
            start: self.start,
            chain: self.chain,
            contributions: self.contributions@,
            timings: self.timings@,
            loads: self.loads as nat,
            unloads: self.unloads as nat,
            memory_base: self.memory_base,
            heap_base: self.heap_base,
            to_load: self.to_load,
            to_prepare_data: self.to_prepare_data,
            to_execute: self.to_execute,
            failure: self.failure,
        }
    }
}

/// The later of two marks.
fn later_of(mark: u64, earlier: u64) -> (chosen: u64)
    ensures
        chosen == later(mark, earlier),
{
    if mark >= earlier {
        mark
    } else {
        earlier
    }
}

impl Harness {
    /// Whether the harness is in a state that a run can reach.
    pub open spec fn wf(&self) -> bool {
        self@.inv()
    }

    /// A harness for a run that begins in `start` and has one cycle for each
    /// entry of `contributions`. There is none where the sequence number or
    /// the accumulated value would pass `u64::MAX` in the course of the run.
    pub fn new(start: ChainedState, contributions: Vec<u64>) -> (harness: Option<Harness>)
        ensures
            harness is Some <==> start.sequence_number + contributions@.len() <= u64::MAX
                && start.accumulated + total(contributions@) <= u64::MAX,
            harness matches Some(h) ==> h.wf() && h@ == Model::initial(start, contributions@),
    {
        let count: usize = contributions.len();
        if count as u64 > u64::MAX - start.sequence_number {
            return None;
        }
        let mut sum: u64 = start.accumulated;
        let mut i: usize = 0;
        while i < count
            invariant
                i <= count,
                count == contributions@.len(),
                sum == start.accumulated + total(contributions@.take(i as int)),
            decreases count - i,
        {
            proof {
                lemma_total_step(contributions@, i as int);
                lemma_total_prefix(contributions@, i + 1);
            }
            match sum.checked_add(contributions[i]) {
                Some(more) => {
                    sum = more;
                },
                None => {
                    return None;
                },
            }
            i = i + 1;
        }
        proof {
            assert(contributions@.take(count as int) =~= contributions@);
        }
        let phase = if count == 0 {
            Phase::Finished
        } else {
            Phase::Idle
        };
        Some(
            Harness {
                phase,
                start,
                chain: start,
                contributions,
                timings: Vec::new(),
                loads: 0,
                unloads: 0,
                memory_base: 0,
                heap_base: 0,
                to_load: 0,
                to_prepare_data: 0,
                to_execute: 0,
                failure: None,
            },
        )
    }
}

/// The place of a piece of work in a cycle.
fn rank_of(work: Work) -> (rank: u8)
    ensures
        rank == work.rank(),
{
    match work {
        Work::Load => 0,
        Work::Initialize => 1,
        Work::Execute => 2,
        Work::Decode => 3,
    }
}

/// The work that an event is about.
fn work_of(event: &Event) -> (work: Work)
    ensures
        work == event.work(),
{
    match event {
        Event::Loaded { .. } | Event::LoadFailed { .. } => Work::Load,
        Event::Initialized { .. } | Event::InitializeFailed => Work::Initialize,
        Event::InputStaged { .. } | Event::Executed { .. } | Event::ExecuteFailed => Work::Execute,
        Event::OutputDecoded { .. } | Event::DecodeFailed => Work::Decode,
    }
}

/// The work whose report a phase awaits.
fn awaited(phase: Phase) -> (work: Work)
    ensures
        work == phase.awaits(),
{
    match phase {
        Phase::Idle => Work::Load,
        Phase::Loaded => Work::Initialize,
        Phase::Initialized | Phase::InputStaged => Work::Execute,
        _ => Work::Decode,
    }
}

impl Harness {
    /// The error with which an event that is not accepted ends the run.
    fn refusal(&self, event: &Event) -> (error: HarnessError)
        ensures
            error == self@.refusal(*event),
    {
        let awaited = awaited(self.phase);
        let reported = work_of(event);
        let wrong = if rank_of(awaited) <= rank_of(reported) {
            awaited
        } else {
            reported
        };
        match wrong {
            Work::Load => {
                let cause = match event {
                    Event::LoadFailed { cause } => *cause,
                    _ => match self.phase {
                        Phase::Idle => LoadFailure::NotLoaded,
                        _ => LoadFailure::AlreadyLoaded,
                    },
                };
                HarnessError::LoadError(cause)
            },
            Work::Initialize => HarnessError::InitializationError,
            Work::Execute => HarnessError::ExecutionFault,
            Work::Decode => HarnessError::DecodeError,
        }
    }

    /// Ends the run over an event that is not accepted.
    fn refuse(&mut self, event: &Event) -> (outcome: Result<Action, HarnessError>)
        requires
            old(self).wf(),
            old(self)@.phase != Phase::Finished,
            old(self)@.phase != Phase::Failed,
            !old(self)@.accepts(*event),
        ensures
            final(self).wf(),
            final(self)@ == old(self)@.next(*event),
            outcome == old(self)@.answer(*event),
    {
        let error = self.refusal(event);
        let holds_module = match self.phase {
            Phase::Loaded | Phase::Initialized | Phase::InputStaged | Phase::Executed => true,
            _ => false,
        };
        let load_failed = match (self.phase, event) {
            (Phase::Idle, Event::LoadFailed { .. }) => true,
            _ => false,
        };
        if holds_module {
            self.unloads = self.unloads + 1;
        }
        if load_failed {
            self.loads = self.loads + 1;
        }
        self.phase = Phase::Failed;
        self.failure = Some(error);
        Err(error)
    }

    /// Takes the report of one piece of outside work, and says what to do
    /// next. A time that lies before the cycle's last mark counts as that
    /// mark.
    pub fn step(&mut self, event: Event) -> (outcome: Result<Action, HarnessError>)
        requires
            old(self).wf(),
        ensures
            final(self).wf(),
            final(self)@ == old(self)@.next(event),
            outcome == old(self)@.answer(event),
    {
        match self.phase {
            Phase::Finished => { return Ok(Action::Finish); },
            Phase::Failed => {
                match self.failure {
                    Some(error) => { return Err(error); },
                    None => { return Ok(Action::Finish); },
                }
            },
            _ => {},
        }
        let cycle: usize = self.timings.len();
        match (self.phase, event) {
            (Phase::Idle, Event::Loaded { elapsed }) => {
                self.phase = Phase::Loaded;
                self.loads = self.loads + 1;
                self.to_load = elapsed;
                Ok(Action::Initialize)
            },
            (Phase::Loaded, Event::Initialized { memory_base, heap_base }) => {
                if heap_base as usize > usize::MAX - memory_base {
                    return self.refuse(&event);
                }
                self.phase = Phase::Initialized;
                self.memory_base = memory_base;
                self.heap_base = heap_base;
                let address = resolve(memory_base, heap_base);
                let input = self.chain.input(self.contributions[cycle]);
                Ok(Action::StageInput { address, input })
            },
            (Phase::Initialized, Event::InputStaged { length, elapsed }) => {
                self.phase = Phase::InputStaged;
                self.to_prepare_data = later_of(elapsed, self.to_load);
                Ok(Action::Execute { offset: self.heap_base, length })
            },
            (Phase::InputStaged, Event::Executed { result, elapsed }) => {
                let (offset, length) = unpack(result);
                if offset as usize > usize::MAX - self.memory_base {
                    return self.refuse(&event);
                }
                self.phase = Phase::Executed;
                self.to_execute = later_of(elapsed, self.to_prepare_data);
                let address = resolve(self.memory_base, offset);
                Ok(Action::ReadOutput { address, length })
            },
            (Phase::Executed, Event::OutputDecoded { fingerprint, elapsed }) => {
                proof {
                    lemma_total_step(self.contributions@, cycle as int);
                    lemma_total_prefix(self.contributions@, cycle + 1);
                }
                let contribution = self.contributions[cycle];
                let timing = CycleTiming {
                    to_load: self.to_load,
                    to_prepare_data: self.to_prepare_data,
                    to_execute: self.to_execute,
                    to_postprocess: later_of(elapsed, self.to_execute),
                };
                self.chain = self.chain.advance(fingerprint, contribution);
                self.timings.push(timing);
                self.unloads = self.unloads + 1;
                if cycle + 1 < self.contributions.len() {
                    self.phase = Phase::Idle;
                    Ok(Action::NextCycle)
                } else {
                    self.phase = Phase::Finished;
                    Ok(Action::Finish)
                }
            },
            _ => self.refuse(&event),
        }
    }
}

impl Harness {
    /// Where the run stands.
    pub fn phase(&self) -> (phase: Phase)
        ensures
            phase == self@.phase,
    {
        self.phase
    }

    /// The state that the run began with.
    pub fn start(&self) -> (start: ChainedState)
        ensures
            start == self@.start,
    {
        self.start
    }

    /// The state after the cycles completed so far: the sequence number has
    /// gone up by one for each of them, and their contributions are
    /// accumulated.
    pub fn chain(&self) -> (chain: ChainedState)
        requires
            self.wf(),
        ensures
            chain == self@.chain,
            chain.sequence_number == self@.start.sequence_number + self@.completed(),
            chain.accumulated == self@.start.accumulated + total(
                self@.contributions.take(self@.completed() as int),
            ),
    {
        self.chain
    }

    /// The timings of the completed cycles, oldest first. Each of them is
    /// ordered.
    pub fn timings(&self) -> (timings: &Vec<CycleTiming>)
        requires
            self.wf(),
        ensures
            timings@ == self@.timings,
            all_ordered(timings@),
    {
        &self.timings
    }

    /// The number of completed cycles.
    pub fn completed(&self) -> (count: usize)
        ensures
            count == self@.completed(),
    {
        self.timings.len()
    }

    /// The number of cycles that are not yet completed.
    pub fn remaining(&self) -> (count: usize)
        requires
            self.wf(),
        ensures
            count == self@.contributions.len() - self@.completed(),
    {
        self.contributions.len() - self.timings.len()
    }

    /// How often a load was reported, whether it succeeded or not.
    pub fn loads(&self) -> (count: usize)
        ensures
            count == self@.loads,
    {
        self.loads
    }

    /// How often the harness has ordered the module released.
    pub fn unloads(&self) -> (count: usize)
        ensures
            count == self@.unloads,
    {
        self.unloads
    }

    /// The error that ended the run, if it has failed.
    pub fn failure(&self) -> (failure: Option<HarnessError>)
        ensures
            failure == self@.failure,
    {
        self.failure
    }
}

} // verus!

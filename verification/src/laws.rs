//! What holds of every run, whatever its driver reports.

use vstd::prelude::*;
use crate::chain::{input_of, lemma_total_prefix, lemma_total_step, total};
use crate::codec::unpack_spec;
use crate::error::{HarnessError, LoadFailure};
use crate::protocol::{Action, Event, Model, Phase, Work};
use crate::timing::{all_ordered, CycleTiming};

verus! {

/// The run after a sequence of events, first to last.
pub open spec fn run(model: Model, events: Seq<Event>) -> Model
    decreases events.len(),
{
    if events.len() == 0 {
        model
    } else {
        run(model, events.drop_last()).next(events.last())
    }
}

/// An event apart from the time that it reports.
pub open spec fn without_clock(event: Event) -> Event {
    match event {
        Event::Loaded { .. } => Event::Loaded { elapsed: 0 },
        Event::InputStaged { length, .. } => Event::InputStaged { length, elapsed: 0 },
        Event::Executed { result, .. } => Event::Executed { result, elapsed: 0 },
        Event::OutputDecoded { fingerprint, .. } => Event::OutputDecoded {
            fingerprint,
            elapsed: 0,
        },
        _ => event,
    }
}

/// A run apart from what it has measured: the marks are gone, and of the
/// timings only their number is left.
pub open spec fn unclocked(model: Model) -> Model {
    Model {
        to_load: 0,
        to_prepare_data: 0,
        to_execute: 0,
        timings: Seq::new(
            model.timings.len(),
            |i: int|
                CycleTiming { to_load: 0, to_prepare_data: 0, to_execute: 0, to_postprocess: 0 },
        ),
        ..model
    }
}

/// Two sequences of events that differ in nothing but the reported times.
pub open spec fn same_but_clock(first: Seq<Event>, second: Seq<Event>) -> bool {
    &&& first.len() == second.len()
    &&& forall|i: int|
        0 <= i < first.len() ==> without_clock(#[trigger] first[i]) == without_clock(second[i])
}

/// No event leads out of the states that a run can reach.
pub proof fn lemma_next_keeps_inv(model: Model, event: Event)
    requires
        model.inv(),
    ensures
        model.next(event).inv(),
{
    let after = model.next(event);
    let cycle = model.completed() as int;
    if model.phase == Phase::Executed && event is OutputDecoded {
        lemma_total_step(model.contributions, cycle);
        lemma_total_prefix(model.contributions, cycle + 1);
        assert(all_ordered(after.timings)) by {
            assert forall|i: int| 0 <= i < after.timings.len() implies (
            #[trigger] after.timings[i]).ordered() by {
                if i < cycle {
                    assert(after.timings[i] == model.timings[i]);
                }
            }
        }
    }
}

/// No sequence of events leads out of the states that a run can reach.
pub proof fn lemma_run_keeps_inv(model: Model, events: Seq<Event>)
    requires
        model.inv(),
    ensures
        run(model, events).inv(),
    decreases events.len(),
{
    if events.len() > 0 {
        lemma_run_keeps_inv(model, events.drop_last());
        lemma_next_keeps_inv(run(model, events.drop_last()), events.last());
    }
}

/// Loads and unloads stay in step. Whatever is reported, each cycle sees at
/// most one load, and a module is never ordered released more often than one
/// was loaded. While a cycle is under way exactly one module is loaded, and
/// between cycles and after the last none is: each completed cycle has had
/// exactly one load and one unload. A cycle that failed has had at most one
/// of each.
pub proof fn lemma_load_unload_symmetry(model: Model, events: Seq<Event>)
    requires
        model.inv(),
    ensures
        ({
            let end = run(model, events);
            &&& end.completed() <= end.unloads <= end.loads <= end.completed() + 1
            &&& end.phase.holds_module() ==> end.loads == end.unloads + 1
            &&& end.phase == Phase::Idle || end.phase == Phase::Finished ==> end.loads
                == end.completed() && end.unloads == end.completed()
        }),
{
    lemma_run_keeps_inv(model, events);
}

/// One event changes the count of loads and the count of unloads by at most
/// one each, and completes at most one cycle; a cycle that completes takes
/// its unload with it.
pub proof fn lemma_one_step_counts(model: Model, event: Event)
    requires
        model.inv(),
    ensures
        ({
            let after = model.next(event);
            &&& model.loads <= after.loads <= model.loads + 1
            &&& model.unloads <= after.unloads <= model.unloads + 1
            &&& model.completed() <= after.completed() <= model.completed() + 1
            &&& after.loads > model.loads ==> model.phase == Phase::Idle
            &&& after.completed() > model.completed() ==> after.unloads == model.unloads + 1
        }),
{
}

/// Every timing that a run records is ordered: the module was loaded before
/// its input was staged, the input was staged before the module had run, and
/// the module had run before the cycle ended.
pub proof fn lemma_recorded_timings_ordered(model: Model, events: Seq<Event>, i: int)
    requires
        model.inv(),
        0 <= i < run(model, events).timings.len(),
    ensures
        ({
            let timing = run(model, events).timings[i];
            timing.to_load <= timing.to_prepare_data <= timing.to_execute
                <= timing.to_postprocess
        }),
{
    lemma_run_keeps_inv(model, events);
    assert(run(model, events).timings[i].ordered());
}

/// A failed load ends the run: the answer is the load error, and after it no
/// cycle proceeds. Whatever is reported from then on, the answer is the same
/// error, and neither the chained state nor the timings change.
pub proof fn lemma_load_failure_is_final(model: Model, cause: LoadFailure, events: Seq<Event>)
    requires
        model.inv(),
        model.phase == Phase::Idle,
    ensures
        ({
            let failed = model.next(Event::LoadFailed { cause });
            &&& model.answer(Event::LoadFailed { cause }) == Err::<
                Action,
                HarnessError,
            >(HarnessError::LoadError(cause))
            &&& failed.phase == Phase::Failed
            &&& failed.chain == model.chain
            &&& failed.timings == model.timings
            &&& failed.unloads == model.unloads
            &&& run(failed, events) == failed
            &&& forall|event: Event| #[trigger]
                failed.answer(event) == Err::<Action, HarnessError>(
                    HarnessError::LoadError(cause),
                )
        }),
    decreases events.len(),
{
    let failed = model.next(Event::LoadFailed { cause });
    lemma_failed_is_final(failed, events);
}

/// A run that has failed stays as it is.
pub proof fn lemma_failed_is_final(model: Model, events: Seq<Event>)
    requires
        model.phase == Phase::Failed,
    ensures
        run(model, events) == model,
    decreases events.len(),
{
    if events.len() > 0 {
        lemma_failed_is_final(model, events.drop_last());
    }
}

/// A module that is used before its init routine has run is refused: while
/// the module is loaded and not initialized, a report of staged input, of an
/// execution or of decoded output ends the run with an initialization
/// error, and the module is ordered released.
pub proof fn lemma_use_before_init_is_refused(model: Model, event: Event)
    requires
        model.inv(),
        model.phase == Phase::Loaded,
        event.work() == Work::Execute || event.work() == Work::Decode,
    ensures
        model.answer(event) == Err::<Action, HarnessError>(HarnessError::InitializationError),
        model.next(event).phase == Phase::Failed,
        model.next(event).unloads == model.unloads + 1,
        model.next(event).chain == model.chain,
        model.next(event).timings == model.timings,
{
}

/// The init routine runs once for each load: a second report of it for the
/// same module ends the run with an initialization error.
pub proof fn lemma_second_init_is_refused(model: Model, event: Event)
    requires
        model.inv(),
        model.phase == Phase::Initialized || model.phase == Phase::InputStaged || model.phase
            == Phase::Executed,
        event is Initialized,
    ensures
        model.answer(event) == Err::<Action, HarnessError>(HarnessError::InitializationError),
        model.next(event).phase == Phase::Failed,
{
}

/// A report of failure is answered with the error of the work that failed,
/// at whatever moment it arrives in a run that is under way.
pub proof fn lemma_failure_reports_keep_their_error(model: Model)
    requires
        model.inv(),
        model.phase != Phase::Finished,
        model.phase != Phase::Failed,
    ensures
        forall|cause: LoadFailure| #[trigger]
            model.answer(Event::LoadFailed { cause }) == Err::<Action, HarnessError>(
                HarnessError::LoadError(cause),
            ),
        model.phase != Phase::Idle ==> model.answer(Event::InitializeFailed) == Err::<
            Action,
            HarnessError,
        >(HarnessError::InitializationError),
        model.phase.awaits().rank() >= 2 ==> model.answer(Event::ExecuteFailed) == Err::<
            Action,
            HarnessError,
        >(HarnessError::ExecutionFault),
        model.phase == Phase::Executed ==> model.answer(Event::DecodeFailed) == Err::<
            Action,
            HarnessError,
        >(HarnessError::DecodeError),
{
}

/// What the harness answers, and where the run goes, does not depend on the
/// times that are reported.
pub proof fn lemma_next_ignores_clock(first: Model, second: Model, event: Event, other: Event)
    requires
        unclocked(first) == unclocked(second),
        without_clock(event) == without_clock(other),
    ensures
        unclocked(first.next(event)) == unclocked(second.next(other)),
        first.answer(event) == second.answer(other),
{
    assert(first.timings.len() == second.timings.len()) by {
        assert(unclocked(first).timings.len() == first.timings.len());
        assert(unclocked(second).timings.len() == second.timings.len());
    }
    assert(unclocked(first.next(event)).timings =~= unclocked(second.next(other)).timings);
}

/// Chained determinism. Two runs that begin in the same state and whose
/// modules behave alike end in the same chained state, in the same phase,
/// after the same number of cycles, however the measured times differ: the
/// outcome of a run is a function of its first state and of what the module
/// does, and of nothing else.
pub proof fn lemma_chained_determinism(
    first: Model,
    second: Model,
    events: Seq<Event>,
    others: Seq<Event>,
)
    requires
        unclocked(first) == unclocked(second),
        same_but_clock(events, others),
    ensures
        unclocked(run(first, events)) == unclocked(run(second, others)),
        run(first, events).chain == run(second, others).chain,
        run(first, events).phase == run(second, others).phase,
        run(first, events).completed() == run(second, others).completed(),
        run(first, events).failure == run(second, others).failure,
    decreases events.len(),
{
    if events.len() > 0 {
        assert(same_but_clock(events.drop_last(), others.drop_last()));
        lemma_chained_determinism(first, second, events.drop_last(), others.drop_last());
        lemma_next_ignores_clock(
            run(first, events.drop_last()),
            run(second, others.drop_last()),
            events.last(),
            others.last(),
        );
    }
    assert(unclocked(run(first, events)).timings.len() == run(first, events).timings.len());
    assert(unclocked(run(second, others)).timings.len() == run(second, others).timings.len());
}

/// In two runs that begin in the same state and whose modules behave alike,
/// the harness gives the same answer at every step.
pub proof fn lemma_answers_ignore_clock(
    first: Model,
    second: Model,
    events: Seq<Event>,
    others: Seq<Event>,
    i: int,
)
    requires
        unclocked(first) == unclocked(second),
        same_but_clock(events, others),
        0 <= i < events.len(),
    ensures
        run(first, events.take(i)).answer(events[i]) == run(second, others.take(i)).answer(
            others[i],
        ),
{
    assert(same_but_clock(events.take(i), others.take(i)));
    lemma_chained_determinism(first, second, events.take(i), others.take(i));
    lemma_next_ignores_clock(
        run(first, events.take(i)),
        run(second, others.take(i)),
        events[i],
        others[i],
    );
}

/// A run that has completed all its cycles has counted each of them and
/// accumulated every contribution.
pub proof fn lemma_finished_run_has_accumulated_all(model: Model)
    requires
        model.inv(),
        model.phase == Phase::Finished,
    ensures
        model.chain.sequence_number == model.start.sequence_number + model.contributions.len(),
        model.chain.accumulated == model.start.accumulated + total(model.contributions),
        model.timings.len() == model.contributions.len(),
        model.loads == model.contributions.len(),
        model.unloads == model.contributions.len(),
{
    assert(model.contributions.take(model.contributions.len() as int) =~= model.contributions);
}

/// The addresses of a cycle come from the memory base that the module
/// declared in that cycle, never from an earlier one: the input goes to the
/// declared heap base, the execution routine is told that heap base and the
/// staged length, and the output is read where the packed result points.
pub proof fn lemma_addresses_use_the_base_of_the_cycle(
    model: Model,
    memory_base: usize,
    heap_base: u32,
    length: u32,
    staged_at: u64,
    result: u64,
    executed_at: u64,
)
    requires
        model.inv(),
        model.phase == Phase::Loaded,
        memory_base + heap_base <= usize::MAX,
        memory_base + unpack_spec(result).0 <= usize::MAX,
    ensures
        ({
            let initialized = Event::Initialized { memory_base, heap_base };
            let staged = Event::InputStaged { length, elapsed: staged_at };
            let executed = Event::Executed { result, elapsed: executed_at };
            let second = model.next(initialized);
            let third = second.next(staged);
            &&& model.answer(initialized) == Ok::<Action, HarnessError>(
                Action::StageInput {
                    address: (memory_base + heap_base) as usize,
                    input: input_of(model.chain, model.contributions[model.completed() as int]),
                },
            )
            &&& second.answer(staged) == Ok::<Action, HarnessError>(
                Action::Execute { offset: heap_base, length },
            )
            &&& third.answer(executed) == Ok::<Action, HarnessError>(
                Action::ReadOutput {
                    address: (memory_base + unpack_spec(result).0) as usize,
                    length: unpack_spec(result).1,
                },
            )
            &&& third.next(executed).phase == Phase::Executed
        }),
{
}

} // verus!

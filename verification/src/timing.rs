//! What a run measures: four marks per cycle, and their averages per run.
//!
//! All times are in nanoseconds. A mark is the time from the start of its
//! cycle to the end of a phase, so the cost of a phase is the difference of
//! two marks.

use vstd::prelude::*;

verus! {

/// The four marks of one cycle, each taken from the cycle's start.
#[derive(Clone, Copy, Debug, PartialEq, Eq)]
pub struct CycleTiming {
    /// When the module was loaded.
    pub to_load: u64,
    /// When the input lay in the module's memory.
    pub to_prepare_data: u64,
    /// When the module's execution routine had returned.
    pub to_execute: u64,
    /// When the output was decoded and the chained state advanced.
    pub to_postprocess: u64,
}

/// The parts of a cycle that a report tells apart.
#[derive(Clone, Copy, Debug, PartialEq, Eq, Structural)]
pub enum Stage {
    /// Loading the module.
    Load,
    /// Initializing the module and staging its input.
    PrepareData,
    /// Running the module.
    Execute,
    /// Decoding the output and advancing the state.
    Postprocess,
    /// The whole cycle.
    Total,
}

/// Averages over the cycles of a run, each rounded down.
#[derive(Clone, Copy, Debug, PartialEq, Eq)]
pub struct Report {
    /// Average time to load the module.
    pub load: u128,
    /// Average time from the load to the staged input.
    pub prepare_data: u128,
    /// Average time that the module ran.
    pub execute: u128,
    /// Average time from the module's return to the end of the cycle.
    pub postprocess: u128,
    /// Average time of a whole cycle.
    pub total: u128,
}

impl CycleTiming {
    /// No mark lies before the one that precedes it.
    pub open spec fn ordered(&self) -> bool {
        self.to_load <= self.to_prepare_data <= self.to_execute <= self.to_postprocess
    }

    /// What `stage` cost in this cycle.
    pub open spec fn cost(&self, stage: Stage) -> int {
        match stage {
            Stage::Load => self.to_load as int,
            Stage::PrepareData => self.to_prepare_data - self.to_load,
            Stage::Execute => self.to_execute - self.to_prepare_data,
            Stage::Postprocess => self.to_postprocess - self.to_execute,
            Stage::Total => self.to_postprocess as int,
        }
    }

    /// Tests whether no mark lies before the one that precedes it.
    pub fn is_ordered(&self) -> (ordered: bool)
        ensures
            ordered == self.ordered(),
    {
        self.to_load <= self.to_prepare_data && self.to_prepare_data <= self.to_execute
            && self.to_execute <= self.to_postprocess
    }
}

/// Every timing of the sequence is ordered.
pub open spec fn all_ordered(timings: Seq<CycleTiming>) -> bool {
    forall|i: int| 0 <= i < timings.len() ==> (#[trigger] timings[i]).ordered()
}

/// What `stage` cost over all the cycles.
pub open spec fn sum_cost(timings: Seq<CycleTiming>, stage: Stage) -> int
    decreases timings.len(),
{
    if timings.len() == 0 {
        0
    } else {
        sum_cost(timings.drop_last(), stage) + timings.last().cost(stage)
    }
}

/// The report on a run with these timings.
pub open spec fn report_of(timings: Seq<CycleTiming>) -> Report
    recommends
        timings.len() > 0,
        all_ordered(timings),
{
    let n = timings.len() as int;
    Report {
        load: (sum_cost(timings, Stage::Load) / n) as u128,
        prepare_data: (sum_cost(timings, Stage::PrepareData) / n) as u128,
        execute: (sum_cost(timings, Stage::Execute) / n) as u128,
        postprocess: (sum_cost(timings, Stage::Postprocess) / n) as u128,
        total: (sum_cost(timings, Stage::Total) / n) as u128,
    }
}

/// The four phases of a run cost together what the run cost as a whole.
pub proof fn lemma_stages_make_total(timings: Seq<CycleTiming>)
    ensures
        sum_cost(timings, Stage::Load) + sum_cost(timings, Stage::PrepareData) + sum_cost(
            timings,
            Stage::Execute,
        ) + sum_cost(timings, Stage::Postprocess) == sum_cost(timings, Stage::Total),
    decreases timings.len(),
{
    if timings.len() > 0 {
        lemma_stages_make_total(timings.drop_last());
    }
}

/// Over ordered timings no stage costs less than nothing, nor more than
/// `u64::MAX` a cycle.
pub proof fn lemma_sum_cost_bounds(timings: Seq<CycleTiming>, stage: Stage)
    requires
        all_ordered(timings),
    ensures
        0 <= sum_cost(timings, stage) <= timings.len() * u64::MAX,
    decreases timings.len(),
{
    if timings.len() > 0 {
        let rest = timings.drop_last();
        assert(all_ordered(rest)) by {
            assert forall|i: int| 0 <= i < rest.len() implies (#[trigger] rest[i]).ordered() by {
                assert(rest[i] == timings[i]);
            }
        }
        lemma_sum_cost_bounds(rest, stage);
        assert(timings.last() == timings[timings.len() - 1]);
        assert(timings.last().ordered());
        assert(timings.len() * u64::MAX == rest.len() * u64::MAX + u64::MAX) by (nonlinear_arith)
            requires
                timings.len() == rest.len() + 1,
        ;
    }
}

/// Averages the stages of a run over its cycles. There is no report on a run
/// without cycles, nor on timings that are not ordered.
pub fn summarize(timings: &[CycleTiming]) -> (report: Option<Report>)
    ensures
        report is Some <==> timings@.len() > 0 && all_ordered(timings@),
        report matches Some(r) ==> r == report_of(timings@),
{
    let n: usize = timings.len();
    if n == 0 {
        return None;
    }
    let mut load: u128 = 0;
    let mut prepare_data: u128 = 0;
    let mut execute: u128 = 0;
    let mut postprocess: u128 = 0;
    let mut total: u128 = 0;
    let mut i: usize = 0;
    while i < n
        invariant
            i <= n,
            n == timings@.len(),
            all_ordered(timings@.take(i as int)),
            load == sum_cost(timings@.take(i as int), Stage::Load),
            prepare_data == sum_cost(timings@.take(i as int), Stage::PrepareData),
            execute == sum_cost(timings@.take(i as int), Stage::Execute),
            postprocess == sum_cost(timings@.take(i as int), Stage::Postprocess),
            total == sum_cost(timings@.take(i as int), Stage::Total),
        decreases n - i,
    {
        let timing = timings[i];
        if !timing.is_ordered() {
            return None;
        }
        proof {
            let before = timings@.take(i as int);
            let after = timings@.take(i + 1);
            assert(after.drop_last() =~= before);
            assert(after.last() == timing);
            assert(all_ordered(after)) by {
                assert forall|j: int| 0 <= j < after.len() implies (#[trigger] after[j]).ordered() by {
                    if j < i {
                        assert(after[j] == before[j]);
                    }
                }
            }
            lemma_sum_cost_bounds(after, Stage::Load);
            lemma_sum_cost_bounds(after, Stage::PrepareData);
            lemma_sum_cost_bounds(after, Stage::Execute);
            lemma_sum_cost_bounds(after, Stage::Postprocess);
            lemma_sum_cost_bounds(after, Stage::Total);
            assert(after.len() * u64::MAX <= u128::MAX) by (nonlinear_arith)
                requires
                    after.len() <= usize::MAX,
            ;
        }
        load = load + timing.to_load as u128;
        prepare_data = prepare_data + (timing.to_prepare_data - timing.to_load) as u128;
        execute = execute + (timing.to_execute - timing.to_prepare_data) as u128;
        postprocess = postprocess + (timing.to_postprocess - timing.to_execute) as u128;
        total = total + timing.to_postprocess as u128;
        i = i + 1;
    }
    assert(timings@.take(n as int) =~= timings@);
    let count: u128 = n as u128;
    Some(
        Report {
            load: load / count,
            prepare_data: prepare_data / count,
            execute: execute / count,
            postprocess: postprocess / count,
            total: total / count,
        },
    )
}

} // verus!

//! Whole sessions: what holds of the engine over any run of calls.

use crate::engine::EngineModel;
use crate::error::EngineError;
use crate::plan::{plan_for, Reconfiguration};
use crate::scratch::{
    extends, lemma_extends_is_an_order, lemma_grown_extends, lemma_grown_well_formed,
};
use vstd::prelude::*;

verus! {

/// One call on the engine.
pub enum Event {
    /// `initialize` at this host rate.
    Initialize { sample_rate: u32 },
    /// `reset` with this target rate.
    Reset { target: u32 },
    /// `process` with this target rate.
    Process { target: u32 },
    /// `finish_reconfiguration` with this sizing of the stages.
    FinishReconfiguration { down_output_frames_max: usize, up_input_frames_max: usize },
}

/// One processing cycle as a shell runs it: the target rate it reads, and
/// the sizing its stages report if they are reconfigured.
pub struct Cycle {
    /// The target rate read for the cycle.
    pub target: u32,
    /// Most frames the downsampling stage may write, as it reports.
    pub down_output_frames_max: usize,
    /// Most frames the upsampling stage may read, as it reports.
    pub up_input_frames_max: usize,
}

impl<T> EngineModel<T> {
    /// The engine after one call.
    pub open spec fn after(self, event: Event) -> Self {
        match event {
            Event::Initialize { sample_rate } => self.after_initialize(sample_rate),
            Event::Reset { target } => self.after_reset(target),
            Event::Process { target } => self.after_process(target),
            Event::FinishReconfiguration { down_output_frames_max, up_input_frames_max } =>
                self.after_finish(down_output_frames_max, up_input_frames_max),
        }
    }

    /// The engine after a run of calls, in order.
    pub open spec fn after_all(self, events: Seq<Event>) -> Self
        decreases events.len(),
    {
        if events.len() == 0 {
            self
        } else {
            self.after_all(events.drop_last()).after(events.last())
        }
    }

    /// The engine after one cycle: where the read fires, the shell applies
    /// the reconfiguration and reports it finished.
    pub open spec fn after_cycle(self, cycle: Cycle) -> Self {
        if self.fires(cycle.target) {
            self.after_process(cycle.target).after_finish(
                cycle.down_output_frames_max,
                cycle.up_input_frames_max,
            )
        } else {
            self
        }
    }

    /// The engine after a run of cycles, in order.
    pub open spec fn after_cycles(self, cycles: Seq<Cycle>) -> Self
        decreases cycles.len(),
    {
        if cycles.len() == 0 {
            self
        } else {
            self.after_cycles(cycles.drop_last()).after_cycle(cycles.last())
        }
    }
}

/// One call on the engine keeps what the scratch buffer holds; it may add
/// frames behind.
pub proof fn lemma_call_extends_scratch<T>(engine: EngineModel<T>, event: Event)
    ensures
        extends(engine.after(event).scratch, engine.scratch),
{
    match event {
        Event::FinishReconfiguration { down_output_frames_max, up_input_frames_max } => {
            lemma_grown_extends(
                engine.scratch,
                EngineModel::<T>::frames_needed(down_output_frames_max, up_input_frames_max),
                engine.silence,
            );
        },
        _ => {
            lemma_extends_is_an_order(engine.scratch, engine.scratch, engine.scratch);
        },
    }
}

/// No call on the engine shrinks the scratch buffer or changes what it
/// holds: between any two points of a session every channel only grows.
pub proof fn lemma_scratch_never_shrinks<T>(
    engine: EngineModel<T>,
    events: Seq<Event>,
    i: int,
    j: int,
)
    requires
        0 <= i <= j <= events.len(),
    ensures
        extends(
            engine.after_all(events.take(j)).scratch,
            engine.after_all(events.take(i)).scratch,
        ),
        forall|c: int|
            0 <= c < engine.after_all(events.take(i)).scratch.len() ==> engine.after_all(
                events.take(i),
            ).scratch[c].len() <= (#[trigger] engine.after_all(events.take(j)).scratch[c]).len(),
    decreases j - i,
{
    let at_i = engine.after_all(events.take(i)).scratch;
    let at_j = engine.after_all(events.take(j)).scratch;
    if i == j {
        lemma_extends_is_an_order(at_i, at_i, at_i);
    } else {
        lemma_scratch_never_shrinks(engine, events, i, j - 1);
        let before = engine.after_all(events.take(j - 1));
        assert(events.take(j).drop_last() =~= events.take(j - 1));
        lemma_call_extends_scratch(before, events[j - 1]);
        lemma_extends_is_an_order(at_i, before.scratch, at_j);
    }
    assert forall|c: int| 0 <= c < at_i.len() implies at_i[c].len() <= (#[trigger] at_j[c]).len() by {
        assert(at_i[c].is_prefix_of(at_j[c]));
    }
}

/// An engine whose scratch buffer is well formed keeps it so through every
/// call.
pub proof fn lemma_well_formed_is_kept<T>(engine: EngineModel<T>, events: Seq<Event>)
    requires
        engine.wf(),
    ensures
        engine.after_all(events).wf(),
    decreases events.len(),
{
    if events.len() > 0 {
        lemma_well_formed_is_kept(engine, events.drop_last());
        let before = engine.after_all(events.drop_last());
        match events.last() {
            Event::FinishReconfiguration { down_output_frames_max, up_input_frames_max } => {
                lemma_grown_well_formed(
                    before.scratch,
                    EngineModel::<T>::frames_needed(down_output_frames_max, up_input_frames_max),
                    before.silence,
                );
            },
            _ => {},
        }
    }
}

/// A read of the applied rate asks for nothing and leaves an idle engine as
/// it is, whether or not that rate could be configured.
pub proof fn lemma_unchanged_read_is_ignored<T>(engine: EngineModel<T>, cycle: Cycle)
    requires
        engine.state is Idle,
        cycle.target == engine.last_rate(),
    ensures
        !engine.fires(cycle.target),
        engine.process_result(cycle.target) == Ok::<Option<Reconfiguration>, EngineError>(None),
        engine.after_process(cycle.target) == engine,
        engine.after_cycle(cycle) == engine,
{
}

/// The rate that the read of cycle `i` is compared with: the target of the
/// cycle before, or what the engine had applied when the run began.
pub open spec fn previous_read<T>(engine: EngineModel<T>, cycles: Seq<Cycle>, i: int) -> u32 {
    if i == 0 {
        engine.last_rate()
    } else {
        cycles[i - 1].target
    }
}

/// In a run of cycles from an idle engine, with targets that can all be
/// configured, the read of a cycle fires if and only if it differs from the
/// read before it. So a new value fires once, and repeating it never does.
pub proof fn lemma_fires_once_per_change<T>(engine: EngineModel<T>, cycles: Seq<Cycle>, i: int)
    requires
        engine.state is Idle,
        0 <= i < cycles.len(),
        forall|k: int| 0 <= k < cycles.len() ==> plan_for(
            (#[trigger] cycles[k]).target,
            engine.sample_rate,
            false,
        ) is Ok,
    ensures
        engine.after_cycles(cycles.take(i)).state is Idle,
        engine.after_cycles(cycles.take(i)).last_rate() == previous_read(engine, cycles, i),
        engine.after_cycles(cycles.take(i)).sample_rate == engine.sample_rate,
        engine.after_cycles(cycles.take(i)).fires(cycles[i].target) <==> cycles[i].target
            != previous_read(engine, cycles, i),
    decreases i,
{
    if i == 0 {
        assert(cycles.take(0) =~= Seq::<Cycle>::empty());
    } else {
        lemma_fires_once_per_change(engine, cycles, i - 1);
        assert(cycles.take(i).drop_last() =~= cycles.take(i - 1));
    }
}

} // verus!

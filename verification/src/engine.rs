//! The engine around the two stages: change detection, planning of a
//! reconfiguration, and the scratch buffer between the stages.
//!
//! The engine never touches a stage. A cycle starts with `process` (or a
//! session with `reset`), which may hand the shell a [`Reconfiguration`].
//! The shell applies it to its stages and reports their sizing back through
//! `finish_reconfiguration`; only then is the new rate taken as applied.

use crate::error::EngineError;
use crate::limits::{CHANNELS, RESAMPLE_CHUNK_SIZE};
use crate::plan::{plan_for, plan_reconfiguration, Reconfiguration};
use crate::scratch::{
    grown, lemma_grown_extends, lemma_grown_well_formed, well_formed, ScratchBuffer,
};
use vstd::prelude::*;

verus! {

/// State of the change detector.
#[derive(Clone, Copy, Debug, PartialEq, Eq, Structural)]
pub enum DetectorState {
    /// The stages run the configuration of `last_rate`.
    Idle { last_rate: u32 },
    /// A configuration for `target` was handed to the shell and is not
    /// reported as applied yet.
    Reconfiguring { last_rate: u32, target: u32 },
}

/// What the engine is, for contracts.
#[verifier::ext_equal]
pub struct EngineModel<T> {
    /// Host rate in whole Hz; zero until a session is initialised.
    pub sample_rate: u32,
    /// State of the change detector.
    pub state: DetectorState,
    /// Samples of the scratch buffer, by channel.
    pub scratch: Seq<Seq<T>>,
    /// The sample the scratch buffer is extended with.
    pub silence: T,
}

impl<T> EngineModel<T> {
    /// A fresh engine: no host rate, no rate applied, one chunk of silence
    /// per channel.
    pub open spec fn initial(silence: T) -> Self {
        EngineModel {
            sample_rate: 0,
            state: DetectorState::Idle { last_rate: 0 },
            scratch: Seq::new(
                CHANNELS as nat,
                |c: int| Seq::new(RESAMPLE_CHUNK_SIZE as nat, |i: int| silence),
            ),
            silence,
        }
    }

    /// The scratch buffer has one channel per channel of the signal, all
    /// of one length.
    pub open spec fn wf(self) -> bool {
        well_formed(self.scratch)
    }

    /// The target rate that was last configured with success.
    pub open spec fn last_rate(self) -> u32 {
        match self.state {
            DetectorState::Idle { last_rate } => last_rate,
            DetectorState::Reconfiguring { last_rate, .. } => last_rate,
        }
    }

    /// Whether a read of `target` asks for a reconfiguration: it differs
    /// from the applied rate, or the stages are not known to run it.
    pub open spec fn changed(self, target: u32) -> bool {
        self.state is Reconfiguring || target != self.last_rate()
    }

    /// Whether a read of `target` hands a reconfiguration to the shell.
    pub open spec fn fires(self, target: u32) -> bool {
        self.changed(target) && plan_for(target, self.sample_rate, false) is Ok
    }

    /// The engine with a configuration for `target` handed out.
    pub open spec fn pending(self, target: u32) -> Self {
        EngineModel {
            state: DetectorState::Reconfiguring { last_rate: self.last_rate(), target },
            ..self
        }
    }

    /// The engine at a host rate of `sample_rate`.
    pub open spec fn after_initialize(self, sample_rate: u32) -> Self {
        EngineModel { sample_rate, ..self }
    }

    /// What `reset` returns.
    pub open spec fn reset_result(self, target: u32) -> Result<Reconfiguration, EngineError> {
        plan_for(target, self.sample_rate, true)
    }

    /// The engine after `reset`.
    pub open spec fn after_reset(self, target: u32) -> Self {
        if self.reset_result(target) is Ok {
            self.pending(target)
        } else {
            self
        }
    }

    /// What `process` returns.
    pub open spec fn process_result(self, target: u32) -> Result<
        Option<Reconfiguration>,
        EngineError,
    > {
        if !self.changed(target) {
            Ok(None)
        } else {
            match plan_for(target, self.sample_rate, false) {
                Ok(plan) => Ok(Some(plan)),
                Err(e) => Err(e),
            }
        }
    }

    /// The engine after `process`.
    pub open spec fn after_process(self, target: u32) -> Self {
        if self.fires(target) {
            self.pending(target)
        } else {
            self
        }
    }

    /// Frames the scratch buffer needs for stages of this sizing.
    pub open spec fn frames_needed(down_output_frames_max: usize, up_input_frames_max: usize) -> nat {
        if down_output_frames_max >= up_input_frames_max {
            down_output_frames_max as nat
        } else {
            up_input_frames_max as nat
        }
    }

    /// The engine after `finish_reconfiguration`.
    pub open spec fn after_finish(
        self,
        down_output_frames_max: usize,
        up_input_frames_max: usize,
    ) -> Self {
        EngineModel {
            state: match self.state {
                DetectorState::Idle { last_rate } => DetectorState::Idle { last_rate },
                DetectorState::Reconfiguring { target, .. } => DetectorState::Idle {
                    last_rate: target,
                },
            },
            scratch: grown(
                self.scratch,
                Self::frames_needed(down_output_frames_max, up_input_frames_max),
                self.silence,
            ),
            ..self
        }
    }
}

/// The engine of one effect instance.
pub struct Downsampler<T> {
    sample_rate: u32,
    state: DetectorState,
    scratch: ScratchBuffer<T>,
}

impl<T: Copy> View for Downsampler<T> {
    type V = EngineModel<T>;

    closed spec fn view(&self) -> EngineModel<T> {
        EngineModel {
            sample_rate: self.sample_rate,
            state: self.state,
            scratch: self.scratch@,
            silence: self.scratch.silence(),
        }
    }
}

impl<T: Copy> Downsampler<T> {
    /// An engine before its first session. `silence` is the zero sample.
    pub fn new(silence: T) -> (engine: Self)
        ensures
            engine@ == EngineModel::initial(silence),
            engine@.wf(),
    {
        Downsampler {
            sample_rate: 0,
            state: DetectorState::Idle { last_rate: 0 },
            scratch: ScratchBuffer::new(RESAMPLE_CHUNK_SIZE, silence),
        }
    }

    /// Starts a session at a host rate of `sample_rate` whole Hz.
    pub fn initialize(&mut self, sample_rate: u32)
        ensures
            final(self)@ == old(self)@.after_initialize(sample_rate),
    {
        self.sample_rate = sample_rate;
    }

    /// Plans the configuration for `target` anew, whatever was applied
    /// before, and asks the shell to clear the history of both stages.
    /// On an error nothing changes.
    pub fn reset(&mut self, target: u32) -> (plan: Result<Reconfiguration, EngineError>)
        ensures
            plan == old(self)@.reset_result(target),
            final(self)@ == old(self)@.after_reset(target),
    {
        let plan = plan_reconfiguration(target, self.sample_rate, true);
        if plan.is_ok() {
            let last_rate = self.last_resample_rate();
            self.state = DetectorState::Reconfiguring { last_rate, target };
        }
        plan
    }

    /// Opens a processing cycle with the target rate read for it. Returns
    /// the reconfiguration to apply before the stages run, if the read asks
    /// for one. On an error nothing changes.
    pub fn process(&mut self, target: u32) -> (plan: Result<Option<Reconfiguration>, EngineError>)
        ensures
            plan == old(self)@.process_result(target),
            final(self)@ == old(self)@.after_process(target),
    {
        let last_rate = self.last_resample_rate();
        if !self.is_reconfiguring() && target == last_rate {
            return Ok(None);
        }
        match plan_reconfiguration(target, self.sample_rate, false) {
            Ok(plan) => {
                self.state = DetectorState::Reconfiguring { last_rate, target };
                Ok(Some(plan))
            },
            Err(e) => Err(e),
        }
    }

    /// Takes the shell's report that the stages run the configuration last
    /// handed out, with the sizing they now have: grows the scratch buffer
    /// to it and takes the target rate as applied. Where no configuration
    /// is handed out, only the scratch buffer grows.
    pub fn finish_reconfiguration(
        &mut self,
        down_output_frames_max: usize,
        up_input_frames_max: usize,
    )
        ensures
            final(self)@ == old(self)@.after_finish(down_output_frames_max, up_input_frames_max),
            forall|c: int|
                0 <= c < final(self)@.scratch.len() ==> {
                    &&& (#[trigger] final(self)@.scratch[c]).len() >= down_output_frames_max
                    &&& final(self)@.scratch[c].len() >= up_input_frames_max
                    &&& final(self)@.scratch[c].len() >= old(self)@.scratch[c].len()
                },
            old(self)@.wf() ==> final(self)@.wf(),
    {
        proof {
            let needed = EngineModel::<T>::frames_needed(
                down_output_frames_max,
                up_input_frames_max,
            );
            lemma_grown_extends(old(self)@.scratch, needed, old(self)@.silence);
            if old(self)@.wf() {
                lemma_grown_well_formed(old(self)@.scratch, needed, old(self)@.silence);
            }
        }
        let max_frames = if down_output_frames_max >= up_input_frames_max {
            down_output_frames_max
        } else {
            up_input_frames_max
        };
        self.scratch.ensure_frames(max_frames);
        match self.state {
            DetectorState::Idle { .. } => {},
            DetectorState::Reconfiguring { target, .. } => {
                self.state = DetectorState::Idle { last_rate: target };
            },
        }
    }

    /// Host rate of the session, zero before the first one.
    pub fn sample_rate(&self) -> (rate: u32)
        ensures
            rate == self@.sample_rate,
    {
        self.sample_rate
    }

    /// The target rate that was last configured with success.
    pub fn last_resample_rate(&self) -> (rate: u32)
        ensures
            rate == self@.last_rate(),
    {
        match self.state {
            DetectorState::Idle { last_rate } => last_rate,
            DetectorState::Reconfiguring { last_rate, .. } => last_rate,
        }
    }

    /// State of the change detector.
    pub fn state(&self) -> (state: DetectorState)
        ensures
            state == self@.state,
    {
        self.state
    }

    /// Whether a reconfiguration is handed out and not reported back.
    pub fn is_reconfiguring(&self) -> (pending: bool)
        ensures
            pending == (self@.state is Reconfiguring),
    {
        match self.state {
            DetectorState::Idle { .. } => false,
            DetectorState::Reconfiguring { .. } => true,
        }
    }

    /// The scratch buffer, for the upsampling stage to read from.
    pub fn scratch(&self) -> (scratch: &ScratchBuffer<T>)
        ensures
            scratch@ == self@.scratch,
            scratch.silence() == self@.silence,
    {
        &self.scratch
    }

    /// The scratch buffer, for the downsampling stage to write into.
    pub fn scratch_mut(&mut self) -> (scratch: &mut ScratchBuffer<T>)
        ensures
            scratch@ == old(self)@.scratch,
            scratch.silence() == old(self)@.silence,
            final(self)@ == (EngineModel {
                scratch: final(scratch)@,
                silence: final(scratch).silence(),
                ..old(self)@
            }),
    {
        &mut self.scratch
    }
}

/// Latency of the pipeline in frames: the output delays of the two stages
/// add up. `None` where the sum does not fit.
pub fn total_latency(down_output_delay: usize, up_output_delay: usize) -> (latency: Option<usize>)
    ensures
        match latency {
            Some(frames) => frames == down_output_delay + up_output_delay,
            None => down_output_delay + up_output_delay > usize::MAX,
        },
{
    if down_output_delay <= usize::MAX - up_output_delay {
        Some(down_output_delay + up_output_delay)
    } else {
        None
    }
}

} // verus!

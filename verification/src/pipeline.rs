//! The simulate-then-submit transaction lifecycle.
//!
//! A transaction runs through a linear state machine with no retries:
//! built, then always simulated, then — unless the run is a dry run —
//! signed and submitted. A build failure is fatal and aborts the run;
//! simulation and submission failures are recorded in the result instead of
//! propagating, so the caller can observe them without a crash. The
//! surrounding application performs the chain calls and feeds their
//! outcomes back in as events; every decision between the calls is made
//! here.

use vstd::prelude::*;

verus! {

/// What a simulation returned, reduced to the values the caller inspects:
/// the error reported by the chain, if any, and the emitted log lines.
#[derive(Debug, Clone, PartialEq, Eq)]
pub struct SimulationOutcome {
    pub err: Option<String>,
    pub logs: Vec<String>,
}

/// The outcome of one completed pipeline run. The two fields are deliberately
/// independent: an absent simulation result means the simulation call itself
/// failed, and an absent signature means the transaction was not submitted —
/// whether because the run was a dry run or because submission failed.
#[derive(Debug, Clone, PartialEq, Eq)]
pub struct ClientHelperTxResult {
    pub simulation_result: Option<SimulationOutcome>,
    pub signature: Option<String>,
}

/// A fatal pipeline failure: unlike the network outcomes it is propagated,
/// not recorded, because a transaction that cannot even be built points at
/// a local, deterministic fault.
#[derive(Debug, Clone, PartialEq, Eq)]
pub enum PipelineError {
    /// The transaction could not be assembled; carries the builder's message.
    BuildFailed(String),
}

/// Where a pipeline run stands.
#[derive(Clone, Copy, Debug, PartialEq, Eq, Structural)]
pub enum PipelineStage {
    /// The transaction is being assembled.
    Building,
    /// The transaction exists and awaits its simulation.
    Simulating,
    /// The simulation outcome is recorded and the transaction awaits
    /// signing and submission.
    Submitting,
    /// The run completed; a result can be taken.
    Done,
    /// Assembly failed; the run carries only the build error.
    Aborted,
}

/// The next chain interaction the driver must perform.
#[derive(Clone, Copy, Debug, PartialEq, Eq, Structural)]
pub enum PipelineAction {
    /// Assemble the unsigned transaction from the instructions and context.
    BuildTransaction,
    /// Simulate the transaction against current chain state.
    SimulateTransaction,
    /// Sign the transaction and submit it with confirmation requested.
    SubmitTransaction,
    /// Nothing is left to do; take the result.
    Report,
}

/// The outcome of one chain interaction, fed back into the machine.
#[derive(Debug, Clone, PartialEq, Eq)]
pub enum PipelineEvent {
    /// The unsigned transaction was assembled.
    BuildSucceeded,
    /// The transaction could not be assembled; carries the message.
    BuildFailed(String),
    /// The simulation call returned; `None` means the call itself failed.
    SimulationCompleted(Option<SimulationOutcome>),
    /// The submission call returned; `None` means it failed, `Some` carries
    /// the confirmed signature.
    SubmissionCompleted(Option<String>),
}

/// The state of one transaction run: the dry-run flag fixed at the start,
/// the stage reached, and the outcomes recorded so far.
#[derive(Debug, Clone, PartialEq, Eq)]
pub struct TransactionPipeline {
    pub dryrun: bool,
    pub stage: PipelineStage,
    pub simulation_result: Option<SimulationOutcome>,
    pub signature: Option<String>,
    pub build_error: Option<String>,
}

/// The state a freshly started run is in.
pub open spec fn spec_init(dryrun: bool) -> TransactionPipeline {
    TransactionPipeline {
        dryrun,
        stage: PipelineStage::Building,
        simulation_result: None,
        signature: None,
        build_error: None,
    }
}

/// Whether an event is the one the machine is waiting for.
pub open spec fn admissible(p: TransactionPipeline, event: PipelineEvent) -> bool {
    match event {
        PipelineEvent::BuildSucceeded => p.stage is Building,
        PipelineEvent::BuildFailed(_) => p.stage is Building,
        PipelineEvent::SimulationCompleted(_) => p.stage is Simulating,
        PipelineEvent::SubmissionCompleted(_) => p.stage is Submitting,
    }
}

/// The transition relation, as a total function: an event the machine is
/// not waiting for changes nothing. A completed simulation moves a dry run
/// straight to `Done` — submission is skipped entirely — and any other run
/// on to submission; a recorded submission outcome, present or absent,
/// finishes the run.
pub open spec fn spec_step(p: TransactionPipeline, event: PipelineEvent) -> TransactionPipeline {
    if !admissible(p, event) {
        p
    } else {
        match event {
            PipelineEvent::BuildSucceeded => TransactionPipeline {
                stage: PipelineStage::Simulating,
                ..p
            },
            PipelineEvent::BuildFailed(message) => TransactionPipeline {
                stage: PipelineStage::Aborted,
                build_error: Some(message),
                ..p
            },
            PipelineEvent::SimulationCompleted(outcome) => TransactionPipeline {
                stage: if p.dryrun {
                    PipelineStage::Done
                } else {
                    PipelineStage::Submitting
                },
                simulation_result: outcome,
                ..p
            },
            PipelineEvent::SubmissionCompleted(signature) => TransactionPipeline {
                stage: PipelineStage::Done,
                signature,
                ..p
            },
        }
    }
}

/// A run after a whole sequence of events, in order.
pub open spec fn spec_run(p: TransactionPipeline, events: Seq<PipelineEvent>) -> TransactionPipeline
    decreases events.len(),
{
    if events.len() == 0 {
        p
    } else {
        spec_run(spec_step(p, events[0]), events.skip(1))
    }
}

/// A dry run stays a dry run, never reaches the submitting stage, and so
/// never records a signature.
pub open spec fn dryrun_guard(p: TransactionPipeline) -> bool {
    p.dryrun && p.stage !is Submitting && p.signature is None
}

proof fn lemma_dryrun_guard_step(p: TransactionPipeline, event: PipelineEvent)
    requires
        dryrun_guard(p),
    ensures
        dryrun_guard(spec_step(p, event)),
{
}

proof fn lemma_dryrun_guard_run(p: TransactionPipeline, events: Seq<PipelineEvent>)
    requires
        dryrun_guard(p),
    ensures
        dryrun_guard(spec_run(p, events)),
    decreases events.len(),
{
    if events.len() > 0 {
        lemma_dryrun_guard_step(p, events[0]);
        lemma_dryrun_guard_run(spec_step(p, events[0]), events.skip(1));
    }
}

/// However a run started in dry-run mode is driven — whatever events arrive,
/// in whatever order, however many — its signature stays absent: a dry run
/// never signs.
pub proof fn lemma_dryrun_never_signs(events: Seq<PipelineEvent>)
    ensures
        spec_run(spec_init(true), events).signature is None,
{
    lemma_dryrun_guard_run(spec_init(true), events);
}

impl TransactionPipeline {
    /// The run's structural invariant: outcomes are only recorded in the
    /// stages that follow them, a dry run never stands in the submitting
    /// stage, and only an aborted run carries a build error.
    pub open spec fn wf(self) -> bool {
        &&& (self.dryrun ==> self.stage !is Submitting && self.signature is None)
        &&& (self.stage is Building ==> self.simulation_result is None && self.signature is None
            && self.build_error is None)
        &&& (self.stage is Simulating ==> self.signature is None && self.build_error is None)
        &&& (self.stage is Submitting ==> self.signature is None && self.build_error is None)
        &&& (self.stage is Aborted ==> self.build_error is Some && self.simulation_result is None
            && self.signature is None)
        &&& (self.stage is Done ==> self.build_error is None)
    }

    /// The run has reached a terminal stage.
    pub open spec fn finished(self) -> bool {
        self.stage is Done || self.stage is Aborted
    }

    /// Starts a run: nothing recorded, a transaction yet to be built.
    pub fn new(dryrun: bool) -> (r: Self)
        ensures
            r == spec_init(dryrun),
            r.wf(),
    {
        TransactionPipeline {
            dryrun,
            stage: PipelineStage::Building,
            simulation_result: None,
            signature: None,
            build_error: None,
        }
    }

    /// The next chain interaction the driver must perform for this run.
    pub fn next_action(&self) -> (r: PipelineAction)
        ensures
            self.stage is Building ==> r is BuildTransaction,
            self.stage is Simulating ==> r is SimulateTransaction,
            self.stage is Submitting ==> r is SubmitTransaction,
            self.finished() ==> r is Report,
    {
        match self.stage {
            PipelineStage::Building => PipelineAction::BuildTransaction,
            PipelineStage::Simulating => PipelineAction::SimulateTransaction,
            PipelineStage::Submitting => PipelineAction::SubmitTransaction,
            PipelineStage::Done => PipelineAction::Report,
            PipelineStage::Aborted => PipelineAction::Report,
        }
    }

    /// Records the outcome of the interaction the run was waiting for and
    /// advances the machine by exactly one transition.
    pub fn step(&mut self, event: PipelineEvent)
        requires
            old(self).wf(),
            admissible(*old(self), event),
        ensures
            *final(self) == spec_step(*old(self), event),
            final(self).wf(),
    {
        match event {
            PipelineEvent::BuildSucceeded => {
                self.stage = PipelineStage::Simulating;
            },
            PipelineEvent::BuildFailed(message) => {
                self.stage = PipelineStage::Aborted;
                self.build_error = Some(message);
            },
            PipelineEvent::SimulationCompleted(outcome) => {
                self.stage = if self.dryrun {
                    PipelineStage::Done
                } else {
                    PipelineStage::Submitting
                };
                self.simulation_result = outcome;
            },
            PipelineEvent::SubmissionCompleted(signature) => {
                self.stage = PipelineStage::Done;
                self.signature = signature;
            },
        }
    }

    /// Whether the run is over and a result can be taken.
    pub fn is_finished(&self) -> (r: bool)
        ensures
            r == self.finished(),
    {
        match self.stage {
            PipelineStage::Done => true,
            PipelineStage::Aborted => true,
            _ => false,
        }
    }

    /// Consumes a finished run. An aborted build propagates as the one
    /// fatal error; a completed run reports both recorded outcomes exactly
    /// as they arrived, and a dry run's signature is absent by construction.
    pub fn into_result(self) -> (r: Result<ClientHelperTxResult, PipelineError>)
        requires
            self.wf(),
            self.finished(),
        ensures
            self.stage is Done ==> (r matches Ok(out)
                && out.simulation_result == self.simulation_result
                && out.signature == self.signature),
            self.stage is Aborted ==> (r matches Err(e)
                && e matches PipelineError::BuildFailed(message)
                && Some(message) == self.build_error),
            self.dryrun ==> (r matches Ok(out) ==> out.signature is None),
    {
        match self.build_error {
            Some(message) => Err(PipelineError::BuildFailed(message)),
            None => Ok(ClientHelperTxResult {
                simulation_result: self.simulation_result,
                signature: self.signature,
            }),
        }
    }
}

} // verus!

use vstd::prelude::*;
use crate::error::PipelineError;
use crate::model::ModelConfig;

verus! {

/// Everything that fixes a training run. The learning rate is held in
/// billionths.
#[derive(Clone, Copy, Debug, PartialEq, Eq, Structural)]
pub struct TrainingConfig {
    pub model: ModelConfig,
    pub num_epochs: usize,
    pub batch_size: usize,
    pub num_workers: usize,
    pub seed: u64,
    pub learning_rate_nanos: u64,
    /// Write a checkpoint after every epoch, not only after the last.
    pub checkpoint_every_epoch: bool,
    /// End the run with an error at the first loss that is not finite.
    pub halt_on_divergence: bool,
}

impl TrainingConfig {
    /// The run can start: the model can be built, the loss is defined (at
    /// least two classes), batches are not empty and the optimizer moves.
    pub open spec fn valid(&self) -> bool {
        &&& self.model.valid()
        &&& self.model.num_classes >= 2
        &&& self.batch_size >= 1
        &&& self.learning_rate_nanos >= 1
    }

    /// A run of `num_epochs` epochs with batches of 64, four workers, seed
    /// 42 and a learning rate of one ten-thousandth, which checkpoints after
    /// the last epoch only and goes on after a loss that is not finite.
    pub fn new(model: ModelConfig, num_epochs: usize) -> (config: Self)
        ensures
            config == (TrainingConfig {
                model,
                num_epochs,
                batch_size: 64,
                num_workers: 4,
                seed: 42,
                learning_rate_nanos: 100_000,
                checkpoint_every_epoch: false,
                halt_on_divergence: false,
            }),
    {
        TrainingConfig {
            model,
            num_epochs,
            batch_size: 64,
            num_workers: 4,
            seed: 42,
            learning_rate_nanos: 100_000,
            checkpoint_every_epoch: false,
            halt_on_divergence: false,
        }
    }

    /// Tests [`Self::valid`]; a run that cannot start is a usage error.
    pub fn validate(&self) -> (res: Result<(), PipelineError>)
        ensures
            res is Ok <==> self.valid(),
            res is Err ==> res == Err::<(), PipelineError>(PipelineError::Usage),
    {
        if self.model.hidden_size < 1 || self.model.dropout_millis > 1000
            || self.model.num_classes < 2 || self.batch_size < 1 || self.learning_rate_nanos < 1 {
            Err(PipelineError::Usage)
        } else {
            Ok(())
        }
    }
}

/// Where a run stands.
#[derive(Clone, Copy, Debug, PartialEq, Eq, Structural)]
pub enum Phase {
    /// Nothing was built yet.
    Init,
    /// The next training pass is due.
    TrainPass,
    /// The training pass of the epoch is done; its validation pass is due.
    ValidatePass,
    /// A checkpoint is due.
    Checkpoint,
    /// All epochs are done and the last checkpoint is written.
    Done,
    /// The run ended with an error.
    Failed(PipelineError),
}

/// What the driver does next.
#[derive(Clone, Copy, Debug, PartialEq, Eq, Structural)]
pub enum Action {
    /// Build the model, the optimizer and the two data loaders.
    Initialize,
    /// Run one pass over the training split, dropout active, with one
    /// optimizer step per batch. `epoch` counts from zero.
    Train { epoch: usize },
    /// Run one pass over the validation split, dropout inactive, without
    /// touching the parameters.
    Validate { epoch: usize },
    /// Persist the parameters as they stand after `epochs_done` epochs.
    SaveCheckpoint { epochs_done: usize },
    /// Nothing: the run is over.
    Stop,
}

/// What the driver reports of the action that it performed.
#[derive(Clone, Copy, Debug, PartialEq, Eq, Structural)]
pub enum Event {
    /// The action was carried out.
    Completed,
    /// The pass was carried out, and a loss in it was not a finite number.
    Diverged,
    /// The action failed.
    Failed(PipelineError),
}

/// The state of a run: its plan, its phase, and what was done so far.
#[derive(Clone, Copy, Debug, PartialEq, Eq, Structural)]
pub struct TrainingState {
    pub num_epochs: usize,
    pub checkpoint_every_epoch: bool,
    pub halt_on_divergence: bool,
    pub phase: Phase,
    /// Epochs whose two passes are both done.
    pub epochs_done: usize,
    pub train_passes: usize,
    pub validate_passes: usize,
    pub checkpoints: usize,
}

impl TrainingState {
    /// The number of checkpoints written so far that the phase and the
    /// epoch count imply.
    pub open spec fn spec_checkpoints(&self) -> int {
        if self.phase is Done {
            if self.checkpoint_every_epoch && self.num_epochs >= 1 {
                self.num_epochs as int
            } else {
                1
            }
        } else if self.checkpoint_every_epoch {
            if self.phase is Checkpoint && self.epochs_done >= 1 {
                self.epochs_done - 1
            } else {
                self.epochs_done as int
            }
        } else {
            0
        }
    }

    /// The counters agree with the phase. In a run that has not failed, as
    /// many validation passes are done as epochs, the training passes are
    /// one ahead exactly while a validation pass is due, and a finished run
    /// has done all its epochs and written a checkpoint.
    pub open spec fn wf(&self) -> bool {
        &&& self.epochs_done <= self.num_epochs
        &&& self.validate_passes <= self.train_passes <= self.num_epochs
        &&& !(self.phase is Failed) ==> {
            &&& self.validate_passes == self.epochs_done
            &&& self.train_passes == self.epochs_done + (if self.phase is ValidatePass {
                1int
            } else {
                0int
            })
            &&& self.checkpoints == self.spec_checkpoints()
        }
        &&& self.phase is Init ==> self.epochs_done == 0
        &&& (self.phase is TrainPass || self.phase is ValidatePass) ==> self.epochs_done
            < self.num_epochs
        &&& self.phase is Checkpoint ==> {
            &&& self.epochs_done == self.num_epochs || self.checkpoint_every_epoch
            &&& self.epochs_done >= 1 || self.num_epochs == 0
        }
        &&& self.phase is Done ==> self.epochs_done == self.num_epochs
    }

    /// The run is over, in one way or the other.
    pub open spec fn finished(&self) -> bool {
        self.phase is Done || self.phase is Failed
    }

    /// A bound on the number of steps that the run can still take; zero
    /// exactly when it is over.
    pub open spec fn remaining(&self) -> nat {
        let left = (self.num_epochs - self.epochs_done) as nat;
        match self.phase {
            Phase::Init => 3 * left + 2,
            Phase::TrainPass => 3 * left,
            Phase::ValidatePass => (3 * left - 1) as nat,
            Phase::Checkpoint => 3 * left + 1,
            Phase::Done => 0,
            Phase::Failed(_) => 0,
        }
    }

    /// The state in which a run of `config` starts.
    pub open spec fn spec_start(config: TrainingConfig) -> TrainingState {
        TrainingState {
            num_epochs: config.num_epochs,
            checkpoint_every_epoch: config.checkpoint_every_epoch,
            halt_on_divergence: config.halt_on_divergence,
            phase: Phase::Init,
            epochs_done: 0,
            train_passes: 0,
            validate_passes: 0,
            checkpoints: 0,
        }
    }

    /// What is due in this state.
    pub open spec fn spec_action(&self) -> Action {
        match self.phase {
            Phase::Init => Action::Initialize,
            Phase::TrainPass => Action::Train { epoch: self.epochs_done },
            Phase::ValidatePass => Action::Validate { epoch: self.epochs_done },
            Phase::Checkpoint => Action::SaveCheckpoint { epochs_done: self.epochs_done },
            Phase::Done => Action::Stop,
            Phase::Failed(_) => Action::Stop,
        }
    }

    /// The error, if any, with which `event` ends a run of this policy.
    pub open spec fn spec_fatal(&self, event: Event) -> Option<PipelineError> {
        match event {
            Event::Completed => None,
            Event::Diverged => if self.halt_on_divergence {
                Some(PipelineError::Divergence)
            } else {
                None
            },
            Event::Failed(e) => Some(e),
        }
    }

    /// The phase that follows a completed epoch or checkpoint: a checkpoint
    /// where one is due, else the next training pass, else the end.
    pub open spec fn spec_after_epoch(&self, epochs_done: usize) -> Phase {
        if epochs_done == self.num_epochs || self.checkpoint_every_epoch {
            Phase::Checkpoint
        } else {
            Phase::TrainPass
        }
    }

    /// The state that follows this one when the due action ended in `event`.
    ///
    /// A finished run stays as it is. A fatal event ends the run with its
    /// error. Otherwise the run moves on: from the start to the first
    /// training pass, or straight to the checkpoint where no epoch is asked
    /// for; from a training pass to its validation pass; from a validation
    /// pass to the checkpoint, if one is due, or to the next epoch; from a
    /// checkpoint to the next epoch, or to the end after the last.
    pub open spec fn spec_step(&self, event: Event) -> TrainingState {
        if self.finished() {
            *self
        } else if let Some(e) = self.spec_fatal(event) {
            TrainingState { phase: Phase::Failed(e), ..*self }
        } else {
            match self.phase {
                Phase::Init => TrainingState {
                    phase: if self.num_epochs == 0 {
                        Phase::Checkpoint
                    } else {
                        Phase::TrainPass
                    },
                    ..*self
                },
                Phase::TrainPass => TrainingState {
                    phase: Phase::ValidatePass,
                    train_passes: (self.train_passes + 1) as usize,
                    ..*self
                },
                Phase::ValidatePass => TrainingState {
                    phase: self.spec_after_epoch((self.epochs_done + 1) as usize),
                    epochs_done: (self.epochs_done + 1) as usize,
                    validate_passes: (self.validate_passes + 1) as usize,
                    ..*self
                },
                Phase::Checkpoint => TrainingState {
                    phase: if self.epochs_done == self.num_epochs {
                        Phase::Done
                    } else {
                        Phase::TrainPass
                    },
                    checkpoints: (self.checkpoints + 1) as usize,
                    ..*self
                },
                Phase::Done => *self,
                Phase::Failed(_) => *self,
            }
        }
    }

    /// The state after the events of `events`, one after the other.
    pub open spec fn spec_run(&self, events: Seq<Event>) -> TrainingState
        decreases events.len(),
    {
        if events.len() == 0 {
            *self
        } else {
            self.spec_step(events[0]).spec_run(events.subrange(1, events.len() as int))
        }
    }

    /// Starts a run. A configuration with which no run can start is a usage
    /// error; any other yields the initial state.
    pub fn start(config: &TrainingConfig) -> (res: Result<TrainingState, PipelineError>)
        ensures
            match res {
                Ok(state) => config.valid() && state == Self::spec_start(*config) && state.wf(),
                Err(e) => !config.valid() && e == PipelineError::Usage,
            },
    {
        match config.validate() {
            Err(e) => Err(e),
            Ok(()) => Ok(
                TrainingState {
                    num_epochs: config.num_epochs,
                    checkpoint_every_epoch: config.checkpoint_every_epoch,
                    halt_on_divergence: config.halt_on_divergence,
                    phase: Phase::Init,
                    epochs_done: 0,
                    train_passes: 0,
                    validate_passes: 0,
                    checkpoints: 0,
                },
            ),
        }
    }

    /// The action that is due.
    pub fn action(&self) -> (action: Action)
        ensures
            action == self.spec_action(),
            action == Action::Stop <==> self.finished(),
    {
        match self.phase {
            Phase::Init => Action::Initialize,
            Phase::TrainPass => Action::Train { epoch: self.epochs_done },
            Phase::ValidatePass => Action::Validate { epoch: self.epochs_done },
            Phase::Checkpoint => Action::SaveCheckpoint { epochs_done: self.epochs_done },
            Phase::Done => Action::Stop,
            Phase::Failed(_) => Action::Stop,
        }
    }

    /// Moves the run on by one event: see [`Self::spec_step`]. The counters
    /// stay in agreement with the phase, and a run that was not over has
    /// come strictly closer to its end.
    pub fn step(&self, event: Event) -> (next: TrainingState)
        requires
            self.wf(),
        ensures
            next == self.spec_step(event),
            next.wf(),
            !self.finished() ==> next.remaining() < self.remaining(),
            self.finished() ==> next == *self,
    {
        let fatal: Option<PipelineError> = match event {
            Event::Completed => None,
            Event::Diverged => if self.halt_on_divergence {
                Some(PipelineError::Divergence)
            } else {
                None
            },
            Event::Failed(e) => Some(e),
        };
        let mut next: TrainingState = *self;
        match self.phase {
            Phase::Done => {},
            Phase::Failed(_) => {},
            Phase::Init => {
                if let Some(e) = fatal {
                    next.phase = Phase::Failed(e);
                } else if self.num_epochs == 0 {
                    next.phase = Phase::Checkpoint;
                } else {
                    next.phase = Phase::TrainPass;
                }
            },
            Phase::TrainPass => {
                if let Some(e) = fatal {
                    next.phase = Phase::Failed(e);
                } else {
                    next.phase = Phase::ValidatePass;
                    next.train_passes = self.train_passes + 1;
                }
            },
            Phase::ValidatePass => {
                if let Some(e) = fatal {
                    next.phase = Phase::Failed(e);
                } else {
                    let done: usize = self.epochs_done + 1;
                    next.epochs_done = done;
                    next.validate_passes = self.validate_passes + 1;
                    if done == self.num_epochs || self.checkpoint_every_epoch {
                        next.phase = Phase::Checkpoint;
                    } else {
                        next.phase = Phase::TrainPass;
                    }
                }
            },
            Phase::Checkpoint => {
                if let Some(e) = fatal {
                    next.phase = Phase::Failed(e);
                } else {
                    next.checkpoints = self.checkpoints + 1;
                    if self.epochs_done == self.num_epochs {
                        next.phase = Phase::Done;
                    } else {
                        next.phase = Phase::TrainPass;
                    }
                }
            },
        }
        next
    }
}

/// No event of `events` ends a run of the policy of `state` with an error.
pub open spec fn all_benign(state: TrainingState, events: Seq<Event>) -> bool {
    forall|i: int| 0 <= i < events.len() ==> state.spec_fatal(#[trigger] events[i]) is None
}

/// A step keeps the counters in agreement with the phase, leaves the plan
/// of the run alone, and brings a run that is not over closer to its end.
pub proof fn lemma_step_progress(state: TrainingState, event: Event)
    requires
        state.wf(),
    ensures
        state.spec_step(event).wf(),
        state.spec_step(event).num_epochs == state.num_epochs,
        state.spec_step(event).checkpoint_every_epoch == state.checkpoint_every_epoch,
        state.spec_step(event).halt_on_divergence == state.halt_on_divergence,
        !state.finished() ==> state.spec_step(event).remaining() < state.remaining(),
        state.spec_fatal(event) is None ==> !(state.spec_step(event).phase is Failed) || (
        state.phase is Failed),
{
}

/// A run whose actions all succeed ends, and has then done exactly as many
/// training passes and as many validation passes as epochs were asked for,
/// and has written a checkpoint: also where no epoch was asked for, in which
/// case no pass is done and the initial parameters are written.
///
/// `3 * num_epochs + 2` events always suffice, and further events change
/// nothing.
pub proof fn lemma_run_completes(config: TrainingConfig, events: Seq<Event>)
    requires
        config.valid(),
        all_benign(TrainingState::spec_start(config), events),
        events.len() >= 3 * config.num_epochs + 2,
    ensures
        ({
            let end = TrainingState::spec_start(config).spec_run(events);
            &&& end.phase is Done
            &&& end.train_passes == config.num_epochs
            &&& end.validate_passes == config.num_epochs
            &&& end.epochs_done == config.num_epochs
            &&& end.checkpoints >= 1
            &&& end.spec_action() == Action::Stop
        }),
{
    lemma_run_reaches_end(TrainingState::spec_start(config), events);
}

/// From any state of a run that has not failed, enough successful events
/// lead to the end, with all passes done.
pub proof fn lemma_run_reaches_end(state: TrainingState, events: Seq<Event>)
    requires
        state.wf(),
        !(state.phase is Failed),
        all_benign(state, events),
        events.len() >= state.remaining(),
    ensures
        state.spec_run(events).wf(),
        state.spec_run(events).phase is Done,
        state.spec_run(events).num_epochs == state.num_epochs,
        state.spec_run(events).train_passes == state.num_epochs,
        state.spec_run(events).validate_passes == state.num_epochs,
        state.spec_run(events).epochs_done == state.num_epochs,
        state.spec_run(events).checkpoints >= 1,
    decreases events.len(),
{
    if events.len() == 0 {
        assert(state.phase is Done);
    } else {
        let next = state.spec_step(events[0]);
        let rest = events.subrange(1, events.len() as int);
        lemma_step_progress(state, events[0]);
        assert(all_benign(next, rest)) by {
            assert(forall|i: int| 0 <= i < rest.len() ==> rest[i] == events[i + 1]);
        }
        lemma_run_reaches_end(next, rest);
    }
}

/// A run is over once a fatal event was reported: the error stays, and no
/// later event brings a further pass or checkpoint.
pub proof fn lemma_failure_is_final(state: TrainingState, event: Event, later: Event)
    requires
        state.wf(),
        !state.finished(),
        state.spec_fatal(event) is Some,
    ensures
        state.spec_step(event).phase == Phase::Failed(state.spec_fatal(event).unwrap()),
        state.spec_step(event).spec_step(later) == state.spec_step(event),
        state.spec_step(event).spec_action() == Action::Stop,
{
}

/// How one batch of a pass went.
#[derive(Clone, Copy, Debug, PartialEq, Eq, Structural)]
pub enum BatchOutcome {
    /// The loss of the batch was a finite number.
    Finite,
    /// The loss of the batch was not a finite number.
    NotFinite,
    /// The batch could not be processed.
    Failed(PipelineError),
}

/// What a pass reports, given how its batches went, in their order: the
/// first failure, if a batch failed; else that it diverged, if a loss was
/// not finite; else that it was carried out. A pass over no batches was
/// carried out.
pub fn pass_event(outcomes: &Vec<BatchOutcome>) -> (event: Event)
    ensures
        match event {
            Event::Failed(e) => exists|p: int|
                {
                    &&& 0 <= p < outcomes@.len()
                    &&& #[trigger] outcomes@[p] == BatchOutcome::Failed(e)
                    &&& forall|i: int| 0 <= i < p ==> !(#[trigger] outcomes@[i] is Failed)
                },
            Event::Diverged => {
                &&& forall|i: int| 0 <= i < outcomes@.len() ==> !(#[trigger] outcomes@[i] is Failed)
                &&& exists|i: int| 0 <= i < outcomes@.len() && #[trigger] outcomes@[i] is NotFinite
            },
            Event::Completed => forall|i: int|
                0 <= i < outcomes@.len() ==> #[trigger] outcomes@[i] is Finite,
        },
{
    let mut diverged: bool = false;
    let mut i: usize = 0;
    while i < outcomes.len()
        invariant
            0 <= i <= outcomes@.len(),
            forall|k: int| 0 <= k < i ==> !(#[trigger] outcomes@[k] is Failed),
            diverged <==> exists|k: int| 0 <= k < i && #[trigger] outcomes@[k] is NotFinite,
        decreases outcomes@.len() - i,
    {
        match outcomes[i] {
            BatchOutcome::Failed(e) => {
                return Event::Failed(e);
            },
            BatchOutcome::NotFinite => {
                diverged = true;
            },
            BatchOutcome::Finite => {},
        }
        i = i + 1;
    }
    if diverged {
        Event::Diverged
    } else {
        Event::Completed
    }
}

/// `label` names one of `num_classes` classes.
pub open spec fn label_in_range(label: i64, num_classes: usize) -> bool {
    0 <= label < num_classes
}

/// Tests the labels of a batch before the loss is computed on them.
///
/// Where every label names a class the answer is `Ok`. Otherwise it is the
/// first label that does not, with its position in the batch.
pub fn check_labels(targets: &Vec<i64>, num_classes: usize) -> (res: Result<(), PipelineError>)
    ensures
        match res {
            Ok(_) => forall|i: int|
                0 <= i < targets@.len() ==> label_in_range(#[trigger] targets@[i], num_classes),
            Err(e) => exists|p: int|
                {
                    &&& 0 <= p < targets@.len()
                    &&& !label_in_range(#[trigger] targets@[p], num_classes)
                    &&& forall|i: int|
                        0 <= i < p ==> label_in_range(#[trigger] targets@[i], num_classes)
                    &&& e == (PipelineError::InvalidLabel {
                        position: p as usize,
                        label: targets@[p],
                    })
                },
        },
{
    let mut i: usize = 0;
    while i < targets.len()
        invariant
            0 <= i <= targets@.len(),
            forall|k: int| 0 <= k < i ==> label_in_range(#[trigger] targets@[k], num_classes),
        decreases targets@.len() - i,
    {
        let label: i64 = targets[i];
        if label < 0 || label as u64 >= num_classes as u64 {
            assert(!label_in_range(targets@[i as int], num_classes));
            return Err(PipelineError::InvalidLabel { position: i, label });
        }
        i = i + 1;
    }
    Ok(())
}

/// How many of the predictions name the class that the label names.
pub open spec fn count_correct(predictions: Seq<usize>, targets: Seq<i64>) -> nat
    recommends
        predictions.len() == targets.len(),
    decreases predictions.len(),
{
    if predictions.len() == 0 {
        0
    } else {
        count_correct(predictions.drop_last(), targets.drop_last()) + (if predictions.last()
            == targets.last() {
            1nat
        } else {
            0nat
        })
    }
}

/// The running accuracy of one pass: `correct` of `seen` items were
/// classified as their label says.
#[derive(Clone, Copy, Debug, PartialEq, Eq, Structural)]
pub struct Metrics {
    pub correct: u64,
    pub seen: u64,
}

impl Metrics {
    /// No more items were classified correctly than were seen.
    pub open spec fn wf(&self) -> bool {
        self.correct <= self.seen
    }

    /// The metrics of a pass that has seen nothing yet.
    pub fn new() -> (metrics: Self)
        ensures
            metrics == (Metrics { correct: 0, seen: 0 }),
            metrics.wf(),
    {
        Metrics { correct: 0, seen: 0 }
    }

    /// Adds one batch to the metrics. Predictions and labels that do not
    /// pair up are a shape error and leave the metrics as they are.
    pub fn record(&mut self, predictions: &Vec<usize>, targets: &Vec<i64>) -> (res: Result<
        (),
        PipelineError,
    >)
        requires
            old(self).wf(),
            old(self).seen + predictions@.len() <= u64::MAX,
        ensures
            final(self).wf(),
            match res {
                Ok(_) => {
                    &&& predictions@.len() == targets@.len()
                    &&& final(self).seen == old(self).seen + predictions@.len()
                    &&& final(self).correct == old(self).correct + count_correct(
                        predictions@,
                        targets@,
                    )
                },
                Err(e) => {
                    &&& predictions@.len() != targets@.len()
                    &&& e == PipelineError::Shape
                    &&& *final(self) == *old(self)
                },
            },
    {
        if predictions.len() != targets.len() {
            return Err(PipelineError::Shape);
        }
        let mut hits: u64 = 0;
        let mut i: usize = 0;
        while i < predictions.len()
            invariant
                predictions@.len() == targets@.len(),
                0 <= i <= predictions@.len(),
                hits == count_correct(predictions@.take(i as int), targets@.take(i as int)),
                hits <= i,
            decreases predictions@.len() - i,
        {
            let target: i64 = targets[i];
            let hit: bool = target >= 0 && predictions[i] as u64 == target as u64;
            proof {
                let a = predictions@.take(i + 1);
                let b = targets@.take(i + 1);
                assert(a.drop_last() =~= predictions@.take(i as int));
                assert(b.drop_last() =~= targets@.take(i as int));
                assert(hit == (a.last() == b.last()));
            }
            if hit {
                hits = hits + 1;
            }
            i = i + 1;
        }
        proof {
            assert(predictions@.take(i as int) =~= predictions@);
            assert(targets@.take(i as int) =~= targets@);
        }
        self.correct = self.correct + hits;
        self.seen = self.seen + predictions.len() as u64;
        Ok(())
    }
}

/// The number of batches into which a loader cuts `records` records: all of
/// `batch_size` but the last, which holds what is left.
pub open spec fn spec_num_batches(records: usize, batch_size: usize) -> int {
    if records == 0 {
        0
    } else {
        (records - 1) / (batch_size as int) + 1
    }
}

/// Computes [`spec_num_batches`].
pub fn num_batches(records: usize, batch_size: usize) -> (n: usize)
    requires
        batch_size >= 1,
    ensures
        n == spec_num_batches(records, batch_size),
        (n - 1) * batch_size < records <= n * batch_size || (records == 0 && n == 0),
{
    if records == 0 {
        return 0;
    }
    let full: usize = (records - 1) / batch_size;
    proof {
        let a = (records - 1) as int;
        let d = batch_size as int;
        assert(a == d * (a / d) + a % d && 0 <= a % d < d) by (nonlinear_arith)
            requires
                d > 0,
                a >= 0,
        ;
        assert((a / d) * d == d * (a / d)) by (nonlinear_arith);
        assert((a / d + 1) * d == d * (a / d) + d) by (nonlinear_arith);
        assert(a / d <= a) by (nonlinear_arith)
            requires
                d >= 1,
                a >= 0,
        ;
    }
    full + 1
}

/// The records of batch `index`: from `start` up to, not including, `end`.
/// Every batch but the last holds `batch_size` records, and none is empty.
pub fn batch_bounds(records: usize, batch_size: usize, index: usize) -> (res: (usize, usize))
    requires
        batch_size >= 1,
        index < spec_num_batches(records, batch_size),
    ensures
        res.0 == index * batch_size,
        res.0 < res.1 <= records,
        res.1 == if (index + 1) * batch_size <= records {
            (index + 1) * batch_size
        } else {
            records as int
        },
{
    proof {
        let a = (records - 1) as int;
        let d = batch_size as int;
        assert(a == d * (a / d) + a % d && 0 <= a % d < d) by (nonlinear_arith)
            requires
                d > 0,
                a >= 0,
        ;
        assert(index * d <= (a / d) * d) by (nonlinear_arith)
            requires
                index <= a / d,
                d > 0,
        ;
        assert((a / d) * d == d * (a / d)) by (nonlinear_arith);
        assert((index + 1) * d == index * d + d) by (nonlinear_arith);
    }
    let start: usize = index * batch_size;
    let end: usize = if records - start <= batch_size {
        records
    } else {
        start + batch_size
    };
    (start, end)
}

} // verus!

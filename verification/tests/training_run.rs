use digit_classifier::data::{MnistBatcher, RawImageRecord};
use digit_classifier::error::{LoadFailure, PipelineError};
use digit_classifier::inference::{argmax, load_model, predict, prepare_inference, CheckpointInfo};
use digit_classifier::model::{ModelConfig, Op};
use digit_classifier::training::{
    batch_bounds, check_labels, num_batches, pass_event, Action, BatchOutcome, Event, Metrics,
    Phase, TrainingConfig, TrainingState,
};

fn run_to_end(config: &TrainingConfig) -> (TrainingState, Vec<Action>) {
    let mut state = TrainingState::start(config).unwrap();
    let mut actions: Vec<Action> = Vec::new();
    loop {
        let action = state.action();
        if action == Action::Stop {
            return (state, actions);
        }
        actions.push(action);
        state = state.step(Event::Completed);
        assert!(actions.len() <= 3 * config.num_epochs + 2);
    }
}

#[test]
fn training_config_defaults() {
    let config = TrainingConfig::new(ModelConfig::new(512), 10);
    assert_eq!(config.num_epochs, 10);
    assert_eq!(config.batch_size, 64);
    assert_eq!(config.num_workers, 4);
    assert_eq!(config.seed, 42);
    assert_eq!(config.learning_rate_nanos, 100_000);
    assert!(!config.checkpoint_every_epoch);
    assert!(!config.halt_on_divergence);
    assert_eq!(config.validate(), Ok(()));
}

#[test]
fn training_config_usage_errors() {
    let good = TrainingConfig::new(ModelConfig::new(16), 1);
    let mut c = good;
    c.batch_size = 0;
    assert_eq!(c.validate(), Err(PipelineError::Usage));
    c = good;
    c.model.num_classes = 1;
    assert_eq!(c.validate(), Err(PipelineError::Usage));
    c = good;
    c.model.hidden_size = 0;
    assert_eq!(TrainingState::start(&c).unwrap_err(), PipelineError::Usage);
    c = good;
    c.learning_rate_nanos = 0;
    assert_eq!(c.validate(), Err(PipelineError::Usage));
    c = good;
    c.model.num_classes = 2;
    assert_eq!(c.validate(), Ok(()));
}

#[test]
fn run_of_three_epochs_does_three_passes_of_each_kind() {
    let config = TrainingConfig::new(ModelConfig::new(16), 3);
    let (end, actions) = run_to_end(&config);
    assert_eq!(end.phase, Phase::Done);
    assert_eq!((end.train_passes, end.validate_passes, end.checkpoints), (3, 3, 1));
    assert_eq!(
        actions,
        vec![
            Action::Initialize,
            Action::Train { epoch: 0 },
            Action::Validate { epoch: 0 },
            Action::Train { epoch: 1 },
            Action::Validate { epoch: 1 },
            Action::Train { epoch: 2 },
            Action::Validate { epoch: 2 },
            Action::SaveCheckpoint { epochs_done: 3 },
        ]
    );
    assert_eq!(end.step(Event::Completed), end);
}

#[test]
fn run_of_no_epochs_still_checkpoints() {
    let config = TrainingConfig::new(ModelConfig::new(16), 0);
    let (end, actions) = run_to_end(&config);
    assert_eq!(end.phase, Phase::Done);
    assert_eq!((end.train_passes, end.validate_passes, end.checkpoints), (0, 0, 1));
    assert_eq!(actions, vec![Action::Initialize, Action::SaveCheckpoint { epochs_done: 0 }]);
}

#[test]
fn checkpoint_after_every_epoch() {
    let mut config = TrainingConfig::new(ModelConfig::new(16), 2);
    config.checkpoint_every_epoch = true;
    let (end, actions) = run_to_end(&config);
    assert_eq!((end.train_passes, end.validate_passes, end.checkpoints), (2, 2, 2));
    assert_eq!(
        actions,
        vec![
            Action::Initialize,
            Action::Train { epoch: 0 },
            Action::Validate { epoch: 0 },
            Action::SaveCheckpoint { epochs_done: 1 },
            Action::Train { epoch: 1 },
            Action::Validate { epoch: 1 },
            Action::SaveCheckpoint { epochs_done: 2 },
        ]
    );
}

#[test]
fn fatal_event_ends_the_run() {
    let config = TrainingConfig::new(ModelConfig::new(16), 2);
    let start = TrainingState::start(&config).unwrap();
    let training = start.step(Event::Completed);
    let error = PipelineError::InvalidLabel { position: 1, label: 10 };
    let failed = training.step(Event::Failed(error));
    assert_eq!(failed.phase, Phase::Failed(error));
    assert_eq!(failed.action(), Action::Stop);
    assert_eq!(failed.train_passes, 0);
    assert_eq!(failed.step(Event::Completed), failed);
}

#[test]
fn divergence_follows_the_policy() {
    let mut config = TrainingConfig::new(ModelConfig::new(16), 1);
    let lenient = TrainingState::start(&config).unwrap().step(Event::Completed);
    let next = lenient.step(Event::Diverged);
    assert_eq!(next.phase, Phase::ValidatePass);
    assert_eq!(next.train_passes, 1);
    config.halt_on_divergence = true;
    let strict = TrainingState::start(&config).unwrap().step(Event::Completed);
    assert_eq!(strict.step(Event::Diverged).phase, Phase::Failed(PipelineError::Divergence));
}

#[test]
fn label_equal_to_num_classes_is_invalid() {
    assert_eq!(check_labels(&vec![0, 3, 1, 2], 4), Ok(()));
    assert_eq!(
        check_labels(&vec![0, 4, 1, 9], 4),
        Err(PipelineError::InvalidLabel { position: 1, label: 4 })
    );
    assert_eq!(
        check_labels(&vec![-1], 4),
        Err(PipelineError::InvalidLabel { position: 0, label: -1 })
    );
    assert_eq!(check_labels(&Vec::new(), 4), Ok(()));
}

#[test]
fn invalid_label_fails_the_training_pass_that_consumes_it() {
    let config = TrainingConfig::new(ModelConfig::new(16).with_num_classes(4), 1);
    let batcher = MnistBatcher::new(());
    let items = vec![
        RawImageRecord { pixels: vec![0; 784], label: 1 },
        RawImageRecord { pixels: vec![0; 784], label: 4 },
    ];
    let batch = batcher.batch(items).unwrap();
    let mut state = TrainingState::start(&config).unwrap().step(Event::Completed);
    assert_eq!(state.action(), Action::Train { epoch: 0 });
    let event = match check_labels(&batch.targets, config.model.num_classes) {
        Ok(()) => Event::Completed,
        Err(e) => Event::Failed(e),
    };
    state = state.step(event);
    assert_eq!(state.phase, Phase::Failed(PipelineError::InvalidLabel { position: 1, label: 4 }));
}

#[test]
fn metrics_count_correct_predictions() {
    let mut metrics = Metrics::new();
    assert_eq!(metrics.record(&vec![1, 2, 3, 0], &vec![1, 0, 3, 0]), Ok(()));
    assert_eq!((metrics.correct, metrics.seen), (3, 4));
    assert_eq!(metrics.record(&vec![5], &vec![-5]), Ok(()));
    assert_eq!((metrics.correct, metrics.seen), (3, 5));
    assert_eq!(metrics.record(&vec![5], &vec![5, 5]), Err(PipelineError::Shape));
    assert_eq!((metrics.correct, metrics.seen), (3, 5));
}

#[test]
fn loader_cuts_records_into_batches() {
    assert_eq!(num_batches(8, 4), 2);
    assert_eq!(num_batches(9, 4), 3);
    assert_eq!(num_batches(0, 4), 0);
    assert_eq!(num_batches(3, 64), 1);
    assert_eq!(batch_bounds(9, 4, 0), (0, 4));
    assert_eq!(batch_bounds(9, 4, 1), (4, 8));
    assert_eq!(batch_bounds(9, 4, 2), (8, 9));
    assert_eq!(batch_bounds(8, 4, 1), (4, 8));
}

#[test]
fn argmax_picks_the_first_greatest() {
    assert_eq!(argmax(&Vec::new()), None);
    assert_eq!(argmax(&vec![-3]), Some(0));
    assert_eq!(argmax(&vec![1, 7, 7, 2]), Some(1));
    assert_eq!(argmax(&vec![i64::MIN, -1, -2]), Some(1));
}

#[test]
fn predict_wants_one_score_per_class() {
    let model = ModelConfig::new(8).with_num_classes(4).init().unwrap();
    assert_eq!(predict(&model, &vec![0, 5, 9, 1]), Ok(2));
    assert_eq!(predict(&model, &vec![0, 5, 9]), Err(PipelineError::Shape));
    assert_eq!(predict(&model, &Vec::new()), Err(PipelineError::Shape));
}

#[test]
fn missing_checkpoint_is_a_load_error() {
    let config = ModelConfig::new(512);
    assert_eq!(load_model(&config, None), Err(PipelineError::Load(LoadFailure::Missing)));
    let record = RawImageRecord { pixels: vec![0; 784], label: 0 };
    let res = prepare_inference(&MnistBatcher::new(()), &config, None, record);
    assert_eq!(res.unwrap_err(), PipelineError::Load(LoadFailure::Missing));
}

#[test]
fn checkpoint_of_another_configuration_is_a_load_error() {
    let config = ModelConfig::new(512);
    let found = CheckpointInfo { hidden_size: 256, num_classes: 10 };
    assert_eq!(
        load_model(&config, Some(found)),
        Err(PipelineError::Load(LoadFailure::HiddenSize { expected: 512, found: 256 }))
    );
    let found = CheckpointInfo { hidden_size: 512, num_classes: 4 };
    assert_eq!(
        load_model(&config, Some(found)),
        Err(PipelineError::Load(LoadFailure::NumClasses { expected: 10, found: 4 }))
    );
    let found = CheckpointInfo { hidden_size: 512, num_classes: 10 };
    assert_eq!(load_model(&config, Some(found)), config.init());
    assert_eq!(load_model(&ModelConfig::new(0), Some(found)), Err(PipelineError::Usage));
}

#[test]
fn record_of_another_size_is_a_mismatch() {
    let config = ModelConfig::new(512);
    let found = CheckpointInfo { hidden_size: 512, num_classes: 10 };
    let record = RawImageRecord { pixels: vec![0; 100], label: 0 };
    let res = prepare_inference(&MnistBatcher::new(()), &config, Some(found), record);
    assert_eq!(
        res.unwrap_err(),
        PipelineError::ConfigMismatch { expected: 784, found: 100 }
    );
}

#[test]
fn inference_job_is_a_batch_of_one_in_evaluation_mode() {
    let config = ModelConfig::new(32).with_num_classes(4);
    let found = CheckpointInfo { hidden_size: 32, num_classes: 4 };
    let record = RawImageRecord { pixels: vec![255; 784], label: 3 };
    let job = prepare_inference(&MnistBatcher::new(()), &config, Some(found), record).unwrap();
    assert_eq!(job.model, config.init().unwrap());
    assert_eq!(job.batch.targets, vec![3]);
    assert_eq!(job.batch.images, vec![2216715; 784]);
    assert_eq!(job.plan.len(), 12);
    assert_eq!(job.plan[0].dims, vec![1, 1, 28, 28]);
    assert_eq!(job.plan[11].dims, vec![1, 4]);
    assert!(job.plan.iter().all(|s| s.op != Op::Dropout));
}

#[test]
fn one_epoch_on_eight_records_then_inference() {
    let model_config = ModelConfig::new(16).with_num_classes(4);
    let mut config = TrainingConfig::new(model_config, 1);
    config.batch_size = 4;
    let batcher = MnistBatcher::new(());
    let mut records: Vec<RawImageRecord> = Vec::new();
    for i in 0..8u8 {
        records.push(RawImageRecord { pixels: vec![i * 30; 784], label: i % 4 });
    }
    let model = model_config.init().unwrap();
    let mut state = TrainingState::start(&config).unwrap();
    let mut batches_seen = 0;
    let mut saved: Option<CheckpointInfo> = None;
    loop {
        let event = match state.action() {
            Action::Stop => break,
            Action::Initialize => Event::Completed,
            Action::SaveCheckpoint { .. } => {
                saved = Some(CheckpointInfo { hidden_size: 16, num_classes: 4 });
                Event::Completed
            }
            Action::Train { .. } | Action::Validate { .. } => {
                let training = matches!(state.action(), Action::Train { .. });
                let mut metrics = Metrics::new();
                let mut event = Event::Completed;
                for k in 0..num_batches(records.len(), config.batch_size) {
                    let (start, end) = batch_bounds(records.len(), config.batch_size, k);
                    let batch = batcher.batch(records[start..end].to_vec()).unwrap();
                    let plan = model.forward(&batch.image_dims(), training).unwrap();
                    assert_eq!(plan[11].dims, vec![4, 4]);
                    if let Err(e) = check_labels(&batch.targets, 4) {
                        event = Event::Failed(e);
                        break;
                    }
                    let predictions = vec![0usize; batch.batch_size()];
                    metrics.record(&predictions, &batch.targets).unwrap();
                    batches_seen += 1;
                }
                assert_eq!((metrics.correct, metrics.seen), (2, 8));
                event
            }
        };
        state = state.step(event);
    }
    assert_eq!(state.phase, Phase::Done);
    assert_eq!(batches_seen, 4);
    assert_eq!((state.train_passes, state.validate_passes, state.checkpoints), (1, 1, 1));
    let job = prepare_inference(&batcher, &model_config, saved, records[0].clone()).unwrap();
    let class = predict(&job.model, &vec![-7, 12, 3, 12]).unwrap();
    assert!(class < 4);
    assert_eq!(class, 1);
}

#[test]
fn checkpoint_of_a_model_loads_for_its_configuration() {
    let config = ModelConfig::new(48).with_num_classes(7);
    let model = config.init().unwrap();
    let info = CheckpointInfo::of(&model);
    assert_eq!(info, CheckpointInfo { hidden_size: 48, num_classes: 7 });
    assert_eq!(load_model(&config, Some(info)), Ok(model));
}

#[test]
fn pass_reports_first_failure_then_divergence() {
    let bad = PipelineError::InvalidLabel { position: 0, label: 11 };
    assert_eq!(pass_event(&Vec::new()), Event::Completed);
    assert_eq!(pass_event(&vec![BatchOutcome::Finite, BatchOutcome::Finite]), Event::Completed);
    assert_eq!(
        pass_event(&vec![BatchOutcome::Finite, BatchOutcome::NotFinite, BatchOutcome::Finite]),
        Event::Diverged
    );
    assert_eq!(
        pass_event(&vec![
            BatchOutcome::NotFinite,
            BatchOutcome::Failed(bad),
            BatchOutcome::Failed(PipelineError::Shape)
        ]),
        Event::Failed(bad)
    );
}

use vstd::prelude::*;
use crate::data::{IMAGE_PIXELS, MnistBatch, MnistBatcher, RawImageRecord, images_of, labels_of};
use crate::error::{LoadFailure, PipelineError};
use crate::model::{Model, ModelConfig, Step, steps_view};

verus! {

/// What a stored checkpoint says of the model that it was written for.
#[derive(Clone, Copy, Debug, PartialEq, Eq, Structural)]
pub struct CheckpointInfo {
    pub hidden_size: usize,
    pub num_classes: usize,
}

impl CheckpointInfo {
    /// What a checkpoint of `model` says of it.
    pub open spec fn spec_of(model: Model) -> CheckpointInfo {
        CheckpointInfo {
            hidden_size: model.linear1.d_output,
            num_classes: model.linear2.d_output,
        }
    }

    /// Describes `model` for the checkpoint that is written of it.
    pub fn of(model: &Model) -> (info: CheckpointInfo)
        ensures
            info == Self::spec_of(*model),
    {
        CheckpointInfo {
            hidden_size: model.linear1.d_output,
            num_classes: model.linear2.d_output,
        }
    }
}

/// The model to run for `config`, given what was found in the artifact
/// directory: none without a valid configuration (a usage error), and none
/// without a checkpoint or with one that was written for another hidden
/// width or another number of classes (a load error, which names the
/// dimension and both values; the hidden width is looked at first).
pub open spec fn spec_load_model(config: ModelConfig, found: Option<CheckpointInfo>) -> Result<
    Model,
    PipelineError,
> {
    if !config.valid() {
        Err(PipelineError::Usage)
    } else if found is None {
        Err(PipelineError::Load(LoadFailure::Missing))
    } else if found.unwrap().hidden_size != config.hidden_size {
        Err(
            PipelineError::Load(
                LoadFailure::HiddenSize {
                    expected: config.hidden_size,
                    found: found.unwrap().hidden_size,
                },
            ),
        )
    } else if found.unwrap().num_classes != config.num_classes {
        Err(
            PipelineError::Load(
                LoadFailure::NumClasses {
                    expected: config.num_classes,
                    found: found.unwrap().num_classes,
                },
            ),
        )
    } else {
        Ok(config.spec_model())
    }
}

/// Computes [`spec_load_model`]. A missing checkpoint never yields a model.
pub fn load_model(config: &ModelConfig, found: Option<CheckpointInfo>) -> (res: Result<
    Model,
    PipelineError,
>)
    ensures
        res == spec_load_model(*config, found),
        res is Ok ==> res.unwrap().wf(),
        found is None ==> res is Err,
{
    let model: Model = config.init()?;
    match found {
        None => Err(PipelineError::Load(LoadFailure::Missing)),
        Some(info) => {
            if info.hidden_size != config.hidden_size {
                Err(
                    PipelineError::Load(
                        LoadFailure::HiddenSize {
                            expected: config.hidden_size,
                            found: info.hidden_size,
                        },
                    ),
                )
            } else if info.num_classes != config.num_classes {
                Err(
                    PipelineError::Load(
                        LoadFailure::NumClasses {
                            expected: config.num_classes,
                            found: info.num_classes,
                        },
                    ),
                )
            } else {
                Ok(model)
            }
        },
    }
}

/// A checkpoint written of the model of a configuration is accepted for
/// that configuration, and gives back the same layout: the model that
/// inference runs is the one that training built, so that both apply the
/// same steps to the same shapes.
pub proof fn lemma_reload_restores_layout(config: ModelConfig)
    requires
        config.valid(),
    ensures
        spec_load_model(config, Some(CheckpointInfo::spec_of(config.spec_model()))) == Ok::<
            Model,
            PipelineError,
        >(config.spec_model()),
        config.spec_model().wf(),
{
}

/// Only the checkpoint of the same hidden width and number of classes is
/// accepted: whatever else is found, or nothing, yields no model.
pub proof fn lemma_only_matching_checkpoint_loads(
    config: ModelConfig,
    found: Option<CheckpointInfo>,
)
    ensures
        spec_load_model(config, found) is Ok <==> config.valid() && found == Some(
            CheckpointInfo { hidden_size: config.hidden_size, num_classes: config.num_classes },
        ),
        config.valid() ==> spec_load_model(config, None) == Err::<Model, PipelineError>(
            PipelineError::Load(LoadFailure::Missing),
        ),
{
}

/// `i` is the position of the greatest of `scores`, and the first such
/// position where the greatest occurs more than once.
pub open spec fn is_argmax(scores: Seq<i64>, i: int) -> bool {
    &&& 0 <= i < scores.len()
    &&& forall|j: int| 0 <= j < scores.len() ==> scores[j] <= scores[i]
    &&& forall|j: int| 0 <= j < i ==> scores[j] < scores[i]
}

/// At most one position is the argmax of given scores.
pub proof fn lemma_argmax_unique(scores: Seq<i64>, i: int, j: int)
    requires
        is_argmax(scores, i),
        is_argmax(scores, j),
    ensures
        i == j,
{
    if i < j {
        assert(scores[i] < scores[j]);
    } else if j < i {
        assert(scores[j] < scores[i]);
    }
}

/// The position of the greatest score, or nothing where there is no score.
pub fn argmax(scores: &Vec<i64>) -> (res: Option<usize>)
    ensures
        res is None <==> scores@.len() == 0,
        res is Some ==> is_argmax(scores@, res.unwrap() as int),
{
    if scores.len() == 0 {
        return None;
    }
    let mut best: usize = 0;
    let mut j: usize = 1;
    while j < scores.len()
        invariant
            1 <= j <= scores@.len(),
            0 <= best < j,
            forall|k: int| 0 <= k < j ==> scores@[k] <= scores@[best as int],
            forall|k: int| 0 <= k < best ==> scores@[k] < scores@[best as int],
        decreases scores@.len() - j,
    {
        if scores[j] > scores[best] {
            best = j;
        }
        j = j + 1;
    }
    Some(best)
}

/// The class that `scores` speak for: one score per class of `model`, of
/// which the greatest wins. Any other number of scores is a shape error.
pub fn predict(model: &Model, scores: &Vec<i64>) -> (res: Result<usize, PipelineError>)
    requires
        model.wf(),
    ensures
        match res {
            Ok(class) => {
                &&& scores@.len() == model.linear2.d_output
                &&& class < model.linear2.d_output
                &&& is_argmax(scores@, class as int)
            },
            Err(e) => scores@.len() != model.linear2.d_output && e == PipelineError::Shape,
        },
{
    if scores.len() != model.linear2.d_output {
        return Err(PipelineError::Shape);
    }
    match argmax(scores) {
        Some(class) => Ok(class),
        None => Err(PipelineError::Shape),
    }
}

/// Everything that the driver needs to classify one record: the model to
/// load the parameters into, the batch of one, and the steps to apply to it.
#[derive(Clone, Debug)]
pub struct InferenceJob {
    pub model: Model,
    pub batch: MnistBatch,
    pub plan: Vec<Step>,
}

/// The reason why no record can be classified, if there is one: that of
/// [`spec_load_model`], or a record that does not hold the 784 intensities
/// that the checkpoint expects, which is a mismatch.
pub open spec fn spec_inference_error(
    config: ModelConfig,
    found: Option<CheckpointInfo>,
    record: RawImageRecord,
) -> Option<PipelineError> {
    match spec_load_model(config, found) {
        Err(e) => Some(e),
        Ok(_) => if record.wf() {
            None
        } else {
            Some(
                PipelineError::ConfigMismatch {
                    expected: IMAGE_PIXELS,
                    found: record.pixels@.len() as usize,
                },
            )
        },
    }
}

/// Prepares the classification of `record`.
///
/// Where [`spec_inference_error`] names a reason, that is the answer.
/// Otherwise the job holds the model of `config`, `record` as a batch of
/// one, and the forward pass on it with dropout inactive.
pub fn prepare_inference<D>(
    batcher: &MnistBatcher<D>,
    config: &ModelConfig,
    found: Option<CheckpointInfo>,
    record: RawImageRecord,
) -> (res: Result<InferenceJob, PipelineError>)
    requires
        batcher.normalization.wf(),
    ensures
        match res {
            Ok(job) => {
                &&& spec_inference_error(*config, found, record) is None
                &&& job.model == config.spec_model()
                &&& job.model.wf()
                &&& job.batch.wf()
                &&& job.batch.targets@ == seq![record.label as i64]
                &&& job.batch.images@ == images_of(seq![record], batcher.normalization)
                &&& job.batch.denominator == batcher.normalization.spec_denominator()
                &&& steps_view(job.plan@) == job.model.spec_forward(1, false)
            },
            Err(e) => spec_inference_error(*config, found, record) == Some(e),
        },
{
    let model: Model = load_model(config, found)?;
    if record.pixels.len() != IMAGE_PIXELS {
        return Err(
            PipelineError::ConfigMismatch {
                expected: IMAGE_PIXELS,
                found: record.pixels.len(),
            },
        );
    }
    let ghost items: Seq<RawImageRecord> = seq![record];
    let mut list: Vec<RawImageRecord> = Vec::new();
    list.push(record);
    assert(list@ =~= items);
    assert(items[0].wf());
    assert(labels_of(items) =~= seq![record.label as i64]);
    let dims: Vec<usize> = vec![1, 28, 28];
    match (batcher.batch(list), model.forward(&dims, false)) {
        (Ok(batch), Ok(plan)) => Ok(InferenceJob { model, batch, plan }),
        (Err(e), _) => Err(e),
        (_, Err(e)) => Err(e),
    }
}

} // verus!

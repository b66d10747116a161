use vstd::prelude::*;
use crate::data::{IMAGE_HEIGHT, IMAGE_WIDTH};
use crate::error::PipelineError;
use burn::nn::conv::Conv2dConfig;
use burn::nn::pool::AdaptiveAvgPool2dConfig;
use burn::nn::{LinearConfig, PaddingConfig2d};

verus! {

/// Number of classes where the configuration names none.
pub const DEFAULT_NUM_CLASSES: usize = 10;

/// Dropout probability, in thousandths, where the configuration names none.
pub const DEFAULT_DROPOUT_MILLIS: u32 = 500;

/// Output channels of the first convolution.
pub const CONV1_CHANNELS: usize = 8;

/// Output channels of the second convolution.
pub const CONV2_CHANNELS: usize = 16;

/// Side of both convolution kernels.
pub const KERNEL_SIZE: usize = 3;

/// Side of the grid that the pooling layer reduces every channel to.
pub const POOLED_SIZE: usize = 8;

/// Width of the flattened pooling output: 16 channels of 8 by 8 values.
pub const FLATTENED_SIZE: usize = 1024;

/// How a convolution pads its input.
#[derive(Clone, Copy, Debug, PartialEq, Eq, Structural)]
pub enum Padding {
    /// As much as keeps the output as large as the input.
    Same,
    /// None.
    Valid,
    /// The given number of rows above and below, and of columns left and
    /// right.
    Explicit(usize, usize),
}

/// A two-dimensional convolution.
#[derive(Clone, Copy, Debug, PartialEq, Eq, Structural)]
pub struct ConvLayer {
    pub in_channels: usize,
    pub out_channels: usize,
    pub kernel_height: usize,
    pub kernel_width: usize,
    pub stride_height: usize,
    pub stride_width: usize,
    pub dilation_height: usize,
    pub dilation_width: usize,
    pub groups: usize,
    pub padding: Padding,
    pub bias: bool,
}

/// The size along one axis of what a convolution yields for an input of
/// `size`: `(size + 2 * padding - dilation * (kernel - 1) - 1) / stride + 1`,
/// where the padded input is no smaller than the dilated kernel.
pub open spec fn spec_conv_size(size: int, kernel: int, stride: int, padding: int, dilation: int)
    -> Option<int> {
    if kernel >= 1 && stride >= 1 && dilation >= 1 && size + 2 * padding >= dilation * (kernel - 1)
        + 1 {
        Some((size + 2 * padding - dilation * (kernel - 1) - 1) / stride + 1)
    } else {
        None
    }
}

/// Computes [`spec_conv_size`]; a size that no `usize` holds counts as none.
pub fn conv_size(size: usize, kernel: usize, stride: usize, padding: usize, dilation: usize) -> (res:
    Option<usize>)
    ensures
        res == match spec_conv_size(
            size as int,
            kernel as int,
            stride as int,
            padding as int,
            dilation as int,
        ) {
            Some(v) => if v <= usize::MAX {
                Some(v as usize)
            } else {
                None
            },
            None => None,
        },
{
    if kernel < 1 || stride < 1 || dilation < 1 {
        return None;
    }
    let reach: u128 = (kernel - 1) as u128;
    let spread: u128 = dilation as u128;
    assert(0 <= spread * reach <= 0xFFFF_FFFF_FFFF_FFFF * 0xFFFF_FFFF_FFFF_FFFF)
        by (nonlinear_arith)
        requires
            0 <= spread <= 0xFFFF_FFFF_FFFF_FFFF,
            0 <= reach <= 0xFFFF_FFFF_FFFF_FFFF,
    ;
    let padded: u128 = size as u128 + 2 * (padding as u128);
    let needed: u128 = spread * reach + 1;
    if padded < needed {
        return None;
    }
    let steps: u128 = (padded - needed) / (stride as u128);
    if steps >= usize::MAX as u128 {
        return None;
    }
    Some((steps + 1) as usize)
}

/// Lays out a convolution as the tensor library configures one from its
/// channels and kernel alone.
///
/// Calls `burn::nn::conv::Conv2dConfig::new` and copies the fields of what it
/// returns. The contract claims that the channels and the kernel are the
/// arguments, and that everything else has the library's defaults: stride 1,
/// dilation 1, one group, no padding, and a bias.
#[verifier::external_body]
fn conv_layer(in_channels: usize, out_channels: usize, kernel: usize) -> (layer: ConvLayer)
    ensures
        layer == (ConvLayer {
            in_channels,
            out_channels,
            kernel_height: kernel,
            kernel_width: kernel,
            stride_height: 1,
            stride_width: 1,
            dilation_height: 1,
            dilation_width: 1,
            groups: 1,
            padding: Padding::Valid,
            bias: true,
        }),
{
    let c = Conv2dConfig::new([in_channels, out_channels], [kernel, kernel]);
    let padding = match c.padding {
        PaddingConfig2d::Same => Padding::Same,
        PaddingConfig2d::Valid => Padding::Valid,
        PaddingConfig2d::Explicit(rows, columns) => Padding::Explicit(rows, columns),
    };
    let ([in_channels, out_channels], [kernel_height, kernel_width]) = (c.channels, c.kernel_size);
    let ([stride_height, stride_width], [dilation_height, dilation_width]) = (c.stride, c.dilation);
    let (groups, bias) = (c.groups, c.bias);
    ConvLayer {
        in_channels, out_channels, kernel_height, kernel_width, stride_height, stride_width,
        dilation_height, dilation_width, groups, padding, bias,
    }
}

impl ConvLayer {
    /// The rows and columns of padding, where they do not depend on the
    /// input.
    pub open spec fn spec_padding(&self) -> Option<(usize, usize)> {
        match self.padding {
            Padding::Same => None,
            Padding::Valid => Some((0usize, 0usize)),
            Padding::Explicit(rows, columns) => Some((rows, columns)),
        }
    }

    /// The shape that the layer yields for `input`, where it can be laid
    /// out: a block `[B, in_channels, H, W]` becomes
    /// `[B, out_channels, H', W']` with `H'` and `W'` as [`spec_conv_size`]
    /// gives them. Padding that depends on the input is not laid out.
    pub open spec fn spec_output(&self, input: Seq<usize>) -> Option<Seq<usize>> {
        if input.len() == 4 && input[1] == self.in_channels && self.spec_padding() is Some {
            let pad = self.spec_padding().unwrap();
            let height = spec_conv_size(
                input[2] as int,
                self.kernel_height as int,
                self.stride_height as int,
                pad.0 as int,
                self.dilation_height as int,
            );
            let width = spec_conv_size(
                input[3] as int,
                self.kernel_width as int,
                self.stride_width as int,
                pad.1 as int,
                self.dilation_width as int,
            );
            if height is Some && width is Some && height.unwrap() <= usize::MAX && width.unwrap()
                <= usize::MAX {
                Some(
                    seq![
                        input[0],
                        self.out_channels,
                        height.unwrap() as usize,
                        width.unwrap() as usize,
                    ],
                )
            } else {
                None
            }
        } else {
            None
        }
    }

    /// The shape of the kernel weights: one kernel per output channel over
    /// the input channels of its group.
    pub fn weight_dims(&self) -> (dims: Vec<usize>)
        requires
            self.groups >= 1,
        ensures
            dims@ == seq![
                self.out_channels,
                (self.in_channels / self.groups) as usize,
                self.kernel_height,
                self.kernel_width,
            ],
    {
        let dims: Vec<usize> = vec![
            self.out_channels,
            self.in_channels / self.groups,
            self.kernel_height,
            self.kernel_width,
        ];
        assert(dims@ =~= seq![
            self.out_channels,
            (self.in_channels / self.groups) as usize,
            self.kernel_height,
            self.kernel_width,
        ]);
        dims
    }

    /// Computes [`Self::spec_output`]; an input for which the layer cannot
    /// be laid out is a shape error.
    pub fn output_dims(&self, input: &Vec<usize>) -> (res: Result<Vec<usize>, PipelineError>)
        ensures
            match res {
                Ok(dims) => self.spec_output(input@) == Some(dims@),
                Err(e) => e == PipelineError::Shape && self.spec_output(input@) is None,
            },
    {
        if input.len() != 4 || input[1] != self.in_channels {
            return Err(PipelineError::Shape);
        }
        let (rows, columns): (usize, usize) = match self.padding {
            Padding::Same => {
                return Err(PipelineError::Shape);
            },
            Padding::Valid => (0, 0),
            Padding::Explicit(rows, columns) => (rows, columns),
        };
        let height: Option<usize> = conv_size(
            input[2],
            self.kernel_height,
            self.stride_height,
            rows,
            self.dilation_height,
        );
        let width: Option<usize> = conv_size(
            input[3],
            self.kernel_width,
            self.stride_width,
            columns,
            self.dilation_width,
        );
        match (height, width) {
            (Some(h), Some(w)) => {
                let dims: Vec<usize> = vec![input[0], self.out_channels, h, w];
                assert(dims@ =~= self.spec_output(input@).unwrap());
                Ok(dims)
            },
            _ => Err(PipelineError::Shape),
        }
    }
}

/// Adaptive average pooling: every channel is reduced to a grid of fixed
/// size, whatever the size of the input.
#[derive(Clone, Copy, Debug, PartialEq, Eq, Structural)]
pub struct PoolLayer {
    pub out_height: usize,
    pub out_width: usize,
}

/// Lays out a pooling layer as the tensor library configures one.
///
/// Calls `burn::nn::pool::AdaptiveAvgPool2dConfig::new` and copies the output
/// size of what it returns, which the contract claims to be the arguments.
#[verifier::external_body]
fn pool_layer(out_height: usize, out_width: usize) -> (layer: PoolLayer)
    ensures
        layer == (PoolLayer { out_height, out_width }),
{
    let c = AdaptiveAvgPool2dConfig::new([out_height, out_width]);
    PoolLayer { out_height: c.output_size[0], out_width: c.output_size[1] }
}

impl PoolLayer {
    /// The shape that the layer yields for `input`, where it accepts it: a
    /// block `[B, C, H, W]` of non-empty images becomes
    /// `[B, C, out_height, out_width]`.
    pub open spec fn spec_output(&self, input: Seq<usize>) -> Option<Seq<usize>> {
        if input.len() == 4 && input[2] >= 1 && input[3] >= 1 {
            Some(seq![input[0], input[1], self.out_height, self.out_width])
        } else {
            None
        }
    }

    /// Computes [`Self::spec_output`]; an input that the layer does not
    /// accept is a shape error.
    pub fn output_dims(&self, input: &Vec<usize>) -> (res: Result<Vec<usize>, PipelineError>)
        ensures
            match res {
                Ok(dims) => self.spec_output(input@) == Some(dims@),
                Err(e) => e == PipelineError::Shape && self.spec_output(input@) is None,
            },
    {
        if input.len() != 4 || input[2] < 1 || input[3] < 1 {
            return Err(PipelineError::Shape);
        }
        let dims: Vec<usize> = vec![input[0], input[1], self.out_height, self.out_width];
        assert(dims@ =~= self.spec_output(input@).unwrap());
        Ok(dims)
    }
}

/// A fully connected layer from `d_input` to `d_output` features.
#[derive(Clone, Copy, Debug, PartialEq, Eq, Structural)]
pub struct LinearLayer {
    pub d_input: usize,
    pub d_output: usize,
    pub bias: bool,
}

/// Lays out a linear layer as the tensor library configures one from its
/// two widths alone.
///
/// Calls `burn::nn::LinearConfig::new` and copies the fields of what it
/// returns. The contract claims that the widths are the arguments and that
/// the layer has a bias, which is the library's default.
#[verifier::external_body]
fn linear_layer(d_input: usize, d_output: usize) -> (layer: LinearLayer)
    ensures
        layer == (LinearLayer { d_input, d_output, bias: true }),
{
    let c = LinearConfig::new(d_input, d_output);
    LinearLayer { d_input: c.d_input, d_output: c.d_output, bias: c.bias }
}

impl LinearLayer {
    /// The shape that the layer yields for `input`, where it accepts it: a
    /// block `[B, d_input]` becomes `[B, d_output]`.
    pub open spec fn spec_output(&self, input: Seq<usize>) -> Option<Seq<usize>> {
        if input.len() == 2 && input[1] == self.d_input {
            Some(seq![input[0], self.d_output])
        } else {
            None
        }
    }

    /// Computes [`Self::spec_output`]; an input that the layer does not
    /// accept is a shape error.
    pub fn output_dims(&self, input: &Vec<usize>) -> (res: Result<Vec<usize>, PipelineError>)
        ensures
            match res {
                Ok(dims) => self.spec_output(input@) == Some(dims@),
                Err(e) => e == PipelineError::Shape && self.spec_output(input@) is None,
            },
    {
        if input.len() != 2 || input[1] != self.d_input {
            return Err(PipelineError::Shape);
        }
        let dims: Vec<usize> = vec![input[0], self.d_output];
        assert(dims@ =~= self.spec_output(input@).unwrap());
        Ok(dims)
    }
}

/// One operation of the forward pass.
#[derive(Clone, Copy, Debug, PartialEq, Eq, Structural)]
pub enum Op {
    /// Views `[B, H, W]` as `[B, 1, H, W]`.
    AddChannel,
    /// The first convolution.
    Conv1,
    /// The second convolution.
    Conv2,
    /// Zeroes activations at random, at the configured rate.
    Dropout,
    /// Leaves the activations as they are: what a dropout layer does outside
    /// training.
    Identity,
    /// Elementwise `max(0, x)`.
    Relu,
    /// Adaptive average pooling.
    Pool,
    /// Views `[B, C, H, W]` as `[B, C * H * W]`.
    Flatten,
    /// The first linear layer.
    Linear1,
    /// The second linear layer.
    Linear2,
}

/// One step of a forward pass: the operation to apply and the shape of what
/// it yields.
#[derive(Clone, Debug)]
pub struct Step {
    pub op: Op,
    pub dims: Vec<usize>,
}

impl View for Step {
    type V = (Op, Seq<usize>);

    open spec fn view(&self) -> (Op, Seq<usize>) {
        (self.op, self.dims@)
    }
}

/// The steps of a plan as plain values.
pub open spec fn steps_view(plan: Seq<Step>) -> Seq<(Op, Seq<usize>)> {
    Seq::new(plan.len(), |i: int| plan[i]@)
}

/// What a dropout layer does in the given mode.
pub open spec fn dropout_op(training: bool) -> Op {
    if training {
        Op::Dropout
    } else {
        Op::Identity
    }
}

/// A convolution of square kernel with stride 1, dilation 1, one group, no
/// padding and a bias.
pub open spec fn spec_plain_conv(in_channels: usize, out_channels: usize, kernel: usize)
    -> ConvLayer {
    ConvLayer {
        in_channels,
        out_channels,
        kernel_height: kernel,
        kernel_width: kernel,
        stride_height: 1,
        stride_width: 1,
        dilation_height: 1,
        dilation_width: 1,
        groups: 1,
        padding: Padding::Valid,
        bias: true,
    }
}

/// The configuration of a model. `hidden_size` has no default; the dropout
/// probability is held in thousandths.
#[derive(Clone, Copy, Debug, PartialEq, Eq, Structural)]
pub struct ModelConfig {
    pub num_classes: usize,
    pub hidden_size: usize,
    pub dropout_millis: u32,
}

/// The layers of the classifier: two convolutions, a pooling layer, two
/// linear layers and the dropout rate that all dropout steps share.
#[derive(Clone, Copy, Debug, PartialEq, Eq, Structural)]
pub struct Model {
    pub conv1: ConvLayer,
    pub conv2: ConvLayer,
    pub pool: PoolLayer,
    pub dropout_millis: u32,
    pub linear1: LinearLayer,
    pub linear2: LinearLayer,
}

impl ModelConfig {
    /// The configuration can be built: a hidden width and at least one class
    /// are named, and the dropout probability is at most one.
    pub open spec fn valid(&self) -> bool {
        self.hidden_size >= 1 && self.num_classes >= 1 && self.dropout_millis <= 1000
    }

    /// The model that this configuration describes.
    pub open spec fn spec_model(&self) -> Model {
        Model {
            conv1: spec_plain_conv(1, 8, 3),
            conv2: spec_plain_conv(8, 16, 3),
            pool: PoolLayer { out_height: 8, out_width: 8 },
            dropout_millis: self.dropout_millis,
            linear1: LinearLayer { d_input: 1024, d_output: self.hidden_size, bias: true },
            linear2: LinearLayer {
                d_input: self.hidden_size,
                d_output: self.num_classes,
                bias: true,
            },
        }
    }

    /// A configuration with the given hidden width, ten classes and a
    /// dropout probability of one half.
    pub fn new(hidden_size: usize) -> (config: Self)
        ensures
            config == (ModelConfig { num_classes: 10, hidden_size, dropout_millis: 500 }),
    {
        ModelConfig {
            num_classes: DEFAULT_NUM_CLASSES,
            hidden_size,
            dropout_millis: DEFAULT_DROPOUT_MILLIS,
        }
    }

    /// The same configuration for `num_classes` classes.
    pub fn with_num_classes(self, num_classes: usize) -> (config: Self)
        ensures
            config == (ModelConfig { num_classes, ..self }),
    {
        ModelConfig { num_classes, ..self }
    }

    /// The same configuration with a dropout probability of
    /// `dropout_millis / 1000`.
    pub fn with_dropout(self, dropout_millis: u32) -> (config: Self)
        ensures
            config == (ModelConfig { dropout_millis, ..self }),
    {
        ModelConfig { dropout_millis, ..self }
    }

    /// Lays out the model. A configuration that is not valid is a usage
    /// error; a valid one always yields its model, which is well formed.
    pub fn init(&self) -> (res: Result<Model, PipelineError>)
        ensures
            match res {
                Ok(model) => self.valid() && model == self.spec_model() && model.wf(),
                Err(e) => !self.valid() && e == PipelineError::Usage,
            },
    {
        if self.hidden_size < 1 || self.num_classes < 1 || self.dropout_millis > 1000 {
            return Err(PipelineError::Usage);
        }
        Ok(
            Model {
                conv1: conv_layer(1, CONV1_CHANNELS, KERNEL_SIZE),
                conv2: conv_layer(CONV1_CHANNELS, CONV2_CHANNELS, KERNEL_SIZE),
                pool: pool_layer(POOLED_SIZE, POOLED_SIZE),
                dropout_millis: self.dropout_millis,
                linear1: linear_layer(FLATTENED_SIZE, self.hidden_size),
                linear2: linear_layer(self.hidden_size, self.num_classes),
            },
        )
    }
}

impl Model {
    /// The configuration that lays out this model.
    pub open spec fn spec_config(&self) -> ModelConfig {
        ModelConfig {
            num_classes: self.linear2.d_output,
            hidden_size: self.linear1.d_output,
            dropout_millis: self.dropout_millis,
        }
    }

    /// The model is the one that a valid configuration lays out.
    pub open spec fn wf(&self) -> bool {
        self.spec_config().valid() && *self == self.spec_config().spec_model()
    }

    /// The shapes of the learned tensors, in the order of the layers and
    /// with each weight before its bias: a convolution holds a weight of
    /// `[out_channels, in_channels, kernel, kernel]`, a linear layer one of
    /// `[d_input, d_output]`, and each a bias as wide as its output.
    pub open spec fn spec_parameter_dims(&self) -> Seq<Seq<usize>> {
        seq![
            seq![8usize, 1usize, 3usize, 3usize],
            seq![8usize],
            seq![16usize, 8usize, 3usize, 3usize],
            seq![16usize],
            seq![1024usize, self.linear1.d_output],
            seq![self.linear1.d_output],
            seq![self.linear1.d_output, self.linear2.d_output],
            seq![self.linear2.d_output],
        ]
    }

    /// Computes [`Self::spec_parameter_dims`].
    pub fn parameter_dims(&self) -> (dims: Vec<Vec<usize>>)
        requires
            self.wf(),
        ensures
            dims@.len() == 8,
            forall|i: int| 0 <= i < 8 ==> (#[trigger] dims@[i])@ == self.spec_parameter_dims()[i],
    {
        let kernels1: Vec<usize> = self.conv1.weight_dims();
        let kernels2: Vec<usize> = self.conv2.weight_dims();
        assert(self.conv1.in_channels / self.conv1.groups == 1 && self.conv2.in_channels
            / self.conv2.groups == 8) by (nonlinear_arith)
            requires
                self.conv1.in_channels == 1,
                self.conv2.in_channels == 8,
                self.conv1.groups == 1,
                self.conv2.groups == 1,
        ;
        assert(kernels1@ =~= seq![8usize, 1usize, 3usize, 3usize]);
        assert(kernels2@ =~= seq![16usize, 8usize, 3usize, 3usize]);
        let mut dims: Vec<Vec<usize>> = Vec::new();
        dims.push(kernels1);
        dims.push(vec![self.conv1.out_channels]);
        dims.push(kernels2);
        dims.push(vec![self.conv2.out_channels]);
        dims.push(vec![self.linear1.d_input, self.linear1.d_output]);
        dims.push(vec![self.linear1.d_output]);
        dims.push(vec![self.linear2.d_input, self.linear2.d_output]);
        dims.push(vec![self.linear2.d_output]);
        proof {
            let want = self.spec_parameter_dims();
            assert(dims@[0]@ =~= want[0]);
            assert(dims@[1]@ =~= want[1]);
            assert(dims@[2]@ =~= want[2]);
            assert(dims@[3]@ =~= want[3]);
            assert(dims@[4]@ =~= want[4]);
            assert(dims@[5]@ =~= want[5]);
            assert(dims@[6]@ =~= want[6]);
            assert(dims@[7]@ =~= want[7]);
        }
        dims
    }

    /// An image block that the model accepts: `[B, 28, 28]` with `B >= 1`.
    pub open spec fn accepts(dims: Seq<usize>) -> bool {
        dims.len() == 3 && dims[0] >= 1 && dims[1] == IMAGE_HEIGHT && dims[2] == IMAGE_WIDTH
    }

    /// The forward pass on `batch` images, in order: each operation with the
    /// shape of its result. The last shape is that of the logits.
    pub open spec fn spec_forward(&self, batch: usize, training: bool) -> Seq<(Op, Seq<usize>)> {
        seq![
            (Op::AddChannel, seq![batch, 1usize, 28usize, 28usize]),
            (Op::Conv1, seq![batch, 8usize, 26usize, 26usize]),
            (dropout_op(training), seq![batch, 8usize, 26usize, 26usize]),
            (Op::Conv2, seq![batch, 16usize, 24usize, 24usize]),
            (dropout_op(training), seq![batch, 16usize, 24usize, 24usize]),
            (Op::Relu, seq![batch, 16usize, 24usize, 24usize]),
            (Op::Pool, seq![batch, 16usize, 8usize, 8usize]),
            (Op::Flatten, seq![batch, 1024usize]),
            (Op::Linear1, seq![batch, self.linear1.d_output]),
            (dropout_op(training), seq![batch, self.linear1.d_output]),
            (Op::Relu, seq![batch, self.linear1.d_output]),
            (Op::Linear2, seq![batch, self.linear2.d_output]),
        ]
    }

    /// The shape of the logits for `batch` images.
    pub open spec fn spec_logits_dims(&self, batch: usize) -> Seq<usize> {
        seq![batch, self.linear2.d_output]
    }

    /// Plans the forward pass on an image block of shape `images`.
    ///
    /// A block that is not `[B, 28, 28]` with `B >= 1` is a shape error. For
    /// any other the plan is [`Self::spec_forward`]: dropout is applied in
    /// training and is the identity otherwise.
    pub fn forward(&self, images: &Vec<usize>, training: bool) -> (res: Result<
        Vec<Step>,
        PipelineError,
    >)
        requires
            self.wf(),
        ensures
            match res {
                Ok(plan) => {
                    &&& Self::accepts(images@)
                    &&& steps_view(plan@) == self.spec_forward(images@[0], training)
                    &&& plan@.len() == 12
                    &&& plan@[11].dims@ == self.spec_logits_dims(images@[0])
                },
                Err(e) => !Self::accepts(images@) && e == PipelineError::Shape,
            },
    {
        if images.len() != 3 || images[0] < 1 || images[1] != IMAGE_HEIGHT || images[2]
            != IMAGE_WIDTH {
            return Err(PipelineError::Shape);
        }
        let dropout: Op = if training {
            Op::Dropout
        } else {
            Op::Identity
        };
        let batch: usize = images[0];
        let x0: Vec<usize> = vec![batch, 1, images[1], images[2]];
        assert(x0@ =~= seq![batch, 1usize, 28usize, 28usize]);
        assert(self.conv1.spec_output(x0@) is Some);
        let x1: Vec<usize> = self.conv1.output_dims(&x0)?;
        assert(x1@ =~= seq![batch, 8usize, 26usize, 26usize]);
        assert(self.conv2.spec_output(x1@) is Some);
        let x2: Vec<usize> = self.conv2.output_dims(&x1)?;
        assert(x2@ =~= seq![batch, 16usize, 24usize, 24usize]);
        assert(self.pool.spec_output(x2@) is Some);
        let x3: Vec<usize> = self.pool.output_dims(&x2)?;
        assert(x3@ =~= seq![batch, 16usize, 8usize, 8usize]);
        let channels: usize = x3[1];
        let rows: usize = x3[2];
        let columns: usize = x3[3];
        assert(channels == 16 && rows == 8 && columns == 8);
        let flat: usize = channels * rows * columns;
        let x4: Vec<usize> = vec![batch, flat];
        assert(x4@ =~= seq![batch, 1024usize]);
        assert(self.linear1.spec_output(x4@) is Some);
        let x5: Vec<usize> = self.linear1.output_dims(&x4)?;
        assert(x5@ =~= seq![batch, self.linear1.d_output]);
        assert(self.linear2.spec_output(x5@) is Some);
        let x6: Vec<usize> = self.linear2.output_dims(&x5)?;
        assert(x6@ =~= seq![batch, self.linear2.d_output]);
        let mut plan: Vec<Step> = Vec::new();
        plan.push(Step { op: Op::AddChannel, dims: x0 });
        plan.push(Step { op: Op::Conv1, dims: x1.clone() });
        plan.push(Step { op: dropout, dims: x1 });
        plan.push(Step { op: Op::Conv2, dims: x2.clone() });
        plan.push(Step { op: dropout, dims: x2.clone() });
        plan.push(Step { op: Op::Relu, dims: x2 });
        plan.push(Step { op: Op::Pool, dims: x3 });
        plan.push(Step { op: Op::Flatten, dims: x4 });
        plan.push(Step { op: Op::Linear1, dims: x5.clone() });
        plan.push(Step { op: dropout, dims: x5.clone() });
        plan.push(Step { op: Op::Relu, dims: x5 });
        plan.push(Step { op: Op::Linear2, dims: x6 });
        proof {
            let want = self.spec_forward(batch, training);
            assert(plan@.len() == 12);
            assert(forall|i: int| 0 <= i < 12 ==> (#[trigger] plan@[i])@.1 =~= want[i].1);
            assert(steps_view(plan@) =~= want);
        }
        Ok(plan)
    }
}

/// The shape of the logits depends on the number of images and the number
/// of classes alone: two models for the same classes yield logits of the
/// same shape, whatever their hidden widths and dropout rates.
pub proof fn lemma_logits_independent_of_hidden_size(
    a: Model,
    b: Model,
    batch: usize,
    training_a: bool,
    training_b: bool,
)
    requires
        a.wf(),
        b.wf(),
        a.spec_config().num_classes == b.spec_config().num_classes,
    ensures
        a.spec_forward(batch, training_a).last().1 == b.spec_forward(batch, training_b).last().1,
        a.spec_forward(batch, training_a).last().1 == seq![batch, a.spec_config().num_classes],
{
}

/// Outside training no step of the forward pass draws random numbers: the
/// plan holds no dropout, and is the same plan on every call.
pub proof fn lemma_evaluation_is_deterministic(model: Model, batch: usize)
    requires
        model.wf(),
    ensures
        forall|i: int|
            0 <= i < model.spec_forward(batch, false).len() ==> (#[trigger] model.spec_forward(
                batch,
                false,
            )[i]).0 != Op::Dropout,
{
}

/// The plans of the two modes differ in the dropout steps alone: every step
/// has the same shape in both, and the same operation unless it is a dropout
/// step.
pub proof fn lemma_mode_changes_dropout_only(model: Model, batch: usize)
    requires
        model.wf(),
    ensures
        model.spec_forward(batch, true).len() == model.spec_forward(batch, false).len(),
        forall|i: int|
            0 <= i < 12 ==> {
                let t = #[trigger] model.spec_forward(batch, true)[i];
                let e = model.spec_forward(batch, false)[i];
                &&& t.1 == e.1
                &&& (t.0 == e.0 || (t.0 == Op::Dropout && e.0 == Op::Identity))
            },
{
}

} // verus!

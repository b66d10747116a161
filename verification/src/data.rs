use vstd::prelude::*;
use crate::error::PipelineError;

verus! {

/// Height of every image, in pixels.
pub const IMAGE_HEIGHT: usize = 28;

/// Width of every image, in pixels.
pub const IMAGE_WIDTH: usize = 28;

/// Number of pixels of one image.
pub const IMAGE_PIXELS: usize = 784;

/// The statistics by which intensities are normalized, as exact fractions:
/// an intensity `x` becomes `(x / scale - mean) / std` with
/// `mean = mean_numerator / denominator` and `std = std_numerator / denominator`.
#[derive(Clone, Copy, Debug, PartialEq, Eq, Structural)]
pub struct Normalization {
    pub scale: u16,
    pub mean_numerator: u16,
    pub std_numerator: u16,
    pub denominator: u16,
}

impl Normalization {
    /// The fractions are defined: nothing divides by zero.
    pub open spec fn wf(&self) -> bool {
        self.scale > 0 && self.std_numerator > 0 && self.denominator > 0
    }

    /// The measured statistics of the digit dataset: intensities run to 255,
    /// the mean is 0.1307 and the standard deviation 0.3081.
    pub open spec fn spec_mnist() -> Normalization {
        Normalization { scale: 255, mean_numerator: 1307, std_numerator: 3081, denominator: 10000 }
    }

    /// Numerator of the normalized value of intensity `x`, over
    /// [`Self::spec_denominator`].
    ///
    /// `(x / scale - mean) / std` equals
    /// `(x * denominator - mean_numerator * scale) / (scale * std_numerator)`.
    pub open spec fn spec_numerator(&self, x: u8) -> int {
        x as int * self.denominator as int - self.mean_numerator as int * self.scale as int
    }

    /// The denominator that all normalized values share.
    pub open spec fn spec_denominator(&self) -> int {
        self.scale as int * self.std_numerator as int
    }

    /// Builds [`Self::spec_mnist`].
    #[verifier::when_used_as_spec(spec_mnist)]
    pub fn mnist() -> (n: Normalization)
        ensures
            n == Self::spec_mnist(),
            n.wf(),
    {
        Normalization { scale: 255, mean_numerator: 1307, std_numerator: 3081, denominator: 10000 }
    }

    /// Computes [`Self::spec_numerator`].
    pub fn numerator(&self, x: u8) -> (num: i64)
        ensures
            num == self.spec_numerator(x),
    {
        let pixel: i64 = x as i64;
        let den: i64 = self.denominator as i64;
        let mean: i64 = self.mean_numerator as i64;
        let scale: i64 = self.scale as i64;
        assert(0 <= pixel * den <= 255 * 65535) by (nonlinear_arith)
            requires
                0 <= pixel <= 255,
                0 <= den <= 65535,
        ;
        assert(0 <= mean * scale <= 65535 * 65535) by (nonlinear_arith)
            requires
                0 <= mean <= 65535,
                0 <= scale <= 65535,
        ;
        let scaled: i64 = pixel * den;
        let shift: i64 = mean * scale;
        scaled - shift
    }

    /// Computes [`Self::spec_denominator`], which is positive for defined statistics.
    pub fn denominator(&self) -> (den: i64)
        ensures
            den == self.spec_denominator(),
            self.wf() ==> den > 0,
    {
        let scale: i64 = self.scale as i64;
        let std: i64 = self.std_numerator as i64;
        assert(0 <= scale * std <= 65535 * 65535 && (scale > 0 && std > 0 ==> scale * std > 0))
            by (nonlinear_arith)
            requires
                0 <= scale <= 65535,
                0 <= std <= 65535,
        ;
        let den: i64 = scale * std;
        den
    }
}

/// One entry of the dataset: the intensities of a 28 by 28 image, row after
/// row, and the class that the image shows.
#[derive(Clone, Debug)]
pub struct RawImageRecord {
    pub pixels: Vec<u8>,
    pub label: u8,
}

impl RawImageRecord {
    /// The record holds exactly one image.
    pub open spec fn wf(&self) -> bool {
        self.pixels@.len() == IMAGE_PIXELS
    }
}

/// The labels of the records, in their order.
pub open spec fn labels_of(items: Seq<RawImageRecord>) -> Seq<i64> {
    Seq::new(items.len(), |i: int| items[i].label as i64)
}

/// The normalized images of the records, one after the other and each row
/// after row: the value at `i * 784 + p` is that of pixel `p` of record `i`.
pub open spec fn images_of(items: Seq<RawImageRecord>, n: Normalization) -> Seq<i64> {
    Seq::new(
        items.len() * IMAGE_PIXELS as nat,
        |k: int| n.spec_numerator(items[k / 784].pixels@[k % 784]) as i64,
    )
}

/// The reason why `items` cannot become a batch, if there is one: no records
/// at all, or a record that does not hold exactly one image.
pub open spec fn batch_error(items: Seq<RawImageRecord>) -> Option<PipelineError> {
    if items.len() == 0 {
        Some(PipelineError::Usage)
    } else if exists|r: int| 0 <= r < items.len() && !(#[trigger] items[r]).wf() {
        Some(PipelineError::Shape)
    } else {
        None
    }
}

/// The unit that the model consumes: `B` normalized images as one block of
/// logical shape `[B, 28, 28]`, and their `B` labels in the same order.
///
/// Every image value is a fraction with numerator `images[k]` and the common
/// denominator `denominator`.
#[derive(Clone, Debug)]
pub struct MnistBatch {
    pub images: Vec<i64>,
    pub denominator: i64,
    pub targets: Vec<i64>,
}

impl MnistBatch {
    /// The batch is not empty, holds one image per label, and its values are
    /// defined.
    pub open spec fn wf(&self) -> bool {
        &&& self.targets@.len() >= 1
        &&& self.images@.len() == self.targets@.len() * IMAGE_PIXELS as nat
        &&& self.denominator > 0
    }

    /// The logical shape of the image block.
    pub open spec fn spec_image_dims(&self) -> Seq<usize> {
        seq![self.targets@.len() as usize, IMAGE_HEIGHT, IMAGE_WIDTH]
    }

    /// The number of images, which is the number of labels.
    pub fn batch_size(&self) -> (size: usize)
        ensures
            size == self.targets@.len(),
    {
        self.targets.len()
    }

    /// The shape of the image block: `[B, 28, 28]`.
    pub fn image_dims(&self) -> (dims: Vec<usize>)
        ensures
            dims@ == self.spec_image_dims(),
    {
        let dims: Vec<usize> = vec![self.targets.len(), IMAGE_HEIGHT, IMAGE_WIDTH];
        assert(dims@ =~= self.spec_image_dims());
        dims
    }

    /// The numerator of the value at `row` and `column` of image `item`.
    pub fn value(&self, item: usize, row: usize, column: usize) -> (value: i64)
        requires
            self.wf(),
            item < self.targets@.len(),
            row < IMAGE_HEIGHT,
            column < IMAGE_WIDTH,
        ensures
            value == self.images@[item * 784 + row * 28 + column],
    {
        let total: usize = self.images.len();
        assert(item * 784 + 784 <= total);
        self.images[item * IMAGE_PIXELS + row * IMAGE_WIDTH + column]
    }
}

/// Turns records into batches on behalf of one compute device. The device is
/// only carried: nothing here looks into it.
#[derive(Clone)]
pub struct MnistBatcher<D> {
    pub device: D,
    pub normalization: Normalization,
}

impl<D> MnistBatcher<D> {
    /// A batcher for `device` with the statistics of the digit dataset.
    pub fn new(device: D) -> (batcher: Self)
        ensures
            batcher.device == device,
            batcher.normalization == Normalization::spec_mnist(),
    {
        MnistBatcher { device, normalization: Normalization::mnist() }
    }

    /// Collects `items` into one batch.
    ///
    /// An empty input is a usage error, and a record that does not hold 784
    /// intensities a shape error. Otherwise the batch holds, for each record
    /// in its order, the normalized value of each of its pixels and its
    /// label.
    pub fn batch(&self, items: Vec<RawImageRecord>) -> (res: Result<MnistBatch, PipelineError>)
        requires
            self.normalization.wf(),
        ensures
            match res {
                Ok(b) => {
                    &&& batch_error(items@) is None
                    &&& b.wf()
                    &&& b.targets@ == labels_of(items@)
                    &&& b.images@ == images_of(items@, self.normalization)
                    &&& b.denominator == self.normalization.spec_denominator()
                    &&& b.spec_image_dims() == seq![items@.len() as usize, IMAGE_HEIGHT, IMAGE_WIDTH]
                },
                Err(e) => batch_error(items@) == Some(e),
            },
    {
        let count: usize = items.len();
        if count == 0 {
            return Err(PipelineError::Usage);
        }
        let norm: Normalization = self.normalization;
        let mut images: Vec<i64> = Vec::new();
        let mut targets: Vec<i64> = Vec::new();
        let mut i: usize = 0;
        while i < count
            invariant
                count == items@.len(),
                0 <= i <= count,
                norm == self.normalization,
                targets@.len() == i,
                images@.len() == i * 784,
                forall|r: int| 0 <= r < i ==> (#[trigger] items@[r]).wf(),
                forall|r: int| 0 <= r < i ==> #[trigger] targets@[r] == items@[r].label as i64,
                forall|k: int|
                    0 <= k < i * 784 ==> #[trigger] images@[k] == norm.spec_numerator(
                        items@[k / 784].pixels@[k % 784],
                    ) as i64,
            decreases count - i,
        {
            let item: &RawImageRecord = &items[i];
            if item.pixels.len() != IMAGE_PIXELS {
                assert(!items@[i as int].wf());
                return Err(PipelineError::Shape);
            }
            let mut p: usize = 0;
            while p < IMAGE_PIXELS
                invariant
                    count == items@.len(),
                    0 <= i < count,
                    0 <= p <= 784,
                    item == &items@[i as int],
                    item.pixels@.len() == 784,
                    images@.len() == i * 784 + p,
                    forall|k: int|
                        0 <= k < i * 784 + p ==> #[trigger] images@[k] == norm.spec_numerator(
                            items@[k / 784].pixels@[k % 784],
                        ) as i64,
                decreases 784 - p,
            {
                let value: i64 = norm.numerator(item.pixels[p]);
                images.push(value);
                p = p + 1;
            }
            targets.push(item.label as i64);
            i = i + 1;
        }
        proof {
            assert(targets@ =~= labels_of(items@));
            assert(images@ =~= images_of(items@, norm));
        }
        let denominator: i64 = norm.denominator();
        Ok(MnistBatch { images, denominator, targets })
    }
}

/// The normalized value `v = numerator / denominator` of an intensity `x`
/// is `(x / scale - mean) / std` exactly: `v * std + mean == x / scale`,
/// which, with all fractions cleared, reads as below. Greater intensities
/// have greater values, and all values lie between those of 0 and 255.
pub proof fn lemma_normalized_value(n: Normalization, x: u8, y: u8)
    requires
        n.wf(),
    ensures
        n.spec_numerator(x) * n.std_numerator * n.scale + n.mean_numerator * n.scale
            * n.spec_denominator() == x * n.denominator * n.spec_denominator(),
        x < y ==> n.spec_numerator(x) < n.spec_numerator(y),
        n.spec_numerator(0) <= n.spec_numerator(x) <= n.spec_numerator(255),
        n.spec_denominator() > 0,
{
    let num = n.spec_numerator(x);
    let den = n.spec_denominator();
    let scale = n.scale as int;
    let mean = n.mean_numerator as int;
    let unit = n.denominator as int;
    let std = n.std_numerator as int;
    assert(den > 0) by (nonlinear_arith)
        requires
            den == scale * std,
            scale > 0,
            std > 0,
    ;
    assert(num * std * scale + mean * scale * den == x * unit * den) by (nonlinear_arith)
        requires
            num == x * unit - mean * scale,
            den == scale * std,
    ;
    assert(x < y ==> x * unit < y * unit) by (nonlinear_arith)
        requires
            unit > 0,
    ;
    assert(0 * unit <= x * unit <= 255 * unit) by (nonlinear_arith)
        requires
            unit > 0,
            0 <= x <= 255,
    ;
}

/// With the statistics of the digit dataset, the normalized value of an
/// intensity `x` is `(10000 * x - 333285) / 785655`, which is
/// `(x / 255 - 0.1307) / 0.3081`, and lies between `-333285 / 785655` and
/// `2216715 / 785655`.
pub proof fn lemma_mnist_value(x: u8)
    ensures
        Normalization::spec_mnist().spec_numerator(x) == 10000 * x - 333285,
        Normalization::spec_mnist().spec_denominator() == 785655,
        -333285 <= Normalization::spec_mnist().spec_numerator(x) <= 2216715,
{
}

/// A batch has one image of 784 values and one label for each record, and
/// keeps the order of the records: the value at `i * 784 + p` is that of
/// pixel `p` of record `i`, and the label at `i` is that of record `i`.
pub proof fn lemma_batch_preserves_order(
    items: Seq<RawImageRecord>,
    n: Normalization,
    i: int,
    p: int,
)
    requires
        0 <= i < items.len(),
        0 <= p < IMAGE_PIXELS,
    ensures
        labels_of(items).len() == items.len(),
        images_of(items, n).len() == items.len() * 784,
        labels_of(items)[i] == items[i].label,
        0 <= i * 784 + p < images_of(items, n).len(),
        images_of(items, n)[i * 784 + p] == n.spec_numerator(items[i].pixels@[p]),
{
    let k = i * 784 + p;
    assert(k / 784 == i && k % 784 == p);
    assert(k < items.len() * 784);
    lemma_normalized_value_fits(n, items[i].pixels@[p]);
}

/// A batch of `B` records holds `B * 784` image values and `B` labels, and
/// with the statistics of the digit dataset every image value lies between
/// the normalized values of the intensities 0 and 255.
pub proof fn lemma_batch_shape_and_range(items: Seq<RawImageRecord>, k: int)
    requires
        0 <= k < items.len() * 784,
    ensures
        images_of(items, Normalization::spec_mnist()).len() == items.len() * 784,
        labels_of(items).len() == items.len(),
        -333285 <= images_of(items, Normalization::spec_mnist())[k] <= 2216715,
{
    lemma_mnist_value(items[k / 784].pixels@[k % 784]);
}

/// Every normalized numerator fits the integer type that a batch holds.
pub proof fn lemma_normalized_value_fits(n: Normalization, x: u8)
    ensures
        n.spec_numerator(x) as i64 == n.spec_numerator(x),
{
    let unit = n.denominator as int;
    let mean = n.mean_numerator as int;
    let scale = n.scale as int;
    assert(0 <= x * unit <= 255 * 65535) by (nonlinear_arith)
        requires
            0 <= x <= 255,
            0 <= unit <= 65535,
    ;
    assert(0 <= mean * scale <= 65535 * 65535) by (nonlinear_arith)
        requires
            0 <= mean <= 65535,
            0 <= scale <= 65535,
    ;
}

} // verus!

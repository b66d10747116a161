use digit_classifier::error::PipelineError;
use digit_classifier::model::{
    conv_size, ConvLayer, LinearLayer, ModelConfig, Op, Padding, PoolLayer,
};

fn conv(in_channels: usize, out_channels: usize, kernel: usize) -> ConvLayer {
    ConvLayer {
        in_channels,
        out_channels,
        kernel_height: kernel,
        kernel_width: kernel,
        stride_height: 1,
        stride_width: 1,
        dilation_height: 1,
        dilation_width: 1,
        groups: 1,
        padding: Padding::Valid,
        bias: true,
    }
}

#[test]
fn config_defaults() {
    let config = ModelConfig::new(512);
    assert_eq!(config.hidden_size, 512);
    assert_eq!(config.num_classes, 10);
    assert_eq!(config.dropout_millis, 500);
    let other = config.with_num_classes(4).with_dropout(250);
    assert_eq!((other.num_classes, other.hidden_size, other.dropout_millis), (4, 512, 250));
}

#[test]
fn init_lays_out_the_fixed_architecture() {
    let model = ModelConfig::new(64).init().unwrap();
    assert_eq!(model.conv1, conv(1, 8, 3));
    assert_eq!(model.conv2, conv(8, 16, 3));
    assert_eq!(model.pool, PoolLayer { out_height: 8, out_width: 8 });
    assert_eq!(model.linear1, LinearLayer { d_input: 1024, d_output: 64, bias: true });
    assert_eq!(model.linear2, LinearLayer { d_input: 64, d_output: 10, bias: true });
    assert_eq!(model.dropout_millis, 500);
}

#[test]
fn init_rejects_a_missing_hidden_size() {
    assert_eq!(ModelConfig::new(0).init().unwrap_err(), PipelineError::Usage);
    assert_eq!(ModelConfig::new(8).with_num_classes(0).init().unwrap_err(), PipelineError::Usage);
    assert_eq!(ModelConfig::new(8).with_dropout(1001).init().unwrap_err(), PipelineError::Usage);
    assert!(ModelConfig::new(8).with_dropout(1000).init().is_ok());
}

#[test]
fn forward_plan_in_training() {
    let model = ModelConfig::new(32).with_num_classes(4).init().unwrap();
    let plan = model.forward(&vec![5, 28, 28], true).unwrap();
    let got: Vec<(Op, Vec<usize>)> = plan.iter().map(|s| (s.op, s.dims.clone())).collect();
    let want: Vec<(Op, Vec<usize>)> = vec![
        (Op::AddChannel, vec![5, 1, 28, 28]),
        (Op::Conv1, vec![5, 8, 26, 26]),
        (Op::Dropout, vec![5, 8, 26, 26]),
        (Op::Conv2, vec![5, 16, 24, 24]),
        (Op::Dropout, vec![5, 16, 24, 24]),
        (Op::Relu, vec![5, 16, 24, 24]),
        (Op::Pool, vec![5, 16, 8, 8]),
        (Op::Flatten, vec![5, 1024]),
        (Op::Linear1, vec![5, 32]),
        (Op::Dropout, vec![5, 32]),
        (Op::Relu, vec![5, 32]),
        (Op::Linear2, vec![5, 4]),
    ];
    assert_eq!(got, want);
}

#[test]
fn forward_plan_in_evaluation_has_no_dropout() {
    let model = ModelConfig::new(32).init().unwrap();
    let plan = model.forward(&vec![1, 28, 28], false).unwrap();
    assert_eq!(plan.len(), 12);
    assert!(plan.iter().all(|s| s.op != Op::Dropout));
    assert_eq!(plan.iter().filter(|s| s.op == Op::Identity).count(), 3);
    let again = model.forward(&vec![1, 28, 28], false).unwrap();
    for (a, b) in plan.iter().zip(again.iter()) {
        assert_eq!(a.op, b.op);
        assert_eq!(a.dims, b.dims);
    }
}

#[test]
fn logits_shape_ignores_hidden_size() {
    for batch in [1usize, 2, 64] {
        let narrow = ModelConfig::new(3).init().unwrap();
        let wide = ModelConfig::new(4096).with_dropout(0).init().unwrap();
        let a = narrow.forward(&vec![batch, 28, 28], false).unwrap();
        let b = wide.forward(&vec![batch, 28, 28], true).unwrap();
        assert_eq!(a[11].dims, vec![batch, 10]);
        assert_eq!(b[11].dims, vec![batch, 10]);
    }
}

#[test]
fn forward_rejects_other_shapes() {
    let model = ModelConfig::new(32).init().unwrap();
    for dims in [vec![0, 28, 28], vec![1, 28, 27], vec![1, 29, 28], vec![28, 28], vec![1, 1, 28, 28]] {
        assert_eq!(model.forward(&dims, false).unwrap_err(), PipelineError::Shape);
    }
}

#[test]
fn layer_shape_arithmetic() {
    let plain = conv(3, 5, 4);
    assert_eq!(plain.output_dims(&vec![2, 3, 10, 7]).unwrap(), vec![2, 5, 7, 4]);
    assert_eq!(plain.output_dims(&vec![2, 3, 4, 4]).unwrap(), vec![2, 5, 1, 1]);
    assert_eq!(plain.output_dims(&vec![2, 3, 3, 9]).unwrap_err(), PipelineError::Shape);
    assert_eq!(plain.output_dims(&vec![2, 2, 9, 9]).unwrap_err(), PipelineError::Shape);
    assert_eq!(plain.output_dims(&vec![2, 3, 9]).unwrap_err(), PipelineError::Shape);
    let mut strided = conv(3, 5, 3);
    strided.stride_height = 2;
    strided.stride_width = 3;
    strided.padding = Padding::Explicit(1, 2);
    strided.dilation_width = 2;
    assert_eq!(strided.output_dims(&vec![1, 3, 28, 28]).unwrap(), vec![1, 5, 14, 10]);
    strided.padding = Padding::Same;
    assert_eq!(strided.output_dims(&vec![1, 3, 28, 28]).unwrap_err(), PipelineError::Shape);
    let pool = PoolLayer { out_height: 8, out_width: 6 };
    assert_eq!(pool.output_dims(&vec![2, 16, 24, 30]).unwrap(), vec![2, 16, 8, 6]);
    assert_eq!(pool.output_dims(&vec![2, 16, 3, 1]).unwrap(), vec![2, 16, 8, 6]);
    assert_eq!(pool.output_dims(&vec![2, 16, 0, 1]).unwrap_err(), PipelineError::Shape);
    let linear = LinearLayer { d_input: 1024, d_output: 7, bias: true };
    assert_eq!(linear.output_dims(&vec![9, 1024]).unwrap(), vec![9, 7]);
    assert_eq!(linear.output_dims(&vec![9, 1000]).unwrap_err(), PipelineError::Shape);
}

#[test]
fn convolution_size_formula() {
    assert_eq!(conv_size(28, 3, 1, 0, 1), Some(26));
    assert_eq!(conv_size(26, 3, 1, 0, 1), Some(24));
    assert_eq!(conv_size(28, 3, 2, 1, 1), Some(14));
    assert_eq!(conv_size(28, 3, 3, 2, 2), Some(10));
    assert_eq!(conv_size(3, 3, 1, 0, 1), Some(1));
    assert_eq!(conv_size(2, 3, 1, 0, 1), None);
    assert_eq!(conv_size(28, 0, 1, 0, 1), None);
    assert_eq!(conv_size(28, 3, 0, 0, 1), None);
    assert_eq!(conv_size(28, 3, 1, 0, 0), None);
    assert_eq!(conv_size(usize::MAX, 1, 1, 0, 1), Some(usize::MAX));
    assert_eq!(conv_size(usize::MAX, 1, 1, 1, 1), None);
}

#[test]
fn parameter_shapes() {
    let model = ModelConfig::new(32).with_num_classes(4).init().unwrap();
    assert_eq!(
        model.parameter_dims(),
        vec![
            vec![8, 1, 3, 3],
            vec![8],
            vec![16, 8, 3, 3],
            vec![16],
            vec![1024, 32],
            vec![32],
            vec![32, 4],
            vec![4],
        ]
    );
    let mut grouped = conv(8, 16, 3);
    grouped.groups = 4;
    assert_eq!(grouped.weight_dims(), vec![16, 2, 3, 3]);
}

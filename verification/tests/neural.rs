use bnn::neural::{BNNCreationErr, Scalar, BNN};

/// A 32-bit float scalar: sum, product, and the sigmoid activation
/// `1 / (1 + e^{-x})`.
#[derive(Clone, Copy, Debug, PartialEq)]
struct F(f32);

impl Scalar for F {
    // the spec counterparts compile to ordinary methods; they denote the same
    // arithmetic the exec methods perform
    fn spec_plus(self, other: Self) -> Self {
        F(self.0 + other.0)
    }

    fn spec_times(self, other: Self) -> Self {
        F(self.0 * other.0)
    }

    fn spec_activation(self) -> Self {
        F(1f32 / (1f32 + (-self.0).exp()))
    }

    fn plus(self, other: Self) -> Self {
        F(self.0 + other.0)
    }

    fn times(self, other: Self) -> Self {
        F(self.0 * other.0)
    }

    fn activation(self) -> Self {
        F(1f32 / (1f32 + (-self.0).exp()))
    }
}

fn network(
    num_i: usize,
    num_o: usize,
    nums_h: Vec<usize>,
    learningrate: f32,
) -> Result<BNN<F>, BNNCreationErr> {
    BNN::new(
        num_i,
        num_o,
        nums_h,
        F(learningrate),
        learningrate > 0f32,
        F(0f32),
    )
}

/// The canonical fixture: 2 inputs, one hidden layer of 2 nodes, 2 outputs,
/// with hand-assigned weights and biases.
fn fixture() -> BNN<F> {
    let mut bnn = network(2, 2, vec![2], 0.01).ok().unwrap();

    bnn.layers[0].weights = vec![vec![F(0.15), F(0.20)], vec![F(0.25), F(0.30)]];
    bnn.layers[0].bias = F(0.35);

    bnn.layers[1].weights = vec![vec![F(0.40), F(0.45)], vec![F(0.50), F(0.55)]];
    bnn.layers[1].bias = F(0.60);

    bnn
}

#[test]
fn test_fwdprop() {
    let mut bnn = fixture();

    let input = vec![F(0.05f32), F(0.10f32)];

    let out = bnn.forward(&input);

    let o1 = 0.75136507;
    let o2 = 0.772928465;
    assert!((o1 - out[0].0).abs() < o1 * 1e-6);
    assert!((o2 - out[1].0).abs() < o2 * 1e-6);
}

#[test]
fn creation_valid_topologies_succeed() {
    let bnn = network(1, 1, vec![1], 0.5).ok().unwrap();
    assert_eq!(bnn.layers.len(), 2);
    assert_eq!(bnn.layers[1].weights.len(), 1);

    let bnn = network(3, 2, vec![4, 5], 0.01).ok().unwrap();
    assert_eq!(bnn.inputs, 3);
    assert_eq!(bnn.outputs, 2);
    assert_eq!(bnn.hiddens, vec![4, 5]);
    assert_eq!(bnn.learningrate, F(0.01));
    assert_eq!(bnn.layers.len(), 3);
    // each layer sized to its declared node count and the previous size
    assert_eq!(bnn.layers[0].weights.len(), 4);
    assert_eq!(bnn.layers[0].weights[0].len(), 3);
    assert_eq!(bnn.layers[1].weights.len(), 5);
    assert_eq!(bnn.layers[1].weights[1].len(), 4);
    assert_eq!(bnn.layers[2].weights.len(), 2);
    assert_eq!(bnn.layers[2].weights[1].len(), 5);
}

#[test]
fn creation_zero_initializes_everything() {
    let bnn = network(2, 3, vec![2], 1.0).ok().unwrap();
    for layer in &bnn.layers {
        assert_eq!(layer.bias, F(0.0));
        assert_eq!(layer.output.len(), layer.weights.len());
        assert_eq!(layer.delta.len(), layer.weights.len());
        for row in &layer.weights {
            for w in row {
                assert_eq!(*w, F(0.0));
            }
        }
        for o in &layer.output {
            assert_eq!(*o, F(0.0));
        }
        for d in &layer.delta {
            assert_eq!(*d, F(0.0));
        }
    }
}

#[test]
fn creation_rejects_zero_input_size() {
    assert!(matches!(
        network(0, 2, vec![2], 0.01),
        Err(BNNCreationErr::IllegalInputSize)
    ));
}

#[test]
fn creation_rejects_zero_output_size() {
    assert!(matches!(
        network(2, 0, vec![2], 0.01),
        Err(BNNCreationErr::IllegalOutputSize)
    ));
}

#[test]
fn creation_rejects_empty_hidden_sizes() {
    assert!(matches!(
        network(2, 2, vec![], 0.01),
        Err(BNNCreationErr::IllegalHiddenLayer)
    ));
}

#[test]
fn creation_rejects_zero_hidden_entry() {
    assert!(matches!(
        network(2, 2, vec![3, 0, 4], 0.01),
        Err(BNNCreationErr::IllegalHiddenLayer)
    ));
}

#[test]
fn creation_rejects_nonpositive_learning_rate() {
    assert!(matches!(
        network(2, 2, vec![2], 0.0),
        Err(BNNCreationErr::IllegalLearningRate)
    ));
    assert!(matches!(
        network(2, 2, vec![2], -1.5),
        Err(BNNCreationErr::IllegalLearningRate)
    ));
}

#[test]
fn creation_first_failing_check_wins() {
    // input size is checked before output size
    assert!(matches!(
        network(0, 0, vec![], 0.0),
        Err(BNNCreationErr::IllegalInputSize)
    ));
    // output size before the hidden sizes
    assert!(matches!(
        network(2, 0, vec![], 0.0),
        Err(BNNCreationErr::IllegalOutputSize)
    ));
    // empty hidden sizes before the learning rate
    assert!(matches!(
        network(2, 2, vec![], 0.0),
        Err(BNNCreationErr::IllegalHiddenLayer)
    ));
    // but the learning rate before a zero hidden entry
    assert!(matches!(
        network(2, 2, vec![0], 0.0),
        Err(BNNCreationErr::IllegalLearningRate)
    ));
}

#[test]
fn sigmoid_of_zero_is_half() {
    assert_eq!(F(0.0).activation(), F(0.5));
}

#[test]
fn sigmoid_stays_strictly_between_zero_and_one() {
    // restricted to moderate inputs: in 32-bit floats the sigmoid saturates
    // to exactly 0 or 1 for inputs of large magnitude (e.g. at -100)
    for x in [-10f32, -4.0, -1.0, -0.3, 0.0, 0.3, 1.0, 4.0, 10.0] {
        let y = F(x).activation().0;
        assert!(0.0 < y && y < 1.0, "sigmoid({x}) = {y}");
    }
}

#[test]
fn forward_on_zero_weights_gives_exactly_half() {
    // every net input is 0, so every activation is sigmoid(0) = 0.5 exactly,
    // in the hidden layers and in the output layer alike
    let mut bnn = network(3, 2, vec![4], 0.01).ok().unwrap();
    let out = bnn.forward(&vec![F(0.9), F(-0.2), F(0.4)]);
    assert_eq!(out, vec![F(0.5), F(0.5)]);
}

#[test]
fn forward_is_deterministic() {
    let mut a = fixture();
    let mut b = fixture();
    let input = vec![F(0.05), F(0.10)];
    let out_a = a.forward(&input);
    let out_b = b.forward(&input);
    assert_eq!(out_a, out_b);
    // and a bit-identical repeat on the same network
    assert_eq!(a.forward(&input), out_a);
}

#[test]
fn forward_does_not_leak_state_across_calls() {
    let mut reused = fixture();
    let first = vec![F(0.8), F(-0.3)];
    let second = vec![F(0.05), F(0.10)];
    reused.forward(&first);
    let out_reused = reused.forward(&second);

    let mut fresh = fixture();
    let out_fresh = fresh.forward(&second);

    assert_eq!(out_reused, out_fresh);
}

#[test]
fn forward_leaves_weights_bias_and_delta_unchanged() {
    let mut bnn = fixture();
    bnn.forward(&vec![F(0.05), F(0.10)]);
    assert_eq!(
        bnn.layers[0].weights,
        vec![vec![F(0.15), F(0.20)], vec![F(0.25), F(0.30)]]
    );
    assert_eq!(bnn.layers[0].bias, F(0.35));
    assert_eq!(
        bnn.layers[1].weights,
        vec![vec![F(0.40), F(0.45)], vec![F(0.50), F(0.55)]]
    );
    assert_eq!(bnn.layers[1].bias, F(0.60));
    assert_eq!(bnn.layers[0].delta, vec![F(0.0), F(0.0)]);
    assert_eq!(bnn.layers[1].delta, vec![F(0.0), F(0.0)]);
}

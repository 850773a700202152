use vstd::prelude::*;

verus! {

/// The reason why `BNN::new` rejected a topology.
#[derive(Clone, Copy, Debug, PartialEq, Eq, Structural)]
pub enum BNNCreationErr {
    /// The input size was zero.
    IllegalInputSize,
    /// The output size was zero.
    IllegalOutputSize,
    /// The hidden sizes were empty, or one of them was zero.
    IllegalHiddenLayer,
    /// The learning rate was not strictly positive.
    IllegalLearningRate,
}

/// The validation that `BNN::new` performs, in order; the first failing check
/// wins, and `None` means the arguments describe a legal topology.
///
/// `learningrate_positive` stands for "the learning rate is strictly
/// positive": the scalar type is opaque to the library, so the caller
/// evaluates that comparison and passes the outcome in.
pub open spec fn creation_check(
    num_i: usize,
    num_o: usize,
    nums_h: Seq<usize>,
    learningrate_positive: bool,
) -> Option<BNNCreationErr> {
    if num_i == 0 {
        Some(BNNCreationErr::IllegalInputSize)
    } else if num_o == 0 {
        Some(BNNCreationErr::IllegalOutputSize)
    } else if nums_h.len() == 0 {
        Some(BNNCreationErr::IllegalHiddenLayer)
    } else if !learningrate_positive {
        Some(BNNCreationErr::IllegalLearningRate)
    } else if exists|k: int| 0 <= k < nums_h.len() && nums_h[k] == 0 {
        Some(BNNCreationErr::IllegalHiddenLayer)
    } else {
        None
    }
}

/// A scalar number type for weights, biases and activations.
///
/// The library is generic over the scalar so that the propagation logic can
/// be verified independently of the arithmetic; the caller supplies the
/// numeric type (for instance a wrapper around a 32-bit float) together with
/// its operations.
///
/// This trait is the library's one trusted boundary: each exec method
/// promises to return what its spec counterpart denotes, and an impl written
/// outside Verus is never checked against that promise. The contracts of the
/// forward pass hold only for impls that keep it, and the library's
/// no-panic guarantee only for impls that do not panic.
pub trait Scalar: Copy {
    /// What `plus` returns: the sum of two scalars.
    spec fn spec_plus(self, other: Self) -> Self;

    /// What `times` returns: the product of two scalars.
    spec fn spec_times(self, other: Self) -> Self;

    /// What `activation` returns: the activation function applied to a
    /// node's net input.
    spec fn spec_activation(self) -> Self;

    /// The sum of two scalars.
    fn plus(self, other: Self) -> (r: Self)
        ensures
            r == self.spec_plus(other),
    ;

    /// The product of two scalars.
    fn times(self, other: Self) -> (r: Self)
        ensures
            r == self.spec_times(other),
    ;

    /// The activation function applied to a node's net input.
    fn activation(self) -> (r: Self)
        ensures
            r == self.spec_activation(),
    ;
}

/// The net input of one node over the first `n` incoming activations: the
/// bias plus the dot product of the node's weight row with the previous
/// layer's output, accumulated left to right.
pub open spec fn spec_net_input<T: Scalar>(bias: T, row: Seq<T>, prev: Seq<T>, n: int) -> T
    decreases n,
{
    if n <= 0 {
        bias
    } else {
        spec_net_input(bias, row, prev, n - 1).spec_plus(row[n - 1].spec_times(prev[n - 1]))
    }
}

/// One stage of the network: a weight matrix with one row per node, a single
/// bias shared by every node, the last computed activations, and the `delta`
/// buffer reserved for a future training feature.
///
/// The fields are public, mutable state: a caller may overwrite the weights
/// and the bias after construction, as long as the shapes of `wf` are kept.
pub struct Layer<T> {
    pub weights: Vec<Vec<T>>,
    pub bias: T,
    pub output: Vec<T>,
    pub delta: Vec<T>,
}

impl<T> Layer<T> {
    /// Shape invariant of a layer with `num_inputs` incoming activations:
    /// every weight row has one entry per incoming activation, and the output
    /// and delta buffers have one entry per node (one node per weight row).
    pub open spec fn wf(self, num_inputs: int) -> bool {
        &&& self.output.len() == self.weights.len()
        &&& self.delta.len() == self.weights.len()
        &&& forall|i: int|
            0 <= i < self.weights.len() ==> #[trigger] self.weights[i].len() == num_inputs
    }

    /// Every stored scalar — each weight, the bias, and each entry of the
    /// output and delta buffers — equals `value`.
    pub open spec fn all_equal_to(self, value: T) -> bool {
        &&& self.bias == value
        &&& forall|i: int, j: int|
            0 <= i < self.weights.len() && 0 <= j < self.weights[i].len()
                ==> #[trigger] self.weights[i][j] == value
        &&& forall|i: int| 0 <= i < self.output.len() ==> #[trigger] self.output[i] == value
        &&& forall|i: int| 0 <= i < self.delta.len() ==> #[trigger] self.delta[i] == value
    }
}

/// A vector of `n` copies of `value`.
fn filled<T: Copy>(value: T, n: usize) -> (v: Vec<T>)
    ensures
        v.len() == n,
        forall|i: int| 0 <= i < n ==> #[trigger] v[i] == value,
{
    let mut v: Vec<T> = Vec::new();
    let mut k: usize = 0;
    while k < n
        invariant
            k <= n,
            v.len() == k,
            forall|i: int| 0 <= i < k ==> #[trigger] v[i] == value,
        decreases n - k,
    {
        v.push(value);
        k += 1;
    }
    v
}

impl<T: Copy> Layer<T> {
    /// A layer of `num_nodes` nodes with `prev_num_nodes` incoming
    /// connections, every weight, the bias and both buffers set to `zero`.
    fn new(num_nodes: usize, prev_num_nodes: usize, zero: T) -> (l: Layer<T>)
        ensures
            l.weights.len() == num_nodes,
            l.wf(prev_num_nodes as int),
            l.all_equal_to(zero),
    {
        let mut weights: Vec<Vec<T>> = Vec::new();
        let mut k: usize = 0;
        while k < num_nodes
            invariant
                k <= num_nodes,
                weights.len() == k,
                forall|i: int| 0 <= i < k ==> #[trigger] weights[i].len() == prev_num_nodes,
                forall|i: int, j: int|
                    0 <= i < k && 0 <= j < weights[i].len() ==> #[trigger] weights[i][j] == zero,
            decreases num_nodes - k,
        {
            weights.push(filled(zero, prev_num_nodes));
            k += 1;
        }
        Layer {
            weights,
            bias: zero,
            output: filled(zero, num_nodes),
            delta: filled(zero, num_nodes),
        }
    }
}

/// A copy of `v`, element for element.
fn copied<T: Copy>(v: &Vec<T>) -> (r: Vec<T>)
    ensures
        r@ == v@,
{
    let mut r: Vec<T> = Vec::new();
    let mut k: usize = 0;
    while k < v.len()
        invariant
            k <= v.len(),
            r@ == v@.subrange(0, k as int),
        decreases v.len() - k,
    {
        r.push(v[k]);
        k += 1;
    }
    r
}

/// The net input of one node: the bias plus the dot product of the node's
/// weight row with the previous layer's output, accumulated left to right.
fn net_input<T: Scalar>(bias: T, row: &Vec<T>, prev: &Vec<T>) -> (r: T)
    requires
        row.len() == prev.len(),
    ensures
        r == spec_net_input(bias, row@, prev@, prev@.len() as int),
{
    let mut acc = bias;
    let mut j: usize = 0;
    while j < row.len()
        invariant
            j <= row.len(),
            row.len() == prev.len(),
            acc == spec_net_input(bias, row@, prev@, j as int),
        decreases row.len() - j,
    {
        acc = acc.plus(row[j].times(prev[j]));
        j += 1;
    }
    acc
}

impl<T: Scalar> Layer<T> {
    /// The activations this layer computes from the previous layer's output
    /// `prev`: for each node in order, the activation of the node's net input.
    pub open spec fn spec_activations(self, prev: Seq<T>) -> Seq<T> {
        Seq::new(
            self.weights@.len(),
            |i: int|
                spec_net_input(self.bias, self.weights[i]@, prev, prev.len() as int)
                    .spec_activation(),
        )
    }

    /// Forward activation: for each node in order, stores into `output` the
    /// activation of the node's net input on `last_output` — exactly
    /// `spec_activations`. The weights, the bias and the delta buffer are
    /// untouched, and every output entry is overwritten, none survives from
    /// an earlier call.
    fn forward_prop(&mut self, last_output: &Vec<T>)
        requires
            old(self).wf(last_output.len() as int),
        ensures
            final(self).wf(last_output.len() as int),
            final(self).weights == old(self).weights,
            final(self).bias == old(self).bias,
            final(self).delta == old(self).delta,
            final(self).output.len() == old(self).output.len(),
            final(self).output@ == old(self).spec_activations(last_output@),
    {
        let n: usize = self.weights.len();
        let mut out: Vec<T> = Vec::new();
        let mut i: usize = 0;
        while i < n
            invariant
                i <= n,
                out.len() == i,
                *self == *old(self),
                n == self.weights.len(),
                self.wf(last_output.len() as int),
                forall|k: int|
                    0 <= k < i ==> #[trigger] out[k] == spec_net_input(
                        self.bias,
                        self.weights[k]@,
                        last_output@,
                        last_output@.len() as int,
                    ).spec_activation(),
            decreases n - i,
        {
            let ni = net_input(self.bias, &self.weights[i], last_output);
            out.push(ni.activation());
            i += 1;
        }
        proof {
            assert(out@ =~= self.spec_activations(last_output@));
        }
        self.output = out;
    }
}

/// Two layers that agree in weights and bias compute the same activations.
proof fn lemma_activations_agree<T: Scalar>(a: Layer<T>, b: Layer<T>, prev: Seq<T>)
    requires
        a.weights == b.weights,
        a.bias == b.bias,
    ensures
        a.spec_activations(prev) == b.spec_activations(prev),
{
    assert(a.spec_activations(prev) =~= b.spec_activations(prev));
}

/// A feed-forward network: an ordered sequence of layers, the declared
/// topology, and the learning rate reserved for a future training feature.
pub struct BNN<T> {
    pub layers: Vec<Layer<T>>,

    pub inputs: usize,
    pub outputs: usize,
    pub hiddens: Vec<usize>,

    pub learningrate: T,
}

impl<T> BNN<T> {
    /// The declared node count of layer `i`: the `i`-th hidden size for the
    /// hidden layers, the output size for the final layer.
    pub open spec fn declared_size(self, i: int) -> usize {
        if i < self.hiddens.len() {
            self.hiddens[i]
        } else {
            self.outputs
        }
    }

    /// The number of activations flowing into layer `i`: the input size for
    /// the first layer, the previous layer's node count otherwise.
    pub open spec fn incoming_size(self, i: int) -> usize {
        if i == 0 {
            self.inputs
        } else {
            self.declared_size(i - 1)
        }
    }

    /// Shape invariant: one layer per hidden size plus the output layer, each
    /// layer holding one weight row per declared node and one weight per
    /// incoming activation.
    pub open spec fn wf(self) -> bool {
        &&& self.layers.len() == self.hiddens.len() + 1
        &&& forall|i: int|
            0 <= i < self.layers.len() ==> {
                &&& (#[trigger] self.layers[i]).weights.len() == self.declared_size(i)
                &&& self.layers[i].wf(self.incoming_size(i) as int)
            }
    }

    /// Every scalar stored in every layer equals `value`.
    pub open spec fn all_equal_to(self, value: T) -> bool {
        forall|i: int|
            0 <= i < self.layers.len() ==> (#[trigger] self.layers[i]).all_equal_to(value)
    }
}

impl<T: Scalar> BNN<T> {
    /// The activations of layer `k` on `input`: layer 0 activates on the
    /// input, every later layer on the previous layer's activations.
    pub open spec fn spec_layer_output(self, k: int, input: Seq<T>) -> Seq<T>
        decreases k,
    {
        if k <= 0 {
            self.layers[0].spec_activations(input)
        } else {
            self.layers[k].spec_activations(self.spec_layer_output(k - 1, input))
        }
    }

    /// What forward propagation returns on `input`: the final layer's
    /// activations. A function of the current weights, biases and the input
    /// alone — the layers' output and delta buffers play no part.
    pub open spec fn spec_forward(self, input: Seq<T>) -> Seq<T> {
        self.spec_layer_output(self.layers.len() - 1, input)
    }
}

proof fn lemma_layer_output_deterministic<T: Scalar>(a: BNN<T>, b: BNN<T>, input: Seq<T>, k: int)
    requires
        a.layers.len() == b.layers.len(),
        0 <= k < a.layers.len(),
        forall|i: int|
            0 <= i < a.layers.len() ==> (#[trigger] a.layers[i]).weights == b.layers[i].weights
                && a.layers[i].bias == b.layers[i].bias,
    ensures
        a.spec_layer_output(k, input) == b.spec_layer_output(k, input),
    decreases k,
{
    if k <= 0 {
        lemma_activations_agree(a.layers[0], b.layers[0], input);
    } else {
        lemma_layer_output_deterministic(a, b, input, k - 1);
        lemma_activations_agree(a.layers[k], b.layers[k], a.spec_layer_output(k - 1, input));
    }
}

/// Forward propagation is deterministic: two networks with the same number
/// of layers that agree, layer by layer, in weights and bias compute the
/// same activations at every layer, and so the same final output, on the
/// same input. Since `forward`'s contract leaves every layer's weights and
/// bias unchanged and overwrites the output buffers with exactly these
/// activations, repeated calls carry no state from one call to the next.
pub proof fn lemma_forward_deterministic<T: Scalar>(a: BNN<T>, b: BNN<T>, input: Seq<T>)
    requires
        a.layers.len() == b.layers.len(),
        a.layers.len() > 0,
        forall|i: int|
            0 <= i < a.layers.len() ==> (#[trigger] a.layers[i]).weights == b.layers[i].weights
                && a.layers[i].bias == b.layers[i].bias,
    ensures
        forall|k: int|
            0 <= k < a.layers.len() ==> a.spec_layer_output(k, input) == b.spec_layer_output(
                k,
                input,
            ),
        a.spec_forward(input) == b.spec_forward(input),
{
    assert forall|k: int|
        0 <= k < a.layers.len() implies a.spec_layer_output(k, input) == b.spec_layer_output(
        k,
        input,
    ) by {
        lemma_layer_output_deterministic(a, b, input, k);
    }
}

impl<T: Copy> BNN<T> {
    /// Builds a network after validating the topology, every weight, bias and
    /// buffer set to `zero`.
    ///
    /// The scalar type is opaque to the library, so the caller passes in
    /// `learningrate_positive`, the outcome of `learningrate > 0`, and
    /// `zero`, the scalar zero; the checks run in the order of
    /// [`creation_check`] and the first failing one wins.
    pub fn new(
        num_i: usize,
        num_o: usize,
        nums_h: Vec<usize>,
        learningrate: T,
        learningrate_positive: bool,
        zero: T,
    ) -> (r: Result<BNN<T>, BNNCreationErr>)
        ensures
            match creation_check(num_i, num_o, nums_h@, learningrate_positive) {
                Some(e) => r matches Err(err) && err == e,
                None => r matches Ok(bnn) && {
                    &&& bnn.wf()
                    &&& bnn.inputs == num_i
                    &&& bnn.outputs == num_o
                    &&& bnn.hiddens == nums_h
                    &&& bnn.learningrate == learningrate
                    &&& bnn.layers.len() == nums_h.len() + 1
                    &&& bnn.layers[nums_h.len() as int].weights.len() == num_o
                    &&& bnn.all_equal_to(zero)
                },
            },
    {
        if num_i == 0 {
            return Err(BNNCreationErr::IllegalInputSize);
        } else if num_o == 0 {
            return Err(BNNCreationErr::IllegalOutputSize);
        } else if nums_h.len() == 0 {
            return Err(BNNCreationErr::IllegalHiddenLayer);
        } else if !learningrate_positive {
            return Err(BNNCreationErr::IllegalLearningRate);
        }

        let mut layers: Vec<Layer<T>> = Vec::new();
        let mut last_num: usize = num_i;
        let mut k: usize = 0;
        while k < nums_h.len()
            invariant
                k <= nums_h.len(),
                layers.len() == k,
                num_i > 0,
                num_o > 0,
                nums_h.len() > 0,
                learningrate_positive,
                last_num == if k == 0 { num_i as int } else { nums_h[k - 1] as int },
                forall|i: int| 0 <= i < k ==> nums_h[i] != 0,
                forall|i: int|
                    0 <= i < k ==> (#[trigger] layers[i]).weights.len() == nums_h[i],
                forall|i: int|
                    0 <= i < k ==> (#[trigger] layers[i]).wf(
                        if i == 0 { num_i as int } else { nums_h[i - 1] as int },
                    ),
                forall|i: int| 0 <= i < k ==> (#[trigger] layers[i]).all_equal_to(zero),
            decreases nums_h.len() - k,
        {
            let num_h = nums_h[k];
            if num_h == 0 {
                return Err(BNNCreationErr::IllegalHiddenLayer);
            }
            layers.push(Layer::new(num_h, last_num, zero));
            last_num = num_h;
            k += 1;
        }
        layers.push(Layer::new(num_o, last_num, zero));

        let bnn = BNN {
            layers,
            inputs: num_i,
            outputs: num_o,
            hiddens: nums_h,
            learningrate,
        };
        Ok(bnn)
    }
}

impl<T: Scalar> BNN<T> {
    /// Forward propagation: threads `input` through every layer in order —
    /// each layer's forward activation runs on the previous layer's output,
    /// starting from `input` — and returns a copy of the final layer's output
    /// buffer. (The original buffers stay inside the network, overwritten in
    /// place on every call; the copy costs one allocation but keeps the
    /// result valid across later calls.)
    ///
    /// The result and every layer's new output buffer are exactly the
    /// activations of `spec_forward` and `spec_layer_output`: a function of
    /// the current weights, biases and the input alone, never of what the
    /// buffers held before. Nothing else changes: the topology, the learning
    /// rate and every layer's weights, bias and delta buffer are exactly
    /// those of the network before the call.
    pub fn forward(&mut self, input: &Vec<T>) -> (r: Vec<T>)
        requires
            old(self).wf(),
            input.len() == old(self).inputs,
        ensures
            final(self).wf(),
            final(self).inputs == old(self).inputs,
            final(self).outputs == old(self).outputs,
            final(self).hiddens == old(self).hiddens,
            final(self).learningrate == old(self).learningrate,
            final(self).layers.len() == old(self).layers.len(),
            forall|i: int|
                0 <= i < old(self).layers.len() ==> {
                    &&& (#[trigger] final(self).layers[i]).weights == old(self).layers[i].weights
                    &&& final(self).layers[i].bias == old(self).layers[i].bias
                    &&& final(self).layers[i].delta == old(self).layers[i].delta
                    &&& final(self).layers[i].output@ == old(self).spec_layer_output(i, input@)
                },
            r@ == old(self).spec_forward(input@),
            r@ == final(self).layers[old(self).layers.len() - 1].output@,
            r.len() == old(self).outputs,
    {
        let mut current: Vec<T> = copied(input);
        let n: usize = self.layers.len();
        let mut i: usize = 0;
        while i < n
            invariant
                i <= n,
                n == self.layers.len(),
                self.wf(),
                self.inputs == old(self).inputs,
                self.outputs == old(self).outputs,
                self.hiddens == old(self).hiddens,
                self.learningrate == old(self).learningrate,
                forall|k: int|
                    0 <= k < n ==> {
                        &&& (#[trigger] self.layers[k]).weights == old(self).layers[k].weights
                        &&& self.layers[k].bias == old(self).layers[k].bias
                        &&& self.layers[k].delta == old(self).layers[k].delta
                        &&& self.layers[k].output.len() == old(self).layers[k].output.len()
                    },
                forall|k: int|
                    0 <= k < i ==> (#[trigger] self.layers[k]).output@ == old(
                        self,
                    ).spec_layer_output(k, input@),
                current.len() == self.incoming_size(i as int),
                i == 0 ==> current@ == input@,
                i > 0 ==> current@ == self.layers[i - 1].output@,
            decreases n - i,
        {
            let ghost pre_layer = self.layers[i as int];
            let ghost prev = current@;
            self.layers[i].forward_prop(&current);
            proof {
                lemma_activations_agree(pre_layer, old(self).layers[i as int], prev);
            }
            current = copied(&self.layers[i].output);
            i += 1;
        }
        current
    }
}

} // verus!

//! The neuron: a unit that registers weighted inputs and recomputes its output
//! from them on request.

use vstd::prelude::*;
use vstd::string::*;
use crate::dot::{
    adds_product, dot, is_dot, lemma_dot_of_one_pair, lemma_dot_single_valued, single_valued2, ZERO,
};
use crate::ident::{allocated, IdAllocator};
use crate::text::{braced, decimal, decimal_string, renders_each, vec_to_str, views};

verus! {

/// One registered input of a neuron.
#[derive(Clone, Copy, Debug, PartialEq, Eq)]
pub struct InputLine {
    /// Identifier of the unit that produced the value.
    pub source: usize,
    /// The input value.
    pub value: u64,
    /// The weight that the value is multiplied by.
    pub weight: u64,
}

/// A neuron. It holds its identifier, its current output and the input lines
/// registered so far, in the order of their registration.
pub struct Neuron {
    value: u64,
    id: usize,
    in_vals: Vec<u64>,
    in_weights: Vec<u64>,
    in_ids: Vec<usize>,
}

impl View for Neuron {
    type V = Seq<InputLine>;

    /// The registered input lines, oldest first.
    closed spec fn view(&self) -> Seq<InputLine> {
        Seq::new(
            self.in_ids@.len(),
            |i: int|
                InputLine {
                    source: self.in_ids@[i],
                    value: self.in_vals@[i],
                    weight: self.in_weights@[i],
                },
        )
    }
}

/// `out` is an output of a neuron whose input values are `values` and whose
/// input weights are `weights`: a result of `tanh` on a dot product of the
/// two.
pub open spec fn is_activation<M, A, S>(
    times: M,
    plus: A,
    tanh: S,
    values: Seq<u64>,
    weights: Seq<u64>,
    out: u64,
) -> bool where M: Fn(u64, u64) -> u64, A: Fn(u64, u64) -> u64, S: Fn(u64) -> u64 {
    exists|d: u64|
        #![trigger tanh.ensures((d,), out)]
        is_dot(times, plus, values, weights, d) && tanh.ensures((d,), out)
}

/// A function of one scalar that has at most one result for each argument.
pub open spec fn single_valued<F: Fn(u64) -> u64>(f: F) -> bool {
    forall|x: u64, r1: u64, r2: u64|
        #![trigger f.ensures((x,), r1), f.ensures((x,), r2)]
        f.ensures((x,), r1) && f.ensures((x,), r2) ==> r1 == r2
}

/// The line that describes a neuron, made of its identifier, the text of its
/// output and the texts of its input values. The heading for the weights is
/// followed by the list of the input values, as is the heading for the values.
pub open spec fn ping_text(id: nat, value: Seq<char>, inputs: Seq<Seq<char>>) -> Seq<char> {
    "Pinged neuron with id "@ + decimal(id) + ", a value of "@ + value + ", input values of "@
        + braced(inputs) + ", and input weights of "@ + braced(inputs) + "."@
}

/// `line` describes a neuron with the identifier `id`, the output `value` and
/// the input values `inputs`, each scalar written as `render` writes it.
pub open spec fn is_ping_line<R: Fn(u64) -> String>(
    render: R,
    id: nat,
    value: u64,
    inputs: Seq<u64>,
    line: Seq<char>,
) -> bool {
    exists|value_text: String, input_texts: Seq<String>|
        #![trigger render.ensures((value,), value_text), renders_each(render, inputs, input_texts)]
        render.ensures((value,), value_text) && renders_each(render, inputs, input_texts) && line
            == ping_text(id, value_text@, views(input_texts))
}

impl Neuron {
    /// The three registries have one entry per input line: they are equally
    /// long, and entries at one index belong together. Every neuron that this
    /// module hands out is well formed, and every method keeps it so.
    pub closed spec fn well_formed(&self) -> bool {
        &&& self.in_vals@.len() == self.in_ids@.len()
        &&& self.in_weights@.len() == self.in_ids@.len()
    }

    /// The values of the input lines, oldest first.
    pub open spec fn input_values(&self) -> Seq<u64> {
        self@.map_values(|line: InputLine| line.value)
    }

    /// The weights of the input lines, oldest first.
    pub open spec fn input_weights(&self) -> Seq<u64> {
        self@.map_values(|line: InputLine| line.weight)
    }

    /// The identifier of the neuron.
    pub closed spec fn spec_id(&self) -> usize {
        self.id
    }

    /// The current output of the neuron.
    pub closed spec fn spec_value(&self) -> u64 {
        self.value
    }

    /// A neuron with a fresh identifier, output zero and no input lines.
    pub fn new(ids: &mut IdAllocator) -> (n: Neuron)
        requires
            !old(ids).exhausted(),
        ensures
            allocated(*old(ids), *final(ids), n.id()),
            n.value() == ZERO,
            n@ == Seq::<InputLine>::empty(),
            n.well_formed(),
    {
        Neuron {
            value: ZERO,
            id: ids.allocate(),
            in_vals: Vec::new(),
            in_weights: Vec::new(),
            in_ids: Vec::new(),
        }
    }

    /// The identifier given to the neuron when it was made.
    #[verifier::when_used_as_spec(spec_id)]
    pub fn id(&self) -> (id: usize)
        ensures
            id == self.spec_id(),
    {
        self.id
    }

    /// The output computed by the last update, or zero before the first.
    #[verifier::when_used_as_spec(spec_value)]
    pub fn value(&self) -> (value: u64)
        ensures
            value == self.spec_value(),
    {
        self.value
    }

    /// The registered input lines, oldest first.
    pub fn inputs(&self) -> (lines: Vec<InputLine>)
        requires
            self.well_formed(),
        ensures
            lines@ == self@,
    {
        let mut lines: Vec<InputLine> = Vec::new();
        let mut i: usize = 0;
        while i < self.in_ids.len()
            invariant
                self.well_formed(),
                i <= self.in_ids@.len(),
                lines@ == self@.take(i as int),
            decreases self.in_ids@.len() - i,
        {
            lines.push(
                InputLine {
                    source: self.in_ids[i],
                    value: self.in_vals[i],
                    weight: self.in_weights[i],
                },
            );
            i = i + 1;
        }
        lines
    }

    /// Registers one more input line after those already there. Nothing is
    /// checked or merged: a source registered twice has two lines.
    pub fn add_input(&mut self, input: &u64, weight: &u64, id: &usize)
        requires
            old(self).well_formed(),
        ensures
            final(self).well_formed(),
            final(self)@ == old(self)@.push(
                InputLine { source: *id, value: *input, weight: *weight },
            ),
            final(self).id() == old(self).id(),
            final(self).value() == old(self).value(),
    {
        self.in_ids.push(*id);
        self.in_vals.push(*input);
        self.in_weights.push(*weight);
    }

    /// Recomputes the output from the input lines: `tanh` of the dot product of
    /// the input values and the input weights, which is taken under `times` and
    /// `plus`. With the hyperbolic tangent for `tanh`, the output lies between
    /// -1 and +1.
    ///
    /// The input lines stay as they are, so a second update without a
    /// registration in between computes from the same lines.
    pub fn update<M, A, S>(&mut self, times: M, plus: A, tanh: S) where
        M: Fn(u64, u64) -> u64,
        A: Fn(u64, u64) -> u64,
        S: Fn(u64) -> u64,
        requires
            old(self).well_formed(),
            forall|i: int|
                0 <= i < old(self)@.len() ==> times.requires(
                    ((#[trigger] old(self)@[i]).value, old(self)@[i].weight),
                ),
            forall|s: u64, p: u64| plus.requires((s, p)),
            forall|d: u64| tanh.requires((d,)),
        ensures
            final(self).well_formed(),
            final(self)@ == old(self)@,
            final(self).id() == old(self).id(),
            is_activation(
                times,
                plus,
                tanh,
                old(self).input_values(),
                old(self).input_weights(),
                final(self).value(),
            ),
    {
        proof {
            // The registries hold the values and the weights of the input lines.
            assert(self.in_vals@ =~= self.input_values());
            assert(self.in_weights@ =~= self.input_weights());
            assert forall|i: int| 0 <= i < self.in_vals@.len() implies times.requires(
                (#[trigger] self.in_vals@[i], self.in_weights@[i]),
            ) by {
                assert(self@[i].value == self.in_vals@[i] && self@[i].weight == self.in_weights@[i]);
            }
        }
        let d: u64 = dot(self.in_vals.as_slice(), self.in_weights.as_slice(), times, plus);
        self.value = tanh(d);
    }

    /// Describes the neuron in one line: its identifier in decimal, its output,
    /// and its input values as a list, which is shown a second time under the
    /// heading for the weights. Scalars are written as `render` writes them.
    /// The line ends with a full stop and has no line break.
    pub fn ping<R: Fn(u64) -> String>(&self, render: R) -> (line: String)
        requires
            self.well_formed(),
            render.requires((self.value(),)),
            forall|i: int| 0 <= i < self@.len() ==> render.requires(((#[trigger] self@[i]).value,)),
        ensures
            is_ping_line(render, self.id() as nat, self.value(), self.input_values(), line@),
    {
        proof {
            assert(self.in_vals@ =~= self.input_values());
            assert forall|i: int| 0 <= i < self.in_vals@.len() implies render.requires(
                (#[trigger] self.in_vals@[i],),
            ) by {
                assert(self@[i].value == self.in_vals@[i]);
            }
        }
        let value_text: String = render(self.value);
        let list: String = vec_to_str(&self.in_vals, render);
        let mut line: String = String::from_str("Pinged neuron with id ");
        line.append(decimal_string(self.id).as_str());
        line.append(", a value of ");
        line.append(value_text.as_str());
        line.append(", input values of ");
        line.append(list.as_str());
        line.append(", and input weights of ");
        line.append(list.as_str());
        line.append(".");
        proof {
            let input_texts = choose|texts: Seq<String>| #[trigger]
                renders_each(render, self.in_vals@, texts) && list@ == braced(views(texts));
            assert(line@ =~= ping_text(self.id() as nat, value_text@, views(input_texts)));
        }
        line
    }
}

/// Updating twice with no registration in between gives the same output both
/// times, for operations that have one result for each argument.
///
/// `once` stands for the neuron `before` after an update, and `twice` for
/// `once` after another.
pub proof fn lemma_update_repeatable<M, A, S>(
    before: Neuron,
    once: Neuron,
    twice: Neuron,
    times: M,
    plus: A,
    tanh: S,
) where M: Fn(u64, u64) -> u64, A: Fn(u64, u64) -> u64, S: Fn(u64) -> u64
    requires
        single_valued2(times),
        single_valued2(plus),
        single_valued(tanh),
        once@ == before@,
        is_activation(
            times,
            plus,
            tanh,
            before.input_values(),
            before.input_weights(),
            once.value(),
        ),
        twice@ == once@,
        is_activation(
            times,
            plus,
            tanh,
            once.input_values(),
            once.input_weights(),
            twice.value(),
        ),
    ensures
        twice.value() == once.value(),
{
    let values = before.input_values();
    let weights = before.input_weights();
    let d1 = choose|d: u64|
        #![trigger tanh.ensures((d,), once.value())]
        is_dot(times, plus, values, weights, d) && tanh.ensures((d,), once.value());
    let d2 = choose|d: u64|
        #![trigger tanh.ensures((d,), twice.value())]
        is_dot(times, plus, values, weights, d) && tanh.ensures((d,), twice.value());
    lemma_dot_single_valued(times, plus, values, weights, d1, d2);
}

/// With a single input line of value `v` and weight `w`, the output after an
/// update is `tanh` of the product of `v` and `w`, the product having been
/// added to zero.
pub proof fn lemma_output_of_single_input<M, A, S>(
    times: M,
    plus: A,
    tanh: S,
    v: u64,
    w: u64,
    out: u64,
) where M: Fn(u64, u64) -> u64, A: Fn(u64, u64) -> u64, S: Fn(u64) -> u64
    ensures
        is_activation(times, plus, tanh, seq![v], seq![w], out) <==> exists|s: u64|
            adds_product(times, plus, ZERO, v, w, s) && #[trigger] tanh.ensures((s,), out),
{
    if is_activation(times, plus, tanh, seq![v], seq![w], out) {
        let s = choose|d: u64|
            #![trigger tanh.ensures((d,), out)]
            is_dot(times, plus, seq![v], seq![w], d) && tanh.ensures((d,), out);
        lemma_dot_of_one_pair(times, plus, v, w, s);
    }
    if exists|s: u64|
        adds_product(times, plus, ZERO, v, w, s) && #[trigger] tanh.ensures((s,), out) {
        let s = choose|s: u64|
            adds_product(times, plus, ZERO, v, w, s) && #[trigger] tanh.ensures((s,), out);
        lemma_dot_of_one_pair(times, plus, v, w, s);
    }
}

} // verus!

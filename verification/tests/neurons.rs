use synapse::{IdAllocator, InputLine, Neuron};

fn times(x: u64, y: u64) -> u64 {
    (f64::from_bits(x) * f64::from_bits(y)).to_bits()
}

fn plus(x: u64, y: u64) -> u64 {
    (f64::from_bits(x) + f64::from_bits(y)).to_bits()
}

fn tanh(x: u64) -> u64 {
    f64::from_bits(x).tanh().to_bits()
}

fn register(neuron: &mut Neuron, value: f64, weight: f64, source: usize) {
    neuron.add_input(&value.to_bits(), &weight.to_bits(), &source);
}

fn output(neuron: &Neuron) -> f64 {
    f64::from_bits(neuron.value())
}

#[test]
fn new_neuron_is_blank() {
    let mut ids = IdAllocator::new();
    let neuron = Neuron::new(&mut ids);
    assert_eq!(neuron.id(), 0);
    assert_eq!(neuron.value(), 0);
    assert_eq!(output(&neuron), 0.0);
    assert!(neuron.inputs().is_empty());
}

#[test]
fn neuron_identifier_comes_from_the_allocator() {
    let mut ids = IdAllocator::new();
    for _ in 0..7 {
        ids.allocate();
    }
    let neuron = Neuron::new(&mut ids);
    assert_eq!(neuron.id(), 7);
    assert_eq!(ids.allocate(), 8);
}

#[test]
fn add_input_appends_one_line() {
    let mut ids = IdAllocator::new();
    let mut neuron = Neuron::new(&mut ids);
    register(&mut neuron, 0.25, -3.0, 42);
    assert_eq!(
        neuron.inputs(),
        vec![InputLine { source: 42, value: 0.25f64.to_bits(), weight: (-3.0f64).to_bits() }]
    );
    assert_eq!(neuron.id(), 0);
    assert_eq!(neuron.value(), 0);
}

#[test]
fn add_input_keeps_the_order_of_registration() {
    let mut ids = IdAllocator::new();
    let mut neuron = Neuron::new(&mut ids);
    register(&mut neuron, 1.0, 2.0, 5);
    register(&mut neuron, 3.0, 4.0, 6);
    register(&mut neuron, 5.0, 6.0, 4);
    let lines = neuron.inputs();
    assert_eq!(lines.len(), 3);
    assert_eq!(lines[0].source, 5);
    assert_eq!(lines[1].source, 6);
    assert_eq!(lines[2].source, 4);
    assert_eq!(f64::from_bits(lines[1].value), 3.0);
    assert_eq!(f64::from_bits(lines[1].weight), 4.0);
}

#[test]
fn add_input_does_not_merge_lines_of_one_source() {
    let mut ids = IdAllocator::new();
    let mut neuron = Neuron::new(&mut ids);
    register(&mut neuron, 0.25, 1.0, 9);
    register(&mut neuron, 0.25, 1.0, 9);
    assert_eq!(neuron.inputs().len(), 2);
    neuron.update(times, plus, tanh);
    assert_eq!(output(&neuron), (0.5f64).tanh());
}

#[test]
fn add_input_accepts_values_and_weights_of_any_size() {
    let mut ids = IdAllocator::new();
    let mut neuron = Neuron::new(&mut ids);
    register(&mut neuron, 100.0, -50.0, 1);
    let lines = neuron.inputs();
    assert_eq!(f64::from_bits(lines[0].value), 100.0);
    assert_eq!(f64::from_bits(lines[0].weight), -50.0);
}

#[test]
fn update_with_one_input_is_tanh_of_the_product() {
    let cases: [(f64, f64); 6] =
        [(0.5, 1.0), (1.0, -4.0), (-0.3, 0.7), (0.0, 3.0), (1.0, 4.0), (-1.0, -4.0)];
    for (v, w) in cases {
        let mut ids = IdAllocator::new();
        let mut neuron = Neuron::new(&mut ids);
        register(&mut neuron, v, w, 1);
        neuron.update(times, plus, tanh);
        assert_eq!(output(&neuron), (v * w).tanh());
    }
}

#[test]
fn update_with_two_inputs() {
    let mut ids = IdAllocator::new();
    let mut neuron = Neuron::new(&mut ids);
    register(&mut neuron, 0.5, 1.0, 1);
    register(&mut neuron, -0.5, 2.0, 2);
    neuron.update(times, plus, tanh);
    assert_eq!(output(&neuron), (0.5f64 * 1.0 + (-0.5) * 2.0).tanh());
    assert_eq!(output(&neuron), (-0.5f64).tanh());
    assert!((output(&neuron) - (-0.4621)).abs() < 1e-4);
}

#[test]
fn update_twice_gives_the_same_value() {
    let mut ids = IdAllocator::new();
    let mut neuron = Neuron::new(&mut ids);
    register(&mut neuron, 0.9, 3.5, 1);
    register(&mut neuron, -0.2, -1.5, 2);
    register(&mut neuron, 0.4, 0.1, 3);
    neuron.update(times, plus, tanh);
    let first = neuron.value();
    neuron.update(times, plus, tanh);
    let second = neuron.value();
    assert_eq!(first, second);
    assert_eq!(f64::from_bits(first), (0.9f64 * 3.5 + (-0.2) * (-1.5) + 0.4 * 0.1).tanh());
}

#[test]
fn update_keeps_the_input_lines() {
    let mut ids = IdAllocator::new();
    let mut neuron = Neuron::new(&mut ids);
    register(&mut neuron, 0.1, 0.2, 3);
    register(&mut neuron, 0.3, 0.4, 4);
    let before = neuron.inputs();
    neuron.update(times, plus, tanh);
    assert_eq!(neuron.inputs(), before);
    assert_eq!(neuron.id(), 0);
}

#[test]
fn update_without_inputs_gives_zero() {
    let mut ids = IdAllocator::new();
    let mut neuron = Neuron::new(&mut ids);
    neuron.update(times, plus, tanh);
    assert_eq!(output(&neuron), 0.0);
}

#[test]
fn update_sees_lines_registered_after_an_earlier_update() {
    let mut ids = IdAllocator::new();
    let mut neuron = Neuron::new(&mut ids);
    register(&mut neuron, 0.5, 1.0, 1);
    neuron.update(times, plus, tanh);
    assert_eq!(output(&neuron), (0.5f64).tanh());
    register(&mut neuron, 0.25, 2.0, 2);
    neuron.update(times, plus, tanh);
    assert_eq!(output(&neuron), (0.5f64 * 1.0 + 0.25 * 2.0).tanh());
}

#[test]
fn update_stays_within_minus_one_and_one() {
    let mut ids = IdAllocator::new();
    let mut neuron = Neuron::new(&mut ids);
    register(&mut neuron, 1.0, 4.0, 1);
    register(&mut neuron, 1.0, 4.0, 2);
    register(&mut neuron, 1.0, 4.0, 3);
    neuron.update(times, plus, tanh);
    assert!(output(&neuron) > 0.999 && output(&neuron) <= 1.0);
}

#[test]
fn update_applies_the_squashing_function_it_is_given() {
    let mut ids = IdAllocator::new();
    let mut neuron = Neuron::new(&mut ids);
    register(&mut neuron, 3.0, 2.0, 1);
    neuron.update(times, plus, |d| d);
    assert_eq!(output(&neuron), 6.0);
    neuron.update(times, plus, |d| (-f64::from_bits(d)).to_bits());
    assert_eq!(output(&neuron), -6.0);
}

#[test]
fn output_of_one_neuron_feeds_the_next() {
    let mut ids = IdAllocator::new();
    let mut first = Neuron::new(&mut ids);
    let mut second = Neuron::new(&mut ids);
    register(&mut first, 0.8, 1.5, 100);
    first.update(times, plus, tanh);
    second.add_input(&first.value(), &2.0f64.to_bits(), &first.id());
    second.update(times, plus, tanh);
    let expected = ((0.8f64 * 1.5).tanh() * 2.0).tanh();
    assert_eq!(output(&second), expected);
    assert_eq!(second.inputs()[0].source, first.id());
    assert_ne!(first.id(), second.id());
}

use synapse::{IdAllocator, Node};

#[test]
fn new_node_holds_zero() {
    let mut ids = IdAllocator::new();
    let node = Node::new(&mut ids);
    assert_eq!(node.value(), 0);
    assert_eq!(f64::from_bits(node.value()), 0.0);
    assert!(f64::from_bits(node.value()).is_sign_positive());
    assert_eq!(node.id(), 0);
}

#[test]
fn node_update_stores_exactly_what_it_is_given() {
    let mut ids = IdAllocator::new();
    let mut node = Node::new(&mut ids);
    let samples: [f64; 10] = [
        0.0,
        -0.0,
        1.0,
        -1.0,
        0.1,
        -123.456e78,
        f64::MIN_POSITIVE,
        f64::MAX,
        f64::MIN,
        5e-324,
    ];
    for x in samples {
        node.update(&x.to_bits());
        assert_eq!(node.value(), x.to_bits());
        assert_eq!(f64::from_bits(node.value()), x);
    }
}

#[test]
fn node_update_accepts_values_outside_any_range() {
    let mut ids = IdAllocator::new();
    let mut node = Node::new(&mut ids);
    node.update(&f64::INFINITY.to_bits());
    assert_eq!(f64::from_bits(node.value()), f64::INFINITY);
    node.update(&f64::NAN.to_bits());
    assert!(f64::from_bits(node.value()).is_nan());
    assert_eq!(node.value(), f64::NAN.to_bits());
}

#[test]
fn node_update_overwrites_and_keeps_the_identifier() {
    let mut ids = IdAllocator::new();
    ids.allocate();
    let mut node = Node::new(&mut ids);
    node.update(&2.5f64.to_bits());
    node.update(&(-7.0f64).to_bits());
    assert_eq!(f64::from_bits(node.value()), -7.0);
    assert_eq!(node.id(), 1);
}

use ink_stroke_modeler::history::BoundedHistory;

#[test]
fn test_clamping() {
    // testing that the clamp does the action we expect in rust
    assert_eq!((-2.0 as f64).clamp(0.0, 1.0), 0.0);
    assert_eq!((0 as f64).clamp(0.0, 1.0), 0.0);
    assert_eq!((0.3 as f64).clamp(0.0, 1.0), 0.3);
    assert_eq!((0.7 as f64).clamp(0.0, 1.0), 0.7);
    assert_eq!((1.0 as f64).clamp(0.0, 1.0), 1.0);
    assert_eq!((1.1 as f64).clamp(0.0, 1.0), 1.0);
}

#[test]
fn history_holds_float_samples() {
    let mut h: BoundedHistory<((f32, f32), f32)> = BoundedHistory::new(2);
    h.push(((0.5, 1.5), 0.3));
    h.push(((2.0, 1.5), 0.6));
    h.push(((3.0, 3.5), 0.8));
    assert_eq!(h.len(), 2);
    assert_eq!(*h.get(0), ((2.0, 1.5), 0.6));
    assert_eq!(*h.get(1), ((3.0, 3.5), 0.8));
}

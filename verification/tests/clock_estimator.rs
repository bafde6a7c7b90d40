use tracker_core::clock::SampleWindow;

#[test]
fn window_drops_oldest_samples() {
    let mut window = SampleWindow::new();
    for sample in 0..200u32 {
        window.add(1000.0 + sample as f64, 50);
    }
    assert_eq!(window.count(), 50);
    assert_eq!(*window.get(0), 1150.0);
    assert_eq!(*window.get(49), 1199.0);
}

#[test]
fn reset_clears_samples() {
    let mut window = SampleWindow::new();
    for sample in 0..10u32 {
        window.add(sample, 300);
    }
    assert!(window.count() > 0);
    window.reset();
    assert_eq!(window.count(), 0);
}

#[test]
fn shrinking_the_capacity_trims_on_the_next_add() {
    let mut window = SampleWindow::new();
    for sample in 0..10u32 {
        window.add(sample, 10);
    }
    window.add(10, 3);
    assert_eq!(window.count(), 3);
    assert_eq!((*window.get(0), *window.get(2)), (8, 10));
    window.add(11, 0);
    assert_eq!(window.count(), 0);
}

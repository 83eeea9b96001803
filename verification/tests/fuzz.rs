use flow::fuzz::{Engine, FuzzInput};

#[test]
fn columns_lie_in_range() {
    for seed in [0u64, 1, 2, 42, u64::MAX, 0xdead_beef] {
        let input = FuzzInput::from_seed(seed);
        assert_eq!(input.seed, seed);
        assert!(2 <= input.columns && input.columns < 30);
        // the draw depends on the seed alone
        assert_eq!(FuzzInput::from_seed(seed), input);
    }
    // not every seed gives the same number
    let first = FuzzInput::from_seed(0).columns;
    assert!((1u64..64).any(|seed| FuzzInput::from_seed(seed).columns != first));
}

#[test]
fn engine_of_a_draw() {
    assert_eq!(Engine::for_draw(true), Engine::Metric);
    assert_eq!(Engine::for_draw(false), Engine::Mito);
    assert_eq!(Engine::Metric.name(), "metric");
    assert_eq!(Engine::Mito.name(), "mito");
    assert_eq!(Engine::Metric.option_name(), Some("physical_metric_table"));
    assert_eq!(Engine::Mito.option_name(), None);
}

//! Colour classification: discrete scores, labels, boundary exactness
//! and monotonicity.

use gdk::ThreadColor;

/// All five colours with their discrete scores and labels.
#[test]
fn test_thread_color_exhaustive() {
    let colors = vec![
        (ThreadColor::Red, 2000u32, "🔴 Red"),
        (ThreadColor::Orange, 4000u32, "🟠 Orange"),
        (ThreadColor::Yellow, 6000u32, "🟡 Yellow"),
        (ThreadColor::LightGreen, 8000u32, "🟢 Light Green"),
        (ThreadColor::Green, 10000u32, "💚 Green"),
    ];
    for (color, expected_score, expected_display) in colors {
        assert_eq!(color.to_score(), expected_score);
        assert_eq!(color.label(), expected_display);
    }
}

/// Exact behaviour at the classification breakpoints.
#[test]
fn test_thread_color_boundaries() {
    assert_eq!(
        ThreadColor::from_scores(9000, 9000, 9000, 9000),
        ThreadColor::Green
    );
    assert_eq!(
        ThreadColor::from_scores(8990, 9000, 9000, 9000),
        ThreadColor::LightGreen
    );

    assert_eq!(
        ThreadColor::from_scores(7000, 7000, 7000, 7000),
        ThreadColor::LightGreen
    );
    assert_eq!(
        ThreadColor::from_scores(6990, 7000, 7000, 7000),
        ThreadColor::Yellow
    );

    assert_eq!(
        ThreadColor::from_scores(5000, 5000, 5000, 5000),
        ThreadColor::Yellow
    );
    assert_eq!(
        ThreadColor::from_scores(4990, 5000, 5000, 5000),
        ThreadColor::Orange
    );

    assert_eq!(
        ThreadColor::from_scores(3000, 3000, 3000, 3000),
        ThreadColor::Orange
    );
    assert_eq!(
        ThreadColor::from_scores(2990, 3000, 3000, 3000),
        ThreadColor::Red
    );

    assert_eq!(ThreadColor::from_scores(0, 0, 0, 0), ThreadColor::Red);
    assert_eq!(
        ThreadColor::from_scores(10000, 10000, 10000, 10000),
        ThreadColor::Green
    );
}

/// Classification over representative whole-mean inputs.
#[test]
fn test_thread_color_scoring() {
    assert_eq!(
        ThreadColor::from_scores(10000, 10000, 10000, 10000),
        ThreadColor::Green
    );
    assert_eq!(
        ThreadColor::from_scores(8000, 8000, 8000, 8000),
        ThreadColor::LightGreen
    );
    assert_eq!(
        ThreadColor::from_scores(6000, 6000, 6000, 6000),
        ThreadColor::Yellow
    );
    assert_eq!(
        ThreadColor::from_scores(4000, 4000, 4000, 4000),
        ThreadColor::Orange
    );
    assert_eq!(
        ThreadColor::from_scores(1000, 1000, 1000, 1000),
        ThreadColor::Red
    );

    // Mixed scores classify by the mean alone.
    assert_eq!(
        ThreadColor::from_scores(10000, 8000, 6000, 4000),
        ThreadColor::LightGreen
    );
    assert_eq!(
        ThreadColor::from_scores(9000, 9000, 9000, 10000),
        ThreadColor::Green
    );
}

/// The labels of every colour.
#[test]
fn test_thread_color_display() {
    assert_eq!(ThreadColor::Red.label(), "🔴 Red");
    assert_eq!(ThreadColor::Orange.label(), "🟠 Orange");
    assert_eq!(ThreadColor::Yellow.label(), "🟡 Yellow");
    assert_eq!(ThreadColor::LightGreen.label(), "🟢 Light Green");
    assert_eq!(ThreadColor::Green.label(), "💚 Green");
}

/// Discrete scores stay within the unit scale.
#[test]
fn test_quality_metrics_bounds() {
    let colors = [
        ThreadColor::Red,
        ThreadColor::Orange,
        ThreadColor::Yellow,
        ThreadColor::LightGreen,
        ThreadColor::Green,
    ];
    for color in &colors {
        let score = color.to_score();
        assert!(score <= 10000, "Score {} out of bounds for {:?}", score, color);
    }
}

/// Boundary mean values on mixed components.
#[test]
fn test_quality_edge_cases() {
    let color = ThreadColor::from_scores(0, 0, 0, 0);
    assert_eq!(color, ThreadColor::Red);

    // One unit below and above the green breakpoint.
    let color1 = ThreadColor::from_scores(8999, 9000, 9000, 9000);
    let color2 = ThreadColor::from_scores(9001, 9000, 9000, 9000);
    assert_eq!(color1, ThreadColor::LightGreen);
    assert_eq!(color2, ThreadColor::Green);

    // Mixed extremes with mean one half.
    let color = ThreadColor::from_scores(10000, 0, 10000, 0);
    assert_eq!(color, ThreadColor::Yellow);
}

/// Raising every component never lowers the discrete score.
#[test]
fn test_classification_monotonic() {
    let steps: Vec<u32> = vec![0, 2500, 2999, 3000, 5000, 6999, 7000, 8999, 9000, 10000];
    let mut last = 0u32;
    for &s in &steps {
        let score = ThreadColor::from_scores(s, s, s, s).to_score();
        assert!(score >= last);
        last = score;
    }
}

/// The same inputs always give the same colour.
#[test]
fn test_classification_deterministic() {
    for s in [0u32, 1234, 5678, 9999, 10000] {
        let a = ThreadColor::from_scores(s, s / 2, s / 3, s / 4);
        let b = ThreadColor::from_scores(s, s / 2, s / 3, s / 4);
        assert_eq!(a, b);
        assert_eq!(a.to_score(), b.to_score());
    }
}

use latent::colors::Colors;

#[test]
fn primary_colors() {
    assert_eq!(Colors::Red.as_fractions(), [(1, 1), (0, 1), (0, 1), (1, 1)]);
    assert_eq!(Colors::Green.as_fractions(), [(0, 1), (1, 1), (0, 1), (1, 1)]);
    assert_eq!(Colors::Blue.as_fractions(), [(0, 1), (0, 1), (1, 1), (1, 1)]);
}

#[test]
fn mixed_presets() {
    assert_eq!(Colors::Gray.as_fractions(), [(1, 2), (1, 2), (1, 2), (1, 1)]);
    assert_eq!(Colors::Brown.as_fractions(), [(6, 10), (3, 10), (1, 10), (1, 1)]);
    assert_eq!(Colors::Orange.as_fractions(), [(1, 1), (1, 2), (0, 1), (1, 1)]);
    assert_eq!(Colors::Pink.as_fractions(), Colors::Magenta.as_fractions());
}

#[test]
fn custom_channels_are_bytes_over_255() {
    assert_eq!(
        Colors::Custom(255, 128, 0, 64).as_fractions(),
        [(255, 255), (128, 255), (0, 255), (64, 255)]
    );
}

#[test]
fn fractions_evaluate_to_unit_interval() {
    let all = [
        Colors::Red, Colors::Green, Colors::Blue, Colors::Yellow, Colors::Black,
        Colors::White, Colors::Gray, Colors::Purple, Colors::Pink, Colors::Brown,
        Colors::Orange, Colors::Magenta, Colors::Cyan, Colors::Custom(1, 2, 3, 4),
    ];
    for c in all {
        for (n, d) in c.as_fractions() {
            assert!(d > 0 && n <= d);
        }
    }
    let brown: Vec<f32> = Colors::Brown.as_fractions().iter().map(|&(n, d)| n as f32 / d as f32).collect();
    assert_eq!(brown, vec![0.6f32, 0.3, 0.1, 1.0]);
}

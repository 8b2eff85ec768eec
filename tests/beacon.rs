use rubicon::{color_of, hsl_to_rgb, mix, Beacon};

#[test]
fn mix_of_zero_is_zero() {
    assert_eq!(mix(0), 0);
}

#[test]
fn mix_known_values() {
    assert_eq!(mix(1), 0xcc4b308a357adf04);
    assert_eq!(mix(42), 0xeaf19b9063b8003c);
    assert_eq!(mix(u64::MAX), 0xb025393853c69ae9);
}

#[test]
fn hsl_primary_hues() {
    assert_eq!(hsl_to_rgb(0, 100, 50), (255, 0, 0));
    assert_eq!(hsl_to_rgb(u64::MAX, 100, 50), (255, 0, 0));
    assert_eq!(hsl_to_rgb(u64::MAX / 3 * 2, 100, 50), (0, 0, 255));
    assert_eq!(hsl_to_rgb(u64::MAX / 2, 100, 50), (0, 255, 254));
    assert_eq!(hsl_to_rgb(u64::MAX / 12, 100, 50), (255, 127, 0));
}

#[test]
fn hsl_extremes_of_lightness() {
    assert_eq!(hsl_to_rgb(12345, 0, 100), (255, 255, 255));
    assert_eq!(hsl_to_rgb(12345, 100, 0), (0, 0, 0));
    assert_eq!(hsl_to_rgb(u64::MAX / 6, 50, 70), (216, 216, 140));
}

#[test]
fn colors_of_known_values() {
    assert_eq!(color_of(0), ((216, 140, 140), (124, 53, 53)));
    assert_eq!(color_of(1), ((200, 140, 216), (109, 53, 124)));
    assert_eq!(color_of(0xdeadbeef), ((216, 175, 140), (124, 86, 53)));
    assert_eq!(color_of(u64::MAX), ((150, 140, 216), (62, 53, 124)));
}

#[test]
fn colors_are_deterministic() {
    for v in [0u64, 7, 99, 0xdeadbeef, u64::MAX] {
        assert_eq!(color_of(v), color_of(v));
        let a = Beacon::new("a", v);
        let b = Beacon::new("b", v);
        assert_eq!(a.fg(), b.fg());
        assert_eq!(a.bg(), b.bg());
    }
}

#[test]
fn colors_spread_over_inputs() {
    let samples = [0u64, 1, 2, 42, 0xdeadbeef, 12345678, u64::MAX];
    let first = color_of(samples[0]);
    assert!(samples.iter().any(|v| color_of(*v) != first));
}

#[test]
fn beacon_new_keeps_name_and_value() {
    let b = Beacon::new("N", 0x2a);
    assert_eq!(b.name(), "N");
    assert_eq!(b.val(), 0x2a);
    assert_eq!((b.fg(), b.bg()), color_of(0x2a));
}

#[test]
fn beacon_render_text() {
    let b = Beacon::new("main", 0);
    assert_eq!(
        b.render(),
        "\x1b[48;2;124;53;53m\x1b[38;2;216;140;140mmain#0\x1b[0m"
    );
    let b = Beacon::new("E", 0xdeadbeef);
    assert_eq!(
        b.render(),
        "\x1b[48;2;124;86;53m\x1b[38;2;216;175;140mE#deadbeef\x1b[0m"
    );
}

#[test]
fn beacon_from_ref_uses_address() {
    let x = 5u32;
    let b = Beacon::from_ref("x", &x);
    let addr = std::ptr::from_ref(&x) as usize as u64;
    assert_eq!(b.val(), addr);
    assert_eq!((b.fg(), b.bg()), color_of(addr));
}

#[test]
fn beacons_of_distinct_values_differ() {
    let x = 1u64;
    let y = 2u64;
    let a = Beacon::from_ref("x", &x);
    let b = Beacon::from_ref("y", &y);
    assert_ne!(a.val(), b.val());
}

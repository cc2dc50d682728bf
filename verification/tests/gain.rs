use soundboard::gain::Gain;

fn clamp(v: f32) -> f32 {
    f32::from_bits(Gain::from_bits(v.to_bits()).clamped().to_bits())
}

#[test]
fn clamp_limits_to_the_range() {
    assert_eq!(clamp(3.5), 2.0);
    assert_eq!(clamp(-1.0), 0.0);
    assert_eq!(clamp(0.5), 0.5);
    assert_eq!(clamp(2.0), 2.0);
    assert_eq!(clamp(0.0), 0.0);
    assert_eq!(clamp(f32::INFINITY), 2.0);
    assert_eq!(clamp(f32::NEG_INFINITY), 0.0);
    assert_eq!(clamp(f32::MIN_POSITIVE), f32::MIN_POSITIVE);
    assert_eq!(clamp(-f32::MIN_POSITIVE), 0.0);
    assert_eq!(clamp(2.0000002), 2.0);
    assert_eq!(clamp(1.9999999), 1.9999999);
}

#[test]
fn clamp_keeps_what_is_no_number() {
    assert!(clamp(f32::NAN).is_nan());
    let quiet = Gain::from_bits(0xffc0_0001);
    assert_eq!(quiet.clamped(), quiet);
}

#[test]
fn clamp_keeps_negative_zero() {
    let g = Gain::from_bits((-0.0f32).to_bits());
    assert_eq!(g.clamped().to_bits(), 0x8000_0000);
}

#[test]
fn clamp_agrees_with_the_float_clamp_on_a_sweep_of_patterns() {
    let mut bits: u32 = 0;
    loop {
        let v = f32::from_bits(bits);
        let got = Gain::from_bits(bits).clamped().to_bits();
        let want = v.clamp(0.0, 2.0).to_bits();
        assert_eq!(got, want, "pattern {:#x}", bits);
        match bits.checked_add(0x0001_0001) {
            Some(next) => bits = next,
            None => break,
        }
    }
}

#[test]
fn named_gains_have_their_values() {
    assert_eq!(f32::from_bits(Gain::zero().to_bits()), 0.0);
    assert_eq!(f32::from_bits(Gain::unity().to_bits()), 1.0);
    assert_eq!(f32::from_bits(Gain::double().to_bits()), 2.0);
    assert_eq!(Gain::from_bits(7).to_bits(), 7);
}

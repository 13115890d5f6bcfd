use mser::builder::MSERBuilder;
use mser::detector::MSER;
use mser::params::{Binary64, MserParams};

fn binary(v: f64) -> Binary64 {
    Binary64 { bits: v.to_bits() }
}

fn decoded(b: Binary64) -> f64 {
    f64::from_bits(b.bits)
}

#[test]
fn empty_builder_yields_documented_defaults() {
    let m: MSER = MSERBuilder::default().into();
    let p = m.params();
    assert_eq!(p.delta, 5);
    assert_eq!(p.min_area, 60);
    assert_eq!(p.max_area, 14400);
    assert_eq!(decoded(p.max_variation), 0.25);
    assert_eq!(decoded(p.min_diversity), 0.2);
    assert_eq!(p.max_evolution, 200);
    assert_eq!(decoded(p.area_threshold), 1.01);
    assert_eq!(decoded(p.min_margin), 0.003);
    assert_eq!(p.edge_blur_size, 5);
}

#[test]
fn params_defaults_match_empty_builder() {
    assert_eq!(MserParams::defaults(), MSERBuilder::default().resolve());
}

#[test]
fn last_setter_call_wins() {
    let b = MSERBuilder::default()
        .delta(3)
        .min_area(10)
        .delta(4)
        .max_variation(binary(0.5))
        .max_variation(binary(0.75));
    let p = b.resolve();
    assert_eq!(p.delta, 4);
    assert_eq!(p.min_area, 10);
    assert_eq!(decoded(p.max_variation), 0.75);
    assert_eq!(p.max_area, 14400);
}

#[test]
fn setting_a_default_value_again_keeps_it() {
    let p = MSERBuilder::default().edge_blur_size(5).resolve();
    assert_eq!(p, MserParams::defaults());
}

#[test]
fn every_setter_overrides_its_own_parameter_only() {
    let b = MSERBuilder::default()
        .delta(1)
        .min_area(2)
        .max_area(3)
        .max_variation(binary(0.5))
        .min_diversity(binary(0.6))
        .max_evolution(7)
        .area_threshold(binary(2.5))
        .min_margin(binary(0.01))
        .edge_blur_size(9);
    let m: MSER = b.into();
    let p = m.params();
    assert_eq!(p.delta, 1);
    assert_eq!(p.min_area, 2);
    assert_eq!(p.max_area, 3);
    assert_eq!(decoded(p.max_variation), 0.5);
    assert_eq!(decoded(p.min_diversity), 0.6);
    assert_eq!(p.max_evolution, 7);
    assert_eq!(decoded(p.area_threshold), 2.5);
    assert_eq!(decoded(p.min_margin), 0.01);
    assert_eq!(p.edge_blur_size, 9);

    let only_margin = MSERBuilder::default().min_margin(binary(0.5)).resolve();
    assert_eq!(decoded(only_margin.min_margin), 0.5);
    assert_eq!(
        MserParams { min_margin: binary(0.003), ..only_margin },
        MserParams::defaults()
    );
}

#[test]
fn setter_leaves_unset_fields_unset() {
    let b = MSERBuilder::default().max_evolution(50);
    assert_eq!(b.max_evolution, Some(50));
    assert_eq!(b.delta, None);
    assert_eq!(b.min_diversity, None);
}

#[test]
fn new_keeps_parameters_as_given() {
    let m = MSER::new(2, 30, 1000, binary(0.1), binary(0.3), 100, binary(1.5), binary(0.05), 0);
    let p = m.params();
    assert_eq!(p.delta, 2);
    assert_eq!(p.min_area, 30);
    assert_eq!(p.max_area, 1000);
    assert_eq!(decoded(p.max_variation), 0.1);
    assert_eq!(decoded(p.min_diversity), 0.3);
    assert_eq!(p.max_evolution, 100);
    assert_eq!(decoded(p.area_threshold), 1.5);
    assert_eq!(decoded(p.min_margin), 0.05);
    assert_eq!(p.edge_blur_size, 0);
}

#[test]
fn no_range_validation_is_applied() {
    let p = MSERBuilder::default()
        .delta(-1)
        .max_area(i32::MAX)
        .min_area(i32::MIN)
        .max_variation(binary(-3.0))
        .resolve();
    assert_eq!(p.delta, -1);
    assert_eq!(p.max_area, i32::MAX);
    assert_eq!(p.min_area, i32::MIN);
    assert_eq!(decoded(p.max_variation), -3.0);
}

#[test]
fn nan_parameter_is_carried_bit_for_bit() {
    let nan_bits: u64 = 0x7ff8_0000_0000_0001;
    let p = MSERBuilder::default().min_diversity(Binary64 { bits: nan_bits }).resolve();
    assert_eq!(p.min_diversity.bits, nan_bits);
}

#[test]
fn from_builder_matches_resolve() {
    let b = MSERBuilder::default().area_threshold(binary(1.2));
    let m = MSER::from(b);
    assert_eq!(m.params(), b.resolve());
}

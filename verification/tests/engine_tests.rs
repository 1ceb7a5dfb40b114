use kegs::codec::KegsPayload;
use kegs::expression::{color_to_code, FunctionEvalUnit};
use kegs::gradient::GradientUnit;

const AUTO: f32 = -1000001.0;

fn meta_batch(start: i64, records: &[(i64, i64)]) -> Vec<u8> {
    let mut p = KegsPayload::new();
    p.write_i64(start);
    for (fixture_id, typecode) in records {
        p.write_i64(*fixture_id);
        p.write_i64(*typecode);
        p.write_bytes(&[]);
    }
    p.into_bytes()
}

fn value_batch(start: i64, values: &[f32]) -> Vec<u8> {
    let mut p = KegsPayload::new();
    p.write_i64(start);
    for v in values {
        p.write_f32(v.to_bits());
    }
    p.into_bytes()
}

fn request(start: i64, len: i64, time_us: i64) -> Vec<u8> {
    let mut p = KegsPayload::new();
    p.write_i64(start);
    p.write_i64(len);
    p.write_i64(time_us);
    p.into_bytes()
}

fn floats_of(response: &[u8]) -> Vec<f32> {
    assert_eq!(response.len() % 4, 0);
    response
        .chunks(4)
        .map(|c| f32::from_le_bytes([c[0], c[1], c[2], c[3]]))
        .collect()
}

#[test]
fn gradient_linearity_midpoint() {
    let mut unit = GradientUnit::new();
    // Anchor fixture id=1 (red=255), auto fixture id=2, anchor fixture id=3 (red=0).
    unit.set_channel_metadata(meta_batch(0, &[(1, 1), (2, 1), (3, 1)]));
    unit.set_input_values(value_batch(0, &[255.0, AUTO, 0.0]));
    let out = floats_of(&unit.process(request(0, 3, 0)));
    assert_eq!(out, vec![255.0, 127.5, 0.0]);
}

#[test]
fn gradient_flat_hold_after_last_anchor() {
    let mut unit = GradientUnit::new();
    unit.set_channel_metadata(meta_batch(0, &[(1, 1), (2, 1), (3, 1)]));
    unit.set_input_values(value_batch(0, &[255.0, AUTO, AUTO]));
    let out = floats_of(&unit.process(request(0, 3, 0)));
    assert_eq!(out, vec![255.0, 255.0, 255.0]);
}

#[test]
fn gradient_passthrough_of_non_attribute_typecodes() {
    let mut unit = GradientUnit::new();
    // Typecode 0 and typecode 20 lie outside the attribute model.
    unit.set_channel_metadata(meta_batch(0, &[(1, 0), (1, 20), (1, 1)]));
    unit.set_input_values(value_batch(0, &[7.5, 3.25, 255.0]));
    let out = floats_of(&unit.process(request(0, 3, 0)));
    assert_eq!(out[0], 7.5);
    assert_eq!(out[1], 3.25);
    assert_eq!(out[2], 255.0);
}

#[test]
fn gradient_full_universe_bounds() {
    let unit = GradientUnit::new();
    let out = unit.process(request(0, 65536, 0));
    assert_eq!(out.len(), 65536 * 4);
    let vals = floats_of(&out);
    assert_eq!(vals.len(), 65536);
    assert!(vals.iter().all(|v| *v == 0.0));
}

#[test]
fn gradient_metadata_aux_blob_is_skipped() {
    let mut unit = GradientUnit::new();
    let mut p = KegsPayload::new();
    p.write_i64(0);
    p.write_i64(1); // fixture id
    p.write_i64(1); // typecode
    p.write_bytes(&[1, 2, 3, 4]); // auxiliary blob, not interpreted
    p.write_i64(2);
    p.write_i64(1);
    p.write_bytes(&[]);
    unit.set_channel_metadata(p.into_bytes());
    unit.set_input_values(value_batch(0, &[255.0, AUTO]));
    let out = floats_of(&unit.process(request(0, 2, 0)));
    assert_eq!(out, vec![255.0, 255.0]);
}

#[test]
fn expression_full_universe_bounds() {
    let unit = FunctionEvalUnit::new();
    let out = unit.process(request(0, 65536, 0));
    assert_eq!(out.len(), 65536 * 4);
    assert!(floats_of(&out).iter().all(|v| *v == 0.0));
}

#[test]
fn expression_evaluates_bound_formula() {
    let mut unit = FunctionEvalUnit::new();
    unit.set_channel_metadata(meta_batch(0, &[(1, 1)]));
    unit.set_input_values(value_batch(0, &[AUTO]));
    unit.set_config("{\"red\": \"time*2\"}");
    let out = floats_of(&unit.process(request(0, 1, 500000)));
    assert_eq!(out, vec![1.0]);
}

#[test]
fn expression_determinism() {
    let mut unit = FunctionEvalUnit::new();
    unit.set_channel_metadata(meta_batch(0, &[(1, 1), (1, 2), (1, 0)]));
    unit.set_input_values(value_batch(0, &[AUTO, AUTO, 4.5]));
    unit.set_config("{\"red\": \"time*2\", \"green\": \"3+4\"}");
    let first = unit.process(request(0, 3, 1_250_000));
    let second = unit.process(request(0, 3, 1_250_000));
    assert_eq!(first, second);
    let vals = floats_of(&first);
    assert_eq!(vals, vec![2.5, 7.0, 4.5]);
}

#[test]
fn expression_fallback_yields_zero_and_echo() {
    let mut unit = FunctionEvalUnit::new();
    // red is auto with no bound formula; green carries an explicit value.
    unit.set_channel_metadata(meta_batch(0, &[(1, 1), (1, 2)]));
    unit.set_input_values(value_batch(0, &[AUTO, 9.0]));
    unit.set_config("{}");
    let out = floats_of(&unit.process(request(0, 2, 0)));
    assert_eq!(out, vec![0.0, 9.0]);
}

#[test]
fn configuration_partial_failure() {
    let mut unit = FunctionEvalUnit::new();
    unit.set_channel_metadata(meta_batch(0, &[(1, 2), (1, 1)]));
    unit.set_input_values(value_batch(0, &[AUTO, AUTO]));
    // green's source is malformed and is skipped; red stays usable.
    unit.set_config("{\"green\": \"1+\", \"red\": \"2*3\"}");
    let out = floats_of(&unit.process(request(0, 2, 0)));
    assert_eq!(out[0], 0.0);
    assert_eq!(out[1], 6.0);
}

#[test]
fn configuration_reload_replaces_table() {
    let mut unit = FunctionEvalUnit::new();
    unit.set_channel_metadata(meta_batch(0, &[(1, 1)]));
    unit.set_input_values(value_batch(0, &[AUTO]));
    unit.set_config("{\"red\": \"5\"}");
    assert_eq!(floats_of(&unit.process(request(0, 1, 0))), vec![5.0]);
    unit.set_config("{}");
    assert_eq!(floats_of(&unit.process(request(0, 1, 0))), vec![0.0]);
}

#[test]
fn unrecognized_configuration_key_is_ignored() {
    let mut unit = FunctionEvalUnit::new();
    unit.set_channel_metadata(meta_batch(0, &[(1, 1)]));
    unit.set_input_values(value_batch(0, &[AUTO]));
    unit.set_config("{\"chartreuse\": \"5\"}");
    assert_eq!(floats_of(&unit.process(request(0, 1, 0))), vec![0.0]);
}

#[test]
fn color_codes() {
    let names = [
        ("red", 1),
        ("green", 2),
        ("blue", 3),
        ("white", 4),
        ("neutral_white", 5),
        ("warm_white", 6),
        ("cool_white", 7),
        ("amber", 8),
        ("lime", 9),
        ("uv", 10),
        ("x", 11),
        ("y", 12),
        ("magenta", -1),
        ("", -1),
    ];
    for (name, code) in names {
        assert_eq!(color_to_code(name), code);
    }
}

#[test]
fn single_channel_input_write() {
    let mut uni = kegs::channels::Universe::new();
    let mut p = KegsPayload::new();
    p.write_i64(5);
    p.write_f32(2.5f32.to_bits());
    uni.set_channel_input(p.into_bytes());
    assert_eq!(f32::from_bits(uni.value_at(5)), 2.5);
    assert_eq!(f32::from_bits(uni.value_at(4)), 0.0);
}

#[test]
fn single_channel_input_on_gradient_unit() {
    let mut unit = GradientUnit::new();
    unit.set_channel_metadata(meta_batch(0, &[(1, 20)]));
    let mut p = KegsPayload::new();
    p.write_i64(0);
    p.write_f32(6.5f32.to_bits());
    unit.set_channel_input(p.into_bytes());
    // Typecode 20 passes through, so the stored value comes straight back.
    let out = floats_of(&unit.process(request(0, 1, 0)));
    assert_eq!(out, vec![6.5]);
}

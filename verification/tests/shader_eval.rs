//! Behavioral tests: a small CPU interpreter executes the emitted fragment
//! shader (the module has one straight-line block, so interpretation is a
//! single pass) and the scenarios check the fragment colors the compiled
//! chains produce.

use hydra_spirv::ast::{ArgLit, Chain};
use hydra_spirv::spirv_visitor::SpirvEmitter;
use std::collections::HashMap;

fn num(v: f32) -> ArgLit {
    ArgLit::Num(v.to_bits())
}

fn call(name: &str, args: Vec<ArgLit>) -> Chain {
    Chain::Call { name: name.to_string(), args }
}

fn method(obj: Chain, name: &str, args: Vec<ArgLit>) -> Chain {
    Chain::MethodCall { obj: Box::new(obj), name: name.to_string(), call_arg: None, args }
}

fn binary(obj: Chain, name: &str, right: Chain, rest: Vec<ArgLit>) -> Chain {
    let mut args = vec![ArgLit::Skip];
    args.extend(rest);
    Chain::MethodCall {
        obj: Box::new(obj),
        name: name.to_string(),
        call_arg: Some(Box::new(right)),
        args,
    }
}

fn compile(chain: &Chain) -> Vec<u32> {
    SpirvEmitter::new().emit_pipeline(chain).expect("compile failed")
}

#[derive(Clone, Debug)]
enum Val {
    F(f32),
    B(bool),
    V(Vec<f32>),
    C(Vec<Val>),
}

impl Val {
    fn f(&self) -> f32 {
        match self {
            Val::F(x) => *x,
            other => panic!("expected scalar, got {other:?}"),
        }
    }

    fn v(&self) -> &[f32] {
        match self {
            Val::V(x) => x,
            other => panic!("expected vector, got {other:?}"),
        }
    }
}

/// Executes the fragment shader of `words` for one fragment and returns the
/// color stored to the output variable, if any.
fn run_fragment(words: &[u32], frag_coord: [f32; 4], globals: [f32; 4]) -> Option<[f32; 4]> {
    assert_eq!(words[0], 0x0723_0203, "not a SPIR-V module");
    let mut env: HashMap<u32, Val> = HashMap::new();
    // storage class of each OpVariable result id: 1 input, 2 uniform, 3 output
    let mut storage: HashMap<u32, u32> = HashMap::new();
    let mut output: Option<[f32; 4]> = None;
    let mut i = 5;
    while i < words.len() {
        let count = (words[i] >> 16) as usize;
        let opcode = words[i] & 0xffff;
        assert!(count >= 1 && i + count <= words.len(), "bad instruction stream");
        let ops = &words[i + 1..i + count];
        match opcode {
            59 => {
                // OpVariable: [result type, result, storage class]
                storage.insert(ops[1], ops[2]);
            }
            43 => {
                // OpConstant: [result type, result, literal bits]
                env.insert(ops[1], Val::F(f32::from_bits(ops[2])));
            }
            61 => {
                // OpLoad: [result type, result, pointer]
                let val = match storage.get(&ops[2]) {
                    Some(1) => Val::V(frag_coord.to_vec()),
                    Some(2) => Val::C(vec![Val::V(globals.to_vec())]),
                    other => panic!("load from unexpected variable {other:?}"),
                };
                env.insert(ops[1], val);
            }
            62 => {
                // OpStore: [pointer, object]
                assert_eq!(storage.get(&ops[0]), Some(&3u32), "store must hit the output");
                let v = env[&ops[1]].v();
                output = Some([v[0], v[1], v[2], v[3]]);
            }
            81 => {
                // OpCompositeExtract: [result type, result, composite, index]
                let idx = ops[3] as usize;
                let val = match &env[&ops[2]] {
                    Val::V(xs) => Val::F(xs[idx]),
                    Val::C(parts) => parts[idx].clone(),
                    other => panic!("extract from {other:?}"),
                };
                env.insert(ops[1], val);
            }
            80 => {
                // OpCompositeConstruct: [result type, result, parts...]
                let parts: Vec<f32> = ops[2..].iter().map(|id| env[id].f()).collect();
                env.insert(ops[1], Val::V(parts));
            }
            79 => {
                // OpVectorShuffle: [result type, result, v1, v2, components...]
                let v1 = env[&ops[2]].v().to_vec();
                let v2 = env[&ops[3]].v().to_vec();
                let both: Vec<f32> = v1.iter().chain(v2.iter()).copied().collect();
                let picked: Vec<f32> = ops[4..].iter().map(|c| both[*c as usize]).collect();
                env.insert(ops[1], Val::V(picked));
            }
            129 | 131 | 133 | 136 => {
                let op = |a: f32, b: f32| match opcode {
                    129 => a + b,
                    131 => a - b,
                    133 => a * b,
                    _ => a / b,
                };
                let r = match (&env[&ops[2]], &env[&ops[3]]) {
                    (Val::F(a), Val::F(b)) => Val::F(op(*a, *b)),
                    (Val::V(a), Val::V(b)) => {
                        Val::V(a.iter().zip(b.iter()).map(|(x, y)| op(*x, *y)).collect())
                    }
                    (a, b) => panic!("arithmetic on {a:?} and {b:?}"),
                };
                env.insert(ops[1], r);
            }
            184 => {
                // OpFOrdLessThan
                let a = env[&ops[2]].f();
                let b = env[&ops[3]].f();
                env.insert(ops[1], Val::B(a < b));
            }
            169 => {
                // OpSelect: [result type, result, cond, if true, if false]
                let c = match env[&ops[2]] {
                    Val::B(b) => b,
                    ref other => panic!("select on {other:?}"),
                };
                let r = if c { env[&ops[3]].clone() } else { env[&ops[4]].clone() };
                env.insert(ops[1], r);
            }
            12 => {
                // OpExtInst: [result type, result, set, opcode, args...]
                let args: Vec<f32> = ops[4..].iter().map(|id| env[id].f()).collect();
                let r = match ops[3] {
                    4 => args[0].abs(),
                    8 => args[0].floor(),
                    13 => args[0].sin(),
                    14 => args[0].cos(),
                    25 => args[0].atan2(args[1]),
                    26 => args[0].powf(args[1]),
                    32 => args[0].sqrt(),
                    39 => args[0].min(args[1]),
                    42 => args[0].max(args[1]),
                    other => panic!("unhandled GLSL.std.450 opcode {other}"),
                };
                env.insert(ops[1], Val::F(r));
            }
            // types, decorations, interface and structure: nothing to execute
            11 | 14 | 15 | 16 | 17 | 19 | 20 | 22 | 23 | 30 | 32 | 33 | 54 | 56 | 71 | 72
            | 248 | 253 => {}
            other => panic!("unhandled opcode {other}"),
        }
        i += count;
    }
    output
}

/// The fixed fragment post-processing of the entry assembly: auto-exposure,
/// the ACES approximation, then a clamp of every channel.
fn reference_post(rgba: [f32; 4]) -> [f32; 4] {
    let luma = 0.299f32 * rgba[0] + 0.587f32 * rgba[1] + 0.114f32 * rgba[2];
    let gain = (1.0f32 / (luma + 0.02f32)).min(6.0f32);
    let aces = |x: f32| (x * (2.51f32 * x + 0.03f32)) / (x * (2.43f32 * x + 0.59f32) + 0.14f32);
    let clamp01 = |x: f32| x.max(0.0).min(1.0);
    [
        clamp01(aces(rgba[0] * gain)),
        clamp01(aces(rgba[1] * gain)),
        clamp01(aces(rgba[2] * gain)),
        clamp01(rgba[3]),
    ]
}

const GLOBALS: [f32; 4] = [0.0, 100.0, 100.0, 0.0];

fn frag(x: f32, y: f32) -> [f32; 4] {
    // FragCoord in pixels over a 100x100 viewport
    [x * 100.0, y * 100.0, 0.0, 1.0]
}

fn run_at(words: &[u32], x: f32, y: f32) -> [f32; 4] {
    run_fragment(words, frag(x, y), GLOBALS).expect("fragment wrote no color")
}

fn assert_close(a: [f32; 4], b: [f32; 4]) {
    for c in 0..4 {
        assert!(
            (a[c] - b[c]).abs() <= 1e-5,
            "channel {c} differs: {a:?} vs {b:?}"
        );
    }
}

const PROBES: [(f32, f32); 5] = [(0.0, 0.0), (0.25, 0.75), (0.5, 0.5), (0.8, 0.3), (0.99, 0.99)];

fn assert_same_image(wa: &[u32], wb: &[u32]) {
    for (x, y) in PROBES {
        assert_close(run_at(wa, x, y), run_at(wb, x, y));
    }
}

#[test]
fn solid_out_then_src_reads_the_same_color_back() {
    // blend(.., 1) replaces the lower color entirely, so the chain below
    // shows exactly what src(0) read back from out(0)
    let through_src = compile(&method(
        binary(
            method(call("solid", vec![num(0.3), num(0.7), num(0.2), num(1.0)]), "out", vec![num(0.0)]),
            "blend",
            call("src", vec![num(0.0)]),
            vec![num(1.0)],
        ),
        "out",
        vec![num(1.0)],
    ));
    let direct = compile(&method(call("solid", vec![num(0.3), num(0.7), num(0.2), num(1.0)]), "out", vec![]));
    assert_same_image(&through_src, &direct);
}

#[test]
fn src_of_unbound_buffer_falls_back_to_solid_defaults() {
    // an unbound buffer reads as solid() with default arguments:
    // transparent black with alpha one, whatever src's own arguments were
    let fallback = compile(&method(call("src", vec![num(3.0)]), "out", vec![]));
    let solid_default = compile(&method(call("solid", vec![]), "out", vec![]));
    assert_same_image(&fallback, &solid_default);
    for (x, y) in PROBES {
        assert_close(run_at(&fallback, x, y), reference_post([0.0, 0.0, 0.0, 1.0]));
    }
}

#[test]
fn modulate_missing_amount_behaves_as_amount_one() {
    // like every amount-taking binary, a modulating binary with a missing
    // second argument behaves as amount = 1
    let implicit = compile(&method(
        binary(call("osc", vec![num(30.0), num(0.1)]), "modulate", call("noise", vec![num(3.0)]), vec![]),
        "out",
        vec![],
    ));
    let explicit = compile(&method(
        binary(call("osc", vec![num(30.0), num(0.1)]), "modulate", call("noise", vec![num(3.0)]), vec![num(1.0)]),
        "out",
        vec![],
    ));
    assert_eq!(implicit, explicit);
    let ms_implicit = compile(&method(
        binary(call("osc", vec![num(30.0), num(0.1)]), "modulateScale", call("noise", vec![num(3.0)]), vec![]),
        "out",
        vec![],
    ));
    let ms_explicit = compile(&method(
        binary(call("osc", vec![num(30.0), num(0.1)]), "modulateScale", call("noise", vec![num(3.0)]), vec![num(1.0)]),
        "out",
        vec![],
    ));
    assert_eq!(ms_implicit, ms_explicit);
}

#[test]
fn binary_missing_amount_behaves_as_amount_one() {
    let noise = || call("noise", vec![num(3.0), num(0.1)]);
    let implicit = compile(&method(binary(call("osc", vec![num(20.0)]), "add", noise(), vec![]), "out", vec![]));
    let explicit = compile(&method(
        binary(call("osc", vec![num(20.0)]), "add", noise(), vec![num(1.0)]),
        "out",
        vec![],
    ));
    assert_same_image(&implicit, &explicit);
}

#[test]
fn diff_and_layer_ignore_the_amount_argument() {
    let osc = || call("osc", vec![num(20.0)]);
    let noise = || call("noise", vec![num(3.0)]);
    let diff_none = compile(&method(binary(osc(), "diff", noise(), vec![]), "out", vec![]));
    let diff_some = compile(&method(binary(osc(), "diff", noise(), vec![num(0.25)]), "out", vec![]));
    assert_same_image(&diff_none, &diff_some);
    let layer_none = compile(&method(binary(osc(), "layer", noise(), vec![]), "out", vec![]));
    let layer_some = compile(&method(binary(osc(), "layer", noise(), vec![num(0.25)]), "out", vec![]));
    assert_same_image(&layer_none, &layer_some);
}

#[test]
fn invert_zero_is_the_identity() {
    let plain = compile(&method(call("solid", vec![num(0.3), num(0.6), num(0.9), num(1.0)]), "out", vec![]));
    let inverted = compile(&method(
        method(call("solid", vec![num(0.3), num(0.6), num(0.9), num(1.0)]), "invert", vec![num(0.0)]),
        "out",
        vec![],
    ));
    assert_same_image(&plain, &inverted);
}

#[test]
fn brightness_contrast_saturate_at_one_are_identities() {
    for op in ["brightness", "contrast", "saturate"] {
        let plain = compile(&method(call("osc", vec![num(25.0), num(0.1)]), "out", vec![]));
        let wrapped = compile(&method(
            method(call("osc", vec![num(25.0), num(0.1)]), op, vec![num(1.0)]),
            "out",
            vec![],
        ));
        for (x, y) in PROBES {
            assert_close(run_at(&plain, x, y), run_at(&wrapped, x, y));
        }
    }
}

#[test]
fn unit_spatial_transforms_leave_coordinates_unchanged() {
    let base = || call("osc", vec![num(25.0), num(0.1)]);
    let plain = compile(&method(base(), "out", vec![]));
    let scaled = compile(&method(method(base(), "scale", vec![num(1.0), num(1.0)]), "out", vec![]));
    let rotated = compile(&method(method(base(), "rotate", vec![num(0.0), num(0.0)]), "out", vec![]));
    let repeated = compile(&method(method(base(), "repeat", vec![num(1.0), num(1.0)]), "out", vec![]));
    assert_same_image(&plain, &scaled);
    assert_same_image(&plain, &rotated);
    assert_same_image(&plain, &repeated);
}

#[test]
fn solid_scenario_is_monotone_and_clamped() {
    let words = compile(&method(call("solid", vec![num(0.2), num(0.4), num(0.6), num(1.0)]), "out", vec![num(0.0)]));
    for (x, y) in PROBES {
        let got = run_at(&words, x, y);
        assert_close(got, reference_post([0.2, 0.4, 0.6, 1.0]));
        assert!(got[0] < got[1] && got[1] < got[2], "monotone in the inputs: {got:?}");
        for c in got {
            assert!((0.0..=1.0).contains(&c));
        }
    }
}

#[test]
fn osc_scenario_at_origin_matches_the_formula() {
    let words = compile(&method(call("osc", vec![num(60.0), num(0.0), num(0.0)]), "out", vec![num(0.0)]));
    // uv.x = 0, time = 0: each channel is sin(0)*0.5 + 0.5 = 0.5 pre-tonemap
    let got = run_at(&words, 0.0, 0.37);
    assert_close(got, reference_post([0.5, 0.5, 0.5, 1.0]));
}

#[test]
fn osc_scenario_off_origin_uses_per_channel_offsets() {
    let offset = 30.0f32;
    let words = compile(&method(call("osc", vec![num(60.0), num(0.0), num(offset)]), "out", vec![num(0.0)]));
    let x = 0.73f32;
    let uv_x = (x * 100.0) / 100.0;
    let channel = |mult: f32| ((uv_x + offset * (mult / 60.0)) * 60.0).sin() * 0.5 + 0.5;
    let expected = reference_post([channel(-2.0), channel(0.0), channel(1.0), 1.0]);
    assert_close(run_at(&words, x, 0.5), expected);
}

#[test]
fn inverted_white_is_black_with_full_alpha() {
    let words = compile(&method(
        method(call("solid", vec![num(1.0), num(1.0), num(1.0), num(1.0)]), "invert", vec![num(1.0)]),
        "out",
        vec![num(0.0)],
    ));
    for (x, y) in PROBES {
        let got = run_at(&words, x, y);
        assert_eq!(got, [0.0, 0.0, 0.0, 1.0]);
    }
}

#[test]
fn shape_scenario_center_is_inside_the_polygon() {
    let words = compile(&method(call("shape", vec![num(4.0), num(0.5), num(0.0)]), "out", vec![num(0.0)]));
    // at uv = (0.5, 0.5) the mask is one
    let got = run_at(&words, 0.5, 0.5);
    assert_close(got, reference_post([1.0, 1.0, 1.0, 1.0]));
}

#[test]
fn layer_scenario_opaque_upper_layer_wins() {
    let words = compile(&method(
        binary(
            call("solid", vec![num(0.0), num(0.0), num(0.0), num(1.0)]),
            "layer",
            call("solid", vec![num(1.0), num(0.0), num(0.0), num(1.0)]),
            vec![],
        ),
        "out",
        vec![num(0.0)],
    ));
    let red = compile(&method(call("solid", vec![num(1.0), num(0.0), num(0.0), num(1.0)]), "out", vec![]));
    assert_same_image(&words, &red);
    let got = run_at(&words, 0.5, 0.5);
    assert!(got[0] > 0.9 && got[1] < 0.2 && got[2] < 0.2 && got[3] == 1.0, "{got:?}");
}

#[test]
fn modulate_with_zero_amount_is_the_identity_on_coordinates() {
    let base = || call("osc", vec![num(30.0), num(0.1), num(0.0)]);
    let modulated = compile(&method(
        binary(base(), "modulate", call("noise", vec![num(3.0)]), vec![num(0.0)]),
        "out",
        vec![num(0.0)],
    ));
    let plain = compile(&method(base(), "out", vec![num(0.0)]));
    assert_same_image(&modulated, &plain);
}

#[test]
fn gradient_matches_uv_and_time() {
    let words = compile(&method(call("gradient", vec![]), "out", vec![]));
    let got = run_at(&words, 0.25, 0.75);
    assert_close(got, reference_post([0.25, 0.75, 0.0f32.sin(), 1.0]));
}

#[test]
fn pixelate_snaps_to_cell_centers() {
    let base = || call("gradient", vec![]);
    let words = compile(&method(method(base(), "pixelate", vec![num(10.0), num(10.0)]), "out", vec![]));
    // both fragments lie in the same 10x10 cell, so their colors agree
    let a = run_at(&words, 0.51, 0.51);
    let b = run_at(&words, 0.58, 0.59);
    assert_close(a, b);
    // and the sampled coordinate is the cell center
    let center = run_at(&words, 0.55, 0.55);
    let expected = compile(&method(base(), "out", vec![]));
    assert_close(center, run_at(&expected, 0.55, 0.55));
}

#[test]
fn thresh_splits_black_and_white() {
    let words = compile(&method(
        method(call("gradient", vec![]), "thresh", vec![num(0.5), num(1.0)]),
        "out",
        vec![],
    ));
    // gradient at (0.2, 0.1) is (0.2, 0.1, sin 0, 1): every channel below
    // the threshold; at (0.9, 0.8) the x and y channels cross it
    let dark = run_at(&words, 0.2, 0.1);
    let bright = run_at(&words, 0.9, 0.8);
    assert_close(dark, reference_post([0.0, 0.0, 0.0, 1.0]));
    assert_close(bright, reference_post([1.0, 1.0, 0.0, 1.0]));
}

// ---- reference computations for the operator formulas ----

fn ref_mix(a: f32, b: f32, t: f32) -> f32 {
    a * (1.0 - t) + b * t
}

fn ref_luma(c: [f32; 4]) -> f32 {
    c[0] * 0.299 + c[1] * 0.587 + c[2] * 0.114
}

fn ref_hue(c: [f32; 4], angle: f32) -> [f32; 4] {
    let y = ref_luma(c);
    let i = c[0] * 0.596 + c[1] * -0.275 + c[2] * -0.321;
    let q = c[0] * 0.212 + c[1] * -0.523 + c[2] * 0.311;
    let (cos_a, sin_a) = (angle.cos(), angle.sin());
    let i2 = i * cos_a - q * sin_a;
    let q2 = i * sin_a + q * cos_a;
    [
        y + i2 * 0.956 + q2 * 0.621,
        y + i2 * -0.272 + q2 * -0.647,
        y + i2 * -1.105 + q2 * 1.702,
        c[3],
    ]
}

fn ref_fract(x: f32) -> f32 {
    x - x.floor()
}

fn ref_hash(hx: f32, hy: f32) -> f32 {
    ref_fract((hx * 127.1 + hy * 311.7).sin() * 43758.5453)
}

/// gradient at time zero
fn ref_gradient(x: f32, y: f32) -> [f32; 4] {
    [x, y, 0.0f32.sin(), 1.0]
}

#[test]
fn color_multiplies_every_channel() {
    let words = compile(&method(
        method(
            call("solid", vec![num(0.5), num(0.4), num(0.8), num(1.0)]),
            "color",
            vec![num(0.5), num(2.0), num(0.25), num(0.5)],
        ),
        "out",
        vec![],
    ));
    assert_close(run_at(&words, 0.5, 0.5), reference_post([0.25, 0.8, 0.2, 0.5]));
}

#[test]
fn brightness_scales_rgb_only() {
    let words = compile(&method(
        method(call("solid", vec![num(0.2), num(0.4), num(0.6), num(1.0)]), "brightness", vec![num(0.5)]),
        "out",
        vec![],
    ));
    assert_close(run_at(&words, 0.3, 0.3), reference_post([0.1, 0.2, 0.3, 1.0]));
}

#[test]
fn contrast_expands_around_one_half() {
    let words = compile(&method(
        method(call("solid", vec![num(0.2), num(0.4), num(0.6), num(1.0)]), "contrast", vec![num(2.0)]),
        "out",
        vec![],
    ));
    let expect = |ch: f32| (ch - 0.5) * 2.0 + 0.5;
    assert_close(
        run_at(&words, 0.3, 0.3),
        reference_post([expect(0.2), expect(0.4), expect(0.6), 1.0]),
    );
}

#[test]
fn saturate_mixes_toward_luma() {
    let c = [0.2f32, 0.4, 0.6, 1.0];
    let words = compile(&method(
        method(call("solid", vec![num(c[0]), num(c[1]), num(c[2]), num(c[3])]), "saturate", vec![num(0.5)]),
        "out",
        vec![],
    ));
    let l = ref_luma(c);
    assert_close(
        run_at(&words, 0.3, 0.3),
        reference_post([ref_mix(l, c[0], 0.5), ref_mix(l, c[1], 0.5), ref_mix(l, c[2], 0.5), 1.0]),
    );
}

#[test]
fn luma_replicates_luminance_keeping_alpha() {
    let c = [0.2f32, 0.4, 0.6, 0.5];
    let words = compile(&method(
        method(call("solid", vec![num(c[0]), num(c[1]), num(c[2]), num(c[3])]), "luma", vec![]),
        "out",
        vec![],
    ));
    let l = ref_luma(c);
    assert_close(run_at(&words, 0.3, 0.3), reference_post([l, l, l, 0.5]));
}

#[test]
fn shift_adds_then_clamps_each_channel() {
    let words = compile(&method(
        method(
            call("solid", vec![num(0.5), num(0.5), num(0.9), num(1.0)]),
            "shift",
            vec![num(0.1), num(-0.2), num(0.3), num(-0.5)],
        ),
        "out",
        vec![],
    ));
    assert_close(run_at(&words, 0.3, 0.3), reference_post([0.6, 0.3, 1.0, 0.5]));
}

#[test]
fn hue_rotates_in_yiq_space() {
    let c = [0.5f32, 0.2, 0.8, 1.0];
    let words = compile(&method(
        method(call("solid", vec![num(c[0]), num(c[1]), num(c[2]), num(c[3])]), "hue", vec![num(1.0)]),
        "out",
        vec![],
    ));
    assert_close(run_at(&words, 0.3, 0.3), reference_post(ref_hue(c, 1.0)));
}

#[test]
fn colorama_at_time_zero_matches_hue_zero() {
    let c = || call("solid", vec![num(0.5), num(0.2), num(0.8), num(1.0)]);
    let colorama = compile(&method(method(c(), "colorama", vec![num(0.7)]), "out", vec![]));
    let hue0 = compile(&method(method(c(), "hue", vec![num(0.0)]), "out", vec![]));
    assert_same_image(&colorama, &hue0);
}

#[test]
fn posterize_quantizes_through_gamma() {
    let c = [0.2f32, 0.45, 0.7, 1.0];
    let words = compile(&method(
        method(call("solid", vec![num(c[0]), num(c[1]), num(c[2]), num(c[3])]), "posterize", vec![num(4.0), num(0.6)]),
        "out",
        vec![],
    ));
    let safe_pow = |x: f32, y: f32| x.max(0.0).min(1.0).powf(y);
    let inv_gamma = 1.0f32 / 0.6;
    let expect = |ch: f32| {
        let lin = safe_pow(ch, inv_gamma);
        let q = (lin * 4.0).floor() / 4.0;
        safe_pow(q, 0.6)
    };
    assert_close(
        run_at(&words, 0.3, 0.3),
        reference_post([expect(c[0]), expect(c[1]), expect(c[2]), 1.0]),
    );
}

#[test]
fn add_sub_mult_blend_follow_the_mix_formula() {
    let a = [0.2f32, 0.5, 0.8, 1.0];
    let b = [0.4f32, 0.1, 0.5, 0.5];
    let amt = 0.3f32;
    let left = || call("solid", vec![num(0.2), num(0.5), num(0.8), num(1.0)]);
    let right = || call("solid", vec![num(0.4), num(0.1), num(0.5), num(0.5)]);
    let cases: [(&str, fn(f32, f32) -> f32); 4] = [
        ("add", |x, y| x + y),
        ("sub", |x, y| x - y),
        ("mult", |x, y| x * y),
        ("blend", |_, y| y),
    ];
    for (name, op) in cases {
        let words = compile(&method(binary(left(), name, right(), vec![num(amt)]), "out", vec![]));
        let expect: Vec<f32> = (0..4).map(|c| ref_mix(a[c], op(a[c], b[c]), amt)).collect();
        assert_close(
            run_at(&words, 0.3, 0.3),
            reference_post([expect[0], expect[1], expect[2], expect[3]]),
        );
    }
}

#[test]
fn mask_attenuates_by_the_mask_luma() {
    let a = [0.5f32, 0.6, 0.7, 1.0];
    let b = [0.2f32, 0.4, 0.6, 1.0];
    let words = compile(&method(
        binary(
            call("solid", vec![num(a[0]), num(a[1]), num(a[2]), num(a[3])]),
            "mask",
            call("solid", vec![num(b[0]), num(b[1]), num(b[2]), num(b[3])]),
            vec![],
        ),
        "out",
        vec![],
    ));
    let l = ref_luma(b);
    assert_close(
        run_at(&words, 0.3, 0.3),
        reference_post([a[0] * l, a[1] * l, a[2] * l, a[3] * l]),
    );
}

#[test]
fn diff_takes_absolute_channel_differences() {
    let words = compile(&method(
        binary(
            call("solid", vec![num(0.2), num(0.9), num(0.5), num(1.0)]),
            "diff",
            call("solid", vec![num(0.7), num(0.3), num(0.5), num(1.0)]),
            vec![],
        ),
        "out",
        vec![],
    ));
    assert_close(run_at(&words, 0.3, 0.3), reference_post([0.5, 0.6, 0.0, 0.0]));
}

#[test]
fn scroll_offsets_and_wraps_both_axes() {
    let words = compile(&method(
        method(call("gradient", vec![]), "scroll", vec![num(0.25), num(0.5), num(0.0), num(0.0)]),
        "out",
        vec![],
    ));
    let (x, y) = (0.9f32, 0.7f32);
    let expect = ref_gradient(ref_fract(x + 0.25), ref_fract(y + 0.5));
    assert_close(run_at(&words, x, y), reference_post(expect));
}

#[test]
fn scroll_x_and_y_touch_only_their_axis() {
    let (x, y) = (0.6f32, 0.7f32);
    let wx = compile(&method(method(call("gradient", vec![]), "scrollX", vec![num(0.3)]), "out", vec![]));
    assert_close(run_at(&wx, x, y), reference_post(ref_gradient(ref_fract(x + 0.3), ref_fract(y))));
    let wy = compile(&method(method(call("gradient", vec![]), "scrollY", vec![num(0.3)]), "out", vec![]));
    assert_close(run_at(&wy, x, y), reference_post(ref_gradient(ref_fract(x), ref_fract(y + 0.3))));
}

#[test]
fn repeat_tiles_each_axis_by_its_factor() {
    let words = compile(&method(
        method(call("gradient", vec![]), "repeat", vec![num(3.0), num(2.0)]),
        "out",
        vec![],
    ));
    let (x, y) = (0.8f32, 0.9f32);
    let expect = ref_gradient(ref_fract(x * 3.0), ref_fract(y * 2.0));
    assert_close(run_at(&words, x, y), reference_post(expect));
    // repeatX leaves the y axis at factor one
    let wx = compile(&method(method(call("gradient", vec![]), "repeatX", vec![num(3.0)]), "out", vec![]));
    assert_close(
        run_at(&wx, x, y),
        reference_post(ref_gradient(ref_fract(x * 3.0), ref_fract(y * 1.0))),
    );
}

#[test]
fn scale_divides_centered_coordinates() {
    let words = compile(&method(
        method(call("gradient", vec![]), "scale", vec![num(2.0), num(0.5)]),
        "out",
        vec![],
    ));
    let (x, y) = (0.8f32, 0.4f32);
    let expect = ref_gradient((x - 0.5) / 2.0f32.max(1e-6) + 0.5, (y - 0.5) / 0.5f32.max(1e-6) + 0.5);
    assert_close(run_at(&words, x, y), reference_post(expect));
}

#[test]
fn kaleid_folds_the_angle_into_sectors() {
    let words = compile(&method(method(call("gradient", vec![]), "kaleid", vec![num(4.0)]), "out", vec![]));
    let (x, y) = (0.8f32, 0.65f32);
    let (x_c, y_c) = (x - 0.5, y - 0.5);
    let r = (x_c * x_c + y_c * y_c).sqrt();
    let angle = y_c.atan2(x_c);
    let two_pi = 6.28318530718f32;
    let sector = two_pi / 4.0f32.max(1.0);
    let sector_half = sector * 0.5;
    let fmod = |a: f32, m: f32| a - m * (a / m).floor();
    let angle_pos = fmod(angle, two_pi);
    let angle_sector = fmod(angle_pos, sector);
    let fold = (angle_sector - sector_half).abs();
    let expect = ref_gradient(fold.cos() * r + 0.5, fold.sin() * r + 0.5);
    assert_close(run_at(&words, x, y), reference_post(expect));
}

#[test]
fn modulate_displaces_by_the_modulator_channels() {
    let m = [0.9f32, 0.1, 0.0, 1.0];
    let amt = 0.4f32;
    let words = compile(&method(
        binary(
            call("gradient", vec![]),
            "modulate",
            call("solid", vec![num(m[0]), num(m[1]), num(m[2]), num(m[3])]),
            vec![num(amt)],
        ),
        "out",
        vec![],
    ));
    let (x, y) = (0.3f32, 0.6f32);
    let clamp01 = |v: f32| v.max(0.0).min(1.0);
    let nx = clamp01(x + (m[0] - 0.5) * amt);
    let ny = clamp01(y + (m[1] - 0.5) * amt);
    assert_close(run_at(&words, x, y), reference_post(ref_gradient(nx, ny)));
}

#[test]
fn modulate_scale_divides_by_one_plus_luma_times_amount() {
    let m = [0.9f32, 0.4, 0.2, 1.0];
    let amt = 0.6f32;
    let words = compile(&method(
        binary(
            call("gradient", vec![]),
            "modulateScale",
            call("solid", vec![num(m[0]), num(m[1]), num(m[2]), num(m[3])]),
            vec![num(amt)],
        ),
        "out",
        vec![],
    ));
    let (x, y) = (0.8f32, 0.3f32);
    let factor = 1.0 + ref_luma(m) * amt;
    let inv = 1.0 / factor;
    let expect = ref_gradient((x - 0.5) * inv + 0.5, (y - 0.5) * inv + 0.5);
    assert_close(run_at(&words, x, y), reference_post(expect));
}

#[test]
fn modulate_hue_rotates_by_the_modulator_luma() {
    let m = [0.9f32, 0.4, 0.2, 1.0];
    let amt = 2.0f32;
    let words = compile(&method(
        binary(
            call("gradient", vec![]),
            "modulateHue",
            call("solid", vec![num(m[0]), num(m[1]), num(m[2]), num(m[3])]),
            vec![num(amt)],
        ),
        "out",
        vec![],
    ));
    let (x, y) = (0.7f32, 0.2f32);
    let expect = ref_hue(ref_gradient(x, y), ref_luma(m) * amt);
    assert_close(run_at(&words, x, y), reference_post(expect));
}

#[test]
fn noise_single_octave_follows_the_lattice_formula() {
    let freq = 3.0f32;
    let words = compile(&method(call("noise", vec![num(freq), num(0.0), num(1.0)]), "out", vec![]));
    let (x, y) = (0.27f32, 0.83f32);
    let (xt, yt) = (x * freq, y * freq);
    let (ix, iy) = (xt.floor(), yt.floor());
    let (fx, fy) = (ref_fract(xt), ref_fract(yt));
    let r00 = ref_hash(ix, iy);
    let r10 = ref_hash(ix + 1.0, iy);
    let r01 = ref_hash(ix, iy + 1.0);
    let r11 = ref_hash(ix + 1.0, iy + 1.0);
    let ux = fx * fx * (3.0 - 2.0 * fx);
    let uy = fy * fy * (3.0 - 2.0 * fy);
    let val = ref_mix(ref_mix(r00, r10, ux), ref_mix(r01, r11, ux), uy);
    assert_close(run_at(&words, x, y), reference_post([val, val, val, 1.0]));
}

#[test]
fn voronoi_takes_the_nearest_jittered_feature_point() {
    let (freq, jitter) = (5.0f32, 0.8f32);
    let words = compile(&method(call("voronoi", vec![num(freq), num(jitter)]), "out", vec![]));
    let (x, y) = (0.42f32, 0.66f32);
    let (sx, sy) = (x * freq, y * freq);
    let (ix, iy) = (sx.floor(), sy.floor());
    let (fx, fy) = (ref_fract(sx), ref_fract(sy));
    let mut dmin = 9999.0f32;
    for dy in [-1.0f32, 0.0, 1.0] {
        for dx in [-1.0f32, 0.0, 1.0] {
            let h1 = ref_hash(ix + dx, iy + dy);
            let h2 = ref_hash(ix + dx, iy + dy + 1.0);
            let px = dx + (h1 - 0.5) * jitter - fx;
            let py = dy + (h2 - 0.5) * jitter - fy;
            dmin = dmin.min(px * px + py * py);
        }
    }
    let val = 1.0 - dmin.sqrt();
    assert_close(run_at(&words, x, y), reference_post([val, val, val, 1.0]));
}

#[test]
fn osc_sync_advances_with_time() {
    let words = compile(&method(call("osc", vec![num(10.0), num(0.3), num(0.0)]), "out", vec![]));
    let globals = [2.0f32, 100.0, 100.0, 0.0];
    let x = 0.4f32;
    let got = run_fragment(&words, frag(x, 0.5), globals).unwrap();
    let ch = ((x + 2.0 * 0.3) * 10.0).sin() * 0.5 + 0.5;
    assert_close(got, reference_post([ch, ch, ch, 1.0]));
}

#[test]
fn later_out_binding_shadows_an_earlier_one() {
    // both out(0) writes land in buffer zero; src(0) reads the latest
    let chain = method(
        binary(
            method(call("solid", vec![num(0.1), num(0.2), num(0.3), num(1.0)]), "out", vec![num(0.0)]),
            "blend",
            method(
                method(call("solid", vec![num(0.8), num(0.1), num(0.1), num(1.0)]), "out", vec![num(0.0)]),
                "blend",
                vec![],
            ),
            vec![num(0.0)],
        ),
        "out",
        vec![num(1.0)],
    );
    // the degenerate inner blend (no call argument) passes through, so the
    // chain stays well formed; the final blend has amount zero and keeps
    // the lower color
    let words = compile(&chain);
    let lower = compile(&method(call("solid", vec![num(0.1), num(0.2), num(0.3), num(1.0)]), "out", vec![]));
    assert_same_image(&words, &lower);
}

#[test]
fn chainless_input_still_compiles_to_a_module_without_a_store() {
    // the compiler is total over well-formed input: an expression that
    // builds no chain yields a module whose main writes nothing
    let words = compile(&Chain::Opaque);
    assert_eq!(words[0], 0x0723_0203);
    assert_eq!(run_fragment(&words, frag(0.5, 0.5), GLOBALS), None);
}

#[test]
fn single_argument_scale_and_pixelate_default_the_other_axis() {
    let one_arg = compile(&method(method(call("gradient", vec![]), "scale", vec![num(2.0)]), "out", vec![]));
    let two_arg = compile(&method(method(call("gradient", vec![]), "scale", vec![num(2.0), num(2.0)]), "out", vec![]));
    assert_eq!(one_arg, two_arg);
    let p1 = compile(&method(method(call("gradient", vec![]), "pixelate", vec![num(8.0)]), "out", vec![]));
    let p2 = compile(&method(method(call("gradient", vec![]), "pixelate", vec![num(8.0), num(8.0)]), "out", vec![]));
    assert_eq!(p1, p2);
}

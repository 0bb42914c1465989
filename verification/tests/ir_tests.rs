//! Structural tests: the IR builder's classification and defaulting rules,
//! the module header, and the entry-point declaration, checked on the real
//! assembled word streams.

use hydra_spirv::ast::{ArgLit, Chain};
use hydra_spirv::builder::IRBuilder;
use hydra_spirv::node::{IRKind, SourceType};
use hydra_spirv::numeric as fbits;
use hydra_spirv::numeric::f32_bits_to_u32;
use hydra_spirv::spirv_visitor::SpirvEmitter;

fn num(v: f32) -> ArgLit {
    ArgLit::Num(v.to_bits())
}

fn call(name: &str, args: Vec<ArgLit>) -> Chain {
    Chain::Call { name: name.to_string(), args }
}

fn method(obj: Chain, name: &str, args: Vec<ArgLit>) -> Chain {
    Chain::MethodCall { obj: Box::new(obj), name: name.to_string(), call_arg: None, args }
}

fn binary(obj: Chain, name: &str, right: Chain, rest: Vec<ArgLit>) -> Chain {
    let mut args = vec![ArgLit::Skip];
    args.extend(rest);
    Chain::MethodCall {
        obj: Box::new(obj),
        name: name.to_string(),
        call_arg: Some(Box::new(right)),
        args,
    }
}

fn compile(chain: &Chain) -> Vec<u32> {
    SpirvEmitter::new().emit_pipeline(chain).expect("compile failed")
}

/// Splits an assembled module into (opcode, operand words) pairs.
fn instructions(words: &[u32]) -> Vec<(u32, Vec<u32>)> {
    assert!(words.len() >= 5);
    let mut out = Vec::new();
    let mut i = 5;
    while i < words.len() {
        let count = (words[i] >> 16) as usize;
        let opcode = words[i] & 0xffff;
        assert!(count >= 1 && i + count <= words.len());
        out.push((opcode, words[i + 1..i + count].to_vec()));
        i += count;
    }
    out
}

/// Decodes a SPIR-V literal string starting at `ops[at]`.
fn decode_string(ops: &[u32], at: usize) -> String {
    let mut bytes = Vec::new();
    for w in &ops[at..] {
        for b in w.to_le_bytes() {
            if b == 0 {
                return String::from_utf8(bytes).unwrap();
            }
            bytes.push(b);
        }
    }
    String::from_utf8(bytes).unwrap()
}

#[test]
fn module_starts_with_magic_word() {
    let words = compile(&method(call("solid", vec![num(0.2), num(0.4), num(0.6), num(1.0)]), "out", vec![num(0.0)]));
    assert_eq!(words[0], 0x0723_0203);
    assert!(words.len() >= 5);
}

#[test]
fn module_declares_exactly_one_fragment_entry_point_named_main() {
    let words = compile(&method(call("osc", vec![]), "out", vec![]));
    let insts = instructions(&words);
    let entry_points: Vec<_> = insts.iter().filter(|(op, _)| *op == 15).collect();
    assert_eq!(entry_points.len(), 1);
    let (_, ops) = entry_points[0];
    // operands: execution model, function id, literal name, interface ids
    assert_eq!(ops[0], 4, "execution model must be Fragment");
    assert_eq!(decode_string(ops, 2), "main");
}

#[test]
fn module_declares_origin_upper_left() {
    let words = compile(&method(call("gradient", vec![]), "out", vec![]));
    let insts = instructions(&words);
    let modes: Vec<_> = insts.iter().filter(|(op, _)| *op == 16).collect();
    assert_eq!(modes.len(), 1);
    // operands: entry point id, execution mode (OriginUpperLeft = 7)
    assert_eq!(modes[0].1[1], 7);
}

#[test]
fn module_header_is_wellformed_and_instruction_stream_parses() {
    let words = compile(&method(
        binary(call("osc", vec![num(30.0), num(0.1)]), "modulate", call("noise", vec![num(3.0)]), vec![num(0.3)]),
        "out",
        vec![],
    ));
    // instruction parsing itself asserts the word counts are consistent
    let insts = instructions(&words);
    // capability Shader
    assert!(insts.iter().any(|(op, ops)| *op == 17 && ops[0] == 1));
    // memory model Logical / GLSL450
    assert!(insts.iter().any(|(op, ops)| *op == 14 && ops[0] == 0 && ops[1] == 1));
    // the id bound covers every result id that appears
    let bound = words[3];
    for (op, ops) in &insts {
        if *op == 43 {
            // OpConstant: [type, result, literal]
            assert!(ops[1] < bound);
        }
    }
}

#[test]
fn unknown_chained_method_is_passed_through() {
    let plain = compile(&method(call("osc", vec![num(10.0), num(0.1), num(0.0)]), "out", vec![]));
    let with_unknown = compile(&method(
        method(call("osc", vec![num(10.0), num(0.1), num(0.0)]), "noSuchMethod", vec![num(1.0), num(2.0)]),
        "out",
        vec![],
    ));
    assert_eq!(plain, with_unknown);
}

#[test]
fn modulate_synonyms_compile_like_modulate() {
    let base = call("osc", vec![num(30.0)]);
    let base2 = call("osc", vec![num(30.0)]);
    let m = compile(&method(binary(base, "modulate", call("noise", vec![]), vec![num(0.4)]), "out", vec![]));
    for syn in ["modulateRotate", "modulateRepeat", "modulatePixelate", "modulateKaleid", "modulateScrollX", "modulateScrollY"] {
        let s = compile(&method(
            binary(call("osc", vec![num(30.0)]), syn, call("noise", vec![]), vec![num(0.4)]),
            "out",
            vec![],
        ));
        assert_eq!(m, s, "{syn} must compile exactly like modulate");
    }
    // modulateScale and modulateHue are specialized and differ
    let ms = compile(&method(binary(base2, "modulateScale", call("noise", vec![]), vec![num(0.4)]), "out", vec![]));
    assert_ne!(m, ms);
}

#[test]
fn ir_builder_classifies_sources() {
    let mut b = IRBuilder::new();
    let root = b.build_script(&call("voronoi", vec![num(5.0), num(0.8)]));
    let root = root.expect("voronoi is a source");
    match &b.nodes[root.0].kind {
        IRKind::Source { ty, args } => {
            assert!(matches!(ty, SourceType::Voronoi));
            assert_eq!(args.len(), 2);
            assert_eq!(args[0], 5.0f32.to_bits());
        }
        other => panic!("expected a source node, got {other:?}"),
    }
}

#[test]
fn ir_builder_rejects_unknown_bare_call() {
    let mut b = IRBuilder::new();
    assert!(b.build_script(&call("nonsense", vec![])).is_none());
    assert!(b.build_script(&Chain::Opaque).is_none());
}

#[test]
fn ir_builder_skips_non_numeric_arguments() {
    let mut b = IRBuilder::new();
    let root = b
        .build_script(&call("solid", vec![ArgLit::Skip, num(0.5), ArgLit::Skip, num(1.0)]))
        .unwrap();
    match &b.nodes[root.0].kind {
        IRKind::Source { args, .. } => {
            assert_eq!(args.as_slice(), &[0.5f32.to_bits(), 1.0f32.to_bits()]);
        }
        other => panic!("expected a source node, got {other:?}"),
    }
}

#[test]
fn out_index_defaults_to_zero_and_truncates() {
    let mut b = IRBuilder::new();
    let root = b.build_script(&method(call("osc", vec![]), "out", vec![])).unwrap();
    match &b.nodes[root.0].kind {
        IRKind::Output { index, .. } => assert_eq!(*index, 0),
        other => panic!("expected an output node, got {other:?}"),
    }
    let mut b2 = IRBuilder::new();
    let root2 = b2.build_script(&method(call("osc", vec![]), "out", vec![num(2.9)])).unwrap();
    match &b2.nodes[root2.0].kind {
        IRKind::Output { index, .. } => assert_eq!(*index, 2),
        other => panic!("expected an output node, got {other:?}"),
    }
}

#[test]
fn binary_without_call_argument_passes_receiver_through() {
    // `osc().add(1)` has no call expression as its first argument: the
    // receiver's node passes through unchanged.
    let plain = compile(&method(call("osc", vec![num(20.0)]), "out", vec![]));
    let degenerate = compile(&method(
        method(call("osc", vec![num(20.0)]), "add", vec![num(1.0)]),
        "out",
        vec![],
    ));
    assert_eq!(plain, degenerate);
}

#[test]
fn f32_bits_truncation_matches_as_conversion() {
    let samples: [f32; 16] = [
        0.0, -0.0, 0.5, 0.999, 1.0, 1.5, 2.9, 3.0, 100.25, 16777216.0, 4294967040.0,
        -1.0, -0.4, f32::NAN, f32::INFINITY, f32::NEG_INFINITY,
    ];
    for v in samples {
        assert_eq!(f32_bits_to_u32(v.to_bits()), v as u32, "mismatch for {v}");
    }
    // the largest finite f32 saturates
    assert_eq!(f32_bits_to_u32(f32::MAX.to_bits()), u32::MAX);
}

#[test]
fn shader_constants_match_their_float_values() {
    assert_eq!(fbits::BITS_ZERO, 0.0f32.to_bits());
    assert_eq!(fbits::BITS_ONE, 1.0f32.to_bits());
    assert_eq!(fbits::BITS_HALF, 0.5f32.to_bits());
    assert_eq!(fbits::BITS_TWO, 2.0f32.to_bits());
    assert_eq!(fbits::BITS_THREE, 3.0f32.to_bits());
    assert_eq!(fbits::BITS_FOUR, 4.0f32.to_bits());
    assert_eq!(fbits::BITS_FIVE, 5.0f32.to_bits());
    assert_eq!(fbits::BITS_SIX, 6.0f32.to_bits());
    assert_eq!(fbits::BITS_EIGHT, 8.0f32.to_bits());
    assert_eq!(fbits::BITS_TEN, 10.0f32.to_bits());
    assert_eq!(fbits::BITS_SIXTY, 60.0f32.to_bits());
    assert_eq!(fbits::BITS_TENTH, 0.1f32.to_bits());
    assert_eq!(fbits::BITS_HUNDREDTH, 0.01f32.to_bits());
    assert_eq!(fbits::BITS_0_8, 0.8f32.to_bits());
    assert_eq!(fbits::BITS_0_6, 0.6f32.to_bits());
    assert_eq!(fbits::BITS_0_02, 0.02f32.to_bits());
    assert_eq!(fbits::BITS_0_005, 0.005f32.to_bits());
    assert_eq!(fbits::BITS_1_5, 1.5f32.to_bits());
    assert_eq!(fbits::BITS_2_5, 2.5f32.to_bits());
    assert_eq!(fbits::BITS_3_5, 3.5f32.to_bits());
    assert_eq!(fbits::BITS_NEG_ONE, (-1.0f32).to_bits());
    assert_eq!(fbits::BITS_EPS_1E6, 1e-6f32.to_bits());
    assert_eq!(fbits::BITS_EPS_1E4, 1e-4f32.to_bits());
    assert_eq!(fbits::BITS_BIG, 9999.0f32.to_bits());
    assert_eq!(fbits::BITS_TWO_PI, 6.28318530718f32.to_bits());
    assert_eq!(fbits::BITS_PI, 3.14159265359f32.to_bits());
    assert_eq!(fbits::BITS_HASH_X, 127.1f32.to_bits());
    assert_eq!(fbits::BITS_HASH_Y, 311.7f32.to_bits());
    assert_eq!(fbits::BITS_HASH_SCALE, 43758.5453f32.to_bits());
    assert_eq!(fbits::BITS_OSC_MULT_R, (-2.0f32 / 60.0).to_bits());
    assert_eq!(fbits::BITS_OSC_MULT_G, (0.0f32 / 60.0).to_bits());
    assert_eq!(fbits::BITS_OSC_MULT_B, (1.0f32 / 60.0).to_bits());
    assert_eq!(fbits::BITS_ACES_A, 2.51f32.to_bits());
    assert_eq!(fbits::BITS_ACES_B, 0.03f32.to_bits());
    assert_eq!(fbits::BITS_ACES_C, 2.43f32.to_bits());
    assert_eq!(fbits::BITS_ACES_D, 0.59f32.to_bits());
    assert_eq!(fbits::BITS_ACES_E, 0.14f32.to_bits());
    assert_eq!(fbits::BITS_LUMA_R, 0.299f32.to_bits());
    assert_eq!(fbits::BITS_LUMA_G, 0.587f32.to_bits());
    assert_eq!(fbits::BITS_LUMA_B, 0.114f32.to_bits());
    assert_eq!(fbits::BITS_YIQ_I_R, 0.596f32.to_bits());
    assert_eq!(fbits::BITS_YIQ_I_G, (-0.275f32).to_bits());
    assert_eq!(fbits::BITS_YIQ_I_B, (-0.321f32).to_bits());
    assert_eq!(fbits::BITS_YIQ_Q_R, 0.212f32.to_bits());
    assert_eq!(fbits::BITS_YIQ_Q_G, (-0.523f32).to_bits());
    assert_eq!(fbits::BITS_YIQ_Q_B, 0.311f32.to_bits());
    assert_eq!(fbits::BITS_RGB_R_I, 0.956f32.to_bits());
    assert_eq!(fbits::BITS_RGB_R_Q, 0.621f32.to_bits());
    assert_eq!(fbits::BITS_RGB_G_I, (-0.272f32).to_bits());
    assert_eq!(fbits::BITS_RGB_G_Q, (-0.647f32).to_bits());
    assert_eq!(fbits::BITS_RGB_B_I, (-1.105f32).to_bits());
    assert_eq!(fbits::BITS_RGB_B_Q, 1.702f32.to_bits());
    assert_eq!(fbits::BITS_REPEAT_EPS, 0.0001f32.to_bits());
    assert_eq!(fbits::BITS_OSC_MULT_R, (-2.0f32 / 60.0f32).to_bits());
}

#[test]
fn member_access_without_call_builds_receiver() {
    let mut b = IRBuilder::new();
    let inner = call("osc", vec![num(7.0)]);
    let root = b.build_script(&Chain::Member { obj: Box::new(inner) }).unwrap();
    assert!(matches!(&b.nodes[root.0].kind, IRKind::Source { ty: SourceType::Osc, .. }));
}

#[test]
fn binary_with_failing_right_subtree_builds_nothing() {
    let mut b = IRBuilder::new();
    let chain = binary(call("osc", vec![]), "add", call("nonsense", vec![]), vec![]);
    assert!(b.build_script(&chain).is_none());
}

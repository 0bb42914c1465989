//! Lowering of a chain expression to the typed IR graph.
//!
//! Classification is by exact method name against four disjoint operator
//! tables; `out(i)` always constructs an output node; unknown method names
//! pass the receiver's node through unchanged. The whole lowering is modelled
//! by the spec functions [`build_expr_spec`] and [`build_call_spec`], and the
//! executable builder is proved to compute exactly that model.

use vstd::prelude::*;
use crate::ast::ArgLit;
use crate::ast::Chain;
use crate::node::BinaryType;
use crate::node::IRKind;
use crate::node::IRKindV;
use crate::node::IRNode;
use crate::node::NodeId;
use crate::node::SourceType;
use crate::node::SpatialType;
use crate::node::UnaryColorType;
use crate::node::arena_view;
use crate::node::children_below;
use crate::node::kind_view;
use crate::node::wf_arena;
use crate::numeric::f32_bits_to_u32;
use crate::numeric::f32_bits_trunc_u32;

verus! {

/// The source table: chain calls that produce a color from the coordinate.
pub open spec fn classify_source_spec(name: Seq<char>) -> Option<SourceType> {
    if name == "osc"@ {
        Some(SourceType::Osc)
    } else if name == "noise"@ {
        Some(SourceType::Noise)
    } else if name == "solid"@ {
        Some(SourceType::Solid)
    } else if name == "gradient"@ {
        Some(SourceType::Gradient)
    } else if name == "shape"@ {
        Some(SourceType::Shape)
    } else if name == "voronoi"@ {
        Some(SourceType::Voronoi)
    } else if name == "src"@ {
        Some(SourceType::Src)
    } else {
        None
    }
}

/// The spatial table: chain methods that transform the sampling coordinate.
pub open spec fn classify_spatial_spec(name: Seq<char>) -> Option<SpatialType> {
    if name == "scale"@ {
        Some(SpatialType::Scale)
    } else if name == "kaleid"@ {
        Some(SpatialType::Kaleid)
    } else if name == "rotate"@ {
        Some(SpatialType::Rotate)
    } else if name == "scrollX"@ {
        Some(SpatialType::ScrollX)
    } else if name == "scrollY"@ {
        Some(SpatialType::ScrollY)
    } else if name == "scroll"@ {
        Some(SpatialType::Scroll)
    } else if name == "repeat"@ {
        Some(SpatialType::Repeat)
    } else if name == "repeatX"@ {
        Some(SpatialType::RepeatX)
    } else if name == "repeatY"@ {
        Some(SpatialType::RepeatY)
    } else if name == "pixelate"@ {
        Some(SpatialType::Pixelate)
    } else {
        None
    }
}

/// The unary color table.
pub open spec fn classify_unary_color_spec(name: Seq<char>) -> Option<UnaryColorType> {
    if name == "invert"@ {
        Some(UnaryColorType::Invert)
    } else if name == "color"@ {
        Some(UnaryColorType::Color)
    } else if name == "brightness"@ {
        Some(UnaryColorType::Brightness)
    } else if name == "contrast"@ {
        Some(UnaryColorType::Contrast)
    } else if name == "saturate"@ {
        Some(UnaryColorType::Saturate)
    } else if name == "posterize"@ {
        Some(UnaryColorType::Posterize)
    } else if name == "thresh"@ {
        Some(UnaryColorType::Thresh)
    } else if name == "hue"@ {
        Some(UnaryColorType::Hue)
    } else if name == "colorama"@ {
        Some(UnaryColorType::Colorama)
    } else if name == "luma"@ {
        Some(UnaryColorType::Luma)
    } else if name == "shift"@ {
        Some(UnaryColorType::Shift)
    } else {
        None
    }
}

/// The binary table. The coordinate-modulating variants other than
/// `modulateScale` and `modulateHue` are accepted as synonyms of the plain
/// spatial `modulate`; `modulateHue` keeps its own hue-shifting semantics.
pub open spec fn classify_binary_spec(name: Seq<char>) -> Option<BinaryType> {
    if name == "add"@ {
        Some(BinaryType::Add)
    } else if name == "sub"@ {
        Some(BinaryType::Sub)
    } else if name == "mult"@ {
        Some(BinaryType::Mult)
    } else if name == "blend"@ {
        Some(BinaryType::Blend)
    } else if name == "diff"@ {
        Some(BinaryType::Diff)
    } else if name == "layer"@ {
        Some(BinaryType::Layer)
    } else if name == "mask"@ {
        Some(BinaryType::Mask)
    } else if name == "modulate"@ {
        Some(BinaryType::Modulate)
    } else if name == "modulateScale"@ {
        Some(BinaryType::ModulateScale)
    } else if name == "modulateHue"@ {
        Some(BinaryType::ModulateHue)
    } else if name == "modulateRotate"@ {
        Some(BinaryType::Modulate)
    } else if name == "modulateRepeat"@ {
        Some(BinaryType::Modulate)
    } else if name == "modulatePixelate"@ {
        Some(BinaryType::Modulate)
    } else if name == "modulateKaleid"@ {
        Some(BinaryType::Modulate)
    } else if name == "modulateScrollX"@ {
        Some(BinaryType::Modulate)
    } else if name == "modulateScrollY"@ {
        Some(BinaryType::Modulate)
    } else {
        None
    }
}

/// The numeric literals among `s`, in positional order.
pub open spec fn extract_args_spec(s: Seq<ArgLit>) -> Seq<u32>
    decreases s.len(),
{
    if s.len() == 0 {
        Seq::<u32>::empty()
    } else {
        let rest = extract_args_spec(s.drop_last());
        match s.last() {
            ArgLit::Num(b) => rest.push(b),
            ArgLit::Skip => rest,
        }
    }
}

/// The output-buffer index of an `out` call: the first argument truncated to
/// `u32` when it is a numeric literal, zero otherwise.
pub open spec fn out_index_spec(s: Seq<ArgLit>) -> u32 {
    if s.len() > 0 {
        match s[0] {
            ArgLit::Num(b) => f32_bits_trunc_u32(b),
            ArgLit::Skip => 0u32,
        }
    } else {
        0u32
    }
}

/// The argument vector of a binary node: the second positional argument when
/// it is a numeric literal, empty otherwise.
pub open spec fn binary_extra_args_spec(s: Seq<ArgLit>) -> Seq<u32> {
    if s.len() > 1 {
        match s[1] {
            ArgLit::Num(b) => seq![b],
            ArgLit::Skip => Seq::<u32>::empty(),
        }
    } else {
        Seq::<u32>::empty()
    }
}

/// The model of [`IRBuilder::build_call`]: lowering a call expression against
/// arena `ns` yields the extended arena and the root node id, or no id when
/// the expression builds no chain.
pub open spec fn build_call_spec(e: Chain, ns: Seq<IRKindV>) -> (Seq<IRKindV>, Option<int>)
    decreases e, 0int,
{
    match e {
        Chain::Call { name, args } => {
            match classify_source_spec(name@) {
                Some(ty) => (
                    ns.push(IRKindV::Source { ty, args: extract_args_spec(args@) }),
                    Some(ns.len() as int),
                ),
                None => (ns, None),
            }
        }
        Chain::MethodCall { obj, name, call_arg, args } => {
            let r1 = build_expr_spec(*obj, ns);
            let ns1 = r1.0;
            match r1.1 {
                None => (ns1, None),
                Some(base) => {
                    if name@ == "out"@ {
                        (
                            ns1.push(IRKindV::Output { child: base, index: out_index_spec(args@) }),
                            Some(ns1.len() as int),
                        )
                    } else {
                        match classify_spatial_spec(name@) {
                            Some(ty) => (
                                ns1.push(
                                    IRKindV::Spatial {
                                        ty,
                                        args: extract_args_spec(args@),
                                        child: base,
                                    },
                                ),
                                Some(ns1.len() as int),
                            ),
                            None => {
                                match classify_binary_spec(name@) {
                                    Some(bt) => {
                                        match call_arg {
                                            Some(ca) => {
                                                let r2 = build_call_spec(*ca, ns1);
                                                match r2.1 {
                                                    None => (r2.0, None),
                                                    Some(right) => (
                                                        r2.0.push(
                                                            IRKindV::Binary {
                                                                ty: bt,
                                                                args: binary_extra_args_spec(args@),
                                                                left: base,
                                                                right,
                                                            },
                                                        ),
                                                        Some(r2.0.len() as int),
                                                    ),
                                                }
                                            }
                                            None => (ns1, Some(base)),
                                        }
                                    }
                                    None => {
                                        match classify_unary_color_spec(name@) {
                                            Some(ut) => (
                                                ns1.push(
                                                    IRKindV::UnaryColor {
                                                        ty: ut,
                                                        args: extract_args_spec(args@),
                                                        child: base,
                                                    },
                                                ),
                                                Some(ns1.len() as int),
                                            ),
                                            None => (ns1, Some(base)),
                                        }
                                    }
                                }
                            }
                        }
                    }
                }
            }
        }
        Chain::Member { .. } => (ns, None),
        Chain::Opaque => (ns, None),
    }
}

/// The model of [`IRBuilder::build_expr`].
pub open spec fn build_expr_spec(e: Chain, ns: Seq<IRKindV>) -> (Seq<IRKindV>, Option<int>)
    decreases e, 1int,
{
    match e {
        Chain::Call { .. } => build_call_spec(e, ns),
        Chain::MethodCall { .. } => build_call_spec(e, ns),
        Chain::Member { obj } => build_expr_spec(*obj, ns),
        Chain::Opaque => (ns, None),
    }
}

/// Lowering only appends nodes, keeps the arena well formed, and returns a
/// root inside the arena.
pub proof fn lemma_build_call_spec_props(e: Chain, ns: Seq<IRKindV>)
    ensures
        ({
            let (ns2, r) = build_call_spec(e, ns);
            &&& ns.len() <= ns2.len()
            &&& forall|i: int| 0 <= i < ns.len() ==> ns2[i] == ns[i]
            &&& (wf_arena(ns) ==> wf_arena(ns2))
            &&& (match r {
                Some(id) => 0 <= id < ns2.len(),
                None => true,
            })
        }),
    decreases e, 0int,
{
    match e {
        Chain::Call { name, args } => {
        }
        Chain::MethodCall { obj, name, call_arg, args } => {
            lemma_build_expr_spec_props(*obj, ns);
            let r1 = build_expr_spec(*obj, ns);
            let ns1 = r1.0;
            if r1.1 is Some {
                match call_arg {
                    Some(ca) => {
                        lemma_build_call_spec_props(*ca, ns1);
                    }
                    None => {
                    }
                }
            }
        }
        Chain::Member { .. } => {
        }
        Chain::Opaque => {
        }
    }
}

/// The companion of [`lemma_build_call_spec_props`] for full expressions.
pub proof fn lemma_build_expr_spec_props(e: Chain, ns: Seq<IRKindV>)
    ensures
        ({
            let (ns2, r) = build_expr_spec(e, ns);
            &&& ns.len() <= ns2.len()
            &&& forall|i: int| 0 <= i < ns.len() ==> ns2[i] == ns[i]
            &&& (wf_arena(ns) ==> wf_arena(ns2))
            &&& (match r {
                Some(id) => 0 <= id < ns2.len(),
                None => true,
            })
        }),
    decreases e, 1int,
{
    match e {
        Chain::Call { .. } => {
            lemma_build_call_spec_props(e, ns);
        }
        Chain::MethodCall { .. } => {
            lemma_build_call_spec_props(e, ns);
        }
        Chain::Member { obj } => {
            lemma_build_expr_spec_props(*obj, ns);
        }
        Chain::Opaque => {
        }
    }
}

/// A chained method whose name stands in no operator table, and is not
/// `out`, leaves both the arena and the root exactly as the receiver alone
/// left them: the unknown method passes the receiver through.
pub proof fn lemma_unknown_method_passthrough(
    obj: Box<Chain>,
    name: String,
    call_arg: Option<Box<Chain>>,
    args: Vec<ArgLit>,
    ns: Seq<IRKindV>,
)
    requires
        name@ != "out"@,
        classify_spatial_spec(name@) is None,
        classify_binary_spec(name@) is None,
        classify_unary_color_spec(name@) is None,
    ensures
        build_call_spec(Chain::MethodCall { obj, name, call_arg, args }, ns) == build_expr_spec(
            *obj,
            ns,
        ),
{
}

/// The four operator tables are disjoint, and none of them claims `out`:
/// every accepted method name has exactly one meaning.
pub proof fn lemma_operator_tables_disjoint(name: Seq<char>)
    ensures
        classify_source_spec(name) is Some ==> classify_spatial_spec(name) is None
            && classify_binary_spec(name) is None && classify_unary_color_spec(name) is None
            && name != "out"@,
        classify_spatial_spec(name) is Some ==> classify_binary_spec(name) is None
            && classify_unary_color_spec(name) is None && name != "out"@,
        classify_binary_spec(name) is Some ==> classify_unary_color_spec(name) is None && name
            != "out"@,
        classify_unary_color_spec(name) is Some ==> name != "out"@,
{
    reveal_strlit("osc");
    reveal_strlit("noise");
    reveal_strlit("solid");
    reveal_strlit("gradient");
    reveal_strlit("shape");
    reveal_strlit("voronoi");
    reveal_strlit("src");
    reveal_strlit("scale");
    reveal_strlit("kaleid");
    reveal_strlit("rotate");
    reveal_strlit("scrollX");
    reveal_strlit("scrollY");
    reveal_strlit("scroll");
    reveal_strlit("repeat");
    reveal_strlit("repeatX");
    reveal_strlit("repeatY");
    reveal_strlit("pixelate");
    reveal_strlit("invert");
    reveal_strlit("color");
    reveal_strlit("brightness");
    reveal_strlit("contrast");
    reveal_strlit("saturate");
    reveal_strlit("posterize");
    reveal_strlit("thresh");
    reveal_strlit("hue");
    reveal_strlit("colorama");
    reveal_strlit("luma");
    reveal_strlit("shift");
    reveal_strlit("add");
    reveal_strlit("sub");
    reveal_strlit("mult");
    reveal_strlit("blend");
    reveal_strlit("diff");
    reveal_strlit("layer");
    reveal_strlit("mask");
    reveal_strlit("modulate");
    reveal_strlit("modulateScale");
    reveal_strlit("modulateHue");
    reveal_strlit("modulateRotate");
    reveal_strlit("modulateRepeat");
    reveal_strlit("modulatePixelate");
    reveal_strlit("modulateKaleid");
    reveal_strlit("modulateScrollX");
    reveal_strlit("modulateScrollY");
    reveal_strlit("out");
    assert("osc"@.len() == 3);
    assert("noise"@.len() == 5);
    assert("solid"@.len() == 5);
    assert("gradient"@.len() == 8);
    assert("shape"@.len() == 5);
    assert("voronoi"@.len() == 7);
    assert("src"@.len() == 3);
    assert("scale"@.len() == 5);
    assert("kaleid"@.len() == 6);
    assert("rotate"@.len() == 6);
    assert("scrollX"@.len() == 7);
    assert("scrollY"@.len() == 7);
    assert("scroll"@.len() == 6);
    assert("repeat"@.len() == 6);
    assert("repeatX"@.len() == 7);
    assert("repeatY"@.len() == 7);
    assert("pixelate"@.len() == 8);
    assert("invert"@.len() == 6);
    assert("color"@.len() == 5);
    assert("brightness"@.len() == 10);
    assert("contrast"@.len() == 8);
    assert("saturate"@.len() == 8);
    assert("posterize"@.len() == 9);
    assert("thresh"@.len() == 6);
    assert("hue"@.len() == 3);
    assert("colorama"@.len() == 8);
    assert("luma"@.len() == 4);
    assert("shift"@.len() == 5);
    assert("add"@.len() == 3);
    assert("sub"@.len() == 3);
    assert("mult"@.len() == 4);
    assert("blend"@.len() == 5);
    assert("diff"@.len() == 4);
    assert("layer"@.len() == 5);
    assert("mask"@.len() == 4);
    assert("modulate"@.len() == 8);
    assert("modulateScale"@.len() == 13);
    assert("modulateHue"@.len() == 11);
    assert("modulateRotate"@.len() == 14);
    assert("modulateRepeat"@.len() == 14);
    assert("modulatePixelate"@.len() == 16);
    assert("modulateKaleid"@.len() == 14);
    assert("modulateScrollX"@.len() == 15);
    assert("modulateScrollY"@.len() == 15);
    assert("out"@.len() == 3);
    assert("osc"@[0] == 'o');
    assert("osc"@[1] == 's');
    assert("osc"@[2] == 'c');
    assert("noise"@[0] == 'n');
    assert("noise"@[1] == 'o');
    assert("noise"@[2] == 'i');
    assert("solid"@[0] == 's');
    assert("solid"@[1] == 'o');
    assert("solid"@[2] == 'l');
    assert("gradient"@[0] == 'g');
    assert("gradient"@[1] == 'r');
    assert("gradient"@[2] == 'a');
    assert("shape"@[0] == 's');
    assert("shape"@[1] == 'h');
    assert("shape"@[2] == 'a');
    assert("voronoi"@[0] == 'v');
    assert("voronoi"@[1] == 'o');
    assert("voronoi"@[2] == 'r');
    assert("src"@[0] == 's');
    assert("src"@[1] == 'r');
    assert("src"@[2] == 'c');
    assert("scale"@[0] == 's');
    assert("scale"@[1] == 'c');
    assert("scale"@[2] == 'a');
    assert("kaleid"@[0] == 'k');
    assert("kaleid"@[1] == 'a');
    assert("kaleid"@[2] == 'l');
    assert("rotate"@[0] == 'r');
    assert("rotate"@[1] == 'o');
    assert("rotate"@[2] == 't');
    assert("scrollX"@[0] == 's');
    assert("scrollX"@[1] == 'c');
    assert("scrollX"@[2] == 'r');
    assert("scrollY"@[0] == 's');
    assert("scrollY"@[1] == 'c');
    assert("scrollY"@[2] == 'r');
    assert("scroll"@[0] == 's');
    assert("scroll"@[1] == 'c');
    assert("scroll"@[2] == 'r');
    assert("repeat"@[0] == 'r');
    assert("repeat"@[1] == 'e');
    assert("repeat"@[2] == 'p');
    assert("repeatX"@[0] == 'r');
    assert("repeatX"@[1] == 'e');
    assert("repeatX"@[2] == 'p');
    assert("repeatY"@[0] == 'r');
    assert("repeatY"@[1] == 'e');
    assert("repeatY"@[2] == 'p');
    assert("pixelate"@[0] == 'p');
    assert("pixelate"@[1] == 'i');
    assert("pixelate"@[2] == 'x');
    assert("invert"@[0] == 'i');
    assert("invert"@[1] == 'n');
    assert("invert"@[2] == 'v');
    assert("color"@[0] == 'c');
    assert("color"@[1] == 'o');
    assert("color"@[2] == 'l');
    assert("brightness"@[0] == 'b');
    assert("brightness"@[1] == 'r');
    assert("brightness"@[2] == 'i');
    assert("contrast"@[0] == 'c');
    assert("contrast"@[1] == 'o');
    assert("contrast"@[2] == 'n');
    assert("saturate"@[0] == 's');
    assert("saturate"@[1] == 'a');
    assert("saturate"@[2] == 't');
    assert("posterize"@[0] == 'p');
    assert("posterize"@[1] == 'o');
    assert("posterize"@[2] == 's');
    assert("thresh"@[0] == 't');
    assert("thresh"@[1] == 'h');
    assert("thresh"@[2] == 'r');
    assert("hue"@[0] == 'h');
    assert("hue"@[1] == 'u');
    assert("hue"@[2] == 'e');
    assert("colorama"@[0] == 'c');
    assert("colorama"@[1] == 'o');
    assert("colorama"@[2] == 'l');
    assert("luma"@[0] == 'l');
    assert("luma"@[1] == 'u');
    assert("luma"@[2] == 'm');
    assert("shift"@[0] == 's');
    assert("shift"@[1] == 'h');
    assert("shift"@[2] == 'i');
    assert("add"@[0] == 'a');
    assert("add"@[1] == 'd');
    assert("add"@[2] == 'd');
    assert("sub"@[0] == 's');
    assert("sub"@[1] == 'u');
    assert("sub"@[2] == 'b');
    assert("mult"@[0] == 'm');
    assert("mult"@[1] == 'u');
    assert("mult"@[2] == 'l');
    assert("blend"@[0] == 'b');
    assert("blend"@[1] == 'l');
    assert("blend"@[2] == 'e');
    assert("diff"@[0] == 'd');
    assert("diff"@[1] == 'i');
    assert("diff"@[2] == 'f');
    assert("layer"@[0] == 'l');
    assert("layer"@[1] == 'a');
    assert("layer"@[2] == 'y');
    assert("mask"@[0] == 'm');
    assert("mask"@[1] == 'a');
    assert("mask"@[2] == 's');
    assert("modulate"@[0] == 'm');
    assert("modulate"@[1] == 'o');
    assert("modulate"@[2] == 'd');
    assert("modulateScale"@[0] == 'm');
    assert("modulateScale"@[1] == 'o');
    assert("modulateScale"@[2] == 'd');
    assert("modulateHue"@[0] == 'm');
    assert("modulateHue"@[1] == 'o');
    assert("modulateHue"@[2] == 'd');
    assert("modulateRotate"@[0] == 'm');
    assert("modulateRotate"@[1] == 'o');
    assert("modulateRotate"@[2] == 'd');
    assert("modulateRepeat"@[0] == 'm');
    assert("modulateRepeat"@[1] == 'o');
    assert("modulateRepeat"@[2] == 'd');
    assert("modulatePixelate"@[0] == 'm');
    assert("modulatePixelate"@[1] == 'o');
    assert("modulatePixelate"@[2] == 'd');
    assert("modulateKaleid"@[0] == 'm');
    assert("modulateKaleid"@[1] == 'o');
    assert("modulateKaleid"@[2] == 'd');
    assert("modulateScrollX"@[0] == 'm');
    assert("modulateScrollX"@[1] == 'o');
    assert("modulateScrollX"@[2] == 'd');
    assert("modulateScrollY"@[0] == 'm');
    assert("modulateScrollY"@[1] == 'o');
    assert("modulateScrollY"@[2] == 'd');
    assert("out"@[0] == 'o');
    assert("out"@[1] == 'u');
    assert("out"@[2] == 't');
    assert("noise"@ != "scale"@);
    assert("solid"@ != "scale"@);
    assert("gradient"@ != "pixelate"@);
    assert("shape"@ != "scale"@);
    assert("voronoi"@ != "scrollX"@);
    assert("voronoi"@ != "scrollY"@);
    assert("voronoi"@ != "repeatX"@);
    assert("voronoi"@ != "repeatY"@);
    assert("osc"@ != "hue"@);
    assert("noise"@ != "color"@);
    assert("noise"@ != "shift"@);
    assert("solid"@ != "color"@);
    assert("solid"@ != "shift"@);
    assert("gradient"@ != "contrast"@);
    assert("gradient"@ != "saturate"@);
    assert("gradient"@ != "colorama"@);
    assert("shape"@ != "color"@);
    assert("shape"@ != "shift"@);
    assert("src"@ != "hue"@);
    assert("osc"@ != "add"@);
    assert("osc"@ != "sub"@);
    assert("noise"@ != "blend"@);
    assert("noise"@ != "layer"@);
    assert("solid"@ != "blend"@);
    assert("solid"@ != "layer"@);
    assert("gradient"@ != "modulate"@);
    assert("shape"@ != "blend"@);
    assert("shape"@ != "layer"@);
    assert("src"@ != "add"@);
    assert("src"@ != "sub"@);
    assert("osc"@ != "out"@);
    assert("src"@ != "out"@);
    assert("scale"@ != "color"@);
    assert("scale"@ != "shift"@);
    assert("kaleid"@ != "invert"@);
    assert("kaleid"@ != "thresh"@);
    assert("rotate"@ != "invert"@);
    assert("rotate"@ != "thresh"@);
    assert("scroll"@ != "invert"@);
    assert("scroll"@ != "thresh"@);
    assert("repeat"@ != "invert"@);
    assert("repeat"@ != "thresh"@);
    assert("pixelate"@ != "contrast"@);
    assert("pixelate"@ != "saturate"@);
    assert("pixelate"@ != "colorama"@);
    assert("scale"@ != "blend"@);
    assert("scale"@ != "layer"@);
    assert("pixelate"@ != "modulate"@);
    assert("color"@ != "blend"@);
    assert("color"@ != "layer"@);
    assert("contrast"@ != "modulate"@);
    assert("saturate"@ != "modulate"@);
    assert("hue"@ != "add"@);
    assert("hue"@ != "sub"@);
    assert("colorama"@ != "modulate"@);
    assert("luma"@ != "mult"@);
    assert("luma"@ != "diff"@);
    assert("luma"@ != "mask"@);
    assert("shift"@ != "blend"@);
    assert("shift"@ != "layer"@);
    assert("hue"@ != "out"@);
    assert("add"@ != "out"@);
    assert("sub"@ != "out"@);
}

/// The same passthrough, stated at the level [`IRBuilder::build_script`]'s
/// contract speaks of: lowering `obj.name(args)` under an unknown `name`
/// equals lowering `obj` alone.
pub proof fn lemma_unknown_method_passthrough_expr(
    obj: Box<Chain>,
    name: String,
    call_arg: Option<Box<Chain>>,
    args: Vec<ArgLit>,
    ns: Seq<IRKindV>,
)
    requires
        name@ != "out"@,
        classify_spatial_spec(name@) is None,
        classify_binary_spec(name@) is None,
        classify_unary_color_spec(name@) is None,
    ensures
        build_expr_spec(Chain::MethodCall { obj, name, call_arg, args }, ns) == build_expr_spec(
            *obj,
            ns,
        ),
{
    lemma_unknown_method_passthrough(obj, name, call_arg, args, ns);
}

/// Relation between an executable root and its model.
pub open spec fn root_corresponds(r: Option<NodeId>, rr: Option<int>) -> bool {
    match r {
        Some(a) => rr == Some(a.0 as int),
        None => rr is None,
    }
}

/// True when `name@` equals the view of the literal `lit`.
fn name_is(name: &String, lit: &str) -> (r: bool)
    ensures
        r == (name@ == lit@),
{
    let owned = lit.to_owned();
    name.eq(&owned)
}

/// The IR builder: an append-only arena of nodes.
pub struct IRBuilder {
    pub nodes: Vec<IRNode>,
}

impl IRBuilder {
    /// An empty arena.
    pub fn new() -> (r: Self)
        ensures
            r.nodes@.len() == 0,
    {
        IRBuilder { nodes: Vec::new() }
    }

    /// Appends one node and returns its id.
    fn push(&mut self, kind: IRKind) -> (id: NodeId)
        ensures
            id.0 == old(self).nodes@.len(),
            final(self).nodes@.len() == old(self).nodes@.len() + 1,
            arena_view(final(self).nodes@) =~= arena_view(old(self).nodes@).push(kind_view(kind)),
    {
        let id = NodeId(self.nodes.len());
        self.nodes.push(IRNode { kind });
        proof {
            let nodes0 = old(self).nodes@;
            let n = IRNode { kind };
            assert forall|i: int| 0 <= i < nodes0.push(n).len() implies arena_view(nodes0.push(n))[i]
                == arena_view(nodes0).push(n@)[i] by {
                assert(arena_view(nodes0.push(n))[i] == nodes0.push(n)[i]@);
            }
            assert(arena_view(self.nodes@) =~= arena_view(nodes0).push(n@));
        }
        id
    }

    /// The source-name table.
    fn classify_source(name: &String) -> (r: Option<SourceType>)
        ensures
            r == classify_source_spec(name@),
    {
        if name_is(name, "osc") {
            Some(SourceType::Osc)
        } else if name_is(name, "noise") {
            Some(SourceType::Noise)
        } else if name_is(name, "solid") {
            Some(SourceType::Solid)
        } else if name_is(name, "gradient") {
            Some(SourceType::Gradient)
        } else if name_is(name, "shape") {
            Some(SourceType::Shape)
        } else if name_is(name, "voronoi") {
            Some(SourceType::Voronoi)
        } else if name_is(name, "src") {
            Some(SourceType::Src)
        } else {
            None
        }
    }

    /// The spatial-name table.
    fn classify_spatial(name: &String) -> (r: Option<SpatialType>)
        ensures
            r == classify_spatial_spec(name@),
    {
        if name_is(name, "scale") {
            Some(SpatialType::Scale)
        } else if name_is(name, "kaleid") {
            Some(SpatialType::Kaleid)
        } else if name_is(name, "rotate") {
            Some(SpatialType::Rotate)
        } else if name_is(name, "scrollX") {
            Some(SpatialType::ScrollX)
        } else if name_is(name, "scrollY") {
            Some(SpatialType::ScrollY)
        } else if name_is(name, "scroll") {
            Some(SpatialType::Scroll)
        } else if name_is(name, "repeat") {
            Some(SpatialType::Repeat)
        } else if name_is(name, "repeatX") {
            Some(SpatialType::RepeatX)
        } else if name_is(name, "repeatY") {
            Some(SpatialType::RepeatY)
        } else if name_is(name, "pixelate") {
            Some(SpatialType::Pixelate)
        } else {
            None
        }
    }

    /// The unary-color-name table.
    fn classify_unary_color(name: &String) -> (r: Option<UnaryColorType>)
        ensures
            r == classify_unary_color_spec(name@),
    {
        if name_is(name, "invert") {
            Some(UnaryColorType::Invert)
        } else if name_is(name, "color") {
            Some(UnaryColorType::Color)
        } else if name_is(name, "brightness") {
            Some(UnaryColorType::Brightness)
        } else if name_is(name, "contrast") {
            Some(UnaryColorType::Contrast)
        } else if name_is(name, "saturate") {
            Some(UnaryColorType::Saturate)
        } else if name_is(name, "posterize") {
            Some(UnaryColorType::Posterize)
        } else if name_is(name, "thresh") {
            Some(UnaryColorType::Thresh)
        } else if name_is(name, "hue") {
            Some(UnaryColorType::Hue)
        } else if name_is(name, "colorama") {
            Some(UnaryColorType::Colorama)
        } else if name_is(name, "luma") {
            Some(UnaryColorType::Luma)
        } else if name_is(name, "shift") {
            Some(UnaryColorType::Shift)
        } else {
            None
        }
    }

    /// The binary-name table.
    fn classify_binary(name: &String) -> (r: Option<BinaryType>)
        ensures
            r == classify_binary_spec(name@),
    {
        if name_is(name, "add") {
            Some(BinaryType::Add)
        } else if name_is(name, "sub") {
            Some(BinaryType::Sub)
        } else if name_is(name, "mult") {
            Some(BinaryType::Mult)
        } else if name_is(name, "blend") {
            Some(BinaryType::Blend)
        } else if name_is(name, "diff") {
            Some(BinaryType::Diff)
        } else if name_is(name, "layer") {
            Some(BinaryType::Layer)
        } else if name_is(name, "mask") {
            Some(BinaryType::Mask)
        } else if name_is(name, "modulate") {
            Some(BinaryType::Modulate)
        } else if name_is(name, "modulateScale") {
            Some(BinaryType::ModulateScale)
        } else if name_is(name, "modulateHue") {
            Some(BinaryType::ModulateHue)
        } else if name_is(name, "modulateRotate") {
            Some(BinaryType::Modulate)
        } else if name_is(name, "modulateRepeat") {
            Some(BinaryType::Modulate)
        } else if name_is(name, "modulatePixelate") {
            Some(BinaryType::Modulate)
        } else if name_is(name, "modulateKaleid") {
            Some(BinaryType::Modulate)
        } else if name_is(name, "modulateScrollX") {
            Some(BinaryType::Modulate)
        } else if name_is(name, "modulateScrollY") {
            Some(BinaryType::Modulate)
        } else {
            None
        }
    }

    /// Collects the numeric literals of an argument list, in order.
    fn extract_f32_args(args: &Vec<ArgLit>) -> (r: Vec<u32>)
        ensures
            r@ == extract_args_spec(args@),
    {
        let mut out: Vec<u32> = Vec::new();
        let mut i: usize = 0;
        while i < args.len()
            invariant
                i <= args.len(),
                out@ == extract_args_spec(args@.take(i as int)),
            decreases args.len() - i,
        {
            match args[i] {
                ArgLit::Num(b) => out.push(b),
                ArgLit::Skip => (),
            }
            proof {
                assert(args@.take(i as int + 1).drop_last() =~= args@.take(i as int));
                assert(args@.take(i as int + 1).last() == args@[i as int]);
            }
            i = i + 1;
        }
        proof {
            assert(args@.take(args@.len() as int) =~= args@);
        }
        out
    }

    /// The output-buffer index of an `out` call.
    fn out_index(args: &Vec<ArgLit>) -> (r: u32)
        ensures
            r == out_index_spec(args@),
    {
        if args.len() > 0 {
            match args[0] {
                ArgLit::Num(b) => f32_bits_to_u32(b),
                ArgLit::Skip => 0u32,
            }
        } else {
            0u32
        }
    }

    /// Lowers a call expression; see [`build_call_spec`].
    fn build_call(&mut self, e: &Chain) -> (r: Option<NodeId>)
        ensures
            ({
                let (ns2, rr) = build_call_spec(*e, arena_view(old(self).nodes@));
                &&& arena_view(final(self).nodes@) == ns2
                &&& root_corresponds(r, rr)
            }),
        decreases *e, 0int,
    {
        match e {
            Chain::Call { name, args } => {
                match Self::classify_source(name) {
                    Some(ty) => {
                        let a = Self::extract_f32_args(args);
                        Some(self.push(IRKind::Source { ty, args: a }))
                    }
                    None => None,
                }
            }
            Chain::MethodCall { obj, name, call_arg, args } => {
                let base_opt = self.build_expr(obj);
                match base_opt {
                    None => None,
                    Some(base) => {
                        if name_is(name, "out") {
                            let index = Self::out_index(args);
                            Some(self.push(IRKind::Output { child: base, index }))
                        } else if let Some(ty) = Self::classify_spatial(name) {
                            let a = Self::extract_f32_args(args);
                            Some(self.push(IRKind::Spatial { ty, args: a, child: base }))
                        } else if let Some(bt) = Self::classify_binary(name) {
                            match call_arg {
                                Some(ca) => {
                                    match self.build_call(ca) {
                                        None => None,
                                        Some(right) => {
                                            let mut extra: Vec<u32> = Vec::new();
                                            if args.len() > 1 {
                                                if let ArgLit::Num(b) = args[1] {
                                                    extra.push(b);
                                                }
                                            }
                                            proof {
                                                assert(extra@ =~= binary_extra_args_spec(args@));
                                            }
                                            Some(
                                                self.push(
                                                    IRKind::Binary {
                                                        ty: bt,
                                                        args: extra,
                                                        left: base,
                                                        right,
                                                    },
                                                ),
                                            )
                                        }
                                    }
                                }
                                None => Some(base),
                            }
                        } else if let Some(ut) = Self::classify_unary_color(name) {
                            let a = Self::extract_f32_args(args);
                            Some(self.push(IRKind::UnaryColor { ty: ut, args: a, child: base }))
                        } else {
                            Some(base)
                        }
                    }
                }
            }
            Chain::Member { .. } => None,
            Chain::Opaque => None,
        }
    }

    /// Lowers any expression; see [`build_expr_spec`].
    fn build_expr(&mut self, e: &Chain) -> (r: Option<NodeId>)
        ensures
            ({
                let (ns2, rr) = build_expr_spec(*e, arena_view(old(self).nodes@));
                &&& arena_view(final(self).nodes@) == ns2
                &&& root_corresponds(r, rr)
            }),
        decreases *e, 1int,
    {
        match e {
            Chain::Call { .. } => self.build_call(e),
            Chain::MethodCall { .. } => self.build_call(e),
            Chain::Member { obj } => self.build_member(obj),
            Chain::Opaque => None,
        }
    }

    /// Lowers a member access by lowering its receiver.
    fn build_member(&mut self, obj: &Chain) -> (r: Option<NodeId>)
        ensures
            ({
                let (ns2, rr) = build_expr_spec(*obj, arena_view(old(self).nodes@));
                &&& arena_view(final(self).nodes@) == ns2
                &&& root_corresponds(r, rr)
            }),
        decreases *obj, 2int,
    {
        self.build_expr(obj)
    }

    /// Lowers the expression of a script and returns the root node id, or
    /// `None` when the expression contained no chain. The arena only grows,
    /// stays well formed, and the root lies inside it.
    pub fn build_script(&mut self, script: &Chain) -> (r: Option<NodeId>)
        ensures
            ({
                let (ns2, rr) = build_expr_spec(*script, arena_view(old(self).nodes@));
                &&& arena_view(final(self).nodes@) == ns2
                &&& root_corresponds(r, rr)
            }),
            old(self).nodes@.len() <= final(self).nodes@.len(),
            wf_arena(arena_view(old(self).nodes@)) ==> wf_arena(arena_view(final(self).nodes@)),
            r matches Some(id) ==> id.0 < final(self).nodes@.len(),
    {
        proof {
            lemma_build_expr_spec_props(*script, arena_view(old(self).nodes@));
        }
        let r = self.build_expr(script);
        r
    }
}

} // verus!

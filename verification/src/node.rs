//! The typed IR: a dataflow graph of source, spatial, color and binary
//! nodes, stored in an index-addressed arena.

use vstd::prelude::*;

verus! {

/// The index of a node in the arena of an [`crate::builder::IRBuilder`].
#[derive(Clone, Copy, Debug, PartialEq, Eq, Structural)]
pub struct NodeId(pub usize);

/// A chain operation that produces a color from the current coordinate.
#[derive(Debug, Clone, Copy, PartialEq, Eq, Structural)]
pub enum SourceType {
    Osc,
    Noise,
    Solid,
    Gradient,
    Shape,
    Voronoi,
    Src,
}

/// A chain operation that transforms the coordinate at which its child is
/// sampled.
#[derive(Debug, Clone, Copy, PartialEq, Eq, Structural)]
pub enum SpatialType {
    Scale,
    Kaleid,
    Rotate,
    ScrollX,
    ScrollY,
    Scroll,
    Repeat,
    RepeatX,
    RepeatY,
    Pixelate,
}

/// A chain operation that transforms the color its child produced, at the
/// same coordinate.
#[derive(Debug, Clone, Copy, PartialEq, Eq, Structural)]
pub enum UnaryColorType {
    Invert,
    Color,
    Brightness,
    Contrast,
    Saturate,
    Posterize,
    Thresh,
    Hue,
    Colorama,
    Luma,
    Shift,
}

/// A chain operation that combines the colors of two subtrees. The
/// coordinate-modulating kinds (`Modulate`, `ModulateScale`) re-evaluate the
/// left subtree at a coordinate derived from the right subtree's color;
/// `ModulateHue` hue-rotates the left color by the right color's luma.
#[derive(Debug, Clone, Copy, PartialEq, Eq, Structural)]
pub enum BinaryType {
    Add,
    Sub,
    Mult,
    Blend,
    Diff,
    Layer,
    Mask,
    Modulate,
    ModulateScale,
    ModulateHue,
}

/// The payload of one IR node. Argument vectors hold the bit patterns of the
/// `f32` literal arguments of the chain call, in positional order.
#[derive(Debug, Clone)]
pub enum IRKind {
    Source { ty: SourceType, args: Vec<u32> },
    Spatial { ty: SpatialType, args: Vec<u32>, child: NodeId },
    UnaryColor { ty: UnaryColorType, args: Vec<u32>, child: NodeId },
    Binary { ty: BinaryType, args: Vec<u32>, left: NodeId, right: NodeId },
    Output { child: NodeId, index: u32 },
}

/// One node of the IR graph.
#[derive(Debug, Clone)]
pub struct IRNode {
    pub kind: IRKind,
}

/// The mathematical shape of one IR node: argument vectors become sequences
/// and child references become integers.
pub enum IRKindV {
    Source { ty: SourceType, args: Seq<u32> },
    Spatial { ty: SpatialType, args: Seq<u32>, child: int },
    UnaryColor { ty: UnaryColorType, args: Seq<u32>, child: int },
    Binary { ty: BinaryType, args: Seq<u32>, left: int, right: int },
    Output { child: int, index: u32 },
}

/// The view of one node payload.
pub open spec fn kind_view(k: IRKind) -> IRKindV {
    match k {
        IRKind::Source { ty, args } => IRKindV::Source { ty, args: args@ },
        IRKind::Spatial { ty, args, child } => IRKindV::Spatial {
            ty,
            args: args@,
            child: child.0 as int,
        },
        IRKind::UnaryColor { ty, args, child } => IRKindV::UnaryColor {
            ty,
            args: args@,
            child: child.0 as int,
        },
        IRKind::Binary { ty, args, left, right } => IRKindV::Binary {
            ty,
            args: args@,
            left: left.0 as int,
            right: right.0 as int,
        },
        IRKind::Output { child, index } => IRKindV::Output { child: child.0 as int, index },
    }
}

impl View for IRNode {
    type V = IRKindV;

    open spec fn view(&self) -> IRKindV {
        kind_view(self.kind)
    }
}

/// The view of a whole arena.
pub open spec fn arena_view(nodes: Seq<IRNode>) -> Seq<IRKindV> {
    nodes.map_values(|n: IRNode| n@)
}

/// True when every child reference of `k` points strictly below `bound`.
pub open spec fn children_below(k: IRKindV, bound: int) -> bool {
    match k {
        IRKindV::Source { .. } => true,
        IRKindV::Spatial { child, .. } => 0 <= child < bound,
        IRKindV::UnaryColor { child, .. } => 0 <= child < bound,
        IRKindV::Binary { left, right, .. } => 0 <= left < bound && 0 <= right < bound,
        IRKindV::Output { child, .. } => 0 <= child < bound,
    }
}

/// Well-formedness of a node arena: every node's children lie strictly below
/// the node itself, so the graph is acyclic and evaluation terminates.
pub open spec fn wf_arena(ns: Seq<IRKindV>) -> bool {
    forall|i: int| 0 <= i < ns.len() ==> children_below(#[trigger] ns[i], i)
}

/// The output-buffer indices that evaluating node `id` can bind: those of
/// every output node in its subtree.
pub open spec fn out_indices(ns: Seq<IRKindV>, id: int) -> Set<u32>
    decreases id,
{
    if wf_arena(ns) && 0 <= id < ns.len() {
        match ns[id] {
            IRKindV::Source { .. } => Set::<u32>::empty(),
            IRKindV::Spatial { child, .. } => out_indices(ns, child),
            IRKindV::UnaryColor { child, .. } => out_indices(ns, child),
            IRKindV::Binary { left, right, .. } => out_indices(ns, left).union(
                out_indices(ns, right),
            ),
            IRKindV::Output { child, index } => out_indices(ns, child).insert(index),
        }
    } else {
        Set::<u32>::empty()
    }
}

} // verus!

//! The IR evaluator and module assembly.
//!
//! [`SpirvEmitter::emit_ir_node`] walks the IR graph threading the current
//! coordinate id explicitly: spatial nodes transform the coordinate before
//! their child is evaluated, color nodes transform the child's color, and
//! the coordinate-modulating binaries evaluate their right subtree first,
//! derive a new coordinate from its color, and re-evaluate the left subtree
//! there. [`SpirvEmitter::emit_pipeline`] wraps the root color in
//! auto-exposure, the ACES tone map and a clamp, declares the single
//! `main` fragment entry point, and assembles the word stream.

use vstd::prelude::*;
use crate::spirv_api::appends_no_store;
use crate::spirv_api::assembled;
use crate::spirv_api::insts_of;
use crate::spirv_api::single_store_to;
use crate::spirv_api::store_free;
use crate::spirv_api::Inst;
use crate::builder::build_expr_spec;
use crate::spirv_api::appends_def;
use crate::ast::Chain;
use crate::builder::IRBuilder;
use crate::hydra_sources::arg_bits;
use crate::node::BinaryType;
use crate::node::IRKind;
use crate::node::IRKindV;
use crate::node::NodeId;
use crate::node::SourceType;
use crate::node::SpatialType;
use crate::node::UnaryColorType;
use crate::node::arena_view;
use crate::node::children_below;
use crate::node::out_indices;
use crate::node::wf_arena;
use crate::numeric::BITS_0_02;
use crate::numeric::BITS_ACES_A;
use crate::numeric::BITS_ACES_B;
use crate::numeric::BITS_ACES_C;
use crate::numeric::BITS_ACES_D;
use crate::numeric::BITS_ACES_E;
use crate::numeric::BITS_EPS_1E6;
use crate::numeric::BITS_FOUR;
use crate::numeric::BITS_HALF;
use crate::numeric::BITS_ONE;
use crate::numeric::BITS_REPEAT_EPS;
use crate::numeric::BITS_SIX;
use crate::numeric::BITS_TEN;
use crate::numeric::BITS_THREE;
use crate::numeric::BITS_TWO_PI;
use crate::numeric::BITS_ZERO;
use crate::numeric::f32_bits_to_u32;
use crate::numeric::f32_bits_trunc_u32;
use crate::spirv_api::EXEC_MODEL_FRAGMENT;
use crate::spirv_api::EXEC_MODE_ORIGIN_UPPER_LEFT;
use crate::spirv_api::EntryPointDecl;
use crate::spirv_api::exec_modes_of;
use crate::spirv_api::in_block;
use crate::spirv_api::in_function;
use crate::spirv_api::EmitError;
use crate::spirv_api::SPIRV_MAGIC;
use crate::spirv_api::entry_points;
use crate::spirv_api::rb_assemble;
use crate::spirv_api::rb_begin_block;
use crate::spirv_api::rb_begin_function;
use crate::spirv_api::rb_end_function;
use crate::spirv_api::rb_entry_point_fragment;
use crate::spirv_api::rb_execution_mode_origin_upper_left;
use crate::spirv_api::rb_f_add;
use crate::spirv_api::rb_f_div;
use crate::spirv_api::rb_f_mul;
use crate::spirv_api::rb_f_sub;
use crate::spirv_api::rb_ret;
use crate::spirv_api::rb_store;
use crate::spirv_api::rb_type_function;
use crate::spirv_context::SpirvContext;
use crate::spirv_context::buf_lookup;
use crate::spirv_context::in_shader_block;
use crate::spirv_context::same_env;

verus! {

broadcast use crate::spirv_api::lemma_appends_no_store_eq, crate::spirv_api::lemma_appends_no_store_trans, crate::spirv_api::lemma_appends_def_after, crate::spirv_api::lemma_appends_def_before;

/// The output-buffer index a `src` source reads: its first argument
/// truncated to `u32`, or zero when absent.
pub open spec fn src_index_spec(args: Seq<u32>) -> u32 {
    if args.len() > 0 {
        f32_bits_trunc_u32(args[0])
    } else {
        0u32
    }
}

/// A fresh emitter, fit to start a compile: nothing selected, no entry
/// point and no execution mode declared yet.
pub open spec fn fresh_for_compile(e: SpirvEmitter) -> bool {
    &&& !in_function(e.context.builder)
    &&& !in_block(e.context.builder)
    &&& entry_points(e.context.builder) == Seq::<EntryPointDecl>::empty()
    &&& exec_modes_of(e.context.builder) == Seq::<(u32, u32)>::empty()
    &&& insts_of(e.context.builder) == Seq::<Inst>::empty()
}

/// The IR-driven SPIR-V emitter for one compile.
pub struct SpirvEmitter {
    pub context: SpirvContext,
    pub current_function: Option<u32>,
}

impl SpirvEmitter {
    /// A fresh emitter over a fresh context: no entry point or execution
    /// mode declared, no output buffer bound, no function or block under
    /// construction.
    pub fn new() -> (r: Self)
        ensures
            fresh_for_compile(r),
            r.context.buffers@.len() == 0,
    {
        SpirvEmitter { context: SpirvContext::new(), current_function: None }
    }

    /// Evaluates IR node `id` at coordinate `coord` and returns the color
    /// id. An output node binds its buffer index to exactly the color it
    /// returns; a `src` source reads the current binding of its index back
    /// verbatim and binds nothing; and no buffer outside the subtree's
    /// output indices changes.
    fn emit_ir_node(&mut self, ir: &IRBuilder, id: NodeId, coord: u32) -> (r: Result<
        u32,
        EmitError,
    >)
        requires
            wf_arena(arena_view(ir.nodes@)),
            id.0 < ir.nodes@.len(),
        ensures
            same_env(old(self).context, final(self).context),
            (arena_view(ir.nodes@)[id.0 as int] matches IRKindV::Output { index, .. } ==> (
            r matches Ok(c) ==> buf_lookup(final(self).context.buffers@, index) == Some(c))),
            (arena_view(ir.nodes@)[id.0 as int] matches IRKindV::Source {
                ty: SourceType::Src,
                args,
            } ==> {
                &&& final(self).context.buffers@ == old(self).context.buffers@
                &&& (buf_lookup(old(self).context.buffers@, src_index_spec(args)) matches Some(v)
                    ==> r == Ok::<u32, EmitError>(v))
            }),
            in_shader_block(old(self).context) ==> r is Ok,
            appends_no_store(old(self).context.builder, final(self).context.builder),
            forall|q: u32|
                !out_indices(arena_view(ir.nodes@), id.0 as int).contains(q) ==> #[trigger]
                buf_lookup(final(self).context.buffers@, q) == buf_lookup(
                    old(self).context.buffers@,
                    q,
                ),
        decreases id.0,
    {
        proof {
            assert(children_below(arena_view(ir.nodes@)[id.0 as int], id.0 as int));
            assert(arena_view(ir.nodes@)[id.0 as int] == ir.nodes@[id.0 as int]@);
        }
        match &ir.nodes[id.0].kind {
            IRKind::Source { ty, args } => self.emit_source(*ty, args, coord),
            IRKind::Spatial { ty, args, child } => {
                let new_coord = self.apply_spatial_transform(*ty, args, coord)?;
                self.emit_ir_node(ir, *child, new_coord)
            }
            IRKind::UnaryColor { ty, args, child } => {
                let base = self.emit_ir_node(ir, *child, coord)?;
                self.emit_unary_color(*ty, args, base)
            }
            IRKind::Binary { ty, args, left, right } => {
                match ty {
                    BinaryType::Modulate | BinaryType::ModulateScale => {
                        // The modulator is evaluated first, at the current
                        // coordinate; the left subtree is then re-sampled at
                        // the coordinate the modulator's color derives.
                        let mod_color = self.emit_ir_node(ir, *right, coord)?;
                        let amount = self.context.get_arg_or_default(args, 0, BITS_ONE);
                        let new_coord = if let BinaryType::ModulateScale = ty {
                            self.scale_coord_from_color(coord, mod_color, amount)?
                        } else {
                            self.displace_coord_from_color(coord, mod_color, amount)?
                        };
                        self.emit_ir_node(ir, *left, new_coord)
                    }
                    _ => {
                        let a = self.emit_ir_node(ir, *left, coord)?;
                        let b = self.emit_ir_node(ir, *right, coord)?;
                        self.emit_standard_binary(*ty, args, a, b)
                    }
                }
            }
            IRKind::Output { child, index } => {
                let c = self.emit_ir_node(ir, *child, coord)?;
                self.context.store_buffer(*index, c);
                Ok(c)
            }
        }
    }

    /// Dispatches a source node to its emitter. A `src` source returns the
    /// stored color of its buffer verbatim when one is bound, and falls
    /// back to `solid()` with default arguments when none is.
    fn emit_source(&mut self, ty: SourceType, args: &Vec<u32>, coord: u32) -> (r: Result<
        u32,
        EmitError,
    >)
        ensures
            same_env(old(self).context, final(self).context),
            final(self).context.buffers@ == old(self).context.buffers@,
            ty == SourceType::Src ==> (buf_lookup(
                old(self).context.buffers@,
                src_index_spec(args@),
            ) matches Some(v) ==> r == Ok::<u32, EmitError>(v)),
            in_shader_block(old(self).context) ==> r is Ok,
            appends_no_store(old(self).context.builder, final(self).context.builder),
    {
        match ty {
            SourceType::Osc => self.context.emit_osc(args, coord),
            SourceType::Noise => self.context.emit_noise(args, coord),
            SourceType::Solid => self.context.emit_solid(args),
            SourceType::Gradient => self.context.emit_gradient(args, coord),
            SourceType::Shape => self.context.emit_shape(args, coord),
            SourceType::Voronoi => self.context.emit_voronoi(args, coord),
            SourceType::Src => {
                let idx_bits = arg_bits(args, 0, BITS_ZERO);
                let idx = f32_bits_to_u32(idx_bits);
                proof {
                    // the all-zero bit pattern truncates to index zero
                    assert((0u32 >> 23u32) & 0xffu32 == 0u32) by (bit_vector);
                    assert((0u32 >> 31u32) == 0u32) by (bit_vector);
                    assert(idx == src_index_spec(args@));
                }
                match self.context.lookup_buffer(idx) {
                    Some(val) => {
                        proof {
                            reveal(appends_no_store);
                        }
                        Ok(val)
                    },
                    None => {
                        // the documented fallback: solid() with default
                        // arguments, transparent black with alpha one
                        let defaults: Vec<u32> = Vec::new();
                        self.context.emit_solid(&defaults)
                    }
                }
            }
        }
    }

    /// Applies a spatial transform to the coordinate and returns the new
    /// coordinate id.
    fn apply_spatial_transform(&mut self, ty: SpatialType, args: &Vec<u32>, coord: u32) -> (r:
        Result<u32, EmitError>)
        ensures
            same_env(old(self).context, final(self).context),
            final(self).context.buffers@ == old(self).context.buffers@,
            in_shader_block(old(self).context) ==> r is Ok,
            appends_no_store(old(self).context.builder, final(self).context.builder),
            r matches Ok(c) ==> appends_def(old(self).context.builder, final(self).context.builder, c),
    {
        match ty {
            SpatialType::Scale => {
                let sx = arg_bits(args, 0, BITS_ONE);
                let sy = if args.len() > 1 {
                    args[1]
                } else {
                    sx
                };
                self.scale_coord(coord, sx, sy)
            }
            SpatialType::Kaleid => {
                let sides = arg_bits(args, 0, BITS_FOUR);
                self.kaleid_coord(coord, sides)
            }
            SpatialType::Rotate => {
                let angle = arg_bits(args, 0, BITS_ZERO);
                let speed = arg_bits(args, 1, BITS_ZERO);
                self.rotate_coord(coord, angle, speed)
            }
            SpatialType::ScrollX => {
                let amt = arg_bits(args, 0, BITS_ZERO);
                let speed = arg_bits(args, 1, BITS_ZERO);
                self.scroll_coord(coord, Some(amt), None, Some(speed), None)
            }
            SpatialType::ScrollY => {
                let amt = arg_bits(args, 0, BITS_ZERO);
                let speed = arg_bits(args, 1, BITS_ZERO);
                self.scroll_coord(coord, None, Some(amt), None, Some(speed))
            }
            SpatialType::Scroll => {
                let ax = arg_bits(args, 0, BITS_ZERO);
                let ay = arg_bits(args, 1, BITS_ZERO);
                let sx = arg_bits(args, 2, BITS_ZERO);
                let sy = arg_bits(args, 3, BITS_ZERO);
                self.scroll_coord(coord, Some(ax), Some(ay), Some(sx), Some(sy))
            }
            SpatialType::Repeat => {
                let rx = arg_bits(args, 0, BITS_THREE);
                let ry = if args.len() > 1 {
                    args[1]
                } else {
                    rx
                };
                self.repeat_coord(coord, rx, ry)
            }
            SpatialType::RepeatX => {
                let rx = arg_bits(args, 0, BITS_THREE);
                self.repeat_coord(coord, rx, BITS_ONE)
            }
            SpatialType::RepeatY => {
                let ry = arg_bits(args, 0, BITS_THREE);
                self.repeat_coord(coord, BITS_ONE, ry)
            }
            SpatialType::Pixelate => {
                let sx = arg_bits(args, 0, BITS_TEN);
                let sy = if args.len() > 1 {
                    args[1]
                } else {
                    sx
                };
                self.pixelate_coord(coord, sx, sy)
            }
        }
    }

    /// `rotate(angle, speed)`: center-rotate by `angle + time*speed`.
    fn rotate_coord(&mut self, coord: u32, angle_bits: u32, speed_bits: u32) -> (r: Result<
        u32,
        EmitError,
    >)
        ensures
            same_env(old(self).context, final(self).context),
            final(self).context.buffers@ == old(self).context.buffers@,
            in_shader_block(old(self).context) ==> r is Ok,
            appends_no_store(old(self).context.builder, final(self).context.builder),
            r matches Ok(c) ==> appends_def(old(self).context.builder, final(self).context.builder, c),
    {
        let ctx = &mut self.context;
        let time = ctx.load_time()?;
        let speed_c = ctx.emit_f32_constant(speed_bits);
        let time_term = rb_f_mul(&mut ctx.builder, ctx.types.f32_ty, time, speed_c)?;
        let base_angle = ctx.emit_f32_constant(angle_bits);
        let total = rb_f_add(&mut ctx.builder, ctx.types.f32_ty, base_angle, time_term)?;
        let (x, y) = ctx.extract_vec2_components(coord)?;
        let half = ctx.emit_f32_constant(BITS_HALF);
        let x_c = rb_f_sub(&mut ctx.builder, ctx.types.f32_ty, x, half)?;
        let y_c = rb_f_sub(&mut ctx.builder, ctx.types.f32_ty, y, half)?;
        let cos_a = ctx.emit_glsl_cos(total)?;
        let sin_a = ctx.emit_glsl_sin(total)?;
        let x_cos = rb_f_mul(&mut ctx.builder, ctx.types.f32_ty, x_c, cos_a)?;
        let y_sin = rb_f_mul(&mut ctx.builder, ctx.types.f32_ty, y_c, sin_a)?;
        let x_prime = rb_f_sub(&mut ctx.builder, ctx.types.f32_ty, x_cos, y_sin)?;
        let x_sin = rb_f_mul(&mut ctx.builder, ctx.types.f32_ty, x_c, sin_a)?;
        let y_cos = rb_f_mul(&mut ctx.builder, ctx.types.f32_ty, y_c, cos_a)?;
        let y_prime = rb_f_add(&mut ctx.builder, ctx.types.f32_ty, x_sin, y_cos)?;
        let x_add = rb_f_add(&mut ctx.builder, ctx.types.f32_ty, x_prime, half)?;
        let y_add = rb_f_add(&mut ctx.builder, ctx.types.f32_ty, y_prime, half)?;
        ctx.emit_vec2(x_add, y_add)
    }

    /// One scrolled axis: `fract(val + amount + time*speed)`, with either
    /// term absent when its argument is.
    fn scroll_axis(
        &mut self,
        val: u32,
        amt: Option<u32>,
        speed: Option<u32>,
        time: u32,
    ) -> (r: Result<u32, EmitError>)
        ensures
            same_env(old(self).context, final(self).context),
            final(self).context.buffers@ == old(self).context.buffers@,
            in_shader_block(old(self).context) ==> r is Ok,
            appends_no_store(old(self).context.builder, final(self).context.builder),
            r matches Ok(c) ==> appends_def(old(self).context.builder, final(self).context.builder, c),
    {
        let ctx = &mut self.context;
        let mut out = val;
        if let Some(a_bits) = amt {
            let a_c = ctx.emit_f32_constant(a_bits);
            out = rb_f_add(&mut ctx.builder, ctx.types.f32_ty, out, a_c)?;
        }
        if let Some(s_bits) = speed {
            let sc = ctx.emit_f32_constant(s_bits);
            let delta = rb_f_mul(&mut ctx.builder, ctx.types.f32_ty, time, sc)?;
            out = rb_f_add(&mut ctx.builder, ctx.types.f32_ty, out, delta)?;
        }
        let flo = ctx.emit_glsl_floor(out)?;
        rb_f_sub(&mut ctx.builder, ctx.types.f32_ty, out, flo)
    }

    /// `scroll` and its axis-restricted variants.
    fn scroll_coord(
        &mut self,
        coord: u32,
        ax: Option<u32>,
        ay: Option<u32>,
        sx: Option<u32>,
        sy: Option<u32>,
    ) -> (r: Result<u32, EmitError>)
        ensures
            same_env(old(self).context, final(self).context),
            final(self).context.buffers@ == old(self).context.buffers@,
            in_shader_block(old(self).context) ==> r is Ok,
            appends_no_store(old(self).context.builder, final(self).context.builder),
            r matches Ok(c) ==> appends_def(old(self).context.builder, final(self).context.builder, c),
    {
        let (x, y) = self.context.extract_vec2_components(coord)?;
        let time = self.context.load_time()?;
        let nx = self.scroll_axis(x, ax, sx, time)?;
        let ny = self.scroll_axis(y, ay, sy, time)?;
        self.context.emit_vec2(nx, ny)
    }

    /// `scale(sx, sy=sx)`: divide the centered coordinate by
    /// `max(s, 1e-6)` per axis, then recenter.
    fn scale_coord(&mut self, coord: u32, sx_bits: u32, sy_bits: u32) -> (r: Result<
        u32,
        EmitError,
    >)
        ensures
            same_env(old(self).context, final(self).context),
            final(self).context.buffers@ == old(self).context.buffers@,
            in_shader_block(old(self).context) ==> r is Ok,
            appends_no_store(old(self).context.builder, final(self).context.builder),
            r matches Ok(c) ==> appends_def(old(self).context.builder, final(self).context.builder, c),
    {
        let (x, y) = self.context.extract_vec2_components(coord)?;
        let ctx = &mut self.context;
        let half = ctx.emit_f32_constant(BITS_HALF);
        let x_c = rb_f_sub(&mut ctx.builder, ctx.types.f32_ty, x, half)?;
        let y_c = rb_f_sub(&mut ctx.builder, ctx.types.f32_ty, y, half)?;
        let eps = ctx.emit_f32_constant(BITS_EPS_1E6);
        let sx_c = ctx.emit_f32_constant(sx_bits);
        let sy_c = ctx.emit_f32_constant(sy_bits);
        let sx_safe = ctx.glsl_fmax(sx_c, eps)?;
        let sy_safe = ctx.glsl_fmax(sy_c, eps)?;
        let x_s = rb_f_div(&mut ctx.builder, ctx.types.f32_ty, x_c, sx_safe)?;
        let y_s = rb_f_div(&mut ctx.builder, ctx.types.f32_ty, y_c, sy_safe)?;
        let x_new = rb_f_add(&mut ctx.builder, ctx.types.f32_ty, x_s, half)?;
        let y_new = rb_f_add(&mut ctx.builder, ctx.types.f32_ty, y_s, half)?;
        ctx.emit_vec2(x_new, y_new)
    }

    /// `kaleid(sides)`: fold the angle into one sector, reflect to its
    /// half, and reconstruct; sides clamped to at least one.
    fn kaleid_coord(&mut self, coord: u32, sides_bits: u32) -> (r: Result<u32, EmitError>)
        ensures
            same_env(old(self).context, final(self).context),
            final(self).context.buffers@ == old(self).context.buffers@,
            in_shader_block(old(self).context) ==> r is Ok,
            appends_no_store(old(self).context.builder, final(self).context.builder),
            r matches Ok(c) ==> appends_def(old(self).context.builder, final(self).context.builder, c),
    {
        let (x, y) = self.context.extract_vec2_components(coord)?;
        let ctx = &mut self.context;
        let half = ctx.emit_f32_constant(BITS_HALF);
        let x_c = rb_f_sub(&mut ctx.builder, ctx.types.f32_ty, x, half)?;
        let y_c = rb_f_sub(&mut ctx.builder, ctx.types.f32_ty, y, half)?;
        let v2 = ctx.emit_vec2(x_c, y_c)?;
        let r_len = ctx.emit_length2(v2)?;
        let angle = ctx.emit_glsl_atan2(y_c, x_c)?;
        let one = ctx.emit_f32_constant(BITS_ONE);
        let sides_const = ctx.emit_f32_constant(sides_bits);
        let sides_clamped = ctx.glsl_fmax(sides_const, one)?;
        let two_pi = ctx.emit_f32_constant(BITS_TWO_PI);
        let sector = rb_f_div(&mut ctx.builder, ctx.types.f32_ty, two_pi, sides_clamped)?;
        let half_sec = ctx.emit_f32_constant(BITS_HALF);
        let sector_half = rb_f_mul(&mut ctx.builder, ctx.types.f32_ty, sector, half_sec)?;
        let angle_pos = ctx.emit_mod_scalar(angle, two_pi)?;
        let angle_sector = ctx.emit_mod_scalar(angle_pos, sector)?;
        let diff = rb_f_sub(&mut ctx.builder, ctx.types.f32_ty, angle_sector, sector_half)?;
        let fold = ctx.emit_glsl_abs(diff)?;
        let cos_a = ctx.emit_glsl_cos(fold)?;
        let sin_a = ctx.emit_glsl_sin(fold)?;
        let x_new = rb_f_mul(&mut ctx.builder, ctx.types.f32_ty, cos_a, r_len)?;
        let y_new = rb_f_mul(&mut ctx.builder, ctx.types.f32_ty, sin_a, r_len)?;
        let x_add = rb_f_add(&mut ctx.builder, ctx.types.f32_ty, x_new, half)?;
        let y_add = rb_f_add(&mut ctx.builder, ctx.types.f32_ty, y_new, half)?;
        ctx.emit_vec2(x_add, y_add)
    }

    /// `repeat(rx, ry)`: `(fract(x*rx), fract(y*ry))`, each factor clamped
    /// away from zero.
    fn repeat_coord(&mut self, coord: u32, rx_bits: u32, ry_bits: u32) -> (r: Result<
        u32,
        EmitError,
    >)
        ensures
            same_env(old(self).context, final(self).context),
            final(self).context.buffers@ == old(self).context.buffers@,
            in_shader_block(old(self).context) ==> r is Ok,
            appends_no_store(old(self).context.builder, final(self).context.builder),
            r matches Ok(c) ==> appends_def(old(self).context.builder, final(self).context.builder, c),
    {
        let (x, y) = self.context.extract_vec2_components(coord)?;
        let ctx = &mut self.context;
        let eps = ctx.emit_f32_constant(BITS_REPEAT_EPS);
        let rx_raw = ctx.emit_f32_constant(rx_bits);
        let ry_raw = ctx.emit_f32_constant(ry_bits);
        let rx_c = ctx.glsl_fmax(rx_raw, eps)?;
        let ry_c = ctx.glsl_fmax(ry_raw, eps)?;
        let x_s = rb_f_mul(&mut ctx.builder, ctx.types.f32_ty, x, rx_c)?;
        let y_s = rb_f_mul(&mut ctx.builder, ctx.types.f32_ty, y, ry_c)?;
        let x_f = ctx.emit_fract(x_s)?;
        let y_f = ctx.emit_fract(y_s)?;
        ctx.emit_vec2(x_f, y_f)
    }

    /// `pixelate(sx, sy=sx)`: snap each axis to the center of its cell,
    /// factors clamped to at least one.
    fn pixelate_coord(&mut self, coord: u32, sx_bits: u32, sy_bits: u32) -> (r: Result<
        u32,
        EmitError,
    >)
        ensures
            same_env(old(self).context, final(self).context),
            final(self).context.buffers@ == old(self).context.buffers@,
            in_shader_block(old(self).context) ==> r is Ok,
            appends_no_store(old(self).context.builder, final(self).context.builder),
            r matches Ok(c) ==> appends_def(old(self).context.builder, final(self).context.builder, c),
    {
        let (x, y) = self.context.extract_vec2_components(coord)?;
        let ctx = &mut self.context;
        let one = ctx.emit_f32_constant(BITS_ONE);
        let sx_raw = ctx.emit_f32_constant(sx_bits);
        let sy_raw = ctx.emit_f32_constant(sy_bits);
        let sx_c = ctx.glsl_fmax(sx_raw, one)?;
        let sy_c = ctx.glsl_fmax(sy_raw, one)?;
        let x_mul = rb_f_mul(&mut ctx.builder, ctx.types.f32_ty, x, sx_c)?;
        let y_mul = rb_f_mul(&mut ctx.builder, ctx.types.f32_ty, y, sy_c)?;
        let x_fl = ctx.emit_glsl_floor(x_mul)?;
        let y_fl = ctx.emit_glsl_floor(y_mul)?;
        let x_div = rb_f_div(&mut ctx.builder, ctx.types.f32_ty, x_fl, sx_c)?;
        let y_div = rb_f_div(&mut ctx.builder, ctx.types.f32_ty, y_fl, sy_c)?;
        let half = ctx.emit_f32_constant(BITS_HALF);
        let x_ofs = rb_f_div(&mut ctx.builder, ctx.types.f32_ty, half, sx_c)?;
        let y_ofs = rb_f_div(&mut ctx.builder, ctx.types.f32_ty, half, sy_c)?;
        let x_final = rb_f_add(&mut ctx.builder, ctx.types.f32_ty, x_div, x_ofs)?;
        let y_final = rb_f_add(&mut ctx.builder, ctx.types.f32_ty, y_div, y_ofs)?;
        ctx.emit_vec2(x_final, y_final)
    }

    /// Dispatches a unary color node to its emitter.
    fn emit_unary_color(&mut self, ty: UnaryColorType, args: &Vec<u32>, input: u32) -> (r: Result<
        u32,
        EmitError,
    >)
        ensures
            same_env(old(self).context, final(self).context),
            final(self).context.buffers@ == old(self).context.buffers@,
            in_shader_block(old(self).context) ==> r is Ok,
            appends_no_store(old(self).context.builder, final(self).context.builder),
            r matches Ok(c) ==> appends_def(old(self).context.builder, final(self).context.builder, c),
    {
        match ty {
            UnaryColorType::Invert => self.context.emit_invert(input, args),
            UnaryColorType::Color => self.context.emit_color(input, args),
            UnaryColorType::Brightness => self.context.emit_brightness(input, args),
            UnaryColorType::Contrast => self.context.emit_contrast(input, args),
            UnaryColorType::Saturate => self.context.emit_saturate(input, args),
            UnaryColorType::Posterize => self.context.emit_posterize(input, args),
            UnaryColorType::Thresh => self.context.emit_thresh(input, args),
            UnaryColorType::Hue => self.context.emit_hue(input, args),
            UnaryColorType::Colorama => self.context.emit_colorama(input, args),
            UnaryColorType::Luma => self.context.emit_luma_effect(input, args),
            UnaryColorType::Shift => self.context.emit_shift(input, args),
        }
    }

    /// Combines two subtree colors evaluated at the same coordinate. The
    /// amount defaults to one when the second chain argument is absent;
    /// `diff` and `layer` take no amount.
    fn emit_standard_binary(&mut self, ty: BinaryType, args: &Vec<u32>, a: u32, b: u32) -> (r:
        Result<u32, EmitError>)
        requires
            ty != BinaryType::Modulate,
            ty != BinaryType::ModulateScale,
        ensures
            same_env(old(self).context, final(self).context),
            final(self).context.buffers@ == old(self).context.buffers@,
            in_shader_block(old(self).context) ==> r is Ok,
            appends_no_store(old(self).context.builder, final(self).context.builder),
            r matches Ok(c) ==> appends_def(old(self).context.builder, final(self).context.builder, c),
    {
        let amount = self.context.get_arg_or_default(args, 0, BITS_ONE);
        match ty {
            BinaryType::Add => self.context.binary_add(a, b, amount),
            BinaryType::Sub => self.context.binary_sub(a, b, amount),
            BinaryType::Mult => self.context.binary_mult(a, b, amount),
            BinaryType::Blend => self.context.binary_blend(a, b, amount),
            BinaryType::Diff => self.context.binary_diff(a, b),
            BinaryType::Layer => self.context.binary_layer(a, b),
            BinaryType::Mask => self.context.binary_mask(a, b),
            BinaryType::ModulateHue => self.context.emit_modulate_hue(a, b, amount),
            // excluded by the precondition: the evaluator routes the
            // coordinate-modulating kinds to its re-sampling branch
            BinaryType::Modulate => Err(EmitError::Builder),
            BinaryType::ModulateScale => Err(EmitError::Builder),
        }
    }

    /// `modulate`: displace the coordinate by the modulator's red and green
    /// channels, `clamp01((x, y) + (rg - 0.5)*amount)`.
    fn displace_coord_from_color(&mut self, coord: u32, color: u32, amount: u32) -> (r: Result<
        u32,
        EmitError,
    >)
        ensures
            same_env(old(self).context, final(self).context),
            final(self).context.buffers@ == old(self).context.buffers@,
            in_shader_block(old(self).context) ==> r is Ok,
            appends_no_store(old(self).context.builder, final(self).context.builder),
            r matches Ok(c) ==> appends_def(old(self).context.builder, final(self).context.builder, c),
    {
        let (x, y) = self.context.extract_vec2_components(coord)?;
        let red = self.context.extract_component(color, 0)?;
        let green = self.context.extract_component(color, 1)?;
        let ctx = &mut self.context;
        let half = ctx.emit_f32_constant(BITS_HALF);
        let r_off = rb_f_sub(&mut ctx.builder, ctx.types.f32_ty, red, half)?;
        let g_off = rb_f_sub(&mut ctx.builder, ctx.types.f32_ty, green, half)?;
        let r_scaled = rb_f_mul(&mut ctx.builder, ctx.types.f32_ty, r_off, amount)?;
        let g_scaled = rb_f_mul(&mut ctx.builder, ctx.types.f32_ty, g_off, amount)?;
        let x_new_add = rb_f_add(&mut ctx.builder, ctx.types.f32_ty, x, r_scaled)?;
        let y_new_add = rb_f_add(&mut ctx.builder, ctx.types.f32_ty, y, g_scaled)?;
        let x_clamp = ctx.clamp01(x_new_add)?;
        let y_clamp = ctx.clamp01(y_new_add)?;
        ctx.emit_vec2(x_clamp, y_clamp)
    }

    /// `modulateScale`: divide the centered coordinate uniformly by
    /// `1 + luma(modulator)*amount`, then recenter.
    fn scale_coord_from_color(&mut self, coord: u32, color: u32, amount: u32) -> (r: Result<
        u32,
        EmitError,
    >)
        ensures
            same_env(old(self).context, final(self).context),
            final(self).context.buffers@ == old(self).context.buffers@,
            in_shader_block(old(self).context) ==> r is Ok,
            appends_no_store(old(self).context.builder, final(self).context.builder),
            r matches Ok(c) ==> appends_def(old(self).context.builder, final(self).context.builder, c),
    {
        let l = self.context.emit_luma(color)?;
        let (x, y) = self.context.extract_vec2_components(coord)?;
        let ctx = &mut self.context;
        let l_scaled = rb_f_mul(&mut ctx.builder, ctx.types.f32_ty, l, amount)?;
        let one = ctx.emit_f32_constant(BITS_ONE);
        let factor = rb_f_add(&mut ctx.builder, ctx.types.f32_ty, one, l_scaled)?;
        let half = ctx.emit_f32_constant(BITS_HALF);
        let x_c = rb_f_sub(&mut ctx.builder, ctx.types.f32_ty, x, half)?;
        let y_c = rb_f_sub(&mut ctx.builder, ctx.types.f32_ty, y, half)?;
        let inv_factor = rb_f_div(&mut ctx.builder, ctx.types.f32_ty, one, factor)?;
        let x_s = rb_f_mul(&mut ctx.builder, ctx.types.f32_ty, x_c, inv_factor)?;
        let y_s = rb_f_mul(&mut ctx.builder, ctx.types.f32_ty, y_c, inv_factor)?;
        let x_new = rb_f_add(&mut ctx.builder, ctx.types.f32_ty, x_s, half)?;
        let y_new = rb_f_add(&mut ctx.builder, ctx.types.f32_ty, y_s, half)?;
        ctx.emit_vec2(x_new, y_new)
    }

    /// Auto-exposure: multiply RGB by `min(6, 1/(luma + 0.02))`.
    fn apply_auto_exposure(&mut self, color: u32) -> (r: Result<u32, EmitError>)
        ensures
            same_env(old(self).context, final(self).context),
            final(self).context.buffers@ == old(self).context.buffers@,
            in_shader_block(old(self).context) ==> r is Ok,
            appends_no_store(old(self).context.builder, final(self).context.builder),
            r matches Ok(c) ==> appends_def(old(self).context.builder, final(self).context.builder, c),
    {
        let l = self.context.emit_luma(color)?;
        let ctx = &mut self.context;
        let eps = ctx.emit_f32_constant(BITS_0_02);
        let denom = rb_f_add(&mut ctx.builder, ctx.types.f32_ty, l, eps)?;
        let one = ctx.emit_f32_constant(BITS_ONE);
        let raw_gain = rb_f_div(&mut ctx.builder, ctx.types.f32_ty, one, denom)?;
        let max_gain_c = ctx.emit_f32_constant(BITS_SIX);
        let gain = ctx.glsl_fmin(raw_gain, max_gain_c)?;
        let red = ctx.extract_component(color, 0)?;
        let green = ctx.extract_component(color, 1)?;
        let blue = ctx.extract_component(color, 2)?;
        let alpha = ctx.extract_component(color, 3)?;
        let r2 = rb_f_mul(&mut ctx.builder, ctx.types.f32_ty, red, gain)?;
        let g2 = rb_f_mul(&mut ctx.builder, ctx.types.f32_ty, green, gain)?;
        let b2 = rb_f_mul(&mut ctx.builder, ctx.types.f32_ty, blue, gain)?;
        ctx.construct_vec4(r2, g2, b2, alpha)
    }

    /// One channel of the ACES approximation:
    /// `(x*(2.51x + 0.03)) / (x*(2.43x + 0.59) + 0.14)`.
    fn aces_channel(&mut self, ch: u32, a_c: u32, b_c: u32, c_c: u32, d_c: u32, e_c: u32) -> (r:
        Result<u32, EmitError>)
        ensures
            same_env(old(self).context, final(self).context),
            final(self).context.buffers@ == old(self).context.buffers@,
            in_shader_block(old(self).context) ==> r is Ok,
            appends_no_store(old(self).context.builder, final(self).context.builder),
            r matches Ok(c) ==> appends_def(old(self).context.builder, final(self).context.builder, c),
    {
        let ctx = &mut self.context;
        let a_x = rb_f_mul(&mut ctx.builder, ctx.types.f32_ty, a_c, ch)?;
        let a_x_plus_b = rb_f_add(&mut ctx.builder, ctx.types.f32_ty, a_x, b_c)?;
        let ch_mul = rb_f_mul(&mut ctx.builder, ctx.types.f32_ty, ch, a_x_plus_b)?;
        let c_x = rb_f_mul(&mut ctx.builder, ctx.types.f32_ty, c_c, ch)?;
        let c_x_plus_d = rb_f_add(&mut ctx.builder, ctx.types.f32_ty, c_x, d_c)?;
        let ch_mul2 = rb_f_mul(&mut ctx.builder, ctx.types.f32_ty, ch, c_x_plus_d)?;
        let denom = rb_f_add(&mut ctx.builder, ctx.types.f32_ty, ch_mul2, e_c)?;
        rb_f_div(&mut ctx.builder, ctx.types.f32_ty, ch_mul, denom)
    }

    /// The ACES filmic tone map, per RGB channel, alpha preserved.
    fn tone_map_aces(&mut self, color: u32) -> (r: Result<u32, EmitError>)
        ensures
            same_env(old(self).context, final(self).context),
            final(self).context.buffers@ == old(self).context.buffers@,
            in_shader_block(old(self).context) ==> r is Ok,
            appends_no_store(old(self).context.builder, final(self).context.builder),
            r matches Ok(c) ==> appends_def(old(self).context.builder, final(self).context.builder, c),
    {
        let a_c = self.context.emit_f32_constant(BITS_ACES_A);
        let b_c = self.context.emit_f32_constant(BITS_ACES_B);
        let c_c = self.context.emit_f32_constant(BITS_ACES_C);
        let d_c = self.context.emit_f32_constant(BITS_ACES_D);
        let e_c = self.context.emit_f32_constant(BITS_ACES_E);
        let red = self.context.extract_component(color, 0)?;
        let green = self.context.extract_component(color, 1)?;
        let blue = self.context.extract_component(color, 2)?;
        let alpha = self.context.extract_component(color, 3)?;
        let r2 = self.aces_channel(red, a_c, b_c, c_c, d_c, e_c)?;
        let g2 = self.aces_channel(green, a_c, b_c, c_c, d_c, e_c)?;
        let b2 = self.aces_channel(blue, a_c, b_c, c_c, d_c, e_c)?;
        self.context.construct_vec4(r2, g2, b2, alpha)
    }

    /// Lowers the script to IR, emits the fragment `main` function (root
    /// color wrapped in auto-exposure, ACES and clamp, stored to
    /// `FragColor`), and declares the interface. Compilation is total: a
    /// fresh emitter always yields a module, and the finished context holds
    /// exactly one entry point — a fragment entry named `main` whose
    /// interface lists `FragCoord`, `FragColor` and the `Globals` variable —
    /// with exactly one execution mode, `OriginUpperLeft`, on that entry's
    /// function. The function body ends with its return terminator and
    /// stores exactly once, to `FragColor`, when the script built a chain,
    /// and never stores when it built none.
    pub fn build_module(self, script: &Chain) -> (r: Result<SpirvContext, EmitError>)
        requires
            fresh_for_compile(self),
        ensures
            r is Ok,
            r matches Ok(ctx) ==> {
                &&& entry_points(ctx.builder).len() == 1
                &&& entry_points(ctx.builder)[0].exec_model == EXEC_MODEL_FRAGMENT
                &&& entry_points(ctx.builder)[0].name == "main"@
                &&& entry_points(ctx.builder)[0].interface == seq![
                    ctx.builtins.frag_coord,
                    ctx.builtins.frag_color,
                    ctx.builtins.globals_ptr,
                ]
                &&& exec_modes_of(ctx.builder).len() == 1
                &&& exec_modes_of(ctx.builder)[0] == (
                    entry_points(ctx.builder)[0].function,
                    EXEC_MODE_ORIGIN_UPPER_LEFT,
                )
                &&& !in_function(ctx.builder)
                &&& !in_block(ctx.builder)
                &&& insts_of(ctx.builder).len() > 0
                &&& insts_of(ctx.builder).last() == Inst::Return
                &&& (build_expr_spec(*script, Seq::empty()).1 is Some ==> single_store_to(
                    insts_of(ctx.builder),
                    ctx.builtins.frag_color,
                ))
                &&& (build_expr_spec(*script, Seq::empty()).1 is None ==> store_free(
                    insts_of(ctx.builder),
                ))
            },
    {
        let mut this = self;
        let mut ir_builder = IRBuilder::new();
        proof {
            assert(ir_builder.nodes@ =~= Seq::<crate::node::IRNode>::empty());
            assert(arena_view(ir_builder.nodes@) =~= Seq::<IRKindV>::empty());
        }
        let root = ir_builder.build_script(script);

        let no_params: Vec<u32> = Vec::new();
        let fn_ty = rb_type_function(
            &mut this.context.builder,
            this.context.types.void_ty,
            no_params,
        );
        let main_fn = rb_begin_function(
            &mut this.context.builder,
            this.context.types.void_ty,
            fn_ty,
        )?;
        this.current_function = Some(main_fn);
        let _entry_block = rb_begin_block(&mut this.context.builder)?;
        let ghost b_blk = this.context.builder;

        let uv = this.context.compute_uv()?;
        let ghost mut b_pre = this.context.builder;

        if let Some(root_id) = root {
            let color = this.emit_ir_node(&ir_builder, root_id, uv)?;
            let exposed = this.apply_auto_exposure(color)?;
            let adjusted = this.tone_map_aces(exposed)?;
            let clamped = this.context.clamp_vec4(adjusted)?;
            proof {
                b_pre = this.context.builder;
            }
            rb_store(&mut this.context.builder, this.context.builtins.frag_color, clamped)?;
        }
        let ghost b_post = this.context.builder;
        rb_ret(&mut this.context.builder)?;
        rb_end_function(&mut this.context.builder)?;

        let mut interface: Vec<u32> = Vec::new();
        interface.push(this.context.builtins.frag_coord);
        interface.push(this.context.builtins.frag_color);
        interface.push(this.context.builtins.globals_ptr);
        proof {
            assert(interface@ =~= seq![
                this.context.builtins.frag_coord,
                this.context.builtins.frag_color,
                this.context.builtins.globals_ptr,
            ]);
        }
        rb_entry_point_fragment(&mut this.context.builder, main_fn, "main", &interface);
        rb_execution_mode_origin_upper_left(&mut this.context.builder, main_fn);
        proof {
            reveal(appends_no_store);
            let fin = insts_of(this.context.builder);
            let base = insts_of(b_blk);
            let pre = insts_of(b_pre);
            assert(base.len() == 1 && base[0] is Label);
            if root is Some {
                let si = pre.len() as int;
                assert(fin.len() == si + 2);
                assert(fin[si] == insts_of(b_post)[si]);
                assert(fin[si + 1] == Inst::Return);
                assert forall|k: int| 0 <= k < fin.len() && k != si implies !((#[trigger] fin[k])
                    is Store) by {
                    if k < si {
                        assert(fin[k] == pre[k]);
                        if k >= 1 {
                            assert(!(pre[k] is Store));
                        } else {
                            assert(pre[0] == base[0]);
                        }
                    }
                }
                assert(single_store_to(fin, this.context.builtins.frag_color));
            } else {
                assert(fin.len() == pre.len() + 1);
                assert(fin.last() == Inst::Return);
                assert forall|k: int| 0 <= k < fin.len() implies !((#[trigger] fin[k])
                    is Store) by {
                    if k < pre.len() {
                        assert(fin[k] == pre[k]);
                        if k >= 1 {
                            assert(!(pre[k] is Store));
                        } else {
                            assert(pre[0] == base[0]);
                        }
                    }
                }
                assert(store_free(fin));
            }
        }
        Ok(this.context)
    }

    /// Compiles a chain expression to a complete SPIR-V fragment-shader
    /// module. Compilation from a fresh emitter is total; the word stream
    /// begins with the SPIR-V magic word and is the assembly of a builder
    /// holding exactly one `main` fragment entry point with its
    /// `OriginUpperLeft` mode, whose function body ends in its return
    /// terminator and stores exactly once — to `FragColor`, the second
    /// interface variable — when the script built a chain, and never
    /// stores otherwise.
    pub fn emit_pipeline(self, script: &Chain) -> (r: Result<Vec<u32>, EmitError>)
        requires
            fresh_for_compile(self),
        ensures
            r is Ok,
            r matches Ok(words) ==> words@.len() >= 5 && words@[0] == SPIRV_MAGIC,
            r matches Ok(words) ==> exists|b: rspirv::dr::Builder|
                #![trigger assembled(b)]
                {
                    &&& words@ == assembled(b)
                    &&& entry_points(b).len() == 1
                    &&& entry_points(b)[0].exec_model == EXEC_MODEL_FRAGMENT
                    &&& entry_points(b)[0].name == "main"@
                    &&& entry_points(b)[0].interface.len() == 3
                    &&& exec_modes_of(b).len() == 1
                    &&& exec_modes_of(b)[0] == (
                        entry_points(b)[0].function,
                        EXEC_MODE_ORIGIN_UPPER_LEFT,
                    )
                    &&& insts_of(b).len() > 0
                    &&& insts_of(b).last() == Inst::Return
                    &&& (build_expr_spec(*script, Seq::empty()).1 is Some ==> single_store_to(
                        insts_of(b),
                        entry_points(b)[0].interface[1],
                    ))
                    &&& (build_expr_spec(*script, Seq::empty()).1 is None ==> store_free(
                        insts_of(b),
                    ))
                },
    {
        let ctx = self.build_module(script)?;
        let ghost bsnap = ctx.builder;
        let words = rb_assemble(ctx.builder);
        proof {
            assert(words@ == assembled(bsnap));
            assert(entry_points(bsnap)[0].interface[1] == ctx.builtins.frag_color);
        }
        Ok(words)
    }
}

} // verus!

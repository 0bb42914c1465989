//! The primitive library: scalar and vector helpers emitted as SPIR-V
//! instruction sequences. Every helper leaves the module environment (entry
//! points, cached types, interface, extension handle) and the output-buffer
//! table unchanged; it only appends instructions and returns the result id.

use vstd::prelude::*;
use crate::spirv_api::appends_no_store;
use crate::spirv_api::insts_of;
use crate::spirv_api::Inst;
use crate::spirv_api::appends_def;
use crate::numeric::BITS_LUMA_B;
use crate::numeric::BITS_LUMA_G;
use crate::numeric::BITS_LUMA_R;
use crate::numeric::BITS_ONE;
use crate::numeric::BITS_THREE;
use crate::numeric::BITS_TWO;
use crate::numeric::BITS_ZERO;
use crate::spirv_api::EmitError;
use crate::spirv_api::rb_composite_construct;
use crate::spirv_api::rb_composite_extract;
use crate::spirv_api::rb_constant_bit32;
use crate::spirv_api::rb_ext_inst;
use crate::spirv_api::rb_f_add;
use crate::spirv_api::rb_f_div;
use crate::spirv_api::rb_f_mul;
use crate::spirv_api::rb_f_ord_less_than;
use crate::spirv_api::rb_f_sub;
use crate::spirv_api::rb_load;
use crate::spirv_api::rb_select;
use crate::spirv_context::SpirvContext;
use crate::spirv_context::in_shader_block;
use crate::spirv_api::globals_of;
use crate::spirv_api::GlobalDecl;
use crate::spirv_context::same_env;

verus! {

broadcast use crate::spirv_api::lemma_appends_no_store_eq, crate::spirv_api::lemma_appends_no_store_trans, crate::spirv_api::lemma_appends_def_after, crate::spirv_api::lemma_appends_def_before;

/// GLSL.std.450 opcode `FAbs`.
pub const GLSL_FABS: u32 = 4;
/// GLSL.std.450 opcode `Floor`.
pub const GLSL_FLOOR: u32 = 8;
/// GLSL.std.450 opcode `Sin`.
pub const GLSL_SIN: u32 = 13;
/// GLSL.std.450 opcode `Cos`.
pub const GLSL_COS: u32 = 14;
/// GLSL.std.450 opcode `Atan2`.
pub const GLSL_ATAN2: u32 = 25;
/// GLSL.std.450 opcode `Pow`.
pub const GLSL_POW: u32 = 26;
/// GLSL.std.450 opcode `Sqrt`.
pub const GLSL_SQRT: u32 = 32;
/// GLSL.std.450 opcode `FMin`.
pub const GLSL_FMIN: u32 = 39;
/// GLSL.std.450 opcode `FMax`.
pub const GLSL_FMAX: u32 = 42;

impl SpirvContext {
    /// Appends an `f32` constant with exactly the bit pattern `bits` and
    /// returns its id.
    pub fn emit_f32_constant(&mut self, bits: u32) -> (r: u32)
        ensures
            same_env(*old(self), *final(self)),
            final(self).buffers@ == old(self).buffers@,
            globals_of(final(self).builder) == globals_of(old(self).builder).push(
                GlobalDecl::Constant { id: r, ty: old(self).types.f32_ty, bits },
            ),
            globals_of(final(self).builder).contains(
                GlobalDecl::Constant { id: r, ty: old(self).types.f32_ty, bits },
            ),
            crate::spirv_api::globals_grow(old(self).builder, final(self).builder),
            insts_of(final(self).builder) == insts_of(old(self).builder),
            appends_no_store(old(self).builder, final(self).builder),
    {
        rb_constant_bit32(&mut self.builder, self.types.f32_ty, bits)
    }

    /// One GLSL.std.450 instruction over one scalar operand.
    fn glsl_unary(&mut self, opcode: u32, x: u32) -> (r: Result<u32, EmitError>)
        ensures
            same_env(*old(self), *final(self)),
            final(self).buffers@ == old(self).buffers@,
            in_shader_block(*old(self)) ==> r is Ok,
            globals_of(final(self).builder) == globals_of(old(self).builder),
            appends_no_store(old(self).builder, final(self).builder),
            r matches Ok(c) ==> appends_def(old(self).builder, final(self).builder, c),
            r matches Ok(c) ==> insts_of(final(self).builder) == insts_of(
                old(self).builder,
            ).push(
                Inst::ExtInst {
                    id: c,
                    ty: old(self).types.f32_ty,
                    set: old(self).glsl_ext,
                    opcode: opcode,
                    operands: seq![x],
                },
            ),
    {
        let mut ops: Vec<u32> = Vec::new();
        ops.push(x);
        proof {
            assert(ops@ =~= seq![x]);
        }
        rb_ext_inst(&mut self.builder, self.types.f32_ty, self.glsl_ext, opcode, &ops)
    }

    /// One GLSL.std.450 instruction over two scalar operands.
    fn glsl_binary(&mut self, opcode: u32, x: u32, y: u32) -> (r: Result<u32, EmitError>)
        ensures
            same_env(*old(self), *final(self)),
            final(self).buffers@ == old(self).buffers@,
            in_shader_block(*old(self)) ==> r is Ok,
            globals_of(final(self).builder) == globals_of(old(self).builder),
            appends_no_store(old(self).builder, final(self).builder),
            r matches Ok(c) ==> appends_def(old(self).builder, final(self).builder, c),
            r matches Ok(c) ==> insts_of(final(self).builder) == insts_of(
                old(self).builder,
            ).push(
                Inst::ExtInst {
                    id: c,
                    ty: old(self).types.f32_ty,
                    set: old(self).glsl_ext,
                    opcode: opcode,
                    operands: seq![x, y],
                },
            ),
    {
        let mut ops: Vec<u32> = Vec::new();
        ops.push(x);
        ops.push(y);
        proof {
            assert(ops@ =~= seq![x, y]);
        }
        rb_ext_inst(&mut self.builder, self.types.f32_ty, self.glsl_ext, opcode, &ops)
    }

    /// `sin(x)`.
    pub fn emit_glsl_sin(&mut self, x: u32) -> (r: Result<u32, EmitError>)
        ensures
            same_env(*old(self), *final(self)),
            final(self).buffers@ == old(self).buffers@,
            in_shader_block(*old(self)) ==> r is Ok,
            appends_no_store(old(self).builder, final(self).builder),
            r matches Ok(c) ==> appends_def(old(self).builder, final(self).builder, c),
            r matches Ok(c) ==> insts_of(final(self).builder) == insts_of(
                old(self).builder,
            ).push(
                Inst::ExtInst {
                    id: c,
                    ty: old(self).types.f32_ty,
                    set: old(self).glsl_ext,
                    opcode: GLSL_SIN,
                    operands: seq![x],
                },
            ),
    {
        self.glsl_unary(GLSL_SIN, x)
    }

    /// `cos(x)`.
    pub fn emit_glsl_cos(&mut self, x: u32) -> (r: Result<u32, EmitError>)
        ensures
            same_env(*old(self), *final(self)),
            final(self).buffers@ == old(self).buffers@,
            in_shader_block(*old(self)) ==> r is Ok,
            appends_no_store(old(self).builder, final(self).builder),
            r matches Ok(c) ==> appends_def(old(self).builder, final(self).builder, c),
            r matches Ok(c) ==> insts_of(final(self).builder) == insts_of(
                old(self).builder,
            ).push(
                Inst::ExtInst {
                    id: c,
                    ty: old(self).types.f32_ty,
                    set: old(self).glsl_ext,
                    opcode: GLSL_COS,
                    operands: seq![x],
                },
            ),
    {
        self.glsl_unary(GLSL_COS, x)
    }

    /// `floor(x)`.
    pub fn emit_glsl_floor(&mut self, x: u32) -> (r: Result<u32, EmitError>)
        ensures
            same_env(*old(self), *final(self)),
            final(self).buffers@ == old(self).buffers@,
            in_shader_block(*old(self)) ==> r is Ok,
            appends_no_store(old(self).builder, final(self).builder),
            r matches Ok(c) ==> appends_def(old(self).builder, final(self).builder, c),
            r matches Ok(c) ==> insts_of(final(self).builder) == insts_of(
                old(self).builder,
            ).push(
                Inst::ExtInst {
                    id: c,
                    ty: old(self).types.f32_ty,
                    set: old(self).glsl_ext,
                    opcode: GLSL_FLOOR,
                    operands: seq![x],
                },
            ),
    {
        self.glsl_unary(GLSL_FLOOR, x)
    }

    /// `sqrt(x)`.
    pub fn emit_glsl_sqrt(&mut self, x: u32) -> (r: Result<u32, EmitError>)
        ensures
            same_env(*old(self), *final(self)),
            final(self).buffers@ == old(self).buffers@,
            in_shader_block(*old(self)) ==> r is Ok,
            appends_no_store(old(self).builder, final(self).builder),
            r matches Ok(c) ==> appends_def(old(self).builder, final(self).builder, c),
            r matches Ok(c) ==> insts_of(final(self).builder) == insts_of(
                old(self).builder,
            ).push(
                Inst::ExtInst {
                    id: c,
                    ty: old(self).types.f32_ty,
                    set: old(self).glsl_ext,
                    opcode: GLSL_SQRT,
                    operands: seq![x],
                },
            ),
    {
        self.glsl_unary(GLSL_SQRT, x)
    }

    /// `abs(x)`.
    pub fn emit_glsl_abs(&mut self, x: u32) -> (r: Result<u32, EmitError>)
        ensures
            same_env(*old(self), *final(self)),
            final(self).buffers@ == old(self).buffers@,
            in_shader_block(*old(self)) ==> r is Ok,
            appends_no_store(old(self).builder, final(self).builder),
            r matches Ok(c) ==> appends_def(old(self).builder, final(self).builder, c),
            r matches Ok(c) ==> insts_of(final(self).builder) == insts_of(
                old(self).builder,
            ).push(
                Inst::ExtInst {
                    id: c,
                    ty: old(self).types.f32_ty,
                    set: old(self).glsl_ext,
                    opcode: GLSL_FABS,
                    operands: seq![x],
                },
            ),
    {
        self.glsl_unary(GLSL_FABS, x)
    }

    /// `atan2(y, x)`.
    pub fn emit_glsl_atan2(&mut self, y: u32, x: u32) -> (r: Result<u32, EmitError>)
        ensures
            same_env(*old(self), *final(self)),
            final(self).buffers@ == old(self).buffers@,
            in_shader_block(*old(self)) ==> r is Ok,
            appends_no_store(old(self).builder, final(self).builder),
            r matches Ok(c) ==> appends_def(old(self).builder, final(self).builder, c),
            r matches Ok(c) ==> insts_of(final(self).builder) == insts_of(
                old(self).builder,
            ).push(
                Inst::ExtInst {
                    id: c,
                    ty: old(self).types.f32_ty,
                    set: old(self).glsl_ext,
                    opcode: GLSL_ATAN2,
                    operands: seq![y, x],
                },
            ),
    {
        self.glsl_binary(GLSL_ATAN2, y, x)
    }

    /// `pow(x, y)`.
    pub fn emit_glsl_pow(&mut self, x: u32, y: u32) -> (r: Result<u32, EmitError>)
        ensures
            same_env(*old(self), *final(self)),
            final(self).buffers@ == old(self).buffers@,
            in_shader_block(*old(self)) ==> r is Ok,
            appends_no_store(old(self).builder, final(self).builder),
            r matches Ok(c) ==> appends_def(old(self).builder, final(self).builder, c),
            r matches Ok(c) ==> insts_of(final(self).builder) == insts_of(
                old(self).builder,
            ).push(
                Inst::ExtInst {
                    id: c,
                    ty: old(self).types.f32_ty,
                    set: old(self).glsl_ext,
                    opcode: GLSL_POW,
                    operands: seq![x, y],
                },
            ),
    {
        self.glsl_binary(GLSL_POW, x, y)
    }

    /// `step(edge, x)`: zero when `x < edge`, one otherwise.
    pub fn emit_step(&mut self, edge: u32, x: u32) -> (r: Result<u32, EmitError>)
        ensures
            same_env(*old(self), *final(self)),
            final(self).buffers@ == old(self).buffers@,
            in_shader_block(*old(self)) ==> r is Ok,
            appends_no_store(old(self).builder, final(self).builder),
            r matches Ok(c) ==> appends_def(old(self).builder, final(self).builder, c),
    {
        let cmp = rb_f_ord_less_than(&mut self.builder, self.types.bool_ty, x, edge)?;
        let zero = self.emit_f32_constant(BITS_ZERO);
        let one = self.emit_f32_constant(BITS_ONE);
        rb_select(&mut self.builder, self.types.f32_ty, cmp, zero, one)
    }

    /// `mix(a, b, t) = a*(1-t) + b*t`: the appended dataflow is exactly the
    /// subtraction of `t` from a one constant, the two products, and their
    /// sum, whose id is returned.
    pub fn mix(&mut self, a: u32, b: u32, t: u32) -> (r: Result<u32, EmitError>)
        ensures
            same_env(*old(self), *final(self)),
            final(self).buffers@ == old(self).buffers@,
            in_shader_block(*old(self)) ==> r is Ok,
            appends_no_store(old(self).builder, final(self).builder),
            r matches Ok(c) ==> appends_def(old(self).builder, final(self).builder, c),
            r matches Ok(c) ==> ({
                let pre = insts_of(old(self).builder);
                let post = insts_of(final(self).builder);
                let f32t = old(self).types.f32_ty;
                let base = pre.len() as int;
                &&& post.len() == base + 4
                &&& post[base] matches Inst::FSub { id: omt, ty: ty0, x: one, y: t0 }
                &&& ty0 == f32t && t0 == t
                &&& globals_of(final(self).builder).contains(
                    GlobalDecl::Constant { id: one, ty: f32t, bits: BITS_ONE },
                )
                &&& post[base + 1] matches Inst::FMul { id: l, ty: ty1, x: a1, y: y1 }
                &&& ty1 == f32t && a1 == a && y1 == omt
                &&& post[base + 2] matches Inst::FMul { id: rt, ty: ty2, x: b2, y: y2 }
                &&& ty2 == f32t && b2 == b && y2 == t
                &&& post[base + 3] matches Inst::FAdd { id: c3, ty: ty3, x: x3, y: y3 }
                &&& ty3 == f32t && c3 == c && x3 == l && y3 == rt
            }),
    {
        let one = self.emit_f32_constant(BITS_ONE);
        let one_minus_t = rb_f_sub(&mut self.builder, self.types.f32_ty, one, t)?;
        let left = rb_f_mul(&mut self.builder, self.types.f32_ty, a, one_minus_t)?;
        let right = rb_f_mul(&mut self.builder, self.types.f32_ty, b, t)?;
        let res = rb_f_add(&mut self.builder, self.types.f32_ty, left, right)?;
        proof {
            assert(insts_of(self.builder) == insts_of(old(self).builder).push(
                Inst::FSub { id: one_minus_t, ty: old(self).types.f32_ty, x: one, y: t },
            ).push(
                Inst::FMul { id: left, ty: old(self).types.f32_ty, x: a, y: one_minus_t },
            ).push(Inst::FMul { id: right, ty: old(self).types.f32_ty, x: b, y: t }).push(
                Inst::FAdd { id: res, ty: old(self).types.f32_ty, x: left, y: right },
            ));
            let pre = insts_of(old(self).builder);
            let post = insts_of(self.builder);
            let base = pre.len() as int;
            assert(post.len() == base + 4);
            assert(post[base] == Inst::FSub {
                id: one_minus_t,
                ty: old(self).types.f32_ty,
                x: one,
                y: t,
            });
            assert(post[base + 1] == Inst::FMul {
                id: left,
                ty: old(self).types.f32_ty,
                x: a,
                y: one_minus_t,
            });
            assert(post[base + 2] == Inst::FMul {
                id: right,
                ty: old(self).types.f32_ty,
                x: b,
                y: t,
            });
            assert(post[base + 3] == Inst::FAdd {
                id: res,
                ty: old(self).types.f32_ty,
                x: left,
                y: right,
            });
        }
        Ok(res)
    }

    /// The scalar component `index` of a vector value.
    pub fn extract_component(&mut self, vec: u32, index: u32) -> (r: Result<u32, EmitError>)
        ensures
            same_env(*old(self), *final(self)),
            final(self).buffers@ == old(self).buffers@,
            in_shader_block(*old(self)) ==> r is Ok,
            globals_of(final(self).builder) == globals_of(old(self).builder),
            appends_no_store(old(self).builder, final(self).builder),
            r matches Ok(c) ==> appends_def(old(self).builder, final(self).builder, c),
            r matches Ok(c) ==> insts_of(final(self).builder) == insts_of(
                old(self).builder,
            ).push(
                Inst::CompositeExtract {
                    id: c,
                    ty: old(self).types.f32_ty,
                    composite: vec,
                    index,
                },
            ),
    {
        rb_composite_extract(&mut self.builder, self.types.f32_ty, vec, index)
    }

    /// A `vec4` from four scalars.
    pub fn construct_vec4(&mut self, r: u32, g: u32, b: u32, a: u32) -> (res: Result<
        u32,
        EmitError,
    >)
        ensures
            same_env(*old(self), *final(self)),
            final(self).buffers@ == old(self).buffers@,
            in_shader_block(*old(self)) ==> res is Ok,
            globals_of(final(self).builder) == globals_of(old(self).builder),
            appends_no_store(old(self).builder, final(self).builder),
            res matches Ok(c) ==> appends_def(old(self).builder, final(self).builder, c),
            res matches Ok(c) ==> insts_of(final(self).builder) == insts_of(
                old(self).builder,
            ).push(
                Inst::CompositeConstruct {
                    id: c,
                    ty: old(self).types.vec4_ty,
                    parts: seq![r, g, b, a],
                },
            ),
    {
        let mut parts: Vec<u32> = Vec::new();
        parts.push(r);
        parts.push(g);
        parts.push(b);
        parts.push(a);
        proof {
            assert(parts@ =~= seq![r, g, b, a]);
        }
        rb_composite_construct(&mut self.builder, self.types.vec4_ty, &parts)
    }

    /// A `vec2` from two scalars.
    pub fn emit_vec2(&mut self, x: u32, y: u32) -> (r: Result<u32, EmitError>)
        ensures
            same_env(*old(self), *final(self)),
            final(self).buffers@ == old(self).buffers@,
            in_shader_block(*old(self)) ==> r is Ok,
            globals_of(final(self).builder) == globals_of(old(self).builder),
            appends_no_store(old(self).builder, final(self).builder),
            r matches Ok(c) ==> appends_def(old(self).builder, final(self).builder, c),
            r matches Ok(c) ==> insts_of(final(self).builder) == insts_of(
                old(self).builder,
            ).push(
                Inst::CompositeConstruct {
                    id: c,
                    ty: old(self).types.vec2_ty,
                    parts: seq![x, y],
                },
            ),
    {
        let mut parts: Vec<u32> = Vec::new();
        parts.push(x);
        parts.push(y);
        proof {
            assert(parts@ =~= seq![x, y]);
        }
        rb_composite_construct(&mut self.builder, self.types.vec2_ty, &parts)
    }

    /// The two components of a `vec2` value.
    pub fn extract_vec2_components(&mut self, v: u32) -> (r: Result<(u32, u32), EmitError>)
        ensures
            same_env(*old(self), *final(self)),
            final(self).buffers@ == old(self).buffers@,
            in_shader_block(*old(self)) ==> r is Ok,
            appends_no_store(old(self).builder, final(self).builder),
            r matches Ok(p) ==> appends_def(old(self).builder, final(self).builder, p.0)
                && appends_def(old(self).builder, final(self).builder, p.1),
    {
        let x = rb_composite_extract(&mut self.builder, self.types.f32_ty, v, 0)?;
        let y = rb_composite_extract(&mut self.builder, self.types.f32_ty, v, 1)?;
        Ok((x, y))
    }

    /// `time`, the first component of the `Globals` uniform vector.
    pub fn load_time(&mut self) -> (r: Result<u32, EmitError>)
        ensures
            same_env(*old(self), *final(self)),
            final(self).buffers@ == old(self).buffers@,
            in_shader_block(*old(self)) ==> r is Ok,
            appends_no_store(old(self).builder, final(self).builder),
            r matches Ok(c) ==> appends_def(old(self).builder, final(self).builder, c),
    {
        let globals_val = rb_load(
            &mut self.builder,
            self.builtins.globals_block,
            self.builtins.globals_ptr,
        )?;
        let data_vec = rb_composite_extract(
            &mut self.builder,
            self.types.vec4_ty,
            globals_val,
            0,
        )?;
        rb_composite_extract(&mut self.builder, self.types.f32_ty, data_vec, 0)
    }

    /// `length(v) = sqrt(x*x + y*y)` of a `vec2`.
    pub fn emit_length2(&mut self, v: u32) -> (r: Result<u32, EmitError>)
        ensures
            same_env(*old(self), *final(self)),
            final(self).buffers@ == old(self).buffers@,
            in_shader_block(*old(self)) ==> r is Ok,
            appends_no_store(old(self).builder, final(self).builder),
            r matches Ok(c) ==> appends_def(old(self).builder, final(self).builder, c),
    {
        let (x, y) = self.extract_vec2_components(v)?;
        let x2 = rb_f_mul(&mut self.builder, self.types.f32_ty, x, x)?;
        let y2 = rb_f_mul(&mut self.builder, self.types.f32_ty, y, y)?;
        let sum = rb_f_add(&mut self.builder, self.types.f32_ty, x2, y2)?;
        self.emit_glsl_sqrt(sum)
    }

    /// `clamp01(x) = min(max(x, 0), 1)`: the appended dataflow is exactly
    /// the maximum of `x` against a zero constant, then the minimum of that
    /// against a one constant, whose id is returned.
    pub fn clamp01(&mut self, x: u32) -> (r: Result<u32, EmitError>)
        ensures
            same_env(*old(self), *final(self)),
            final(self).buffers@ == old(self).buffers@,
            in_shader_block(*old(self)) ==> r is Ok,
            appends_no_store(old(self).builder, final(self).builder),
            r matches Ok(c) ==> appends_def(old(self).builder, final(self).builder, c),
            r matches Ok(c) ==> ({
                let post = insts_of(final(self).builder);
                let f32t = old(self).types.f32_ty;
                let base = insts_of(old(self).builder).len() as int;
                &&& post.len() == base + 2
                &&& post[base] matches Inst::ExtInst { id: m, ty: t0, set: s0, opcode: op0, operands: o0 }
                &&& t0 == f32t && s0 == old(self).glsl_ext && op0 == GLSL_FMAX
                &&& o0.len() == 2 && o0[0] == x
                &&& globals_of(final(self).builder).contains(
                    GlobalDecl::Constant { id: o0[1], ty: f32t, bits: BITS_ZERO },
                )
                &&& post[base + 1] matches Inst::ExtInst { id: c1, ty: t1, set: s1, opcode: op1, operands: o1 }
                &&& c1 == c && t1 == f32t && s1 == old(self).glsl_ext && op1 == GLSL_FMIN
                &&& o1.len() == 2 && o1[0] == m
                &&& globals_of(final(self).builder).contains(
                    GlobalDecl::Constant { id: o1[1], ty: f32t, bits: BITS_ONE },
                )
            }),
    {
        let zero = self.emit_f32_constant(BITS_ZERO);
        let one = self.emit_f32_constant(BITS_ONE);
        let maxv = self.glsl_binary(GLSL_FMAX, x, zero)?;
        let res = self.glsl_binary(GLSL_FMIN, maxv, one)?;
        proof {
            let pre = insts_of(old(self).builder);
            let post = insts_of(self.builder);
            let base = pre.len() as int;
            assert(post.len() == base + 2);
            assert(post[base] == Inst::ExtInst {
                id: maxv,
                ty: old(self).types.f32_ty,
                set: old(self).glsl_ext,
                opcode: GLSL_FMAX,
                operands: seq![x, zero],
            });
            assert(post[base + 1] == Inst::ExtInst {
                id: res,
                ty: old(self).types.f32_ty,
                set: old(self).glsl_ext,
                opcode: GLSL_FMIN,
                operands: seq![maxv, one],
            });
        }
        Ok(res)
    }

    /// Clamps every channel of a `vec4` to `[0, 1]`: alpha passes through
    /// exposure and tone mapping untouched, and is clamped here with the
    /// rest.
    pub fn clamp_vec4(&mut self, v: u32) -> (r: Result<u32, EmitError>)
        ensures
            same_env(*old(self), *final(self)),
            final(self).buffers@ == old(self).buffers@,
            in_shader_block(*old(self)) ==> r is Ok,
            appends_no_store(old(self).builder, final(self).builder),
            r matches Ok(c) ==> appends_def(old(self).builder, final(self).builder, c),
    {
        let red = self.extract_component(v, 0)?;
        let green = self.extract_component(v, 1)?;
        let blue = self.extract_component(v, 2)?;
        let alpha = self.extract_component(v, 3)?;
        let r2 = self.clamp01(red)?;
        let g2 = self.clamp01(green)?;
        let b2 = self.clamp01(blue)?;
        let a2 = self.clamp01(alpha)?;
        self.construct_vec4(r2, g2, b2, a2)
    }

    /// `luma(rgb) = 0.299*r + 0.587*g + 0.114*b`: the appended dataflow is
    /// exactly the three channel extractions, their products with the three
    /// luma weight constants, and the two sums, whose final id is returned.
    pub fn emit_luma(&mut self, color: u32) -> (r: Result<u32, EmitError>)
        ensures
            same_env(*old(self), *final(self)),
            final(self).buffers@ == old(self).buffers@,
            in_shader_block(*old(self)) ==> r is Ok,
            appends_no_store(old(self).builder, final(self).builder),
            r matches Ok(c) ==> appends_def(old(self).builder, final(self).builder, c),
            r matches Ok(c) ==> ({
                let post = insts_of(final(self).builder);
                let gb = globals_of(final(self).builder);
                let f32t = old(self).types.f32_ty;
                let base = insts_of(old(self).builder).len() as int;
                &&& post.len() == base + 8
                &&& post[base] matches Inst::CompositeExtract { id: re, ty: t0, composite: cc0, index: i0 }
                &&& t0 == f32t && cc0 == color && i0 == 0
                &&& post[base + 1] matches Inst::CompositeExtract { id: gr, ty: t1, composite: cc1, index: i1 }
                &&& t1 == f32t && cc1 == color && i1 == 1
                &&& post[base + 2] matches Inst::CompositeExtract { id: bl, ty: t2, composite: cc2, index: i2 }
                &&& t2 == f32t && cc2 == color && i2 == 2
                &&& post[base + 3] matches Inst::FMul { id: m0, ty: t3, x: x3, y: w0 }
                &&& t3 == f32t && x3 == re && gb.contains(
                    GlobalDecl::Constant { id: w0, ty: f32t, bits: BITS_LUMA_R },
                )
                &&& post[base + 4] matches Inst::FMul { id: m1, ty: t4, x: x4, y: w1 }
                &&& t4 == f32t && x4 == gr && gb.contains(
                    GlobalDecl::Constant { id: w1, ty: f32t, bits: BITS_LUMA_G },
                )
                &&& post[base + 5] matches Inst::FMul { id: m2, ty: t5, x: x5, y: w2 }
                &&& t5 == f32t && x5 == bl && gb.contains(
                    GlobalDecl::Constant { id: w2, ty: f32t, bits: BITS_LUMA_B },
                )
                &&& post[base + 6] matches Inst::FAdd { id: s0, ty: t6, x: x6, y: y6 }
                &&& t6 == f32t && x6 == m0 && y6 == m1
                &&& post[base + 7] matches Inst::FAdd { id: c7, ty: t7, x: x7, y: y7 }
                &&& c7 == c && t7 == f32t && x7 == s0 && y7 == m2
            }),
    {
        let red = self.extract_component(color, 0)?;
        let green = self.extract_component(color, 1)?;
        let blue = self.extract_component(color, 2)?;
        let wr = self.emit_f32_constant(BITS_LUMA_R);
        let wg = self.emit_f32_constant(BITS_LUMA_G);
        let wb = self.emit_f32_constant(BITS_LUMA_B);
        let rg = rb_f_mul(&mut self.builder, self.types.f32_ty, red, wr)?;
        let gg = rb_f_mul(&mut self.builder, self.types.f32_ty, green, wg)?;
        let bg = rb_f_mul(&mut self.builder, self.types.f32_ty, blue, wb)?;
        let sum = rb_f_add(&mut self.builder, self.types.f32_ty, rg, gg)?;
        let res = rb_f_add(&mut self.builder, self.types.f32_ty, sum, bg)?;
        proof {
            let post = insts_of(self.builder);
            let f32t = old(self).types.f32_ty;
            let base = insts_of(old(self).builder).len() as int;
            assert(post.len() == base + 8);
            assert(post[base] == Inst::CompositeExtract {
                id: red,
                ty: f32t,
                composite: color,
                index: 0,
            });
            assert(post[base + 1] == Inst::CompositeExtract {
                id: green,
                ty: f32t,
                composite: color,
                index: 1,
            });
            assert(post[base + 2] == Inst::CompositeExtract {
                id: blue,
                ty: f32t,
                composite: color,
                index: 2,
            });
            assert(post[base + 3] == Inst::FMul { id: rg, ty: f32t, x: red, y: wr });
            assert(post[base + 4] == Inst::FMul { id: gg, ty: f32t, x: green, y: wg });
            assert(post[base + 5] == Inst::FMul { id: bg, ty: f32t, x: blue, y: wb });
            assert(post[base + 6] == Inst::FAdd { id: sum, ty: f32t, x: rg, y: gg });
            assert(post[base + 7] == Inst::FAdd { id: res, ty: f32t, x: sum, y: bg });
        }
        Ok(res)
    }

    /// `quantize(x, levels) = floor(x*levels)/levels`.
    pub fn emit_quantize(&mut self, x: u32, levels: u32) -> (r: Result<u32, EmitError>)
        ensures
            same_env(*old(self), *final(self)),
            final(self).buffers@ == old(self).buffers@,
            in_shader_block(*old(self)) ==> r is Ok,
            appends_no_store(old(self).builder, final(self).builder),
            r matches Ok(c) ==> appends_def(old(self).builder, final(self).builder, c),
    {
        let mul = rb_f_mul(&mut self.builder, self.types.f32_ty, x, levels)?;
        let floored = self.emit_glsl_floor(mul)?;
        rb_f_div(&mut self.builder, self.types.f32_ty, floored, levels)
    }

    /// GLSL `smoothstep(edge1, edge2, x)`:
    /// `t = clamp01((x-edge1)/(edge2-edge1)); t*t*(3 - 2*t)`.
    pub fn smoothstep(&mut self, edge1: u32, edge2: u32, x: u32) -> (r: Result<u32, EmitError>)
        ensures
            same_env(*old(self), *final(self)),
            final(self).buffers@ == old(self).buffers@,
            in_shader_block(*old(self)) ==> r is Ok,
            appends_no_store(old(self).builder, final(self).builder),
            r matches Ok(c) ==> appends_def(old(self).builder, final(self).builder, c),
    {
        let diff1 = rb_f_sub(&mut self.builder, self.types.f32_ty, x, edge1)?;
        let diff_edge = rb_f_sub(&mut self.builder, self.types.f32_ty, edge2, edge1)?;
        let t_raw = rb_f_div(&mut self.builder, self.types.f32_ty, diff1, diff_edge)?;
        let t = self.clamp01(t_raw)?;
        let two = self.emit_f32_constant(BITS_TWO);
        let three = self.emit_f32_constant(BITS_THREE);
        let t2 = rb_f_mul(&mut self.builder, self.types.f32_ty, t, t)?;
        let two_t = rb_f_mul(&mut self.builder, self.types.f32_ty, two, t)?;
        let three_minus_2t = rb_f_sub(&mut self.builder, self.types.f32_ty, three, two_t)?;
        rb_f_mul(&mut self.builder, self.types.f32_ty, t2, three_minus_2t)
    }

    /// `fract(x) = x - floor(x)`: the appended dataflow is exactly the
    /// floor of `x` and the subtraction of that floor from `x`, whose id is
    /// returned.
    pub fn emit_fract(&mut self, x: u32) -> (r: Result<u32, EmitError>)
        ensures
            same_env(*old(self), *final(self)),
            final(self).buffers@ == old(self).buffers@,
            in_shader_block(*old(self)) ==> r is Ok,
            appends_no_store(old(self).builder, final(self).builder),
            r matches Ok(c) ==> appends_def(old(self).builder, final(self).builder, c),
            r matches Ok(c) ==> ({
                let post = insts_of(final(self).builder);
                let f32t = old(self).types.f32_ty;
                let base = insts_of(old(self).builder).len() as int;
                &&& post.len() == base + 2
                &&& post[base] matches Inst::ExtInst { id: fl, ty: t0, set: s0, opcode: op0, operands: o0 }
                &&& t0 == f32t && s0 == old(self).glsl_ext && op0 == GLSL_FLOOR && o0 == seq![x]
                &&& post[base + 1] matches Inst::FSub { id: c1, ty: t1, x: x1, y: y1 }
                &&& c1 == c && t1 == f32t && x1 == x && y1 == fl
            }),
    {
        let flo = self.emit_glsl_floor(x)?;
        let res = rb_f_sub(&mut self.builder, self.types.f32_ty, x, flo)?;
        proof {
            let post = insts_of(self.builder);
            let base = insts_of(old(self).builder).len() as int;
            assert(post.len() == base + 2);
            assert(post[base] == Inst::ExtInst {
                id: flo,
                ty: old(self).types.f32_ty,
                set: old(self).glsl_ext,
                opcode: GLSL_FLOOR,
                operands: seq![x],
            });
            assert(post[base + 1] == Inst::FSub {
                id: res,
                ty: old(self).types.f32_ty,
                x,
                y: flo,
            });
        }
        Ok(res)
    }

    /// `mod(x, y) = x - y*floor(x/y)`.
    pub fn emit_mod_scalar(&mut self, x: u32, y: u32) -> (r: Result<u32, EmitError>)
        ensures
            same_env(*old(self), *final(self)),
            final(self).buffers@ == old(self).buffers@,
            in_shader_block(*old(self)) ==> r is Ok,
            appends_no_store(old(self).builder, final(self).builder),
            r matches Ok(c) ==> appends_def(old(self).builder, final(self).builder, c),
    {
        let div = rb_f_div(&mut self.builder, self.types.f32_ty, x, y)?;
        let flo = self.emit_glsl_floor(div)?;
        let mul = rb_f_mul(&mut self.builder, self.types.f32_ty, flo, y)?;
        rb_f_sub(&mut self.builder, self.types.f32_ty, x, mul)
    }

    /// `max(x, y)` through GLSL.std.450 `FMax`.
    pub fn glsl_fmax(&mut self, x: u32, y: u32) -> (r: Result<u32, EmitError>)
        ensures
            same_env(*old(self), *final(self)),
            final(self).buffers@ == old(self).buffers@,
            in_shader_block(*old(self)) ==> r is Ok,
            appends_no_store(old(self).builder, final(self).builder),
            r matches Ok(c) ==> appends_def(old(self).builder, final(self).builder, c),
            r matches Ok(c) ==> insts_of(final(self).builder) == insts_of(
                old(self).builder,
            ).push(
                Inst::ExtInst {
                    id: c,
                    ty: old(self).types.f32_ty,
                    set: old(self).glsl_ext,
                    opcode: GLSL_FMAX,
                    operands: seq![x, y],
                },
            ),
    {
        self.glsl_binary(GLSL_FMAX, x, y)
    }

    /// `min(x, y)` through GLSL.std.450 `FMin`.
    pub fn glsl_fmin(&mut self, x: u32, y: u32) -> (r: Result<u32, EmitError>)
        ensures
            same_env(*old(self), *final(self)),
            final(self).buffers@ == old(self).buffers@,
            in_shader_block(*old(self)) ==> r is Ok,
            appends_no_store(old(self).builder, final(self).builder),
            r matches Ok(c) ==> appends_def(old(self).builder, final(self).builder, c),
            r matches Ok(c) ==> insts_of(final(self).builder) == insts_of(
                old(self).builder,
            ).push(
                Inst::ExtInst {
                    id: c,
                    ty: old(self).types.f32_ty,
                    set: old(self).glsl_ext,
                    opcode: GLSL_FMIN,
                    operands: seq![x, y],
                },
            ),
    {
        self.glsl_binary(GLSL_FMIN, x, y)
    }

    /// `safe_pow(x, y) = pow(clamp01(x), y)`.
    pub fn safe_pow(&mut self, x: u32, y: u32) -> (r: Result<u32, EmitError>)
        ensures
            same_env(*old(self), *final(self)),
            final(self).buffers@ == old(self).buffers@,
            in_shader_block(*old(self)) ==> r is Ok,
            appends_no_store(old(self).builder, final(self).builder),
            r matches Ok(c) ==> appends_def(old(self).builder, final(self).builder, c),
    {
        let zero = self.emit_f32_constant(BITS_ZERO);
        let one = self.emit_f32_constant(BITS_ONE);
        let maxv = self.glsl_binary(GLSL_FMAX, x, zero)?;
        let clamped = self.glsl_binary(GLSL_FMIN, maxv, one)?;
        self.emit_glsl_pow(clamped, y)
    }
}

} // verus!

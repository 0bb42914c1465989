//! The source emitters: chain operations that produce a color from the
//! current coordinate (and time) alone. Every emitter takes the coordinate
//! id explicitly and leaves the module environment and the output-buffer
//! table unchanged.

use vstd::prelude::*;
use crate::spirv_api::appends_no_store;
use crate::spirv_api::insts_of;
use crate::spirv_api::Inst;
use crate::spirv_api::globals_of;
use crate::spirv_api::GlobalDecl;
use crate::spirv_api::appends_def;
use crate::numeric::BITS_0_8;
use crate::numeric::BITS_BIG;
use crate::numeric::BITS_EIGHT;
use crate::numeric::BITS_EPS_1E4;
use crate::numeric::BITS_EPS_1E6;
use crate::numeric::BITS_FIVE;
use crate::numeric::BITS_FOUR;
use crate::numeric::BITS_HALF;
use crate::numeric::BITS_HASH_SCALE;
use crate::numeric::BITS_HASH_X;
use crate::numeric::BITS_HASH_Y;
use crate::numeric::BITS_HUNDREDTH;
use crate::numeric::BITS_NEG_ONE;
use crate::numeric::BITS_ONE;
use crate::numeric::BITS_1_5;
use crate::numeric::BITS_2_5;
use crate::numeric::BITS_3_5;
use crate::numeric::BITS_OSC_MULT_B;
use crate::numeric::BITS_OSC_MULT_G;
use crate::numeric::BITS_OSC_MULT_R;
use crate::numeric::BITS_PI;
use crate::numeric::BITS_SIXTY;
use crate::numeric::BITS_TEN;
use crate::numeric::BITS_TENTH;
use crate::numeric::BITS_THREE;
use crate::numeric::BITS_TWO;
use crate::numeric::BITS_TWO_PI;
use crate::numeric::BITS_ZERO;
use crate::spirv_api::EmitError;
use crate::spirv_api::rb_f_add;
use crate::spirv_api::rb_f_div;
use crate::spirv_api::rb_f_mul;
use crate::spirv_api::rb_f_ord_less_than;
use crate::spirv_api::rb_f_sub;
use crate::spirv_api::rb_select;
use crate::spirv_context::SpirvContext;
use crate::spirv_context::in_shader_block;
use crate::spirv_context::same_env;

verus! {

broadcast use crate::spirv_api::lemma_appends_no_store_eq, crate::spirv_api::lemma_appends_no_store_trans, crate::spirv_api::lemma_appends_def_after, crate::spirv_api::lemma_appends_def_before;

/// The bit pattern of argument `index`, or `default_bits` when the argument
/// list is too short. This is the whole defaulting rule: an absent argument
/// behaves exactly as the documented default value.
pub fn arg_bits(args: &Vec<u32>, index: usize, default_bits: u32) -> (r: u32)
    ensures
        r == if index < args@.len() {
            args@[index as int]
        } else {
            default_bits
        },
{
    if index < args.len() {
        args[index]
    } else {
        default_bits
    }
}

impl SpirvContext {
    /// Appends the constant of argument `index` — or of `default_bits` when
    /// the argument is absent — and returns its id: the returned id denotes
    /// exactly the defaulted bit pattern.
    pub fn get_arg_or_default(&mut self, args: &Vec<u32>, index: usize, default_bits: u32) -> (r:
        u32)
        ensures
            same_env(*old(self), *final(self)),
            final(self).buffers@ == old(self).buffers@,
            globals_of(final(self).builder) == globals_of(old(self).builder).push(
                GlobalDecl::Constant {
                    id: r,
                    ty: old(self).types.f32_ty,
                    bits: if index < args@.len() {
                        args@[index as int]
                    } else {
                        default_bits
                    },
                },
            ),
            globals_of(final(self).builder).contains(
                GlobalDecl::Constant {
                    id: r,
                    ty: old(self).types.f32_ty,
                    bits: if index < args@.len() {
                        args@[index as int]
                    } else {
                        default_bits
                    },
                },
            ),
            crate::spirv_api::globals_grow(old(self).builder, final(self).builder),
            insts_of(final(self).builder) == insts_of(old(self).builder),
            appends_no_store(old(self).builder, final(self).builder),
    {
        let bits = arg_bits(args, index, default_bits);
        self.emit_f32_constant(bits)
    }

    /// One oscillator channel:
    /// `sin((st.x + time*sync + offset*mult) * freq) * 0.5 + 0.5`, where
    /// `mult` is the per-channel offset multiplier constant.
    fn compute_osc_channel(
        &mut self,
        x: u32,
        freq: u32,
        sync: u32,
        offset: u32,
        time: u32,
        mult_bits: u32,
    ) -> (r: Result<u32, EmitError>)
        ensures
            same_env(*old(self), *final(self)),
            final(self).buffers@ == old(self).buffers@,
            in_shader_block(*old(self)) ==> r is Ok,
            appends_no_store(old(self).builder, final(self).builder),
            r matches Ok(c) ==> appends_def(old(self).builder, final(self).builder, c),
    {
        let offset_mult_const = self.emit_f32_constant(mult_bits);
        let offset_scaled = rb_f_mul(
            &mut self.builder,
            self.types.f32_ty,
            offset,
            offset_mult_const,
        )?;
        let time_sync = rb_f_mul(&mut self.builder, self.types.f32_ty, time, sync)?;
        let phase1 = rb_f_add(&mut self.builder, self.types.f32_ty, x, time_sync)?;
        let phase2 = rb_f_add(&mut self.builder, self.types.f32_ty, phase1, offset_scaled)?;
        let angle = rb_f_mul(&mut self.builder, self.types.f32_ty, phase2, freq)?;
        let sin_val = self.emit_glsl_sin(angle)?;
        let half_const = self.emit_f32_constant(BITS_HALF);
        let scaled = rb_f_mul(&mut self.builder, self.types.f32_ty, sin_val, half_const)?;
        rb_f_add(&mut self.builder, self.types.f32_ty, scaled, half_const)
    }

    /// `osc(freq=60, sync=0.1, offset=0)`: three phase-shifted sine
    /// oscillators over `st.x`, alpha one.
    pub fn emit_osc(&mut self, args: &Vec<u32>, st: u32) -> (r: Result<u32, EmitError>)
        ensures
            same_env(*old(self), *final(self)),
            final(self).buffers@ == old(self).buffers@,
            in_shader_block(*old(self)) ==> r is Ok,
            appends_no_store(old(self).builder, final(self).builder),
            r matches Ok(c) ==> appends_def(old(self).builder, final(self).builder, c),
    {
        let freq = self.get_arg_or_default(args, 0, BITS_SIXTY);
        let sync = self.get_arg_or_default(args, 1, BITS_TENTH);
        let offset = self.get_arg_or_default(args, 2, BITS_ZERO);
        let time = self.load_time()?;
        let st_x = self.extract_component(st, 0)?;
        let red = self.compute_osc_channel(st_x, freq, sync, offset, time, BITS_OSC_MULT_R)?;
        let green = self.compute_osc_channel(st_x, freq, sync, offset, time, BITS_OSC_MULT_G)?;
        let blue = self.compute_osc_channel(st_x, freq, sync, offset, time, BITS_OSC_MULT_B)?;
        let one = self.emit_f32_constant(BITS_ONE);
        self.construct_vec4(red, green, blue, one)
    }

    /// `solid(r=0, g=0, b=0, a=1)`: a constant color. The appended
    /// dataflow is exactly one vector construction over four constants that
    /// hold the defaulted argument bits, so the result depends on neither
    /// the coordinate nor the time.
    pub fn emit_solid(&mut self, args: &Vec<u32>) -> (r: Result<u32, EmitError>)
        ensures
            same_env(*old(self), *final(self)),
            final(self).buffers@ == old(self).buffers@,
            in_shader_block(*old(self)) ==> r is Ok,
            appends_no_store(old(self).builder, final(self).builder),
            r matches Ok(c) ==> appends_def(old(self).builder, final(self).builder, c),
            r matches Ok(c) ==> ({
                let post = insts_of(final(self).builder);
                let gb = globals_of(final(self).builder);
                let f32t = old(self).types.f32_ty;
                let base = insts_of(old(self).builder).len() as int;
                &&& post.len() == base + 1
                &&& post[base] matches Inst::CompositeConstruct { id: c0, ty: tv, parts: pp }
                &&& c0 == c && tv == old(self).types.vec4_ty && pp.len() == 4
                &&& gb.contains(
                    GlobalDecl::Constant {
                        id: pp[0],
                        ty: f32t,
                        bits: if 0 < args@.len() {
                            args@[0]
                        } else {
                            BITS_ZERO
                        },
                    },
                )
                &&& gb.contains(
                    GlobalDecl::Constant {
                        id: pp[1],
                        ty: f32t,
                        bits: if 1 < args@.len() {
                            args@[1]
                        } else {
                            BITS_ZERO
                        },
                    },
                )
                &&& gb.contains(
                    GlobalDecl::Constant {
                        id: pp[2],
                        ty: f32t,
                        bits: if 2 < args@.len() {
                            args@[2]
                        } else {
                            BITS_ZERO
                        },
                    },
                )
                &&& gb.contains(
                    GlobalDecl::Constant {
                        id: pp[3],
                        ty: f32t,
                        bits: if 3 < args@.len() {
                            args@[3]
                        } else {
                            BITS_ONE
                        },
                    },
                )
            }),
    {
        let red = self.get_arg_or_default(args, 0, BITS_ZERO);
        let green = self.get_arg_or_default(args, 1, BITS_ZERO);
        let blue = self.get_arg_or_default(args, 2, BITS_ZERO);
        let alpha = self.get_arg_or_default(args, 3, BITS_ONE);
        let res = self.construct_vec4(red, green, blue, alpha)?;
        proof {
            let post = insts_of(self.builder);
            let base = insts_of(old(self).builder).len() as int;
            assert(post.len() == base + 1);
            assert(post[base] == Inst::CompositeConstruct {
                id: res,
                ty: old(self).types.vec4_ty,
                parts: seq![red, green, blue, alpha],
            });
        }
        Ok(res)
    }

    /// `gradient()`: `vec4(st.x, st.y, sin(time), 1)`.
    pub fn emit_gradient(&mut self, _args: &Vec<u32>, st: u32) -> (r: Result<u32, EmitError>)
        ensures
            same_env(*old(self), *final(self)),
            final(self).buffers@ == old(self).buffers@,
            in_shader_block(*old(self)) ==> r is Ok,
            appends_no_store(old(self).builder, final(self).builder),
            r matches Ok(c) ==> appends_def(old(self).builder, final(self).builder, c),
    {
        let time = self.load_time()?;
        let sin_time = self.emit_glsl_sin(time)?;
        let one = self.emit_f32_constant(BITS_ONE);
        let x = self.extract_component(st, 0)?;
        let y = self.extract_component(st, 1)?;
        self.construct_vec4(x, y, sin_time, one)
    }

    /// The lattice hash `fract(sin(hx*127.1 + hy*311.7) * 43758.5453)`.
    fn hash_cell(&mut self, hx: u32, hy: u32, c1: u32, c2: u32, scale_hash: u32) -> (r: Result<
        u32,
        EmitError,
    >)
        ensures
            same_env(*old(self), *final(self)),
            final(self).buffers@ == old(self).buffers@,
            in_shader_block(*old(self)) ==> r is Ok,
            appends_no_store(old(self).builder, final(self).builder),
            r matches Ok(c) ==> appends_def(old(self).builder, final(self).builder, c),
    {
        let t1 = rb_f_mul(&mut self.builder, self.types.f32_ty, hx, c1)?;
        let t2 = rb_f_mul(&mut self.builder, self.types.f32_ty, hy, c2)?;
        let dot = rb_f_add(&mut self.builder, self.types.f32_ty, t1, t2)?;
        let s = self.emit_glsl_sin(dot)?;
        let mul = rb_f_mul(&mut self.builder, self.types.f32_ty, s, scale_hash)?;
        self.emit_fract(mul)
    }

    /// `noise(freq=10, speed=0, octaves=1)`: value noise over a hashed
    /// lattice, up to four octaves masked by `step(i+0.5, octaves)`,
    /// normalized by the sum of the active amplitudes.
    pub fn emit_noise(&mut self, args: &Vec<u32>, st: u32) -> (r: Result<u32, EmitError>)
        ensures
            same_env(*old(self), *final(self)),
            final(self).buffers@ == old(self).buffers@,
            in_shader_block(*old(self)) ==> r is Ok,
            appends_no_store(old(self).builder, final(self).builder),
            r matches Ok(c) ==> appends_def(old(self).builder, final(self).builder, c),
    {
        let freq = self.get_arg_or_default(args, 0, BITS_TEN);
        let speed = self.get_arg_or_default(args, 1, BITS_ZERO);
        let octaves = self.get_arg_or_default(args, 2, BITS_ONE);
        let (x, y) = self.extract_vec2_components(st)?;
        let time = self.load_time()?;
        let t_scaled = rb_f_mul(&mut self.builder, self.types.f32_ty, time, speed)?;
        let one = self.emit_f32_constant(BITS_ONE);
        let two = self.emit_f32_constant(BITS_TWO);
        let half = self.emit_f32_constant(BITS_HALF);

        let mut octave_vals: Vec<u32> = Vec::new();
        let mut amp_vals: Vec<u32> = Vec::new();
        let mut i: u32 = 0;
        while i < 4
            invariant
                same_env(*old(self), *self),
                self.buffers@ == old(self).buffers@,
                appends_no_store(old(self).builder, self.builder),
            decreases 4 - i,
        {
            // mask = step(i + 0.5, octaves)
            let mask_edge_bits = if i == 0 {
                BITS_HALF
            } else if i == 1 {
                BITS_1_5
            } else if i == 2 {
                BITS_2_5
            } else {
                BITS_3_5
            };
            let octave_index_plus = self.emit_f32_constant(mask_edge_bits);
            let mask = self.emit_step(octave_index_plus, octaves)?;
            // frequency scaling: freq * 2^i
            let pow_i = if i == 0 {
                one
            } else if i == 1 {
                two
            } else if i == 2 {
                self.emit_f32_constant(BITS_FOUR)
            } else {
                self.emit_f32_constant(BITS_EIGHT)
            };
            let freq_i = rb_f_mul(&mut self.builder, self.types.f32_ty, freq, pow_i)?;
            let x_scaled = rb_f_mul(&mut self.builder, self.types.f32_ty, x, freq_i)?;
            let y_scaled = rb_f_mul(&mut self.builder, self.types.f32_ty, y, freq_i)?;
            let x_t = rb_f_add(&mut self.builder, self.types.f32_ty, x_scaled, t_scaled)?;
            let y_t = y_scaled;

            let ix = self.emit_glsl_floor(x_t)?;
            let iy = self.emit_glsl_floor(y_t)?;
            let fx = self.emit_fract(x_t)?;
            let fy = self.emit_fract(y_t)?;
            let ix1 = rb_f_add(&mut self.builder, self.types.f32_ty, ix, one)?;
            let iy1 = rb_f_add(&mut self.builder, self.types.f32_ty, iy, one)?;
            let c1 = self.emit_f32_constant(BITS_HASH_X);
            let c2 = self.emit_f32_constant(BITS_HASH_Y);
            let scale_hash = self.emit_f32_constant(BITS_HASH_SCALE);
            let r00 = self.hash_cell(ix, iy, c1, c2, scale_hash)?;
            let r10 = self.hash_cell(ix1, iy, c1, c2, scale_hash)?;
            let r01 = self.hash_cell(ix, iy1, c1, c2, scale_hash)?;
            let r11 = self.hash_cell(ix1, iy1, c1, c2, scale_hash)?;
            // smooth interpolation weights u = t*t*(3 - 2*t)
            let three = self.emit_f32_constant(BITS_THREE);
            let fx2 = rb_f_mul(&mut self.builder, self.types.f32_ty, fx, fx)?;
            let fy2 = rb_f_mul(&mut self.builder, self.types.f32_ty, fy, fy)?;
            let two_fx = rb_f_mul(&mut self.builder, self.types.f32_ty, two, fx)?;
            let two_fy = rb_f_mul(&mut self.builder, self.types.f32_ty, two, fy)?;
            let three_minus_2fx = rb_f_sub(&mut self.builder, self.types.f32_ty, three, two_fx)?;
            let three_minus_2fy = rb_f_sub(&mut self.builder, self.types.f32_ty, three, two_fy)?;
            let ux = rb_f_mul(&mut self.builder, self.types.f32_ty, fx2, three_minus_2fx)?;
            let uy = rb_f_mul(&mut self.builder, self.types.f32_ty, fy2, three_minus_2fy)?;
            let lerp_x1 = self.mix(r00, r10, ux)?;
            let lerp_x2 = self.mix(r01, r11, ux)?;
            let val = self.mix(lerp_x1, lerp_x2, uy)?;
            // amplitude = 0.5^i
            let amp = if i == 0 {
                one
            } else if i == 1 {
                half
            } else if i == 2 {
                rb_f_mul(&mut self.builder, self.types.f32_ty, half, half)?
            } else {
                let quarter = rb_f_mul(&mut self.builder, self.types.f32_ty, half, half)?;
                rb_f_mul(&mut self.builder, self.types.f32_ty, quarter, half)?
            };
            let amp_masked = rb_f_mul(&mut self.builder, self.types.f32_ty, amp, mask)?;
            octave_vals.push(val);
            amp_vals.push(amp_masked);
            i = i + 1;
        }
        // accumulate the masked octaves
        let mut sum_amp = self.emit_f32_constant(BITS_ZERO);
        let mut sum_val = self.emit_f32_constant(BITS_ZERO);
        let mut j: usize = 0;
        while j < octave_vals.len() && j < amp_vals.len()
            invariant
                same_env(*old(self), *self),
                self.buffers@ == old(self).buffers@,
                appends_no_store(old(self).builder, self.builder),
            decreases octave_vals@.len() - j,
        {
            let va = rb_f_mul(&mut self.builder, self.types.f32_ty, octave_vals[j], amp_vals[j])?;
            sum_val = rb_f_add(&mut self.builder, self.types.f32_ty, sum_val, va)?;
            sum_amp = rb_f_add(&mut self.builder, self.types.f32_ty, sum_amp, amp_vals[j])?;
            j = j + 1;
        }
        // avoid dividing by a vanishing amplitude sum
        let epsilon = self.emit_f32_constant(BITS_EPS_1E6);
        let cmp_zero = rb_f_ord_less_than(&mut self.builder, self.types.bool_ty, sum_amp, epsilon)?;
        let safe_amp = rb_select(&mut self.builder, self.types.f32_ty, cmp_zero, one, sum_amp)?;
        let normalized = rb_f_div(&mut self.builder, self.types.f32_ty, sum_val, safe_amp)?;
        self.construct_vec4(normalized, normalized, normalized, one)
    }

    /// `shape(sides=3, radius=0.5, smoothing=0.01)`: a smoothed regular
    /// polygon mask, sides clamped to at least three.
    pub fn emit_shape(&mut self, args: &Vec<u32>, st: u32) -> (r: Result<u32, EmitError>)
        ensures
            same_env(*old(self), *final(self)),
            final(self).buffers@ == old(self).buffers@,
            in_shader_block(*old(self)) ==> r is Ok,
            appends_no_store(old(self).builder, final(self).builder),
            r matches Ok(c) ==> appends_def(old(self).builder, final(self).builder, c),
    {
        let sides = self.get_arg_or_default(args, 0, BITS_THREE);
        let radius = self.get_arg_or_default(args, 1, BITS_HALF);
        let smoothing = self.get_arg_or_default(args, 2, BITS_HUNDREDTH);
        let half = self.emit_f32_constant(BITS_HALF);
        let (x, y) = self.extract_vec2_components(st)?;
        let x_c = rb_f_sub(&mut self.builder, self.types.f32_ty, x, half)?;
        let y_c = rb_f_sub(&mut self.builder, self.types.f32_ty, y, half)?;
        let center_vec = self.emit_vec2(x_c, y_c)?;
        let r_len = self.emit_length2(center_vec)?;
        let angle = self.emit_glsl_atan2(y_c, x_c)?;
        let two_pi = self.emit_f32_constant(BITS_TWO_PI);
        // clamp sides to at least three by compare-and-select
        let three = self.emit_f32_constant(BITS_THREE);
        let cmp = rb_f_ord_less_than(&mut self.builder, self.types.bool_ty, sides, three)?;
        let sides_min3 = rb_select(&mut self.builder, self.types.f32_ty, cmp, three, sides)?;
        let seg = rb_f_div(&mut self.builder, self.types.f32_ty, two_pi, sides_min3)?;
        let half_seg = rb_f_mul(&mut self.builder, self.types.f32_ty, seg, half)?;
        let angle_shift = rb_f_add(&mut self.builder, self.types.f32_ty, angle, half_seg)?;
        let angle_mod = self.emit_mod_scalar(angle_shift, seg)?;
        let local = rb_f_sub(&mut self.builder, self.types.f32_ty, angle_mod, half_seg)?;
        let pi = self.emit_f32_constant(BITS_PI);
        let pi_over_sides = rb_f_div(&mut self.builder, self.types.f32_ty, pi, sides_min3)?;
        let cos_pi_sides = self.emit_glsl_cos(pi_over_sides)?;
        let cos_local = self.emit_glsl_cos(local)?;
        // boundary = radius*cos(pi/sides) / max(|cos(local)|, 1e-4)
        let abs_cos_local = self.emit_glsl_abs(cos_local)?;
        let min_denom = self.emit_f32_constant(BITS_EPS_1E4);
        let denom = self.glsl_fmax(abs_cos_local, min_denom)?;
        let numer = rb_f_mul(&mut self.builder, self.types.f32_ty, radius, cos_pi_sides)?;
        let boundary = rb_f_div(&mut self.builder, self.types.f32_ty, numer, denom)?;
        let dist_edge = rb_f_sub(&mut self.builder, self.types.f32_ty, boundary, r_len)?;
        let zero = self.emit_f32_constant(BITS_ZERO);
        let mask = self.smoothstep(zero, smoothing, dist_edge)?;
        self.construct_vec4(mask, mask, mask, mask)
    }

    /// `voronoi(freq=5, jitter=0.8)`: the distance to the nearest jittered
    /// feature point over a 3-by-3 cell neighborhood, as `1 - sqrt(d2)`.
    pub fn emit_voronoi(&mut self, args: &Vec<u32>, st: u32) -> (r: Result<u32, EmitError>)
        ensures
            same_env(*old(self), *final(self)),
            final(self).buffers@ == old(self).buffers@,
            in_shader_block(*old(self)) ==> r is Ok,
            appends_no_store(old(self).builder, final(self).builder),
            r matches Ok(c) ==> appends_def(old(self).builder, final(self).builder, c),
    {
        let freq = self.get_arg_or_default(args, 0, BITS_FIVE);
        let jitter = self.get_arg_or_default(args, 1, BITS_0_8);
        let (x, y) = self.extract_vec2_components(st)?;
        let sx = rb_f_mul(&mut self.builder, self.types.f32_ty, x, freq)?;
        let sy = rb_f_mul(&mut self.builder, self.types.f32_ty, y, freq)?;
        let ix = self.emit_glsl_floor(sx)?;
        let iy = self.emit_glsl_floor(sy)?;
        let fx = self.emit_fract(sx)?;
        let fy = self.emit_fract(sy)?;
        let max_start = self.emit_f32_constant(BITS_BIG);
        let mut dmin = max_start;
        let c1 = self.emit_f32_constant(BITS_HASH_X);
        let c2 = self.emit_f32_constant(BITS_HASH_Y);
        let scale_hash = self.emit_f32_constant(BITS_HASH_SCALE);
        let one = self.emit_f32_constant(BITS_ONE);
        let mut dyi: u32 = 0;
        while dyi < 3
            invariant
                same_env(*old(self), *self),
                self.buffers@ == old(self).buffers@,
                appends_no_store(old(self).builder, self.builder),
            decreases 3 - dyi,
        {
            let dy_bits = if dyi == 0 {
                BITS_NEG_ONE
            } else if dyi == 1 {
                BITS_ZERO
            } else {
                BITS_ONE
            };
            let mut dxi: u32 = 0;
            while dxi < 3
                invariant
                    same_env(*old(self), *self),
                    self.buffers@ == old(self).buffers@,
                    appends_no_store(old(self).builder, self.builder),
                decreases 3 - dxi,
            {
                let dx_bits = if dxi == 0 {
                    BITS_NEG_ONE
                } else if dxi == 1 {
                    BITS_ZERO
                } else {
                    BITS_ONE
                };
                let dx_c = self.emit_f32_constant(dx_bits);
                let dy_c = self.emit_f32_constant(dy_bits);
                let cell_x = rb_f_add(&mut self.builder, self.types.f32_ty, ix, dx_c)?;
                let cell_y = rb_f_add(&mut self.builder, self.types.f32_ty, iy, dy_c)?;
                let h1 = self.hash_cell(cell_x, cell_y, c1, c2, scale_hash)?;
                let cell_y2 = rb_f_add(&mut self.builder, self.types.f32_ty, cell_y, one)?;
                let h2 = self.hash_cell(cell_x, cell_y2, c1, c2, scale_hash)?;
                let half = self.emit_f32_constant(BITS_HALF);
                let j1_c = rb_f_sub(&mut self.builder, self.types.f32_ty, h1, half)?;
                let j2_c = rb_f_sub(&mut self.builder, self.types.f32_ty, h2, half)?;
                let jx = rb_f_mul(&mut self.builder, self.types.f32_ty, j1_c, jitter)?;
                let jy = rb_f_mul(&mut self.builder, self.types.f32_ty, j2_c, jitter)?;
                let rel_x_part = rb_f_add(&mut self.builder, self.types.f32_ty, dx_c, jx)?;
                let rel_y_part = rb_f_add(&mut self.builder, self.types.f32_ty, dy_c, jy)?;
                let px = rb_f_sub(&mut self.builder, self.types.f32_ty, rel_x_part, fx)?;
                let py = rb_f_sub(&mut self.builder, self.types.f32_ty, rel_y_part, fy)?;
                let px2 = rb_f_mul(&mut self.builder, self.types.f32_ty, px, px)?;
                let py2 = rb_f_mul(&mut self.builder, self.types.f32_ty, py, py)?;
                let dist2 = rb_f_add(&mut self.builder, self.types.f32_ty, px2, py2)?;
                dmin = self.glsl_fmin(dmin, dist2)?;
                dxi = dxi + 1;
            }
            dyi = dyi + 1;
        }
        let sqrt = self.emit_glsl_sqrt(dmin)?;
        let val = rb_f_sub(&mut self.builder, self.types.f32_ty, one, sqrt)?;
        self.construct_vec4(val, val, val, one)
    }

}

} // verus!

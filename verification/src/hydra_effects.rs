//! The color-operation emitters: unary color transforms and binary
//! combinators over already-evaluated subtree colors. Every emitter leaves
//! the module environment and the output-buffer table unchanged.

use vstd::prelude::*;
use crate::spirv_api::appends_no_store;
use crate::spirv_api::appends_def;
use crate::numeric::BITS_0_005;
use crate::numeric::BITS_0_6;
use crate::numeric::BITS_FOUR;
use crate::numeric::BITS_HALF;
use crate::numeric::BITS_ONE;
use crate::numeric::BITS_RGB_B_I;
use crate::numeric::BITS_RGB_B_Q;
use crate::numeric::BITS_RGB_G_I;
use crate::numeric::BITS_RGB_G_Q;
use crate::numeric::BITS_RGB_R_I;
use crate::numeric::BITS_RGB_R_Q;
use crate::numeric::BITS_YIQ_I_B;
use crate::numeric::BITS_YIQ_I_G;
use crate::numeric::BITS_YIQ_I_R;
use crate::numeric::BITS_YIQ_Q_B;
use crate::numeric::BITS_YIQ_Q_G;
use crate::numeric::BITS_YIQ_Q_R;
use crate::numeric::BITS_ZERO;
use crate::spirv_api::EmitError;
use crate::spirv_api::rb_f_add;
use crate::spirv_api::rb_f_div;
use crate::spirv_api::rb_f_mul;
use crate::spirv_api::rb_f_ord_less_than;
use crate::spirv_api::rb_f_sub;
use crate::spirv_api::rb_select;
use crate::spirv_context::SpirvContext;
use crate::spirv_context::in_shader_block;
use crate::spirv_context::same_env;

verus! {

broadcast use crate::spirv_api::lemma_appends_no_store_eq, crate::spirv_api::lemma_appends_no_store_trans, crate::spirv_api::lemma_appends_def_after, crate::spirv_api::lemma_appends_def_before;

/// The per-channel operation of a binary combinator.
#[derive(Clone, Copy, PartialEq, Eq, Structural)]
enum ChannelOp {
    /// `x + y`.
    Add,
    /// `x - y`.
    Sub,
    /// `x * y`.
    Mul,
    /// `y` alone (blending and layering).
    TakeRight,
    /// `|x - y|`, emitted as `sqrt((x-y)^2)`.
    DiffAbs,
}

/// The per-channel operation of an RGB-wise unary transform.
#[derive(Clone, Copy, PartialEq, Eq, Structural)]
enum RgbOp {
    /// `safe_pow(ch, exp)`.
    SafePow(u32),
    /// `quantize(ch, levels)`.
    Quantize(u32),
    /// `(ch - 0.5)*amount + 0.5`.
    ContrastAmt(u32),
}

impl SpirvContext {
    /// One channel of a binary combinator.
    fn channel_op(&mut self, op: ChannelOp, x: u32, y: u32) -> (r: Result<u32, EmitError>)
        ensures
            same_env(*old(self), *final(self)),
            final(self).buffers@ == old(self).buffers@,
            in_shader_block(*old(self)) ==> r is Ok,
            appends_no_store(old(self).builder, final(self).builder),
    {
        match op {
            ChannelOp::Add => rb_f_add(&mut self.builder, self.types.f32_ty, x, y),
            ChannelOp::Sub => rb_f_sub(&mut self.builder, self.types.f32_ty, x, y),
            ChannelOp::Mul => rb_f_mul(&mut self.builder, self.types.f32_ty, x, y),
            ChannelOp::TakeRight => {
                proof {
                    reveal(appends_no_store);
                }
                Ok(y)
            },
            ChannelOp::DiffAbs => {
                let d = rb_f_sub(&mut self.builder, self.types.f32_ty, x, y)?;
                let d2 = rb_f_mul(&mut self.builder, self.types.f32_ty, d, d)?;
                self.emit_glsl_sqrt(d2)
            }
        }
    }

    /// Applies `op` to all four channel pairs of `a` and `b`.
    fn binary_per_channel(&mut self, op: ChannelOp, a: u32, b: u32) -> (r: Result<u32, EmitError>)
        ensures
            same_env(*old(self), *final(self)),
            final(self).buffers@ == old(self).buffers@,
            in_shader_block(*old(self)) ==> r is Ok,
            appends_no_store(old(self).builder, final(self).builder),
            r matches Ok(c) ==> appends_def(old(self).builder, final(self).builder, c),
    {
        let ar = self.extract_component(a, 0)?;
        let ag = self.extract_component(a, 1)?;
        let ab = self.extract_component(a, 2)?;
        let aa = self.extract_component(a, 3)?;
        let br = self.extract_component(b, 0)?;
        let bg = self.extract_component(b, 1)?;
        let bb = self.extract_component(b, 2)?;
        let ba = self.extract_component(b, 3)?;
        let red = self.channel_op(op, ar, br)?;
        let green = self.channel_op(op, ag, bg)?;
        let blue = self.channel_op(op, ab, bb)?;
        let alpha = self.channel_op(op, aa, ba)?;
        self.construct_vec4(red, green, blue, alpha)
    }

    /// `mix(a, per_channel_op(a, b), amount)`, channel-wise.
    fn binary_mix(&mut self, op: ChannelOp, a: u32, b: u32, amount: u32) -> (r: Result<
        u32,
        EmitError,
    >)
        ensures
            same_env(*old(self), *final(self)),
            final(self).buffers@ == old(self).buffers@,
            in_shader_block(*old(self)) ==> r is Ok,
            appends_no_store(old(self).builder, final(self).builder),
            r matches Ok(c) ==> appends_def(old(self).builder, final(self).builder, c),
    {
        let blended = self.binary_per_channel(op, a, b)?;
        let ar = self.extract_component(a, 0)?;
        let ag = self.extract_component(a, 1)?;
        let ab = self.extract_component(a, 2)?;
        let aa = self.extract_component(a, 3)?;
        let br = self.extract_component(blended, 0)?;
        let bg = self.extract_component(blended, 1)?;
        let bb = self.extract_component(blended, 2)?;
        let ba = self.extract_component(blended, 3)?;
        let red = self.mix(ar, br, amount)?;
        let green = self.mix(ag, bg, amount)?;
        let blue = self.mix(ab, bb, amount)?;
        let alpha = self.mix(aa, ba, amount)?;
        self.construct_vec4(red, green, blue, alpha)
    }

    /// `add(amount=1)`: `mix(a, a+b, amount)`.
    pub fn binary_add(&mut self, a: u32, b: u32, amount: u32) -> (r: Result<u32, EmitError>)
        ensures
            same_env(*old(self), *final(self)),
            final(self).buffers@ == old(self).buffers@,
            in_shader_block(*old(self)) ==> r is Ok,
            appends_no_store(old(self).builder, final(self).builder),
            r matches Ok(c) ==> appends_def(old(self).builder, final(self).builder, c),
    {
        self.binary_mix(ChannelOp::Add, a, b, amount)
    }

    /// `sub(amount=1)`: `mix(a, a-b, amount)`.
    pub fn binary_sub(&mut self, a: u32, b: u32, amount: u32) -> (r: Result<u32, EmitError>)
        ensures
            same_env(*old(self), *final(self)),
            final(self).buffers@ == old(self).buffers@,
            in_shader_block(*old(self)) ==> r is Ok,
            appends_no_store(old(self).builder, final(self).builder),
            r matches Ok(c) ==> appends_def(old(self).builder, final(self).builder, c),
    {
        self.binary_mix(ChannelOp::Sub, a, b, amount)
    }

    /// `mult(amount=1)`: `mix(a, a*b, amount)`.
    pub fn binary_mult(&mut self, a: u32, b: u32, amount: u32) -> (r: Result<u32, EmitError>)
        ensures
            same_env(*old(self), *final(self)),
            final(self).buffers@ == old(self).buffers@,
            in_shader_block(*old(self)) ==> r is Ok,
            appends_no_store(old(self).builder, final(self).builder),
            r matches Ok(c) ==> appends_def(old(self).builder, final(self).builder, c),
    {
        self.binary_mix(ChannelOp::Mul, a, b, amount)
    }

    /// `diff`: `|a - b|` per channel; the amount argument plays no part.
    pub fn binary_diff(&mut self, a: u32, b: u32) -> (r: Result<u32, EmitError>)
        ensures
            same_env(*old(self), *final(self)),
            final(self).buffers@ == old(self).buffers@,
            in_shader_block(*old(self)) ==> r is Ok,
            appends_no_store(old(self).builder, final(self).builder),
            r matches Ok(c) ==> appends_def(old(self).builder, final(self).builder, c),
    {
        self.binary_per_channel(ChannelOp::DiffAbs, a, b)
    }

    /// `blend(amount=1)`: `mix(a, b, amount)`.
    pub fn binary_blend(&mut self, a: u32, b: u32, amount: u32) -> (r: Result<u32, EmitError>)
        ensures
            same_env(*old(self), *final(self)),
            final(self).buffers@ == old(self).buffers@,
            in_shader_block(*old(self)) ==> r is Ok,
            appends_no_store(old(self).builder, final(self).builder),
            r matches Ok(c) ==> appends_def(old(self).builder, final(self).builder, c),
    {
        self.binary_mix(ChannelOp::TakeRight, a, b, amount)
    }

    /// `layer`: blend by the upper layer's alpha; the amount argument plays
    /// no part.
    pub fn binary_layer(&mut self, a: u32, b: u32) -> (r: Result<u32, EmitError>)
        ensures
            same_env(*old(self), *final(self)),
            final(self).buffers@ == old(self).buffers@,
            in_shader_block(*old(self)) ==> r is Ok,
            appends_no_store(old(self).builder, final(self).builder),
            r matches Ok(c) ==> appends_def(old(self).builder, final(self).builder, c),
    {
        let ba = self.extract_component(b, 3)?;
        self.binary_mix(ChannelOp::TakeRight, a, b, ba)
    }

    /// `mask`: multiplies `a`'s RGB and alpha by `luma(b)`.
    pub fn binary_mask(&mut self, a: u32, b: u32) -> (r: Result<u32, EmitError>)
        ensures
            same_env(*old(self), *final(self)),
            final(self).buffers@ == old(self).buffers@,
            in_shader_block(*old(self)) ==> r is Ok,
            appends_no_store(old(self).builder, final(self).builder),
            r matches Ok(c) ==> appends_def(old(self).builder, final(self).builder, c),
    {
        let mask = self.emit_luma(b)?;
        let ar = self.extract_component(a, 0)?;
        let ag = self.extract_component(a, 1)?;
        let ab = self.extract_component(a, 2)?;
        let aa = self.extract_component(a, 3)?;
        let red = rb_f_mul(&mut self.builder, self.types.f32_ty, ar, mask)?;
        let green = rb_f_mul(&mut self.builder, self.types.f32_ty, ag, mask)?;
        let blue = rb_f_mul(&mut self.builder, self.types.f32_ty, ab, mask)?;
        let alpha = rb_f_mul(&mut self.builder, self.types.f32_ty, aa, mask)?;
        self.construct_vec4(red, green, blue, alpha)
    }

    /// `modulateHue`: hue-rotates `base` by `luma(other) * amount`.
    pub fn emit_modulate_hue(&mut self, base: u32, other: u32, amount: u32) -> (r: Result<
        u32,
        EmitError,
    >)
        ensures
            same_env(*old(self), *final(self)),
            final(self).buffers@ == old(self).buffers@,
            in_shader_block(*old(self)) ==> r is Ok,
            appends_no_store(old(self).builder, final(self).builder),
            r matches Ok(c) ==> appends_def(old(self).builder, final(self).builder, c),
    {
        let l = self.emit_luma(other)?;
        let angle = rb_f_mul(&mut self.builder, self.types.f32_ty, l, amount)?;
        self.hue_rotate(base, angle)
    }

    /// YIQ hue rotation: RGB to YIQ, rotate the `(I, Q)` plane by `angle`,
    /// back to RGB, alpha preserved.
    fn hue_rotate(&mut self, color: u32, angle: u32) -> (r: Result<u32, EmitError>)
        ensures
            same_env(*old(self), *final(self)),
            final(self).buffers@ == old(self).buffers@,
            in_shader_block(*old(self)) ==> r is Ok,
            appends_no_store(old(self).builder, final(self).builder),
            r matches Ok(c) ==> appends_def(old(self).builder, final(self).builder, c),
    {
        let red = self.extract_component(color, 0)?;
        let green = self.extract_component(color, 1)?;
        let blue = self.extract_component(color, 2)?;
        let y = self.emit_luma(color)?;
        let i = self.weighted_sum3(
            red,
            green,
            blue,
            BITS_YIQ_I_R,
            BITS_YIQ_I_G,
            BITS_YIQ_I_B,
        )?;
        let q = self.weighted_sum3(
            red,
            green,
            blue,
            BITS_YIQ_Q_R,
            BITS_YIQ_Q_G,
            BITS_YIQ_Q_B,
        )?;
        let cos_a = self.emit_glsl_cos(angle)?;
        let sin_a = self.emit_glsl_sin(angle)?;
        let ic = rb_f_mul(&mut self.builder, self.types.f32_ty, i, cos_a)?;
        let qs = rb_f_mul(&mut self.builder, self.types.f32_ty, q, sin_a)?;
        let i2 = rb_f_sub(&mut self.builder, self.types.f32_ty, ic, qs)?;
        let is_ = rb_f_mul(&mut self.builder, self.types.f32_ty, i, sin_a)?;
        let qc = rb_f_mul(&mut self.builder, self.types.f32_ty, q, cos_a)?;
        let q2 = rb_f_add(&mut self.builder, self.types.f32_ty, is_, qc)?;
        let r2 = self.yiq_channel(y, i2, q2, BITS_RGB_R_I, BITS_RGB_R_Q)?;
        let g2 = self.yiq_channel(y, i2, q2, BITS_RGB_G_I, BITS_RGB_G_Q)?;
        let b2 = self.yiq_channel(y, i2, q2, BITS_RGB_B_I, BITS_RGB_B_Q)?;
        let alpha = self.extract_component(color, 3)?;
        self.construct_vec4(r2, g2, b2, alpha)
    }

    /// `r*w1 + g*w2 + b*w3` for constant weights.
    fn weighted_sum3(
        &mut self,
        red: u32,
        green: u32,
        blue: u32,
        w1_bits: u32,
        w2_bits: u32,
        w3_bits: u32,
    ) -> (r: Result<u32, EmitError>)
        ensures
            same_env(*old(self), *final(self)),
            final(self).buffers@ == old(self).buffers@,
            in_shader_block(*old(self)) ==> r is Ok,
            appends_no_store(old(self).builder, final(self).builder),
            r matches Ok(c) ==> appends_def(old(self).builder, final(self).builder, c),
    {
        let c1 = self.emit_f32_constant(w1_bits);
        let c2 = self.emit_f32_constant(w2_bits);
        let c3 = self.emit_f32_constant(w3_bits);
        let t1 = rb_f_mul(&mut self.builder, self.types.f32_ty, red, c1)?;
        let t2 = rb_f_mul(&mut self.builder, self.types.f32_ty, green, c2)?;
        let t3 = rb_f_mul(&mut self.builder, self.types.f32_ty, blue, c3)?;
        let sum = rb_f_add(&mut self.builder, self.types.f32_ty, t1, t2)?;
        rb_f_add(&mut self.builder, self.types.f32_ty, sum, t3)
    }

    /// `y + i*wi + q*wq`, one RGB channel of the YIQ inverse.
    fn yiq_channel(&mut self, y: u32, i: u32, q: u32, wi_bits: u32, wq_bits: u32) -> (r: Result<
        u32,
        EmitError,
    >)
        ensures
            same_env(*old(self), *final(self)),
            final(self).buffers@ == old(self).buffers@,
            in_shader_block(*old(self)) ==> r is Ok,
            appends_no_store(old(self).builder, final(self).builder),
            r matches Ok(c) ==> appends_def(old(self).builder, final(self).builder, c),
    {
        let c1 = self.emit_f32_constant(wi_bits);
        let c2 = self.emit_f32_constant(wq_bits);
        let t1 = rb_f_mul(&mut self.builder, self.types.f32_ty, i, c1)?;
        let t2 = rb_f_mul(&mut self.builder, self.types.f32_ty, q, c2)?;
        let sum = rb_f_add(&mut self.builder, self.types.f32_ty, y, t1)?;
        rb_f_add(&mut self.builder, self.types.f32_ty, sum, t2)
    }

    /// Applies `op` to the RGB channels, preserving alpha.
    fn apply_rgb_op(&mut self, color: u32, op: RgbOp) -> (r: Result<u32, EmitError>)
        ensures
            same_env(*old(self), *final(self)),
            final(self).buffers@ == old(self).buffers@,
            in_shader_block(*old(self)) ==> r is Ok,
            appends_no_store(old(self).builder, final(self).builder),
            r matches Ok(c) ==> appends_def(old(self).builder, final(self).builder, c),
    {
        let red = self.extract_component(color, 0)?;
        let green = self.extract_component(color, 1)?;
        let blue = self.extract_component(color, 2)?;
        let alpha = self.extract_component(color, 3)?;
        let r2 = self.rgb_channel_op(red, op)?;
        let g2 = self.rgb_channel_op(green, op)?;
        let b2 = self.rgb_channel_op(blue, op)?;
        self.construct_vec4(r2, g2, b2, alpha)
    }

    /// One channel of an RGB-wise unary transform.
    fn rgb_channel_op(&mut self, ch: u32, op: RgbOp) -> (r: Result<u32, EmitError>)
        ensures
            same_env(*old(self), *final(self)),
            final(self).buffers@ == old(self).buffers@,
            in_shader_block(*old(self)) ==> r is Ok,
            appends_no_store(old(self).builder, final(self).builder),
            r matches Ok(c) ==> appends_def(old(self).builder, final(self).builder, c),
    {
        match op {
            RgbOp::SafePow(exp) => self.safe_pow(ch, exp),
            RgbOp::Quantize(levels) => self.emit_quantize(ch, levels),
            RgbOp::ContrastAmt(amount) => {
                let half = self.emit_f32_constant(BITS_HALF);
                let sub = rb_f_sub(&mut self.builder, self.types.f32_ty, ch, half)?;
                let mul = rb_f_mul(&mut self.builder, self.types.f32_ty, sub, amount)?;
                rb_f_add(&mut self.builder, self.types.f32_ty, mul, half)
            }
        }
    }

    /// `(ch - 0.5)*amount + 0.5` on RGB.
    fn contrast_amount(&mut self, color: u32, amount: u32) -> (r: Result<u32, EmitError>)
        ensures
            same_env(*old(self), *final(self)),
            final(self).buffers@ == old(self).buffers@,
            in_shader_block(*old(self)) ==> r is Ok,
            appends_no_store(old(self).builder, final(self).builder),
            r matches Ok(c) ==> appends_def(old(self).builder, final(self).builder, c),
    {
        self.apply_rgb_op(color, RgbOp::ContrastAmt(amount))
    }

    /// RGB times `amount`, alpha preserved.
    fn brightness_amount(&mut self, color: u32, amount: u32) -> (r: Result<u32, EmitError>)
        ensures
            same_env(*old(self), *final(self)),
            final(self).buffers@ == old(self).buffers@,
            in_shader_block(*old(self)) ==> r is Ok,
            appends_no_store(old(self).builder, final(self).builder),
            r matches Ok(c) ==> appends_def(old(self).builder, final(self).builder, c),
    {
        let red = self.extract_component(color, 0)?;
        let green = self.extract_component(color, 1)?;
        let blue = self.extract_component(color, 2)?;
        let alpha = self.extract_component(color, 3)?;
        let r2 = rb_f_mul(&mut self.builder, self.types.f32_ty, red, amount)?;
        let g2 = rb_f_mul(&mut self.builder, self.types.f32_ty, green, amount)?;
        let b2 = rb_f_mul(&mut self.builder, self.types.f32_ty, blue, amount)?;
        self.construct_vec4(r2, g2, b2, alpha)
    }

    /// `invert(a=1)`: `mix(ch, 1-ch, a)` on RGB, alpha preserved.
    pub fn emit_invert(&mut self, color: u32, args: &Vec<u32>) -> (r: Result<u32, EmitError>)
        ensures
            same_env(*old(self), *final(self)),
            final(self).buffers@ == old(self).buffers@,
            in_shader_block(*old(self)) ==> r is Ok,
            appends_no_store(old(self).builder, final(self).builder),
            r matches Ok(c) ==> appends_def(old(self).builder, final(self).builder, c),
    {
        let amount = self.get_arg_or_default(args, 0, BITS_ONE);
        let one = self.emit_f32_constant(BITS_ONE);
        let red = self.extract_component(color, 0)?;
        let green = self.extract_component(color, 1)?;
        let blue = self.extract_component(color, 2)?;
        let alpha = self.extract_component(color, 3)?;
        let inv_r = rb_f_sub(&mut self.builder, self.types.f32_ty, one, red)?;
        let inv_g = rb_f_sub(&mut self.builder, self.types.f32_ty, one, green)?;
        let inv_b = rb_f_sub(&mut self.builder, self.types.f32_ty, one, blue)?;
        let fr = self.mix(red, inv_r, amount)?;
        let fg = self.mix(green, inv_g, amount)?;
        let fb = self.mix(blue, inv_b, amount)?;
        self.construct_vec4(fr, fg, fb, alpha)
    }

    /// `color(r=1, g=1, b=1, a=1)`: per-channel multiply, alpha included.
    pub fn emit_color(&mut self, input: u32, args: &Vec<u32>) -> (r: Result<u32, EmitError>)
        ensures
            same_env(*old(self), *final(self)),
            final(self).buffers@ == old(self).buffers@,
            in_shader_block(*old(self)) ==> r is Ok,
            appends_no_store(old(self).builder, final(self).builder),
            r matches Ok(c) ==> appends_def(old(self).builder, final(self).builder, c),
    {
        let wr = self.get_arg_or_default(args, 0, BITS_ONE);
        let wg = self.get_arg_or_default(args, 1, BITS_ONE);
        let wb = self.get_arg_or_default(args, 2, BITS_ONE);
        let wa = self.get_arg_or_default(args, 3, BITS_ONE);
        let ir = self.extract_component(input, 0)?;
        let ig = self.extract_component(input, 1)?;
        let ib = self.extract_component(input, 2)?;
        let ia = self.extract_component(input, 3)?;
        let fr = rb_f_mul(&mut self.builder, self.types.f32_ty, ir, wr)?;
        let fg = rb_f_mul(&mut self.builder, self.types.f32_ty, ig, wg)?;
        let fb = rb_f_mul(&mut self.builder, self.types.f32_ty, ib, wb)?;
        let fa = rb_f_mul(&mut self.builder, self.types.f32_ty, ia, wa)?;
        self.construct_vec4(fr, fg, fb, fa)
    }

    /// `brightness(a=1)`: RGB times the amount.
    pub fn emit_brightness(&mut self, color: u32, args: &Vec<u32>) -> (r: Result<u32, EmitError>)
        ensures
            same_env(*old(self), *final(self)),
            final(self).buffers@ == old(self).buffers@,
            in_shader_block(*old(self)) ==> r is Ok,
            appends_no_store(old(self).builder, final(self).builder),
            r matches Ok(c) ==> appends_def(old(self).builder, final(self).builder, c),
    {
        let amt = self.get_arg_or_default(args, 0, BITS_ONE);
        self.brightness_amount(color, amt)
    }

    /// `contrast(a=1)`: `(ch - 0.5)*a + 0.5` on RGB.
    pub fn emit_contrast(&mut self, color: u32, args: &Vec<u32>) -> (r: Result<u32, EmitError>)
        ensures
            same_env(*old(self), *final(self)),
            final(self).buffers@ == old(self).buffers@,
            in_shader_block(*old(self)) ==> r is Ok,
            appends_no_store(old(self).builder, final(self).builder),
            r matches Ok(c) ==> appends_def(old(self).builder, final(self).builder, c),
    {
        let amt = self.get_arg_or_default(args, 0, BITS_ONE);
        self.contrast_amount(color, amt)
    }

    /// `saturate(a=1)`: `mix(luma, ch, a)` on RGB.
    pub fn emit_saturate(&mut self, color: u32, args: &Vec<u32>) -> (r: Result<u32, EmitError>)
        ensures
            same_env(*old(self), *final(self)),
            final(self).buffers@ == old(self).buffers@,
            in_shader_block(*old(self)) ==> r is Ok,
            appends_no_store(old(self).builder, final(self).builder),
            r matches Ok(c) ==> appends_def(old(self).builder, final(self).builder, c),
    {
        let amt = self.get_arg_or_default(args, 0, BITS_ONE);
        let luma = self.emit_luma(color)?;
        let red = self.extract_component(color, 0)?;
        let green = self.extract_component(color, 1)?;
        let blue = self.extract_component(color, 2)?;
        let alpha = self.extract_component(color, 3)?;
        let r2 = self.mix(luma, red, amt)?;
        let g2 = self.mix(luma, green, amt)?;
        let b2 = self.mix(luma, blue, amt)?;
        self.construct_vec4(r2, g2, b2, alpha)
    }

    /// `posterize(levels=4, gamma=0.6)`: linearize by `1/gamma`, quantize,
    /// restore by `gamma`, per RGB channel.
    pub fn emit_posterize(&mut self, color: u32, args: &Vec<u32>) -> (r: Result<u32, EmitError>)
        ensures
            same_env(*old(self), *final(self)),
            final(self).buffers@ == old(self).buffers@,
            in_shader_block(*old(self)) ==> r is Ok,
            appends_no_store(old(self).builder, final(self).builder),
            r matches Ok(c) ==> appends_def(old(self).builder, final(self).builder, c),
    {
        let levels = self.get_arg_or_default(args, 0, BITS_FOUR);
        let gamma = self.get_arg_or_default(args, 1, BITS_0_6);
        let one = self.emit_f32_constant(BITS_ONE);
        let inv_gamma = rb_f_div(&mut self.builder, self.types.f32_ty, one, gamma)?;
        let linearized = self.apply_rgb_op(color, RgbOp::SafePow(inv_gamma))?;
        let quantized = self.apply_rgb_op(linearized, RgbOp::Quantize(levels))?;
        self.apply_rgb_op(quantized, RgbOp::SafePow(gamma))
    }

    /// `thresh(t=0.5, a=1)`: `mix(ch, ch < t ? 0 : 1, a)` on RGB.
    pub fn emit_thresh(&mut self, color: u32, args: &Vec<u32>) -> (r: Result<u32, EmitError>)
        ensures
            same_env(*old(self), *final(self)),
            final(self).buffers@ == old(self).buffers@,
            in_shader_block(*old(self)) ==> r is Ok,
            appends_no_store(old(self).builder, final(self).builder),
            r matches Ok(c) ==> appends_def(old(self).builder, final(self).builder, c),
    {
        let threshold = self.get_arg_or_default(args, 0, BITS_HALF);
        let amount = self.get_arg_or_default(args, 1, BITS_ONE);
        let red = self.extract_component(color, 0)?;
        let green = self.extract_component(color, 1)?;
        let blue = self.extract_component(color, 2)?;
        let alpha = self.extract_component(color, 3)?;
        let r2 = self.thresh_channel(red, threshold, amount)?;
        let g2 = self.thresh_channel(green, threshold, amount)?;
        let b2 = self.thresh_channel(blue, threshold, amount)?;
        self.construct_vec4(r2, g2, b2, alpha)
    }

    /// One channel of `thresh`.
    fn thresh_channel(&mut self, ch: u32, threshold: u32, amount: u32) -> (r: Result<
        u32,
        EmitError,
    >)
        ensures
            same_env(*old(self), *final(self)),
            final(self).buffers@ == old(self).buffers@,
            in_shader_block(*old(self)) ==> r is Ok,
            appends_no_store(old(self).builder, final(self).builder),
            r matches Ok(c) ==> appends_def(old(self).builder, final(self).builder, c),
    {
        let zero = self.emit_f32_constant(BITS_ZERO);
        let one = self.emit_f32_constant(BITS_ONE);
        let cmp = rb_f_ord_less_than(&mut self.builder, self.types.bool_ty, ch, threshold)?;
        let bw = rb_select(&mut self.builder, self.types.f32_ty, cmp, zero, one)?;
        self.mix(ch, bw, amount)
    }

    /// `hue(angle=0)`: YIQ hue rotation by a fixed angle.
    pub fn emit_hue(&mut self, color: u32, args: &Vec<u32>) -> (r: Result<u32, EmitError>)
        ensures
            same_env(*old(self), *final(self)),
            final(self).buffers@ == old(self).buffers@,
            in_shader_block(*old(self)) ==> r is Ok,
            appends_no_store(old(self).builder, final(self).builder),
            r matches Ok(c) ==> appends_def(old(self).builder, final(self).builder, c),
    {
        let angle = self.get_arg_or_default(args, 0, BITS_ZERO);
        self.hue_rotate(color, angle)
    }

    /// `colorama(speed=0.005)`: hue rotation by `time * speed`.
    pub fn emit_colorama(&mut self, color: u32, args: &Vec<u32>) -> (r: Result<u32, EmitError>)
        ensures
            same_env(*old(self), *final(self)),
            final(self).buffers@ == old(self).buffers@,
            in_shader_block(*old(self)) ==> r is Ok,
            appends_no_store(old(self).builder, final(self).builder),
            r matches Ok(c) ==> appends_def(old(self).builder, final(self).builder, c),
    {
        let speed = self.get_arg_or_default(args, 0, BITS_0_005);
        let time = self.load_time()?;
        let angle = rb_f_mul(&mut self.builder, self.types.f32_ty, time, speed)?;
        self.hue_rotate(color, angle)
    }

    /// `luma()`: `vec4(l, l, l, alpha)` with `l = luma(rgb)`.
    pub fn emit_luma_effect(&mut self, color: u32, _args: &Vec<u32>) -> (r: Result<u32, EmitError>)
        ensures
            same_env(*old(self), *final(self)),
            final(self).buffers@ == old(self).buffers@,
            in_shader_block(*old(self)) ==> r is Ok,
            appends_no_store(old(self).builder, final(self).builder),
            r matches Ok(c) ==> appends_def(old(self).builder, final(self).builder, c),
    {
        let l = self.emit_luma(color)?;
        let alpha = self.extract_component(color, 3)?;
        self.construct_vec4(l, l, l, alpha)
    }

    /// `shift(dr=0, dg=0, db=0, da=0)`: per-channel add, then clamp01.
    pub fn emit_shift(&mut self, color: u32, args: &Vec<u32>) -> (r: Result<u32, EmitError>)
        ensures
            same_env(*old(self), *final(self)),
            final(self).buffers@ == old(self).buffers@,
            in_shader_block(*old(self)) ==> r is Ok,
            appends_no_store(old(self).builder, final(self).builder),
            r matches Ok(c) ==> appends_def(old(self).builder, final(self).builder, c),
    {
        let rs = self.get_arg_or_default(args, 0, BITS_ZERO);
        let gs = self.get_arg_or_default(args, 1, BITS_ZERO);
        let bs = self.get_arg_or_default(args, 2, BITS_ZERO);
        let a_shift = self.get_arg_or_default(args, 3, BITS_ZERO);
        let red = self.extract_component(color, 0)?;
        let green = self.extract_component(color, 1)?;
        let blue = self.extract_component(color, 2)?;
        let alpha = self.extract_component(color, 3)?;
        let r2_add = rb_f_add(&mut self.builder, self.types.f32_ty, red, rs)?;
        let g2_add = rb_f_add(&mut self.builder, self.types.f32_ty, green, gs)?;
        let b2_add = rb_f_add(&mut self.builder, self.types.f32_ty, blue, bs)?;
        let a2_add = rb_f_add(&mut self.builder, self.types.f32_ty, alpha, a_shift)?;
        let r2 = self.clamp01(r2_add)?;
        let g2 = self.clamp01(g2_add)?;
        let b2 = self.clamp01(b2_add)?;
        let a2 = self.clamp01(a2_add)?;
        self.construct_vec4(r2, g2, b2, a2)
    }
}

} // verus!

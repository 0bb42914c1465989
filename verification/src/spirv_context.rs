//! The SPIR-V emission context: the module builder, the cached type ids, the
//! shader interface variables, and the named output buffers.

use vstd::prelude::*;
use crate::spirv_api::Annot;
use crate::spirv_api::EmitError;
use crate::spirv_api::GlobalDecl;
use crate::spirv_api::ADDR_MODEL_LOGICAL;
use crate::spirv_api::CAP_SHADER;
use crate::spirv_api::MEM_MODEL_GLSL450;
use crate::spirv_api::SC_INPUT;
use crate::spirv_api::SC_OUTPUT;
use crate::spirv_api::SC_UNIFORM;
use crate::spirv_api::annotations_of;
use crate::spirv_api::caps_of;
use crate::spirv_api::entry_points;
use crate::spirv_api::exec_modes_of;
use crate::spirv_api::ext_imports_of;
use crate::spirv_api::appends_def;
use crate::spirv_api::appends_no_store;
use crate::spirv_api::globals_of;
use crate::spirv_api::insts_of;
use crate::spirv_api::Inst;
use crate::spirv_api::in_block;
use crate::spirv_api::in_function;
use crate::spirv_api::memory_model_of;
use crate::spirv_api::rb_begin_block;
use crate::spirv_api::rb_begin_function;
use crate::spirv_api::rb_capability_shader;
use crate::spirv_api::rb_composite_construct;
use crate::spirv_api::rb_composite_extract;
use crate::spirv_api::rb_decorate_binding;
use crate::spirv_api::rb_decorate_block;
use crate::spirv_api::rb_decorate_builtin_frag_coord;
use crate::spirv_api::rb_decorate_descriptor_set;
use crate::spirv_api::rb_decorate_location;
use crate::spirv_api::rb_ext_inst_import;
use crate::spirv_api::rb_f_div;
use crate::spirv_api::rb_load;
use crate::spirv_api::rb_member_decorate_offset;
use crate::spirv_api::rb_memory_model_glsl450;
use crate::spirv_api::rb_new;
use crate::spirv_api::rb_type_bool;
use crate::spirv_api::rb_type_float32;
use crate::spirv_api::rb_type_pointer_input;
use crate::spirv_api::rb_type_pointer_output;
use crate::spirv_api::rb_type_pointer_uniform;
use crate::spirv_api::rb_type_pointer_uniform_constant;
use crate::spirv_api::rb_type_struct;
use crate::spirv_api::rb_type_vector;
use crate::spirv_api::rb_type_void;
use crate::spirv_api::rb_variable;
use crate::spirv_api::rb_vector_shuffle2;

verus! {

broadcast use crate::spirv_api::lemma_appends_no_store_eq, crate::spirv_api::lemma_appends_no_store_trans, crate::spirv_api::lemma_appends_def_after, crate::spirv_api::lemma_appends_def_before;

/// The cached ids of the handful of types every emitter uses.
#[derive(Clone, Copy, Debug)]
pub struct TypeCache {
    pub void_ty: u32,
    pub f32_ty: u32,
    pub bool_ty: u32,
    pub vec2_ty: u32,
    pub vec4_ty: u32,
}

/// The ids of the shader interface: the fragment-coordinate input, the
/// color output, and the uniform block holding `(time, width, height,
/// reserved)`.
#[derive(Clone, Copy, Debug)]
pub struct Builtins {
    pub frag_coord: u32,
    pub frag_color: u32,
    pub globals_block: u32,
    pub globals_ptr: u32,
}

/// The value stored under `key` in an output-buffer table, where a later
/// store of the same key shadows an earlier one.
pub open spec fn buf_lookup(s: Seq<(u32, u32)>, key: u32) -> Option<u32>
    decreases s.len(),
{
    if s.len() == 0 {
        None
    } else if s.last().0 == key {
        Some(s.last().1)
    } else {
        buf_lookup(s.drop_last(), key)
    }
}

/// A store of one pair changes exactly the stored key's binding.
pub proof fn lemma_buf_lookup_push(s: Seq<(u32, u32)>, key: u32, val: u32, q: u32)
    ensures
        buf_lookup(s.push((key, val)), q) == if q == key {
            Some(val)
        } else {
            buf_lookup(s, q)
        },
{
    assert(s.push((key, val)).drop_last() =~= s);
}

/// The per-compile emission context.
pub struct SpirvContext {
    pub builder: rspirv::dr::Builder,
    pub types: TypeCache,
    pub builtins: Builtins,
    pub glsl_ext: u32,
    /// The output buffers: `out(i)` appends `(i, color_id)`, `src(i)` reads
    /// the latest binding of `i`.
    pub buffers: Vec<(u32, u32)>,
}

/// The parts of the context that instruction emission never changes: the
/// declared capabilities, memory model, imports, annotations, entry points
/// and execution modes, the construction-state flags, the cached type ids,
/// the interface variables and the extended-instruction-set handle. (The
/// globals section is not here: emitting a constant appends to it.)
pub open spec fn same_env(a: SpirvContext, b: SpirvContext) -> bool {
    &&& caps_of(b.builder) == caps_of(a.builder)
    &&& memory_model_of(b.builder) == memory_model_of(a.builder)
    &&& ext_imports_of(b.builder) == ext_imports_of(a.builder)
    &&& annotations_of(b.builder) == annotations_of(a.builder)
    &&& entry_points(b.builder) == entry_points(a.builder)
    &&& exec_modes_of(b.builder) == exec_modes_of(a.builder)
    &&& in_function(b.builder) == in_function(a.builder)
    &&& in_block(b.builder) == in_block(a.builder)
    &&& b.types == a.types
    &&& b.builtins == a.builtins
    &&& b.glsl_ext == a.glsl_ext
}

/// True when the context stands inside the shader's function body: every
/// block instruction succeeds there.
pub open spec fn in_shader_block(c: SpirvContext) -> bool {
    in_function(c.builder) && in_block(c.builder)
}

impl SpirvContext {
    /// Builds the module prologue exactly once: capability `Shader`, the
    /// `Logical`/`GLSL450` memory model, the cached types, the `FragCoord`
    /// input, the `FragColor` output at location 0, the `GLSL.std.450`
    /// import, and the `Globals` uniform block at set 0, binding 0. The
    /// fresh context declares no entry point and no execution mode, holds
    /// no output buffer, and selects no function or block.
    pub fn new() -> (r: Self)
        ensures
            !in_function(r.builder),
            !in_block(r.builder),
            entry_points(r.builder) == Seq::<crate::spirv_api::EntryPointDecl>::empty(),
            exec_modes_of(r.builder) == Seq::<(u32, u32)>::empty(),
            insts_of(r.builder) == Seq::<crate::spirv_api::Inst>::empty(),
            r.buffers@.len() == 0,
            caps_of(r.builder) == seq![CAP_SHADER],
            memory_model_of(r.builder) == Some((ADDR_MODEL_LOGICAL, MEM_MODEL_GLSL450)),
            ext_imports_of(r.builder) == seq![(r.glsl_ext, "GLSL.std.450"@)],
            globals_of(r.builder).contains(GlobalDecl::TypeVoid { id: r.types.void_ty }),
            globals_of(r.builder).contains(GlobalDecl::TypeFloat { id: r.types.f32_ty, width: 32 }),
            globals_of(r.builder).contains(GlobalDecl::TypeBool { id: r.types.bool_ty }),
            globals_of(r.builder).contains(
                GlobalDecl::TypeVector { id: r.types.vec2_ty, component: r.types.f32_ty, count: 2 },
            ),
            globals_of(r.builder).contains(
                GlobalDecl::TypeVector { id: r.types.vec4_ty, component: r.types.f32_ty, count: 4 },
            ),
            exists|p: u32|
                #![trigger globals_of(r.builder).contains((GlobalDecl::Variable { id: r.builtins.frag_coord, ty: p, storage_class: SC_INPUT }))]
                globals_of(r.builder).contains(
                    GlobalDecl::TypePointer {
                        id: p,
                        storage_class: SC_INPUT,
                        pointee: r.types.vec4_ty,
                    },
                ) && globals_of(r.builder).contains(
                    GlobalDecl::Variable { id: r.builtins.frag_coord, ty: p, storage_class: SC_INPUT },
                ),
            exists|p: u32|
                #![trigger globals_of(r.builder).contains((GlobalDecl::Variable { id: r.builtins.frag_color, ty: p, storage_class: SC_OUTPUT }))]
                globals_of(r.builder).contains(
                    GlobalDecl::TypePointer {
                        id: p,
                        storage_class: SC_OUTPUT,
                        pointee: r.types.vec4_ty,
                    },
                ) && globals_of(r.builder).contains(
                    GlobalDecl::Variable { id: r.builtins.frag_color, ty: p, storage_class: SC_OUTPUT },
                ),
            globals_of(r.builder).contains(
                GlobalDecl::TypeStruct { id: r.builtins.globals_block, members: seq![r.types.vec4_ty] },
            ),
            exists|p: u32|
                #![trigger globals_of(r.builder).contains((GlobalDecl::Variable { id: r.builtins.globals_ptr, ty: p, storage_class: SC_UNIFORM }))]
                globals_of(r.builder).contains(
                    GlobalDecl::TypePointer {
                        id: p,
                        storage_class: SC_UNIFORM,
                        pointee: r.builtins.globals_block,
                    },
                ) && globals_of(r.builder).contains(
                    GlobalDecl::Variable { id: r.builtins.globals_ptr, ty: p, storage_class: SC_UNIFORM },
                ),
            annotations_of(r.builder) == seq![
                Annot::BuiltinFragCoord { target: r.builtins.frag_coord },
                Annot::Location { target: r.builtins.frag_color, location: 0 },
                Annot::Block { target: r.builtins.globals_block },
                Annot::MemberOffset { target: r.builtins.globals_block, member: 0, offset: 0 },
                Annot::Binding { target: r.builtins.globals_ptr, binding: 0 },
                Annot::DescriptorSet { target: r.builtins.globals_ptr, set: 0 },
            ],
    {
        let mut b = rb_new();
        rb_capability_shader(&mut b);
        rb_memory_model_glsl450(&mut b);

        let void_ty = rb_type_void(&mut b);
        let f32_ty = rb_type_float32(&mut b);
        let bool_ty = rb_type_bool(&mut b);
        let vec2_ty = rb_type_vector(&mut b, f32_ty, 2);
        let vec4_ty = rb_type_vector(&mut b, f32_ty, 4);

        let vec4_ptr_input = rb_type_pointer_input(&mut b, vec4_ty);
        let vec4_ptr_output = rb_type_pointer_output(&mut b, vec4_ty);
        let _f32_ptr_uniform = rb_type_pointer_uniform_constant(&mut b, f32_ty);
        let _vec2_ptr_uniform = rb_type_pointer_uniform_constant(&mut b, vec2_ty);

        let frag_coord = rb_variable(&mut b, vec4_ptr_input, SC_INPUT);
        rb_decorate_builtin_frag_coord(&mut b, frag_coord);

        let frag_color = rb_variable(&mut b, vec4_ptr_output, SC_OUTPUT);
        rb_decorate_location(&mut b, frag_color, 0);

        let glsl_ext = rb_ext_inst_import(&mut b, "GLSL.std.450");

        let mut members: Vec<u32> = Vec::new();
        members.push(vec4_ty);
        let vec4_struct = rb_type_struct(&mut b, members);
        rb_decorate_block(&mut b, vec4_struct);
        rb_member_decorate_offset(&mut b, vec4_struct, 0, 0);
        let globals_ptr_ty = rb_type_pointer_uniform(&mut b, vec4_struct);
        let globals_var = rb_variable(&mut b, globals_ptr_ty, SC_UNIFORM);
        rb_decorate_binding(&mut b, globals_var, 0);
        rb_decorate_descriptor_set(&mut b, globals_var, 0);

        proof {
            assert(globals_of(b).contains(
                GlobalDecl::TypePointer {
                    id: vec4_ptr_input,
                    storage_class: SC_INPUT,
                    pointee: vec4_ty,
                },
            ));
            assert(globals_of(b).contains(
                GlobalDecl::Variable { id: frag_coord, ty: vec4_ptr_input, storage_class: SC_INPUT },
            ));
            assert(globals_of(b).contains(
                GlobalDecl::TypePointer {
                    id: vec4_ptr_output,
                    storage_class: SC_OUTPUT,
                    pointee: vec4_ty,
                },
            ));
            assert(globals_of(b).contains(
                GlobalDecl::Variable { id: frag_color, ty: vec4_ptr_output, storage_class: SC_OUTPUT },
            ));
            assert(globals_of(b).contains(
                GlobalDecl::TypePointer {
                    id: globals_ptr_ty,
                    storage_class: SC_UNIFORM,
                    pointee: vec4_struct,
                },
            ));
            assert(globals_of(b).contains(
                GlobalDecl::Variable { id: globals_var, ty: globals_ptr_ty, storage_class: SC_UNIFORM },
            ));
        }

        let ctx = SpirvContext {
            builder: b,
            types: TypeCache { void_ty, f32_ty, bool_ty, vec2_ty, vec4_ty },
            builtins: Builtins {
                frag_coord,
                frag_color,
                globals_block: vec4_struct,
                globals_ptr: globals_var,
            },
            glsl_ext,
            buffers: Vec::new(),
        };
        proof {
            // witness the pointer types that link each interface variable to
            // its vec4 (or block) pointee
            assert(globals_of(ctx.builder).contains(
                GlobalDecl::Variable {
                    id: ctx.builtins.frag_coord,
                    ty: vec4_ptr_input,
                    storage_class: SC_INPUT,
                },
            ));
            assert(globals_of(ctx.builder).contains(
                GlobalDecl::Variable {
                    id: ctx.builtins.frag_color,
                    ty: vec4_ptr_output,
                    storage_class: SC_OUTPUT,
                },
            ));
            assert(globals_of(ctx.builder).contains(
                GlobalDecl::Variable {
                    id: ctx.builtins.globals_ptr,
                    ty: globals_ptr_ty,
                    storage_class: SC_UNIFORM,
                },
            ));
        }
        ctx
    }

    /// The latest color stored for output buffer `key`.
    pub fn lookup_buffer(&self, key: u32) -> (r: Option<u32>)
        ensures
            r == buf_lookup(self.buffers@, key),
    {
        let mut i: usize = self.buffers.len();
        proof {
            assert(self.buffers@.take(i as int) =~= self.buffers@);
        }
        while i > 0
            invariant
                i <= self.buffers@.len(),
                buf_lookup(self.buffers@, key) == buf_lookup(
                    self.buffers@.take(i as int),
                    key,
                ),
            decreases i,
        {
            let (k, v) = self.buffers[i - 1];
            proof {
                assert(self.buffers@.take(i as int).last() == self.buffers@[i as int - 1]);
                assert(self.buffers@.take(i as int).drop_last() =~= self.buffers@.take(
                    i as int - 1,
                ));
            }
            if k == key {
                return Some(v);
            }
            i = i - 1;
        }
        proof {
            assert(self.buffers@.take(0) =~= Seq::<(u32, u32)>::empty());
        }
        None
    }

    /// Binds output buffer `key` to `val`, shadowing any earlier binding.
    pub fn store_buffer(&mut self, key: u32, val: u32)
        ensures
            final(self).buffers@ == old(self).buffers@.push((key, val)),
            buf_lookup(final(self).buffers@, key) == Some(val),
            forall|q: u32|
                q != key ==> buf_lookup(final(self).buffers@, q) == buf_lookup(
                    old(self).buffers@,
                    q,
                ),
            same_env(*old(self), *final(self)),
            globals_of(final(self).builder) == globals_of(old(self).builder),
            insts_of(final(self).builder) == insts_of(old(self).builder),
            appends_no_store(old(self).builder, final(self).builder),
    {
        self.buffers.push((key, val));
        proof {
            reveal(appends_no_store);
            assert forall|q: u32| true implies buf_lookup(self.buffers@, q) == if q == key {
                Some(val)
            } else {
                buf_lookup(old(self).buffers@, q)
            } by {
                lemma_buf_lookup_push(old(self).buffers@, key, val, q);
            }
        }
    }

    /// Loads the viewport size from the uniform block, loads `FragCoord.xy`,
    /// and divides, yielding the normalized coordinate of this fragment.
    pub fn compute_uv(&mut self) -> (r: Result<u32, EmitError>)
        ensures
            same_env(*old(self), *final(self)),
            final(self).buffers@ == old(self).buffers@,
            in_shader_block(*old(self)) ==> r is Ok,
            appends_no_store(old(self).builder, final(self).builder),
            r matches Ok(c) ==> appends_def(old(self).builder, final(self).builder, c),
            r matches Ok(c) ==> ({
                let post = insts_of(final(self).builder);
                let f32t = old(self).types.f32_ty;
                let base = insts_of(old(self).builder).len() as int;
                &&& post.len() == base + 8
                &&& post[base] matches Inst::Load { id: gv, ty: tg, pointer: pg }
                &&& tg == old(self).builtins.globals_block && pg == old(self).builtins.globals_ptr
                &&& post[base + 1] matches Inst::CompositeExtract { id: dv, ty: td, composite: cg, index: id0 }
                &&& td == old(self).types.vec4_ty && cg == gv && id0 == 0
                &&& post[base + 2] matches Inst::CompositeExtract { id: w, ty: tw, composite: cd1, index: i1 }
                &&& tw == f32t && cd1 == dv && i1 == 1
                &&& post[base + 3] matches Inst::CompositeExtract { id: h, ty: th, composite: cd2, index: i2 }
                &&& th == f32t && cd2 == dv && i2 == 2
                &&& post[base + 4] matches Inst::Load { id: fc, ty: tf, pointer: pf }
                &&& tf == old(self).types.vec4_ty && pf == old(self).builtins.frag_coord
                &&& post[base + 5] matches Inst::VectorShuffle { id: xy, ty: ts, v1: sv1, v2: sv2, c0: sc0, c1: sc1 }
                &&& ts == old(self).types.vec2_ty && sv1 == fc && sv2 == fc && sc0 == 0 && sc1
                    == 1
                &&& post[base + 6] matches Inst::CompositeConstruct { id: wh, ty: tc, parts: pp }
                &&& tc == old(self).types.vec2_ty && pp == seq![w, h]
                &&& post[base + 7] matches Inst::FDiv { id: c7, ty: t7, x: x7, y: y7 }
                &&& c7 == c && t7 == old(self).types.vec2_ty && x7 == xy && y7 == wh
            }),
    {
        let globals_val = rb_load(
            &mut self.builder,
            self.builtins.globals_block,
            self.builtins.globals_ptr,
        )?;
        let data_vec = rb_composite_extract(
            &mut self.builder,
            self.types.vec4_ty,
            globals_val,
            0,
        )?;
        let width = rb_composite_extract(&mut self.builder, self.types.f32_ty, data_vec, 1)?;
        let height = rb_composite_extract(&mut self.builder, self.types.f32_ty, data_vec, 2)?;

        let frag_coord_val = rb_load(
            &mut self.builder,
            self.types.vec4_ty,
            self.builtins.frag_coord,
        )?;
        let xy = rb_vector_shuffle2(
            &mut self.builder,
            self.types.vec2_ty,
            frag_coord_val,
            frag_coord_val,
            0,
            1,
        )?;
        let mut wh: Vec<u32> = Vec::new();
        wh.push(width);
        wh.push(height);
        proof {
            assert(wh@ =~= seq![width, height]);
        }
        let width_height = rb_composite_construct(&mut self.builder, self.types.vec2_ty, &wh)?;
        let res = rb_f_div(&mut self.builder, self.types.vec2_ty, xy, width_height)?;
        proof {
            let post = insts_of(self.builder);
            let base = insts_of(old(self).builder).len() as int;
            assert(post.len() == base + 8);
            assert(post[base] == Inst::Load {
                id: globals_val,
                ty: old(self).builtins.globals_block,
                pointer: old(self).builtins.globals_ptr,
            });
            assert(post[base + 1] == Inst::CompositeExtract {
                id: data_vec,
                ty: old(self).types.vec4_ty,
                composite: globals_val,
                index: 0,
            });
            assert(post[base + 2] == Inst::CompositeExtract {
                id: width,
                ty: old(self).types.f32_ty,
                composite: data_vec,
                index: 1,
            });
            assert(post[base + 3] == Inst::CompositeExtract {
                id: height,
                ty: old(self).types.f32_ty,
                composite: data_vec,
                index: 2,
            });
            assert(post[base + 4] == Inst::Load {
                id: frag_coord_val,
                ty: old(self).types.vec4_ty,
                pointer: old(self).builtins.frag_coord,
            });
            assert(post[base + 5] == Inst::VectorShuffle {
                id: xy,
                ty: old(self).types.vec2_ty,
                v1: frag_coord_val,
                v2: frag_coord_val,
                c0: 0,
                c1: 1,
            });
            assert(post[base + 6] == Inst::CompositeConstruct {
                id: width_height,
                ty: old(self).types.vec2_ty,
                parts: seq![width, height],
            });
            assert(post[base + 7] == Inst::FDiv {
                id: res,
                ty: old(self).types.vec2_ty,
                x: xy,
                y: width_height,
            });
        }
        Ok(res)
    }
}

} // verus!

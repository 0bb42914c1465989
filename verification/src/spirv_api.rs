//! The trusted boundary around `rspirv`'s module builder.
//!
//! Every SPIR-V instruction the compiler emits goes through one of the small
//! wrappers below; each wrapper makes exactly one `rspirv::dr::Builder` call
//! (the last one also assembles the finished module). The builder itself is
//! opaque to verification, so the uninterpreted functions below name the
//! pieces of its contents that the compiler's contracts speak about: the
//! construction-state flags ([`in_function`], [`in_block`]), the global
//! declaration sections ([`caps_of`], [`memory_model_of`], [`ext_imports_of`],
//! [`globals_of`], [`annotations_of`]), and the entry-point declarations
//! ([`entry_points`], [`exec_modes_of`]). Per `rspirv`'s source each section
//! is written by exactly the wrappers that claim to write it, instructions
//! inside a block succeed exactly when a function and a block are under
//! construction, and every failing call returns before mutating the modelled
//! state. One protocol demand keeps the flag model faithful:
//! [`rb_end_function`] requires the current block to have been terminated
//! first, because rspirv's `end_function` would otherwise leave the block
//! selection dangling into the closed function. The block contents
//! themselves are modelled too: [`insts_of`] names the instructions of the
//! module's blocks in order (labels and terminators included), each block
//! wrapper appends exactly its instruction, and [`assembled`] names the word
//! stream `module().assemble()` returns for a given builder.

use vstd::prelude::*;
use rspirv::binary::Assemble;

verus! {

/// The SPIR-V magic word that begins every assembled module.
pub const SPIRV_MAGIC: u32 = 0x0723_0203;

/// The numeric value of the `Fragment` execution model.
pub const EXEC_MODEL_FRAGMENT: u32 = 4;

/// The numeric value of the `OriginUpperLeft` execution mode.
pub const EXEC_MODE_ORIGIN_UPPER_LEFT: u32 = 7;

/// The numeric value of the `Shader` capability.
pub const CAP_SHADER: u32 = 1;

/// The numeric value of the `Logical` addressing model.
pub const ADDR_MODEL_LOGICAL: u32 = 0;

/// The numeric value of the `GLSL450` memory model.
pub const MEM_MODEL_GLSL450: u32 = 1;

/// The numeric value of the `UniformConstant` storage class.
pub const SC_UNIFORM_CONSTANT: u32 = 0;

/// The numeric value of the `Input` storage class.
pub const SC_INPUT: u32 = 1;

/// The numeric value of the `Uniform` storage class.
pub const SC_UNIFORM: u32 = 2;

/// The numeric value of the `Output` storage class.
pub const SC_OUTPUT: u32 = 3;

/// A fatal failure of the underlying module builder. It indicates a logic
/// bug in the compiler itself, so no recovery is attempted.
#[derive(Debug, Clone, Copy, PartialEq, Eq, Structural)]
pub enum EmitError {
    Builder,
}

/// One declaration of the module's types/constants/variables section, in
/// the shape the builder was asked for. Storage classes and widths are the
/// numeric SPIR-V values.
pub enum GlobalDecl {
    TypeVoid { id: u32 },
    TypeBool { id: u32 },
    TypeFloat { id: u32, width: u32 },
    TypeVector { id: u32, component: u32, count: u32 },
    TypePointer { id: u32, storage_class: u32, pointee: u32 },
    TypeStruct { id: u32, members: Seq<u32> },
    TypeFunction { id: u32, ret: u32, params: Seq<u32> },
    Constant { id: u32, ty: u32, bits: u32 },
    Variable { id: u32, ty: u32, storage_class: u32 },
}

/// One decoration of the module's annotations section, restricted to the
/// decorations this compiler declares.
pub enum Annot {
    BuiltinFragCoord { target: u32 },
    Location { target: u32, location: u32 },
    Block { target: u32 },
    MemberOffset { target: u32, member: u32, offset: u32 },
    Binding { target: u32, binding: u32 },
    DescriptorSet { target: u32, set: u32 },
}

/// One declared entry point: its execution model's numeric value, the
/// function it names, its name, and its interface variables in order.
pub struct EntryPointDecl {
    pub exec_model: u32,
    pub function: u32,
    pub name: Seq<char>,
    pub interface: Seq<u32>,
}

#[verifier::external_type_specification]
#[verifier::external_body]
pub struct ExBuilder(rspirv::dr::Builder);

pub uninterp spec fn in_function(b: rspirv::dr::Builder) -> bool;

pub uninterp spec fn in_block(b: rspirv::dr::Builder) -> bool;

pub uninterp spec fn caps_of(b: rspirv::dr::Builder) -> Seq<u32>;

pub uninterp spec fn memory_model_of(b: rspirv::dr::Builder) -> Option<(u32, u32)>;

pub uninterp spec fn ext_imports_of(b: rspirv::dr::Builder) -> Seq<(u32, Seq<char>)>;

pub uninterp spec fn globals_of(b: rspirv::dr::Builder) -> Seq<GlobalDecl>;

pub uninterp spec fn annotations_of(b: rspirv::dr::Builder) -> Seq<Annot>;

pub uninterp spec fn entry_points(b: rspirv::dr::Builder) -> Seq<EntryPointDecl>;

pub uninterp spec fn exec_modes_of(b: rspirv::dr::Builder) -> Seq<(u32, u32)>;

/// Neither construction-state flag changes.
pub open spec fn same_flags(a: rspirv::dr::Builder, b: rspirv::dr::Builder) -> bool {
    &&& in_function(b) == in_function(a)
    &&& in_block(b) == in_block(a)
}

/// No modelled declaration section changes.
pub open spec fn same_decls(a: rspirv::dr::Builder, b: rspirv::dr::Builder) -> bool {
    &&& caps_of(b) == caps_of(a)
    &&& memory_model_of(b) == memory_model_of(a)
    &&& ext_imports_of(b) == ext_imports_of(a)
    &&& globals_of(b) == globals_of(a)
    &&& annotations_of(b) == annotations_of(a)
    &&& entry_points(b) == entry_points(a)
    &&& exec_modes_of(b) == exec_modes_of(a)
}

/// Every modelled declaration section but the globals section is unchanged.
pub open spec fn same_decls_except_globals(a: rspirv::dr::Builder, b: rspirv::dr::Builder) -> bool {
    &&& caps_of(b) == caps_of(a)
    &&& memory_model_of(b) == memory_model_of(a)
    &&& ext_imports_of(b) == ext_imports_of(a)
    &&& annotations_of(b) == annotations_of(a)
    &&& entry_points(b) == entry_points(a)
    &&& exec_modes_of(b) == exec_modes_of(a)
}

/// Every modelled declaration section but the annotations is unchanged.
pub open spec fn same_decls_except_annotations(
    a: rspirv::dr::Builder,
    b: rspirv::dr::Builder,
) -> bool {
    &&& caps_of(b) == caps_of(a)
    &&& memory_model_of(b) == memory_model_of(a)
    &&& ext_imports_of(b) == ext_imports_of(a)
    &&& globals_of(b) == globals_of(a)
    &&& entry_points(b) == entry_points(a)
    &&& exec_modes_of(b) == exec_modes_of(a)
}

/// The globals section only grows: every declaration it held, it still
/// holds.
pub open spec fn globals_grow(a: rspirv::dr::Builder, b: rspirv::dr::Builder) -> bool {
    forall|d: GlobalDecl|
        globals_of(a).contains(d) ==> #[trigger] globals_of(b).contains(d)
}

/// The dedup rule of the builder's type section: the call either appended
/// the declaration with the returned id, or an identically shaped
/// declaration already stood there under the returned id.
pub open spec fn type_added_or_present(
    a: rspirv::dr::Builder,
    b: rspirv::dr::Builder,
    decl: GlobalDecl,
) -> bool {
    ||| globals_of(b) == globals_of(a).push(decl)
    ||| (globals_of(b) == globals_of(a) && globals_of(a).contains(decl))
}

/// One instruction of a function body's block stream, in the shape the
/// builder was asked for. `Label` opens a block, `Return` terminates one.
pub enum Inst {
    Label { id: u32 },
    ExtInst { id: u32, ty: u32, set: u32, opcode: u32, operands: Seq<u32> },
    FAdd { id: u32, ty: u32, x: u32, y: u32 },
    FSub { id: u32, ty: u32, x: u32, y: u32 },
    FMul { id: u32, ty: u32, x: u32, y: u32 },
    FDiv { id: u32, ty: u32, x: u32, y: u32 },
    FOrdLessThan { id: u32, ty: u32, x: u32, y: u32 },
    Select { id: u32, ty: u32, cond: u32, if_true: u32, if_false: u32 },
    CompositeExtract { id: u32, ty: u32, composite: u32, index: u32 },
    CompositeConstruct { id: u32, ty: u32, parts: Seq<u32> },
    VectorShuffle { id: u32, ty: u32, v1: u32, v2: u32, c0: u32, c1: u32 },
    Load { id: u32, ty: u32, pointer: u32 },
    Store { pointer: u32, object: u32 },
    Variable { id: u32, ty: u32, storage_class: u32 },
    Return,
}

pub uninterp spec fn insts_of(b: rspirv::dr::Builder) -> Seq<Inst>;

pub uninterp spec fn assembled(b: rspirv::dr::Builder) -> Seq<u32>;

/// The result id an instruction defines, when it defines one.
pub open spec fn inst_result(inst: Inst) -> Option<u32> {
    match inst {
        Inst::Label { id } => Some(id),
        Inst::ExtInst { id, .. } => Some(id),
        Inst::FAdd { id, .. } => Some(id),
        Inst::FSub { id, .. } => Some(id),
        Inst::FMul { id, .. } => Some(id),
        Inst::FDiv { id, .. } => Some(id),
        Inst::FOrdLessThan { id, .. } => Some(id),
        Inst::Select { id, .. } => Some(id),
        Inst::CompositeExtract { id, .. } => Some(id),
        Inst::CompositeConstruct { id, .. } => Some(id),
        Inst::VectorShuffle { id, .. } => Some(id),
        Inst::Load { id, .. } => Some(id),
        Inst::Store { .. } => None,
        Inst::Variable { id, .. } => Some(id),
        Inst::Return => None,
    }
}

/// The block-instruction stream only grew, and nothing appended is a store.
#[verifier::opaque]
pub open spec fn appends_no_store(a: rspirv::dr::Builder, b: rspirv::dr::Builder) -> bool {
    &&& insts_of(a).len() <= insts_of(b).len()
    &&& forall|i: int|
        0 <= i < insts_of(a).len() ==> (#[trigger] insts_of(b)[i]) == insts_of(a)[i]
    &&& forall|i: int|
        insts_of(a).len() <= i < insts_of(b).len() ==> !((#[trigger] insts_of(b)[i]) is Store)
}

/// Some appended instruction defines the id `r`.
#[verifier::opaque]
pub open spec fn appends_def(a: rspirv::dr::Builder, b: rspirv::dr::Builder, r: u32) -> bool {
    exists|i: int|
        insts_of(a).len() <= i < insts_of(b).len() && inst_result(#[trigger] insts_of(b)[i])
            == Some(r)
}

/// The stream holds exactly one store instruction, and it writes `ptr`.
pub open spec fn single_store_to(insts: Seq<Inst>, ptr: u32) -> bool {
    &&& exists|i: int|
        0 <= i < insts.len() && ((#[trigger] insts[i]) matches Inst::Store { pointer, .. }
            && pointer == ptr)
    &&& forall|i: int, j: int|
        0 <= i < insts.len() && 0 <= j < insts.len() && (#[trigger] insts[i]) is Store && (
        #[trigger] insts[j]) is Store ==> i == j
}

/// The stream holds no store instruction.
pub open spec fn store_free(insts: Seq<Inst>) -> bool {
    forall|i: int| 0 <= i < insts.len() ==> !((#[trigger] insts[i]) is Store)
}

/// A step that leaves the stream as it was appends nothing, so in
/// particular no store.
pub broadcast proof fn lemma_appends_no_store_eq(a: rspirv::dr::Builder, b: rspirv::dr::Builder)
    requires
        #[trigger] insts_of(a) == #[trigger] insts_of(b),
    ensures
        appends_no_store(a, b),
{
    reveal(appends_no_store);
}

/// Store-free growth composes.
pub broadcast proof fn lemma_appends_no_store_trans(
    a: rspirv::dr::Builder,
    b: rspirv::dr::Builder,
    c: rspirv::dr::Builder,
)
    requires
        #[trigger] appends_no_store(a, b),
        #[trigger] appends_no_store(b, c),
    ensures
        appends_no_store(a, c),
{
    reveal(appends_no_store);
    assert forall|i: int| 0 <= i < insts_of(a).len() implies (#[trigger] insts_of(c)[i])
        == insts_of(a)[i] by {
        assert(insts_of(b)[i] == insts_of(a)[i]);
        assert(insts_of(c)[i] == insts_of(b)[i]);
    }
    assert forall|i: int|
        insts_of(a).len() <= i < insts_of(c).len() implies !((#[trigger] insts_of(c)[i])
        is Store) by {
        if i < insts_of(b).len() {
            assert(insts_of(c)[i] == insts_of(b)[i]);
        }
    }
}

/// A definition appended after store-free growth is still an appended
/// definition over the whole span.
pub broadcast proof fn lemma_appends_def_after(
    a: rspirv::dr::Builder,
    b: rspirv::dr::Builder,
    c: rspirv::dr::Builder,
    r: u32,
)
    requires
        #[trigger] appends_no_store(a, b),
        #[trigger] appends_def(b, c, r),
    ensures
        appends_def(a, c, r),
{
    reveal(appends_no_store);
    reveal(appends_def);
    let i = choose|i: int|
        insts_of(b).len() <= i < insts_of(c).len() && inst_result(
            #[trigger] insts_of(c)[i],
        ) == Some(r);
    assert(insts_of(a).len() <= i < insts_of(c).len() && inst_result(insts_of(c)[i]) == Some(r));
}

/// A definition stays appended across further store-free growth.
pub broadcast proof fn lemma_appends_def_before(
    a: rspirv::dr::Builder,
    b: rspirv::dr::Builder,
    c: rspirv::dr::Builder,
    r: u32,
)
    requires
        #[trigger] appends_def(a, b, r),
        #[trigger] appends_no_store(b, c),
    ensures
        appends_def(a, c, r),
{
    reveal(appends_no_store);
    reveal(appends_def);
    let i = choose|i: int|
        insts_of(a).len() <= i < insts_of(b).len() && inst_result(
            #[trigger] insts_of(b)[i],
        ) == Some(r);
    assert(insts_of(c)[i] == insts_of(b)[i]);
    assert(insts_of(a).len() <= i < insts_of(c).len() && inst_result(insts_of(c)[i]) == Some(r));
}

/// Relies on `rspirv::dr::Builder::new`: a fresh builder holds no
/// declaration of any kind and selects no function or block.
#[verifier::external_body]
pub(crate) fn rb_new() -> (b: rspirv::dr::Builder)
    ensures
        insts_of(b) == Seq::<Inst>::empty(),
        !in_function(b),
        !in_block(b),
        caps_of(b) == Seq::<u32>::empty(),
        memory_model_of(b) is None,
        ext_imports_of(b) == Seq::<(u32, Seq<char>)>::empty(),
        globals_of(b) == Seq::<GlobalDecl>::empty(),
        annotations_of(b) == Seq::<Annot>::empty(),
        entry_points(b) == Seq::<EntryPointDecl>::empty(),
        exec_modes_of(b) == Seq::<(u32, u32)>::empty(),
{
    rspirv::dr::Builder::new()
}

/// Relies on `rspirv::dr::Builder::capability`, here fixed to `Shader`: it
/// appends one capability.
#[verifier::external_body]
pub(crate) fn rb_capability_shader(b: &mut rspirv::dr::Builder)
    ensures
        insts_of(*final(b)) == insts_of(*old(b)),
        same_flags(*old(b), *final(b)),
        caps_of(*final(b)) == caps_of(*old(b)).push(CAP_SHADER),
        memory_model_of(*final(b)) == memory_model_of(*old(b)),
        ext_imports_of(*final(b)) == ext_imports_of(*old(b)),
        globals_of(*final(b)) == globals_of(*old(b)),
        annotations_of(*final(b)) == annotations_of(*old(b)),
        entry_points(*final(b)) == entry_points(*old(b)),
        exec_modes_of(*final(b)) == exec_modes_of(*old(b)),
{
    b.capability(rspirv::spirv::Capability::Shader);
}

/// Relies on `rspirv::dr::Builder::memory_model`, here fixed to
/// `Logical`/`GLSL450`: it sets the module's one memory model.
#[verifier::external_body]
pub(crate) fn rb_memory_model_glsl450(b: &mut rspirv::dr::Builder)
    ensures
        insts_of(*final(b)) == insts_of(*old(b)),
        same_flags(*old(b), *final(b)),
        memory_model_of(*final(b)) == Some((ADDR_MODEL_LOGICAL, MEM_MODEL_GLSL450)),
        caps_of(*final(b)) == caps_of(*old(b)),
        ext_imports_of(*final(b)) == ext_imports_of(*old(b)),
        globals_of(*final(b)) == globals_of(*old(b)),
        annotations_of(*final(b)) == annotations_of(*old(b)),
        entry_points(*final(b)) == entry_points(*old(b)),
        exec_modes_of(*final(b)) == exec_modes_of(*old(b)),
{
    b.memory_model(rspirv::spirv::AddressingModel::Logical, rspirv::spirv::MemoryModel::GLSL450);
}

/// Relies on `rspirv::dr::Builder::type_void` (deduplicating).
#[verifier::external_body]
pub(crate) fn rb_type_void(b: &mut rspirv::dr::Builder) -> (r: u32)
    ensures
        insts_of(*final(b)) == insts_of(*old(b)),
        same_flags(*old(b), *final(b)),
        same_decls_except_globals(*old(b), *final(b)),
        type_added_or_present(*old(b), *final(b), GlobalDecl::TypeVoid { id: r }),
        globals_of(*final(b)).contains(GlobalDecl::TypeVoid { id: r }),
        globals_grow(*old(b), *final(b)),
{
    b.type_void()
}

/// Relies on `rspirv::dr::Builder::type_float` (deduplicating), here a
/// plain 32-bit float.
#[verifier::external_body]
pub(crate) fn rb_type_float32(b: &mut rspirv::dr::Builder) -> (r: u32)
    ensures
        insts_of(*final(b)) == insts_of(*old(b)),
        same_flags(*old(b), *final(b)),
        same_decls_except_globals(*old(b), *final(b)),
        type_added_or_present(*old(b), *final(b), GlobalDecl::TypeFloat { id: r, width: 32 }),
        globals_of(*final(b)).contains(GlobalDecl::TypeFloat { id: r, width: 32 }),
        globals_grow(*old(b), *final(b)),
{
    b.type_float(32, None)
}

/// Relies on `rspirv::dr::Builder::type_bool` (deduplicating).
#[verifier::external_body]
pub(crate) fn rb_type_bool(b: &mut rspirv::dr::Builder) -> (r: u32)
    ensures
        insts_of(*final(b)) == insts_of(*old(b)),
        same_flags(*old(b), *final(b)),
        same_decls_except_globals(*old(b), *final(b)),
        type_added_or_present(*old(b), *final(b), GlobalDecl::TypeBool { id: r }),
        globals_of(*final(b)).contains(GlobalDecl::TypeBool { id: r }),
        globals_grow(*old(b), *final(b)),
{
    b.type_bool()
}

/// Relies on `rspirv::dr::Builder::type_vector` (deduplicating).
#[verifier::external_body]
pub(crate) fn rb_type_vector(b: &mut rspirv::dr::Builder, component: u32, count: u32) -> (r: u32)
    ensures
        insts_of(*final(b)) == insts_of(*old(b)),
        same_flags(*old(b), *final(b)),
        same_decls_except_globals(*old(b), *final(b)),
        type_added_or_present(
            *old(b),
            *final(b),
            GlobalDecl::TypeVector { id: r, component, count },
        ),
        globals_of(*final(b)).contains(GlobalDecl::TypeVector { id: r, component, count }),
        globals_grow(*old(b), *final(b)),
{
    b.type_vector(component, count)
}

/// Relies on `rspirv::dr::Builder::type_pointer` (deduplicating), with
/// storage class `Input`.
#[verifier::external_body]
pub(crate) fn rb_type_pointer_input(b: &mut rspirv::dr::Builder, pointee: u32) -> (r: u32)
    ensures
        insts_of(*final(b)) == insts_of(*old(b)),
        same_flags(*old(b), *final(b)),
        same_decls_except_globals(*old(b), *final(b)),
        type_added_or_present(
            *old(b),
            *final(b),
            GlobalDecl::TypePointer { id: r, storage_class: SC_INPUT, pointee },
        ),
        globals_of(*final(b)).contains(GlobalDecl::TypePointer { id: r, storage_class: SC_INPUT, pointee }),
        globals_grow(*old(b), *final(b)),
{
    b.type_pointer(None, rspirv::spirv::StorageClass::Input, pointee)
}

/// Relies on `rspirv::dr::Builder::type_pointer` (deduplicating), with
/// storage class `Output`.
#[verifier::external_body]
pub(crate) fn rb_type_pointer_output(b: &mut rspirv::dr::Builder, pointee: u32) -> (r: u32)
    ensures
        insts_of(*final(b)) == insts_of(*old(b)),
        same_flags(*old(b), *final(b)),
        same_decls_except_globals(*old(b), *final(b)),
        type_added_or_present(
            *old(b),
            *final(b),
            GlobalDecl::TypePointer { id: r, storage_class: SC_OUTPUT, pointee },
        ),
        globals_of(*final(b)).contains(GlobalDecl::TypePointer { id: r, storage_class: SC_OUTPUT, pointee }),
        globals_grow(*old(b), *final(b)),
{
    b.type_pointer(None, rspirv::spirv::StorageClass::Output, pointee)
}

/// Relies on `rspirv::dr::Builder::type_pointer` (deduplicating), with
/// storage class `Uniform`.
#[verifier::external_body]
pub(crate) fn rb_type_pointer_uniform(b: &mut rspirv::dr::Builder, pointee: u32) -> (r: u32)
    ensures
        insts_of(*final(b)) == insts_of(*old(b)),
        same_flags(*old(b), *final(b)),
        same_decls_except_globals(*old(b), *final(b)),
        type_added_or_present(
            *old(b),
            *final(b),
            GlobalDecl::TypePointer { id: r, storage_class: SC_UNIFORM, pointee },
        ),
        globals_of(*final(b)).contains(GlobalDecl::TypePointer { id: r, storage_class: SC_UNIFORM, pointee }),
        globals_grow(*old(b), *final(b)),
{
    b.type_pointer(None, rspirv::spirv::StorageClass::Uniform, pointee)
}

/// Relies on `rspirv::dr::Builder::type_pointer` (deduplicating), with
/// storage class `UniformConstant`.
#[verifier::external_body]
pub(crate) fn rb_type_pointer_uniform_constant(b: &mut rspirv::dr::Builder, pointee: u32) -> (r:
    u32)
    ensures
        insts_of(*final(b)) == insts_of(*old(b)),
        same_flags(*old(b), *final(b)),
        same_decls_except_globals(*old(b), *final(b)),
        type_added_or_present(
            *old(b),
            *final(b),
            GlobalDecl::TypePointer { id: r, storage_class: SC_UNIFORM_CONSTANT, pointee },
        ),
        globals_of(*final(b)).contains(GlobalDecl::TypePointer { id: r, storage_class: SC_UNIFORM_CONSTANT, pointee }),
        globals_grow(*old(b), *final(b)),
{
    b.type_pointer(None, rspirv::spirv::StorageClass::UniformConstant, pointee)
}

/// Relies on `rspirv::dr::Builder::type_struct` (deduplicating).
#[verifier::external_body]
pub(crate) fn rb_type_struct(b: &mut rspirv::dr::Builder, members: Vec<u32>) -> (r: u32)
    ensures
        insts_of(*final(b)) == insts_of(*old(b)),
        same_flags(*old(b), *final(b)),
        same_decls_except_globals(*old(b), *final(b)),
        type_added_or_present(
            *old(b),
            *final(b),
            GlobalDecl::TypeStruct { id: r, members: members@ },
        ),
        globals_of(*final(b)).contains(GlobalDecl::TypeStruct { id: r, members: members@ }),
        globals_grow(*old(b), *final(b)),
{
    b.type_struct(members)
}

/// Relies on `rspirv::dr::Builder::type_function` (deduplicating).
#[verifier::external_body]
pub(crate) fn rb_type_function(b: &mut rspirv::dr::Builder, ret: u32, params: Vec<u32>) -> (r: u32)
    ensures
        insts_of(*final(b)) == insts_of(*old(b)),
        same_flags(*old(b), *final(b)),
        same_decls_except_globals(*old(b), *final(b)),
        type_added_or_present(
            *old(b),
            *final(b),
            GlobalDecl::TypeFunction { id: r, ret, params: params@ },
        ),
        globals_of(*final(b)).contains(GlobalDecl::TypeFunction { id: r, ret, params: params@ }),
        globals_grow(*old(b), *final(b)),
{
    b.type_function(ret, params)
}

/// Relies on `rspirv::dr::Builder::variable` with no initializer: outside a
/// block it appends a module-level variable; inside one it appends to the
/// block instead.
#[verifier::external_body]
pub(crate) fn rb_variable(b: &mut rspirv::dr::Builder, ptr_ty: u32, storage_class: u32) -> (r: u32)
    requires
        storage_class == SC_INPUT || storage_class == SC_OUTPUT || storage_class == SC_UNIFORM,
    ensures
        (in_function(*old(b)) && in_block(*old(b))) ==> insts_of(*final(b))
            == insts_of(*old(b)).push(Inst::Variable { id: r, ty: ptr_ty, storage_class }),
        !(in_function(*old(b)) && in_block(*old(b))) ==> insts_of(*final(b))
            == insts_of(*old(b)),
        same_flags(*old(b), *final(b)),
        same_decls_except_globals(*old(b), *final(b)),
        !(in_function(*old(b)) && in_block(*old(b))) ==> globals_of(*final(b)) == globals_of(
            *old(b),
        ).push(GlobalDecl::Variable { id: r, ty: ptr_ty, storage_class }),
        (in_function(*old(b)) && in_block(*old(b))) ==> globals_of(*final(b)) == globals_of(
            *old(b),
        ),
        !(in_function(*old(b)) && in_block(*old(b))) ==> globals_of(*final(b)).contains(
            GlobalDecl::Variable { id: r, ty: ptr_ty, storage_class },
        ),
        globals_grow(*old(b), *final(b)),
{
    let class = if storage_class == SC_INPUT {
        rspirv::spirv::StorageClass::Input
    } else if storage_class == SC_OUTPUT {
        rspirv::spirv::StorageClass::Output
    } else {
        rspirv::spirv::StorageClass::Uniform
    };
    b.variable(ptr_ty, None, class, None)
}

/// Relies on `rspirv::dr::Builder::decorate` with decoration `BuiltIn
/// FragCoord`: it appends one annotation.
#[verifier::external_body]
pub(crate) fn rb_decorate_builtin_frag_coord(b: &mut rspirv::dr::Builder, target: u32)
    ensures
        insts_of(*final(b)) == insts_of(*old(b)),
        same_flags(*old(b), *final(b)),
        same_decls_except_annotations(*old(b), *final(b)),
        annotations_of(*final(b)) == annotations_of(*old(b)).push(
            Annot::BuiltinFragCoord { target },
        ),
{
    b.decorate(
        target,
        rspirv::spirv::Decoration::BuiltIn,
        [rspirv::dr::Operand::BuiltIn(rspirv::spirv::BuiltIn::FragCoord)],
    );
}

/// Relies on `rspirv::dr::Builder::decorate` with decoration `Location`.
#[verifier::external_body]
pub(crate) fn rb_decorate_location(b: &mut rspirv::dr::Builder, target: u32, location: u32)
    ensures
        insts_of(*final(b)) == insts_of(*old(b)),
        same_flags(*old(b), *final(b)),
        same_decls_except_annotations(*old(b), *final(b)),
        annotations_of(*final(b)) == annotations_of(*old(b)).push(
            Annot::Location { target, location },
        ),
{
    b.decorate(
        target,
        rspirv::spirv::Decoration::Location,
        [rspirv::dr::Operand::LiteralBit32(location)],
    );
}

/// Relies on `rspirv::dr::Builder::decorate` with decoration `Block`.
#[verifier::external_body]
pub(crate) fn rb_decorate_block(b: &mut rspirv::dr::Builder, target: u32)
    ensures
        insts_of(*final(b)) == insts_of(*old(b)),
        same_flags(*old(b), *final(b)),
        same_decls_except_annotations(*old(b), *final(b)),
        annotations_of(*final(b)) == annotations_of(*old(b)).push(Annot::Block { target }),
{
    b.decorate(target, rspirv::spirv::Decoration::Block, []);
}

/// Relies on `rspirv::dr::Builder::decorate` with decoration `Binding`.
#[verifier::external_body]
pub(crate) fn rb_decorate_binding(b: &mut rspirv::dr::Builder, target: u32, binding: u32)
    ensures
        insts_of(*final(b)) == insts_of(*old(b)),
        same_flags(*old(b), *final(b)),
        same_decls_except_annotations(*old(b), *final(b)),
        annotations_of(*final(b)) == annotations_of(*old(b)).push(
            Annot::Binding { target, binding },
        ),
{
    b.decorate(
        target,
        rspirv::spirv::Decoration::Binding,
        [rspirv::dr::Operand::LiteralBit32(binding)],
    );
}

/// Relies on `rspirv::dr::Builder::decorate` with decoration
/// `DescriptorSet`.
#[verifier::external_body]
pub(crate) fn rb_decorate_descriptor_set(b: &mut rspirv::dr::Builder, target: u32, set: u32)
    ensures
        insts_of(*final(b)) == insts_of(*old(b)),
        same_flags(*old(b), *final(b)),
        same_decls_except_annotations(*old(b), *final(b)),
        annotations_of(*final(b)) == annotations_of(*old(b)).push(
            Annot::DescriptorSet { target, set },
        ),
{
    b.decorate(
        target,
        rspirv::spirv::Decoration::DescriptorSet,
        [rspirv::dr::Operand::LiteralBit32(set)],
    );
}

/// Relies on `rspirv::dr::Builder::member_decorate` with decoration
/// `Offset`.
#[verifier::external_body]
pub(crate) fn rb_member_decorate_offset(
    b: &mut rspirv::dr::Builder,
    target: u32,
    member: u32,
    offset: u32,
)
    ensures
        insts_of(*final(b)) == insts_of(*old(b)),
        same_flags(*old(b), *final(b)),
        same_decls_except_annotations(*old(b), *final(b)),
        annotations_of(*final(b)) == annotations_of(*old(b)).push(
            Annot::MemberOffset { target, member, offset },
        ),
{
    b.member_decorate(
        target,
        member,
        rspirv::spirv::Decoration::Offset,
        [rspirv::dr::Operand::LiteralBit32(offset)],
    );
}

/// Relies on `rspirv::dr::Builder::ext_inst_import`: it appends one import
/// and returns its fresh id.
#[verifier::external_body]
pub(crate) fn rb_ext_inst_import(b: &mut rspirv::dr::Builder, name: &str) -> (r: u32)
    ensures
        insts_of(*final(b)) == insts_of(*old(b)),
        same_flags(*old(b), *final(b)),
        ext_imports_of(*final(b)) == ext_imports_of(*old(b)).push((r, name@)),
        caps_of(*final(b)) == caps_of(*old(b)),
        memory_model_of(*final(b)) == memory_model_of(*old(b)),
        globals_of(*final(b)) == globals_of(*old(b)),
        annotations_of(*final(b)) == annotations_of(*old(b)),
        entry_points(*final(b)) == entry_points(*old(b)),
        exec_modes_of(*final(b)) == exec_modes_of(*old(b)),
{
    b.ext_inst_import(name)
}

/// Relies on `rspirv::dr::Builder::constant_bit32`: it always appends one
/// 32-bit constant with exactly the given bit pattern to the globals
/// section and returns its id.
#[verifier::external_body]
pub(crate) fn rb_constant_bit32(b: &mut rspirv::dr::Builder, ty: u32, bits: u32) -> (r: u32)
    ensures
        insts_of(*final(b)) == insts_of(*old(b)),
        same_flags(*old(b), *final(b)),
        same_decls_except_globals(*old(b), *final(b)),
        globals_of(*final(b)) == globals_of(*old(b)).push(
            GlobalDecl::Constant { id: r, ty, bits },
        ),
        globals_of(*final(b)).contains(GlobalDecl::Constant { id: r, ty, bits }),
        globals_grow(*old(b), *final(b)),
{
    b.constant_bit32(ty, bits)
}

/// Relies on `rspirv::dr::Builder::ext_inst`: one extended instruction of
/// the given set and opcode over id operands, appended to the current
/// block; it succeeds exactly when a function and a block are selected.
#[verifier::external_body]
pub(crate) fn rb_ext_inst(
    b: &mut rspirv::dr::Builder,
    ty: u32,
    set: u32,
    opcode: u32,
    operands: &Vec<u32>,
) -> (r: Result<u32, EmitError>)
    ensures
        appends_no_store(*old(b), *final(b)),
        r matches Ok(id) ==> appends_def(*old(b), *final(b), id),
        in_function(*old(b)) && in_block(*old(b)) ==> (r matches Ok(id)
            && insts_of(*final(b)) == insts_of(*old(b)).push(Inst::ExtInst { id, ty, set, opcode, operands: operands@ })),
        !(in_function(*old(b)) && in_block(*old(b))) ==> insts_of(*final(b))
            == insts_of(*old(b)),
        same_flags(*old(b), *final(b)),
        same_decls(*old(b), *final(b)),
        in_function(*old(b)) && in_block(*old(b)) ==> r is Ok,
        !(in_function(*old(b)) && in_block(*old(b))) ==> r is Err,
{
    let ops: Vec<rspirv::dr::Operand> = operands.iter().map(
        |w| rspirv::dr::Operand::IdRef(*w),
    ).collect();
    match b.ext_inst(ty, None, set, opcode, ops) {
        Ok(w) => Ok(w),
        Err(_) => Err(EmitError::Builder),
    }
}

/// Relies on `rspirv::dr::Builder::f_add` (block instruction).
#[verifier::external_body]
pub(crate) fn rb_f_add(b: &mut rspirv::dr::Builder, ty: u32, x: u32, y: u32) -> (r: Result<
    u32,
    EmitError,
>)
    ensures
        appends_no_store(*old(b), *final(b)),
        r matches Ok(id) ==> appends_def(*old(b), *final(b), id),
        in_function(*old(b)) && in_block(*old(b)) ==> (r matches Ok(id)
            && insts_of(*final(b)) == insts_of(*old(b)).push(Inst::FAdd { id, ty, x, y })),
        !(in_function(*old(b)) && in_block(*old(b))) ==> insts_of(*final(b))
            == insts_of(*old(b)),
        same_flags(*old(b), *final(b)),
        same_decls(*old(b), *final(b)),
        in_function(*old(b)) && in_block(*old(b)) ==> r is Ok,
        !(in_function(*old(b)) && in_block(*old(b))) ==> r is Err,
{
    match b.f_add(ty, None, x, y) {
        Ok(w) => Ok(w),
        Err(_) => Err(EmitError::Builder),
    }
}

/// Relies on `rspirv::dr::Builder::f_sub` (block instruction).
#[verifier::external_body]
pub(crate) fn rb_f_sub(b: &mut rspirv::dr::Builder, ty: u32, x: u32, y: u32) -> (r: Result<
    u32,
    EmitError,
>)
    ensures
        appends_no_store(*old(b), *final(b)),
        r matches Ok(id) ==> appends_def(*old(b), *final(b), id),
        in_function(*old(b)) && in_block(*old(b)) ==> (r matches Ok(id)
            && insts_of(*final(b)) == insts_of(*old(b)).push(Inst::FSub { id, ty, x, y })),
        !(in_function(*old(b)) && in_block(*old(b))) ==> insts_of(*final(b))
            == insts_of(*old(b)),
        same_flags(*old(b), *final(b)),
        same_decls(*old(b), *final(b)),
        in_function(*old(b)) && in_block(*old(b)) ==> r is Ok,
        !(in_function(*old(b)) && in_block(*old(b))) ==> r is Err,
{
    match b.f_sub(ty, None, x, y) {
        Ok(w) => Ok(w),
        Err(_) => Err(EmitError::Builder),
    }
}

/// Relies on `rspirv::dr::Builder::f_mul` (block instruction).
#[verifier::external_body]
pub(crate) fn rb_f_mul(b: &mut rspirv::dr::Builder, ty: u32, x: u32, y: u32) -> (r: Result<
    u32,
    EmitError,
>)
    ensures
        appends_no_store(*old(b), *final(b)),
        r matches Ok(id) ==> appends_def(*old(b), *final(b), id),
        in_function(*old(b)) && in_block(*old(b)) ==> (r matches Ok(id)
            && insts_of(*final(b)) == insts_of(*old(b)).push(Inst::FMul { id, ty, x, y })),
        !(in_function(*old(b)) && in_block(*old(b))) ==> insts_of(*final(b))
            == insts_of(*old(b)),
        same_flags(*old(b), *final(b)),
        same_decls(*old(b), *final(b)),
        in_function(*old(b)) && in_block(*old(b)) ==> r is Ok,
        !(in_function(*old(b)) && in_block(*old(b))) ==> r is Err,
{
    match b.f_mul(ty, None, x, y) {
        Ok(w) => Ok(w),
        Err(_) => Err(EmitError::Builder),
    }
}

/// Relies on `rspirv::dr::Builder::f_div` (block instruction).
#[verifier::external_body]
pub(crate) fn rb_f_div(b: &mut rspirv::dr::Builder, ty: u32, x: u32, y: u32) -> (r: Result<
    u32,
    EmitError,
>)
    ensures
        appends_no_store(*old(b), *final(b)),
        r matches Ok(id) ==> appends_def(*old(b), *final(b), id),
        in_function(*old(b)) && in_block(*old(b)) ==> (r matches Ok(id)
            && insts_of(*final(b)) == insts_of(*old(b)).push(Inst::FDiv { id, ty, x, y })),
        !(in_function(*old(b)) && in_block(*old(b))) ==> insts_of(*final(b))
            == insts_of(*old(b)),
        same_flags(*old(b), *final(b)),
        same_decls(*old(b), *final(b)),
        in_function(*old(b)) && in_block(*old(b)) ==> r is Ok,
        !(in_function(*old(b)) && in_block(*old(b))) ==> r is Err,
{
    match b.f_div(ty, None, x, y) {
        Ok(w) => Ok(w),
        Err(_) => Err(EmitError::Builder),
    }
}

/// Relies on `rspirv::dr::Builder::f_ord_less_than` (block instruction).
#[verifier::external_body]
pub(crate) fn rb_f_ord_less_than(b: &mut rspirv::dr::Builder, ty: u32, x: u32, y: u32) -> (r:
    Result<u32, EmitError>)
    ensures
        appends_no_store(*old(b), *final(b)),
        r matches Ok(id) ==> appends_def(*old(b), *final(b), id),
        in_function(*old(b)) && in_block(*old(b)) ==> (r matches Ok(id)
            && insts_of(*final(b)) == insts_of(*old(b)).push(Inst::FOrdLessThan { id, ty, x, y })),
        !(in_function(*old(b)) && in_block(*old(b))) ==> insts_of(*final(b))
            == insts_of(*old(b)),
        same_flags(*old(b), *final(b)),
        same_decls(*old(b), *final(b)),
        in_function(*old(b)) && in_block(*old(b)) ==> r is Ok,
        !(in_function(*old(b)) && in_block(*old(b))) ==> r is Err,
{
    match b.f_ord_less_than(ty, None, x, y) {
        Ok(w) => Ok(w),
        Err(_) => Err(EmitError::Builder),
    }
}

/// Relies on `rspirv::dr::Builder::select` (block instruction).
#[verifier::external_body]
pub(crate) fn rb_select(
    b: &mut rspirv::dr::Builder,
    ty: u32,
    cond: u32,
    if_true: u32,
    if_false: u32,
) -> (r: Result<u32, EmitError>)
    ensures
        appends_no_store(*old(b), *final(b)),
        r matches Ok(id) ==> appends_def(*old(b), *final(b), id),
        in_function(*old(b)) && in_block(*old(b)) ==> (r matches Ok(id)
            && insts_of(*final(b)) == insts_of(*old(b)).push(Inst::Select { id, ty, cond, if_true, if_false })),
        !(in_function(*old(b)) && in_block(*old(b))) ==> insts_of(*final(b))
            == insts_of(*old(b)),
        same_flags(*old(b), *final(b)),
        same_decls(*old(b), *final(b)),
        in_function(*old(b)) && in_block(*old(b)) ==> r is Ok,
        !(in_function(*old(b)) && in_block(*old(b))) ==> r is Err,
{
    match b.select(ty, None, cond, if_true, if_false) {
        Ok(w) => Ok(w),
        Err(_) => Err(EmitError::Builder),
    }
}

/// Relies on `rspirv::dr::Builder::composite_extract` with one index
/// (block instruction).
#[verifier::external_body]
pub(crate) fn rb_composite_extract(
    b: &mut rspirv::dr::Builder,
    ty: u32,
    composite: u32,
    index: u32,
) -> (r: Result<u32, EmitError>)
    ensures
        appends_no_store(*old(b), *final(b)),
        r matches Ok(id) ==> appends_def(*old(b), *final(b), id),
        in_function(*old(b)) && in_block(*old(b)) ==> (r matches Ok(id)
            && insts_of(*final(b)) == insts_of(*old(b)).push(Inst::CompositeExtract { id, ty, composite, index })),
        !(in_function(*old(b)) && in_block(*old(b))) ==> insts_of(*final(b))
            == insts_of(*old(b)),
        same_flags(*old(b), *final(b)),
        same_decls(*old(b), *final(b)),
        in_function(*old(b)) && in_block(*old(b)) ==> r is Ok,
        !(in_function(*old(b)) && in_block(*old(b))) ==> r is Err,
{
    match b.composite_extract(ty, None, composite, [index]) {
        Ok(w) => Ok(w),
        Err(_) => Err(EmitError::Builder),
    }
}

/// Relies on `rspirv::dr::Builder::composite_construct` (block
/// instruction).
#[verifier::external_body]
pub(crate) fn rb_composite_construct(
    b: &mut rspirv::dr::Builder,
    ty: u32,
    parts: &Vec<u32>,
) -> (r: Result<u32, EmitError>)
    ensures
        appends_no_store(*old(b), *final(b)),
        r matches Ok(id) ==> appends_def(*old(b), *final(b), id),
        in_function(*old(b)) && in_block(*old(b)) ==> (r matches Ok(id)
            && insts_of(*final(b)) == insts_of(*old(b)).push(Inst::CompositeConstruct { id, ty, parts: parts@ })),
        !(in_function(*old(b)) && in_block(*old(b))) ==> insts_of(*final(b))
            == insts_of(*old(b)),
        same_flags(*old(b), *final(b)),
        same_decls(*old(b), *final(b)),
        in_function(*old(b)) && in_block(*old(b)) ==> r is Ok,
        !(in_function(*old(b)) && in_block(*old(b))) ==> r is Err,
{
    match b.composite_construct(ty, None, parts.iter().copied()) {
        Ok(w) => Ok(w),
        Err(_) => Err(EmitError::Builder),
    }
}

/// Relies on `rspirv::dr::Builder::vector_shuffle` with two components
/// (block instruction).
#[verifier::external_body]
pub(crate) fn rb_vector_shuffle2(
    b: &mut rspirv::dr::Builder,
    ty: u32,
    v1: u32,
    v2: u32,
    c0: u32,
    c1: u32,
) -> (r: Result<u32, EmitError>)
    ensures
        appends_no_store(*old(b), *final(b)),
        r matches Ok(id) ==> appends_def(*old(b), *final(b), id),
        in_function(*old(b)) && in_block(*old(b)) ==> (r matches Ok(id)
            && insts_of(*final(b)) == insts_of(*old(b)).push(Inst::VectorShuffle { id, ty, v1, v2, c0, c1 })),
        !(in_function(*old(b)) && in_block(*old(b))) ==> insts_of(*final(b))
            == insts_of(*old(b)),
        same_flags(*old(b), *final(b)),
        same_decls(*old(b), *final(b)),
        in_function(*old(b)) && in_block(*old(b)) ==> r is Ok,
        !(in_function(*old(b)) && in_block(*old(b))) ==> r is Err,
{
    match b.vector_shuffle(ty, None, v1, v2, [c0, c1]) {
        Ok(w) => Ok(w),
        Err(_) => Err(EmitError::Builder),
    }
}

/// Relies on `rspirv::dr::Builder::load` with no memory access operands
/// (block instruction).
#[verifier::external_body]
pub(crate) fn rb_load(b: &mut rspirv::dr::Builder, ty: u32, pointer: u32) -> (r: Result<
    u32,
    EmitError,
>)
    ensures
        appends_no_store(*old(b), *final(b)),
        r matches Ok(id) ==> appends_def(*old(b), *final(b), id),
        in_function(*old(b)) && in_block(*old(b)) ==> (r matches Ok(id)
            && insts_of(*final(b)) == insts_of(*old(b)).push(Inst::Load { id, ty, pointer })),
        !(in_function(*old(b)) && in_block(*old(b))) ==> insts_of(*final(b))
            == insts_of(*old(b)),
        same_flags(*old(b), *final(b)),
        same_decls(*old(b), *final(b)),
        in_function(*old(b)) && in_block(*old(b)) ==> r is Ok,
        !(in_function(*old(b)) && in_block(*old(b))) ==> r is Err,
{
    match b.load(ty, None, pointer, None, []) {
        Ok(w) => Ok(w),
        Err(_) => Err(EmitError::Builder),
    }
}

/// Relies on `rspirv::dr::Builder::store` with no memory access operands
/// (block instruction).
#[verifier::external_body]
pub(crate) fn rb_store(b: &mut rspirv::dr::Builder, pointer: u32, object: u32) -> (r: Result<
    (),
    EmitError,
>)
    ensures
        in_function(*old(b)) && in_block(*old(b)) ==> insts_of(*final(b))
            == insts_of(*old(b)).push(Inst::Store { pointer, object }),
        !(in_function(*old(b)) && in_block(*old(b))) ==> insts_of(*final(b))
            == insts_of(*old(b)),
        same_flags(*old(b), *final(b)),
        same_decls(*old(b), *final(b)),
        in_function(*old(b)) && in_block(*old(b)) ==> r is Ok,
        !(in_function(*old(b)) && in_block(*old(b))) ==> r is Err,
{
    match b.store(pointer, object, None, []) {
        Ok(_) => Ok(()),
        Err(_) => Err(EmitError::Builder),
    }
}

/// Relies on `rspirv::dr::Builder::begin_function` with no function
/// control: it succeeds exactly when no function is under construction,
/// and then selects the new function.
#[verifier::external_body]
pub(crate) fn rb_begin_function(b: &mut rspirv::dr::Builder, ret_ty: u32, fn_ty: u32) -> (r:
    Result<u32, EmitError>)
    ensures
        insts_of(*final(b)) == insts_of(*old(b)),
        same_decls(*old(b), *final(b)),
        !in_function(*old(b)) ==> {
            &&& r is Ok
            &&& in_function(*final(b))
            &&& in_block(*final(b)) == in_block(*old(b))
        },
        in_function(*old(b)) ==> r is Err && same_flags(*old(b), *final(b)),
{
    match b.begin_function(ret_ty, None, rspirv::spirv::FunctionControl::NONE, fn_ty) {
        Ok(w) => Ok(w),
        Err(_) => Err(EmitError::Builder),
    }
}

/// Relies on `rspirv::dr::Builder::begin_block` with a fresh label: it
/// succeeds exactly when a function is selected and no block is, and then
/// selects the new block.
#[verifier::external_body]
pub(crate) fn rb_begin_block(b: &mut rspirv::dr::Builder) -> (r: Result<u32, EmitError>)
    ensures
        in_function(*old(b)) && !in_block(*old(b)) ==> (r matches Ok(id)
            && insts_of(*final(b)) == insts_of(*old(b)).push(Inst::Label { id })),
        !(in_function(*old(b)) && !in_block(*old(b))) ==> insts_of(*final(b))
            == insts_of(*old(b)),
        same_decls(*old(b), *final(b)),
        in_function(*old(b)) && !in_block(*old(b)) ==> {
            &&& r is Ok
            &&& in_function(*final(b))
            &&& in_block(*final(b))
        },
        !(in_function(*old(b)) && !in_block(*old(b))) ==> r is Err && same_flags(
            *old(b),
            *final(b),
        ),
{
    match b.begin_block(None) {
        Ok(w) => Ok(w),
        Err(_) => Err(EmitError::Builder),
    }
}

/// Relies on `rspirv::dr::Builder::ret`: it appends the return terminator
/// and closes the current block; it succeeds exactly when a function and a
/// block are selected.
#[verifier::external_body]
pub(crate) fn rb_ret(b: &mut rspirv::dr::Builder) -> (r: Result<(), EmitError>)
    ensures
        in_function(*old(b)) && in_block(*old(b)) ==> insts_of(*final(b))
            == insts_of(*old(b)).push(Inst::Return),
        !(in_function(*old(b)) && in_block(*old(b))) ==> insts_of(*final(b))
            == insts_of(*old(b)),
        same_decls(*old(b), *final(b)),
        in_function(*old(b)) && in_block(*old(b)) ==> {
            &&& r is Ok
            &&& in_function(*final(b))
            &&& !in_block(*final(b))
        },
        !(in_function(*old(b)) && in_block(*old(b))) ==> r is Err && same_flags(
            *old(b),
            *final(b),
        ),
{
    match b.ret() {
        Ok(_) => Ok(()),
        Err(_) => Err(EmitError::Builder),
    }
}

/// Relies on `rspirv::dr::Builder::end_function`: it succeeds exactly when
/// a function is selected, and then deselects it. The current block must
/// have been terminated first (`rb_ret`): rspirv leaves the block selection
/// untouched here, so ending a function with a block still open would leave
/// a selection dangling into the closed function, and the success promises
/// of the block-instruction wrappers would not survive it.
#[verifier::external_body]
pub(crate) fn rb_end_function(b: &mut rspirv::dr::Builder) -> (r: Result<(), EmitError>)
    requires
        !in_block(*old(b)),
    ensures
        insts_of(*final(b)) == insts_of(*old(b)),
        same_decls(*old(b), *final(b)),
        in_function(*old(b)) ==> {
            &&& r is Ok
            &&& !in_function(*final(b))
            &&& in_block(*final(b)) == in_block(*old(b))
        },
        !in_function(*old(b)) ==> r is Err && same_flags(*old(b), *final(b)),
{
    match b.end_function() {
        Ok(_) => Ok(()),
        Err(_) => Err(EmitError::Builder),
    }
}

/// Relies on `rspirv::dr::Builder::entry_point`, here fixed to the
/// `Fragment` execution model: it appends exactly one entry point with the
/// given function, name and interface.
#[verifier::external_body]
pub(crate) fn rb_entry_point_fragment(
    b: &mut rspirv::dr::Builder,
    function: u32,
    name: &str,
    interface: &Vec<u32>,
)
    ensures
        insts_of(*final(b)) == insts_of(*old(b)),
        same_flags(*old(b), *final(b)),
        entry_points(*final(b)) == entry_points(*old(b)).push(
            EntryPointDecl {
                exec_model: EXEC_MODEL_FRAGMENT,
                function,
                name: name@,
                interface: interface@,
            },
        ),
        caps_of(*final(b)) == caps_of(*old(b)),
        memory_model_of(*final(b)) == memory_model_of(*old(b)),
        ext_imports_of(*final(b)) == ext_imports_of(*old(b)),
        globals_of(*final(b)) == globals_of(*old(b)),
        annotations_of(*final(b)) == annotations_of(*old(b)),
        exec_modes_of(*final(b)) == exec_modes_of(*old(b)),
{
    b.entry_point(
        rspirv::spirv::ExecutionModel::Fragment,
        function,
        name,
        interface.as_slice(),
    );
}

/// Relies on `rspirv::dr::Builder::execution_mode`, here fixed to
/// `OriginUpperLeft` with no parameters: it appends exactly one execution
/// mode for the given entry point.
#[verifier::external_body]
pub(crate) fn rb_execution_mode_origin_upper_left(b: &mut rspirv::dr::Builder, function: u32)
    ensures
        insts_of(*final(b)) == insts_of(*old(b)),
        same_flags(*old(b), *final(b)),
        exec_modes_of(*final(b)) == exec_modes_of(*old(b)).push(
            (function, EXEC_MODE_ORIGIN_UPPER_LEFT),
        ),
        caps_of(*final(b)) == caps_of(*old(b)),
        memory_model_of(*final(b)) == memory_model_of(*old(b)),
        ext_imports_of(*final(b)) == ext_imports_of(*old(b)),
        globals_of(*final(b)) == globals_of(*old(b)),
        annotations_of(*final(b)) == annotations_of(*old(b)),
        entry_points(*final(b)) == entry_points(*old(b)),
{
    b.execution_mode(function, rspirv::spirv::ExecutionMode::OriginUpperLeft, []);
}

/// Relies on `rspirv::dr::Builder::module` and
/// `rspirv::binary::Assemble::assemble`: the assembled module is the
/// five-word header followed by the instruction stream, and the header
/// begins with the SPIR-V magic word.
#[verifier::external_body]
pub(crate) fn rb_assemble(b: rspirv::dr::Builder) -> (r: Vec<u32>)
    ensures
        r@ == assembled(b),
        r@.len() >= 5,
        r@[0] == SPIRV_MAGIC,
{
    b.module().assemble()
}

} // verus!

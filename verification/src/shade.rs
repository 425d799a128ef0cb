//! Decision logic of the compile-time `shader_param` item decorator.
//!
//! The decorator runs at build time against the compiler's syntax
//! tree; it is a concern separate from the runtime core, with no
//! shared state. This module states its structural decisions over
//! plain descriptions of the syntax it reads: which variable-id type
//! each field of the decorated struct maps to, the name and fields of
//! the generated link struct, the body of the derived method, and the
//! diagnostics for unsupported items.

use vstd::prelude::*;

verus! {

/// What the decorator reads of a field's type: the segments of a path
/// type, or anything else.
#[derive(Clone, Debug)]
pub enum TyNode {
    Path { segments: Vec<String> },
    Other,
}

/// A global path of identifiers, as emitted into generated code.
#[derive(Clone, Debug)]
pub struct VarPath {
    pub global: bool,
    pub segments: Vec<String>,
}

/// One field of the decorated struct: its name and what the decorator
/// reads of its type.
#[derive(Clone, Debug)]
pub struct FieldDef {
    pub name: String,
    pub ty: TyNode,
}

/// What the decorator reads of the decorated item: a struct with its
/// fields and the number of lifetime parameters, or anything else.
#[derive(Clone, Debug)]
pub enum ItemNode {
    Struct { fields: Vec<FieldDef>, lifetime_count: usize },
    Other,
}

/// The decorated item: its name and its structure.
#[derive(Clone, Debug)]
pub struct ItemDef {
    pub name: String,
    pub node: ItemNode,
}

/// One field of the generated link struct: the original field's name,
/// typed by the variable-id path chosen for it.
#[derive(Clone, Debug)]
pub struct LinkField {
    pub name: String,
    pub ty: VarPath,
}

/// The expression a derived method body evaluates to: this decorator
/// always produces the link-error value.
#[derive(Clone, Debug)]
pub enum ExprNode {
    ErrValue(VarPath),
}

/// What the decorator emits for an accepted item: the link struct's
/// name and fields, and the derived method's body.
#[derive(Clone, Debug)]
pub struct Expansion {
    pub link_name: String,
    pub link_fields: Vec<LinkField>,
    pub method_body: ExprNode,
}

/// The compile-time diagnostics for unsupported items: only
/// free-standing named structs without lifetime parameters may derive
/// shader parameters.
#[derive(Clone, Copy, Debug, PartialEq, Eq, Structural)]
pub enum ExpandError {
    NotAStruct,
    LifetimesInGenerics,
}

/// The identifier of the variable-id type chosen for a field type:
/// buffer handles map to block variables, texture handles to texture
/// variables, and everything else to uniform variables. Only the last
/// segment of a path type decides.
pub open spec fn spec_var_id(node: TyNode) -> Seq<char> {
    match node {
        TyNode::Path { segments } => if segments@.len() == 0 {
            "UniformVarId"@
        } else if segments@.last()@ == "BufferHandle"@ {
            "BlockVarId"@
        } else if segments@.last()@ == "TextureHandle"@ {
            "TextureVarId"@
        } else {
            "UniformVarId"@
        },
        TyNode::Other => "UniformVarId"@,
    }
}

/// A global two-segment path rooted in the runtime crate's namespace.
pub open spec fn is_global_gfx_path(p: VarPath, id: Seq<char>) -> bool {
    &&& p.global
    &&& p.segments@.len() == 2
    &&& p.segments@[0]@ == "gfx"@
    &&& p.segments@[1]@ == id
}

/// The name of the generated link struct for a decorated item.
pub open spec fn spec_link_name(n: Seq<char>) -> Seq<char> {
    "_"@ + n + "Link"@
}

/// Relies on std's string formatting: `format!` with a literal
/// template and one `String` argument concatenates the pieces in
/// order.
#[verifier::external_body]
fn link_name_of(name: &String) -> (r: String)
    ensures
        r@ == "_"@ + name@ + "Link"@,
{
    format!("_{}Link", name)
}

/// Builds the global path `gfx::<id>`.
fn global_gfx_path(id: String) -> (p: VarPath)
    ensures
        is_global_gfx_path(p, id@),
{
    let mut segments: Vec<String> = Vec::new();
    segments.push("gfx".to_owned());
    segments.push(id);
    VarPath { global: true, segments }
}

/// Chooses the variable-id path for one field type.
pub fn node_to_var_path(node: &TyNode) -> (p: VarPath)
    ensures
        is_global_gfx_path(p, spec_var_id(*node)),
{
    let id: String = match node {
        TyNode::Path { segments } => {
            if segments.len() == 0 {
                "UniformVarId".to_owned()
            } else {
                let last = &segments[segments.len() - 1];
                let buffer_handle = "BufferHandle".to_owned();
                let texture_handle = "TextureHandle".to_owned();
                if *last == buffer_handle {
                    "BlockVarId".to_owned()
                } else if *last == texture_handle {
                    "TextureVarId".to_owned()
                } else {
                    "UniformVarId".to_owned()
                }
            }
        },
        TyNode::Other => "UniformVarId".to_owned(),
    };
    global_gfx_path(id)
}

/// The body of the derived link-creation method: unconditionally the
/// link-error value.
pub fn method_create() -> (e: ExprNode)
    ensures
        e matches ExprNode::ErrValue(p) && is_global_gfx_path(p, "ParameterLinkError"@),
{
    ExprNode::ErrValue(global_gfx_path("ParameterLinkError".to_owned()))
}

/// Expands the decorator for one item: accepts exactly the
/// free-standing named structs without lifetime parameters, and for
/// those emits a link struct mirroring the fields with their chosen
/// variable-id types, named after the item.
pub fn expand_shader_param(item: &ItemDef) -> (r: Result<Expansion, ExpandError>)
    ensures
        r is Ok <==> (item.node matches ItemNode::Struct { lifetime_count, .. }
            && lifetime_count == 0),
        r == Result::<Expansion, ExpandError>::Err(ExpandError::NotAStruct) <==> item.node
            is Other,
        r == Result::<Expansion, ExpandError>::Err(ExpandError::LifetimesInGenerics) <==> (
        item.node matches ItemNode::Struct { lifetime_count, .. } && lifetime_count > 0),
        r matches Ok(exp) ==> (item.node matches ItemNode::Struct { fields, .. } && {
            &&& exp.link_name@ == spec_link_name(item.name@)
            &&& exp.link_fields@.len() == fields@.len()
            &&& forall|i: int|
                0 <= i < fields@.len() ==> (#[trigger] exp.link_fields@[i]).name@
                    == fields@[i].name@ && is_global_gfx_path(
                    exp.link_fields@[i].ty,
                    spec_var_id(fields@[i].ty),
                )
            &&& exp.method_body matches ExprNode::ErrValue(p) && is_global_gfx_path(
                p,
                "ParameterLinkError"@,
            )
        }),
{
    match &item.node {
        ItemNode::Struct { fields, lifetime_count } => {
            if *lifetime_count > 0 {
                return Err(ExpandError::LifetimesInGenerics);
            }
            let n = fields.len();
            let mut link_fields: Vec<LinkField> = Vec::new();
            let mut i: usize = 0;
            while i < n
                invariant
                    i <= n,
                    n == fields.len(),
                    link_fields@.len() == i,
                    forall|k: int|
                        0 <= k < i ==> (#[trigger] link_fields@[k]).name@ == fields@[k].name@
                            && is_global_gfx_path(link_fields@[k].ty, spec_var_id(fields@[k].ty)),
                decreases n - i,
            {
                let f = &fields[i];
                link_fields.push(LinkField { name: f.name.clone(), ty: node_to_var_path(&f.ty) });
                i = i + 1;
            }
            Ok(
                Expansion {
                    link_name: link_name_of(&item.name),
                    link_fields,
                    method_body: method_create(),
                },
            )
        },
        ItemNode::Other => Err(ExpandError::NotAStruct),
    }
}

/// What the plugin's registration step records: the names of the
/// syntax extensions made available, in registration order.
#[derive(Clone, Debug)]
pub struct Registry {
    pub syntax_extensions: Vec<String>,
}

/// Registers the shader-parameter item decorator: exactly one
/// extension is added, under the name `shader_param`, and every
/// previously registered extension is kept.
pub fn registrar(reg: &mut Registry)
    ensures
        final(reg).syntax_extensions@.len() == old(reg).syntax_extensions@.len() + 1,
        final(reg).syntax_extensions@.last()@ == "shader_param"@,
        forall|i: int|
            0 <= i < old(reg).syntax_extensions@.len() ==> final(reg).syntax_extensions@[i]
                == old(reg).syntax_extensions@[i],
{
    reg.syntax_extensions.push("shader_param".to_owned());
}

} // verus!

use gl_native::shade::{
    expand_shader_param, method_create, node_to_var_path, registrar, ExpandError, ExprNode,
    FieldDef, ItemDef, ItemNode, Registry, TyNode,
};

fn path(segments: &[&str]) -> TyNode {
    TyNode::Path { segments: segments.iter().map(|s| (*s).to_owned()).collect() }
}

#[test]
fn buffer_handle_maps_to_block_var() {
    let p = node_to_var_path(&path(&["gfx", "BufferHandle"]));
    assert!(p.global);
    assert_eq!(p.segments, vec!["gfx".to_owned(), "BlockVarId".to_owned()]);
}

#[test]
fn texture_handle_maps_to_texture_var() {
    let p = node_to_var_path(&path(&["TextureHandle"]));
    assert_eq!(p.segments, vec!["gfx".to_owned(), "TextureVarId".to_owned()]);
}

#[test]
fn anything_else_maps_to_uniform_var() {
    let p = node_to_var_path(&path(&["i32"]));
    assert_eq!(p.segments, vec!["gfx".to_owned(), "UniformVarId".to_owned()]);
    let q = node_to_var_path(&TyNode::Other);
    assert_eq!(q.segments, vec!["gfx".to_owned(), "UniformVarId".to_owned()]);
    let r = node_to_var_path(&path(&[]));
    assert_eq!(r.segments, vec!["gfx".to_owned(), "UniformVarId".to_owned()]);
}

#[test]
fn only_the_last_segment_decides() {
    let p = node_to_var_path(&path(&["BufferHandle", "Inner"]));
    assert_eq!(p.segments, vec!["gfx".to_owned(), "UniformVarId".to_owned()]);
}

#[test]
fn method_create_yields_the_link_error_value() {
    let ExprNode::ErrValue(p) = method_create();
    assert!(p.global);
    assert_eq!(p.segments, vec!["gfx".to_owned(), "ParameterLinkError".to_owned()]);
}

#[test]
fn expand_emits_link_struct_named_after_the_item() {
    let item = ItemDef {
        name: "Params".to_owned(),
        node: ItemNode::Struct {
            fields: vec![
                FieldDef { name: "buf".to_owned(), ty: path(&["BufferHandle"]) },
                FieldDef { name: "tex".to_owned(), ty: path(&["TextureHandle"]) },
                FieldDef { name: "scale".to_owned(), ty: TyNode::Other },
            ],
            lifetime_count: 0,
        },
    };
    let exp = expand_shader_param(&item).unwrap();
    assert_eq!(exp.link_name, "_ParamsLink");
    assert_eq!(exp.link_fields.len(), 3);
    assert_eq!(exp.link_fields[0].name, "buf");
    assert_eq!(
        exp.link_fields[0].ty.segments,
        vec!["gfx".to_owned(), "BlockVarId".to_owned()]
    );
    assert_eq!(exp.link_fields[1].name, "tex");
    assert_eq!(
        exp.link_fields[1].ty.segments,
        vec!["gfx".to_owned(), "TextureVarId".to_owned()]
    );
    assert_eq!(exp.link_fields[2].name, "scale");
    assert_eq!(
        exp.link_fields[2].ty.segments,
        vec!["gfx".to_owned(), "UniformVarId".to_owned()]
    );
    let ExprNode::ErrValue(p) = exp.method_body;
    assert_eq!(p.segments, vec!["gfx".to_owned(), "ParameterLinkError".to_owned()]);
}

#[test]
fn expand_rejects_non_struct_items() {
    let item = ItemDef { name: "NotAStruct".to_owned(), node: ItemNode::Other };
    assert_eq!(expand_shader_param(&item).unwrap_err(), ExpandError::NotAStruct);
}

#[test]
fn expand_rejects_structs_with_lifetimes() {
    let item = ItemDef {
        name: "Borrowed".to_owned(),
        node: ItemNode::Struct { fields: Vec::new(), lifetime_count: 1 },
    };
    assert_eq!(
        expand_shader_param(&item).unwrap_err(),
        ExpandError::LifetimesInGenerics
    );
}

#[test]
fn registrar_registers_the_shader_param_decorator() {
    let mut reg = Registry { syntax_extensions: Vec::new() };
    registrar(&mut reg);
    assert_eq!(reg.syntax_extensions, vec!["shader_param".to_owned()]);
    registrar(&mut reg);
    assert_eq!(
        reg.syntax_extensions,
        vec!["shader_param".to_owned(), "shader_param".to_owned()]
    );
}

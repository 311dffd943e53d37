use gdext_bridge::godot_api::{
    attribute_binding, extract_attributes, is_virtual_method, process_godot_fns, transform,
    transform_inherent_impl, transform_trait_impl, validate_impl, ApiError, BoundAttr,
    BoundAttrType, Declaration, DoubledAttribute, Impl, ImplMember, Method, Qualifiers,
    Transformed,
};

fn method(name: &str, attributes: &[&str]) -> Method {
    Method {
        name: name.to_string(),
        attributes: attributes.iter().map(|a| a.to_string()).collect(),
        qualifiers: Qualifiers::none(),
        has_generic_params: false,
        param_count: 0,
        has_return_ty: false,
    }
}

fn inherent(items: Vec<ImplMember>) -> Impl {
    Impl {
        has_generic_params: false,
        self_ty: Some("Player".to_string()),
        self_ty_has_generic_args: false,
        has_trait: false,
        trait_ty: None,
        body_items: items,
    }
}

fn trait_impl(names: &[&str]) -> Impl {
    Impl {
        has_generic_params: false,
        self_ty: Some("Player".to_string()),
        self_ty_has_generic_args: false,
        has_trait: true,
        trait_ty: Some("GodotExt".to_string()),
        body_items: names.iter().map(|n| ImplMember::Method(method(n, &[]))).collect(),
    }
}

fn names_of(items: &[ImplMember]) -> Vec<String> {
    items
        .iter()
        .map(|i| match i {
            ImplMember::Method(m) => m.name.clone(),
            ImplMember::Constant => "<const>".to_string(),
            ImplMember::AssocTy => "<type>".to_string(),
        })
        .collect()
}

#[test]
fn attribute_names_that_bind() {
    assert_eq!(attribute_binding("func"), Some(BoundAttrType::Func));
    assert_eq!(attribute_binding("signal"), Some(BoundAttrType::Signal));
    assert_eq!(attribute_binding("inline"), None);
    assert_eq!(attribute_binding("Func"), None);
}

#[test]
fn binding_attribute_is_found_when_last() {
    let m = method("jump", &["inline", "func"]);
    assert_eq!(
        extract_attributes(&m),
        Ok(Some(BoundAttr { index: 1, ty: BoundAttrType::Func }))
    );
    let s = method("hit", &["signal"]);
    assert_eq!(
        extract_attributes(&s),
        Ok(Some(BoundAttr { index: 0, ty: BoundAttrType::Signal }))
    );
    assert_eq!(extract_attributes(&method("plain", &[])), Ok(None));
    assert_eq!(extract_attributes(&method("plain", &["inline", "must_use"])), Ok(None));
}

#[test]
fn binding_attribute_followed_by_another_attribute_is_not_found() {
    assert_eq!(extract_attributes(&method("jump", &["func", "inline"])), Ok(None));
    assert_eq!(
        extract_attributes(&method("jump", &["func", "inline", "signal"])),
        Ok(Some(BoundAttr { index: 2, ty: BoundAttrType::Signal }))
    );
}

#[test]
fn two_binding_attributes_in_a_row_are_rejected() {
    assert_eq!(extract_attributes(&method("jump", &["func", "signal"])), Err(DoubledAttribute));
    assert_eq!(extract_attributes(&method("jump", &["func", "func"])), Err(DoubledAttribute));
    assert_eq!(
        extract_attributes(&method("jump", &["inline", "signal", "func", "inline"])),
        Err(DoubledAttribute)
    );
}

#[test]
fn funcs_stay_without_mark_and_signals_leave() {
    let mut decl = inherent(vec![
        ImplMember::Constant,
        ImplMember::Method(method("jump", &["inline", "func"])),
        ImplMember::Method(method("hit", &["signal"])),
        ImplMember::Method(method("helper", &["inline"])),
        ImplMember::Method(method("run", &["func"])),
        ImplMember::AssocTy,
        ImplMember::Method(method("died", &["signal"])),
    ]);
    let (funcs, signals) = process_godot_fns(&mut decl).unwrap();
    assert_eq!(funcs, vec!["jump", "run"]);
    assert_eq!(signals, vec!["hit", "died"]);
    assert_eq!(names_of(&decl.body_items), vec!["<const>", "jump", "helper", "run", "<type>"]);
    match &decl.body_items[1] {
        ImplMember::Method(m) => assert_eq!(m.attributes, vec!["inline"]),
        other => panic!("{:?}", other),
    }
    match &decl.body_items[2] {
        ImplMember::Method(m) => assert_eq!(m.attributes, vec!["inline"]),
        other => panic!("{:?}", other),
    }
    match &decl.body_items[3] {
        ImplMember::Method(m) => assert!(m.attributes.is_empty()),
        other => panic!("{:?}", other),
    }
}

#[test]
fn bound_function_with_qualifier_is_rejected() {
    let mut bad = method("jump", &["func"]);
    bad.qualifiers.tk_async = true;
    let mut decl = inherent(vec![
        ImplMember::Method(method("ok", &["func"])),
        ImplMember::Method(bad),
    ]);
    assert_eq!(
        process_godot_fns(&mut decl),
        Err(ApiError::QualifiersNotAllowed { member: 1, attr: BoundAttrType::Func })
    );
    assert_eq!(decl.body_items.len(), 2);
    match &decl.body_items[0] {
        ImplMember::Method(m) => assert_eq!(m.attributes, vec!["func"]),
        other => panic!("{:?}", other),
    }
}

#[test]
fn each_qualifier_counts() {
    let mut q = Qualifiers::none();
    assert!(!q.is_any());
    q.tk_default = true;
    assert!(q.is_any());
    let mut q = Qualifiers::none();
    q.tk_const = true;
    assert!(q.is_any());
    let mut q = Qualifiers::none();
    q.tk_unchecked = true;
    assert!(q.is_any());
    let mut q = Qualifiers::none();
    q.tk_foreign = true;
    assert!(q.is_any());
    let mut q = Qualifiers::none();
    q.foreign_abi = true;
    assert!(q.is_any());
}

#[test]
fn unbound_function_may_have_qualifiers_and_generics() {
    let mut free = method("helper", &[]);
    free.qualifiers.tk_const = true;
    free.has_generic_params = true;
    let mut decl = inherent(vec![ImplMember::Method(free)]);
    let (funcs, signals) = process_godot_fns(&mut decl).unwrap();
    assert!(funcs.is_empty());
    assert!(signals.is_empty());
    assert_eq!(decl.body_items.len(), 1);
}

#[test]
fn bound_function_with_generics_is_rejected() {
    let mut bad = method("emit", &["signal"]);
    bad.has_generic_params = true;
    let mut decl = inherent(vec![ImplMember::Method(bad)]);
    assert_eq!(
        process_godot_fns(&mut decl),
        Err(ApiError::GenericFn { member: 0, attr: BoundAttrType::Signal })
    );
}

#[test]
fn signal_with_parameters_or_return_is_rejected() {
    let mut with_param = method("hit", &["signal"]);
    with_param.param_count = 1;
    let mut decl = inherent(vec![ImplMember::Constant, ImplMember::Method(with_param)]);
    assert_eq!(process_godot_fns(&mut decl), Err(ApiError::SignalSignature { member: 1 }));
    let mut with_ret = method("hit", &["signal"]);
    with_ret.has_return_ty = true;
    let mut decl = inherent(vec![ImplMember::Method(with_ret)]);
    assert_eq!(process_godot_fns(&mut decl), Err(ApiError::SignalSignature { member: 0 }));
    let mut func_with_both = method("f", &["func"]);
    func_with_both.param_count = 3;
    func_with_both.has_return_ty = true;
    let mut decl = inherent(vec![ImplMember::Method(func_with_both)]);
    assert!(process_godot_fns(&mut decl).is_ok());
}

#[test]
fn doubled_attributes_are_reported_with_position() {
    let mut decl = inherent(vec![
        ImplMember::Method(method("a", &["func"])),
        ImplMember::Method(method("b", &["func", "signal"])),
    ]);
    assert_eq!(process_godot_fns(&mut decl), Err(ApiError::MultipleAttributes { member: 1 }));
}

#[test]
fn validate_impl_names_the_class() {
    let decl = inherent(Vec::new());
    assert_eq!(validate_impl(&decl, None), Ok("Player".to_string()));
    assert_eq!(validate_impl(&decl, Some("GodotExt")), Err(ApiError::WrongTrait));
    let t = trait_impl(&[]);
    assert_eq!(validate_impl(&t, Some("GodotExt")), Ok("Player".to_string()));
    assert_eq!(validate_impl(&t, Some("Other")), Err(ApiError::WrongTrait));
    let mut generic = inherent(Vec::new());
    generic.self_ty_has_generic_args = true;
    assert_eq!(validate_impl(&generic, None), Err(ApiError::GenericSelfType));
    let mut no_path = inherent(Vec::new());
    no_path.self_ty = None;
    assert_eq!(validate_impl(&no_path, None), Err(ApiError::InvalidSelfType));
}

#[test]
fn trait_impl_finds_overrides() {
    let plan = transform_trait_impl(&trait_impl(&[
        "init",
        "ready",
        "to_string",
        "physics_process",
        "process",
    ]))
    .unwrap();
    assert_eq!(plan.class_name, "Player");
    assert!(!plan.has_register_fn);
    assert!(plan.has_create_fn);
    assert!(plan.has_to_string_fn);
    assert_eq!(plan.virtual_method_names, vec!["_ready", "_physics_process", "_process"]);

    let plan = transform_trait_impl(&trait_impl(&["register_class"])).unwrap();
    assert!(plan.has_register_fn);
    assert!(!plan.has_create_fn);
    assert!(!plan.has_to_string_fn);
    assert!(plan.virtual_method_names.is_empty());
}

#[test]
fn trait_impl_rejects_unknown_function() {
    assert_eq!(
        transform_trait_impl(&trait_impl(&["ready", "input", "process"])).err(),
        Some(ApiError::UnsupportedMethod { member: 1 })
    );
    let mut wrong = trait_impl(&["input"]);
    wrong.trait_ty = Some("Display".to_string());
    assert_eq!(transform_trait_impl(&wrong).err(), Some(ApiError::WrongTrait));
    assert!(is_virtual_method("ready"));
    assert!(is_virtual_method("process"));
    assert!(is_virtual_method("physics_process"));
    assert!(!is_virtual_method("_ready"));
}

#[test]
fn trait_impl_ignores_items_that_are_no_functions() {
    let mut decl = trait_impl(&["ready"]);
    decl.body_items.insert(0, ImplMember::Constant);
    decl.body_items.push(ImplMember::AssocTy);
    let plan = transform_trait_impl(&decl).unwrap();
    assert_eq!(plan.virtual_method_names, vec!["_ready"]);
}

#[test]
fn inherent_impl_names_class_funcs_and_signals() {
    let mut decl = inherent(vec![
        ImplMember::Method(method("jump", &["func"])),
        ImplMember::Method(method("hit", &["signal"])),
    ]);
    let plan = transform_inherent_impl(&mut decl).unwrap();
    assert_eq!(plan.class_name, "Player");
    assert_eq!(plan.funcs, vec!["jump"]);
    assert_eq!(plan.signals, vec!["hit"]);
    assert_eq!(decl.body_items.len(), 1);
}

#[test]
fn transform_accepts_impl_blocks_only() {
    assert_eq!(transform(Declaration::Struct).err(), Some(ApiError::NotAnImpl));
    assert_eq!(transform(Declaration::Enum).err(), Some(ApiError::NotAnImpl));
    assert_eq!(transform(Declaration::Union).err(), Some(ApiError::NotAnImpl));
    assert_eq!(transform(Declaration::Function).err(), Some(ApiError::NotAnImpl));
    assert_eq!(transform(Declaration::Other).err(), Some(ApiError::NotAnImpl));
    let mut generic = inherent(Vec::new());
    generic.has_generic_params = true;
    assert_eq!(transform(Declaration::Impl(generic)).err(), Some(ApiError::GenericParams));
    let mut no_path = inherent(Vec::new());
    no_path.self_ty = None;
    assert_eq!(transform(Declaration::Impl(no_path)).err(), Some(ApiError::InvalidSelfType));
}

#[test]
fn transform_dispatches_on_trait() {
    match transform(Declaration::Impl(trait_impl(&["ready"]))).unwrap() {
        Transformed::Trait { decl, virtuals } => {
            assert_eq!(decl.body_items.len(), 1);
            assert_eq!(virtuals.virtual_method_names, vec!["_ready"]);
        }
        other => panic!("{:?}", other),
    }
    let block = inherent(vec![ImplMember::Method(method("hit", &["signal"]))]);
    match transform(Declaration::Impl(block)).unwrap() {
        Transformed::Inherent { decl, plan } => {
            assert!(decl.body_items.is_empty());
            assert_eq!(plan.signals, vec!["hit"]);
        }
        other => panic!("{:?}", other),
    }
    let mut other_trait = trait_impl(&[]);
    other_trait.trait_ty = Some("Clone".to_string());
    assert_eq!(transform(Declaration::Impl(other_trait)).err(), Some(ApiError::WrongTrait));
}

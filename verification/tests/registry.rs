use gdext_bridge::builtin::class_name::ClassName;
use gdext_bridge::registry::{
    auto_register_classes, default_creation_info, inheritance_of, default_registration_info, fill_class_info,
    fill_into, find_class, register_class, register_class_raw, would_conflict, ClassCallbacks,
    ClassPlugin, EngineCallback, ErasedRegisterFn, PluginComponent, RegistrationError,
    RegistrationStep,
};

fn cb(addr: usize) -> EngineCallback {
    EngineCallback { addr }
}

fn class_def(name: &str, base: &str, create: Option<usize>, free: usize) -> ClassPlugin {
    ClassPlugin {
        class_name: ClassName::from_static(name),
        component: PluginComponent::ClassDef {
            base_class_name: ClassName::from_static(base),
            generated_create_fn: create.map(cb),
            free_fn: cb(free),
        },
    }
}

fn method_binds(name: &str, raw: usize) -> ClassPlugin {
    ClassPlugin {
        class_name: ClassName::from_static(name),
        component: PluginComponent::UserMethodBinds {
            generated_register_fn: ErasedRegisterFn { raw },
        },
    }
}

fn virtuals(name: &str, create: Option<usize>) -> ClassPlugin {
    ClassPlugin {
        class_name: ClassName::from_static(name),
        component: PluginComponent::UserVirtuals {
            user_register_fn: Some(ErasedRegisterFn { raw: 70 }),
            user_create_fn: create.map(cb),
            user_to_string_fn: Some(cb(71)),
            get_virtual_fn: cb(72),
        },
    }
}

#[test]
fn fill_into_takes_offer_when_empty() {
    let mut dst: Option<i32> = None;
    fill_into(&mut dst, Some(4));
    assert_eq!(dst, Some(4));
}

#[test]
fn fill_into_keeps_value_when_nothing_offered() {
    let mut dst = Some(3);
    fill_into(&mut dst, None);
    assert_eq!(dst, Some(3));
    let mut empty: Option<i32> = None;
    fill_into(&mut empty, None);
    assert_eq!(empty, None);
}

#[test]
fn plugins_of_one_class_merge_into_one_record() {
    let plugins = vec![
        method_binds("Player", 50),
        class_def("Player", "Node2D", None, 61),
        virtuals("Player", Some(73)),
    ];
    let infos = auto_register_classes(&plugins).unwrap();
    assert_eq!(infos.len(), 1);
    let info = &infos[0];
    assert_eq!(info.class_name.as_str(), "Player");
    assert_eq!(info.parent_class_name.as_ref().unwrap().as_str(), "Node2D");
    assert_eq!(info.generated_register_fn, Some(ErasedRegisterFn { raw: 50 }));
    assert_eq!(info.user_register_fn, Some(ErasedRegisterFn { raw: 70 }));
    assert_eq!(info.godot_params.create_instance_func, Some(cb(73)));
    assert_eq!(info.godot_params.free_instance_func, Some(cb(61)));
    assert_eq!(info.godot_params.to_string_func, Some(cb(71)));
    assert_eq!(info.godot_params.get_virtual_func, Some(cb(72)));
    assert_eq!(info.godot_params.reference_func, None);
    assert_eq!(info.godot_params.get_rid_func, None);
}

#[test]
fn records_come_in_order_of_first_occurrence() {
    let plugins = vec![
        class_def("Mob", "RigidBody2D", Some(1), 2),
        class_def("Hud", "CanvasLayer", Some(3), 4),
        method_binds("Mob", 5),
        class_def("Main", "Node", Some(6), 7),
        method_binds("Hud", 8),
    ];
    let infos = auto_register_classes(&plugins).unwrap();
    let names: Vec<&str> = infos.iter().map(|i| i.class_name.as_str()).collect();
    assert_eq!(names, vec!["Mob", "Hud", "Main"]);
    assert_eq!(infos[0].generated_register_fn, Some(ErasedRegisterFn { raw: 5 }));
    assert_eq!(infos[1].generated_register_fn, Some(ErasedRegisterFn { raw: 8 }));
    assert_eq!(infos[2].generated_register_fn, None);
}

#[test]
fn no_plugins_give_no_records() {
    let infos = auto_register_classes(&Vec::new()).unwrap();
    assert!(infos.is_empty());
}

#[test]
fn double_fill_of_create_is_rejected() {
    let plugins = vec![
        class_def("Player", "Node2D", Some(60), 61),
        method_binds("Other", 1),
        virtuals("Player", Some(73)),
    ];
    assert_eq!(
        auto_register_classes(&plugins).unwrap_err(),
        RegistrationError::SlotAlreadyFilled { plugin_index: 2 }
    );
}

#[test]
fn same_create_slot_in_different_classes_is_no_conflict() {
    let plugins = vec![
        class_def("A", "Node", Some(60), 61),
        class_def("B", "Node", Some(62), 63),
    ];
    let infos = auto_register_classes(&plugins).unwrap();
    assert_eq!(infos.len(), 2);
    assert_eq!(infos[1].godot_params.create_instance_func, Some(cb(62)));
}

#[test]
fn class_without_definition_is_rejected() {
    let plugins = vec![
        class_def("A", "Node", Some(60), 61),
        method_binds("B", 1),
        class_def("C", "Node", None, 2),
    ];
    assert_eq!(
        auto_register_classes(&plugins).unwrap_err(),
        RegistrationError::MissingClassDefinition { record_index: 1 }
    );
}

#[test]
fn conflict_is_reported_before_missing_definition() {
    let plugins = vec![
        method_binds("B", 1),
        class_def("A", "Node", Some(60), 61),
        virtuals("A", Some(5)),
    ];
    assert_eq!(
        auto_register_classes(&plugins).unwrap_err(),
        RegistrationError::SlotAlreadyFilled { plugin_index: 2 }
    );
}

#[test]
fn would_conflict_sees_every_filled_slot() {
    let mut info = default_registration_info(ClassName::from_static("A"));
    assert_eq!(info.godot_params, default_creation_info());
    let def = class_def("A", "Node", Some(1), 2);
    assert!(!would_conflict(&info, &def.component));
    assert!(!would_conflict(&info, &method_binds("A", 3).component));
    assert!(!would_conflict(&info, &virtuals("A", Some(9)).component));
    fill_class_info(def.component.clone(), &mut info);
    assert!(would_conflict(&info, &def.component));
    assert!(would_conflict(&info, &class_def("A", "Node", None, 2).component));
    assert!(would_conflict(&info, &virtuals("A", Some(9)).component));
    assert!(!would_conflict(&info, &virtuals("A", None).component));
    assert!(!would_conflict(&info, &method_binds("A", 3).component));
    fill_class_info(method_binds("A", 3).component, &mut info);
    assert!(would_conflict(&info, &method_binds("A", 4).component));
    assert!(would_conflict(&info, &method_binds("A", 3).component));
    fill_class_info(virtuals("A", None).component, &mut info);
    assert!(would_conflict(&info, &virtuals("A", None).component));
    assert_eq!(info.generated_register_fn, Some(ErasedRegisterFn { raw: 3 }));
    assert_eq!(info.godot_params.create_instance_func, Some(cb(1)));
    assert_eq!(info.godot_params.free_instance_func, Some(cb(2)));
}

#[test]
fn second_class_definition_is_rejected() {
    let plugins = vec![
        class_def("A", "Node", Some(1), 2),
        class_def("A", "Node2D", None, 3),
    ];
    assert_eq!(
        auto_register_classes(&plugins).unwrap_err(),
        RegistrationError::SlotAlreadyFilled { plugin_index: 1 }
    );
}

#[test]
fn second_set_of_bound_methods_is_rejected() {
    let plugins = vec![
        class_def("A", "Node", Some(1), 2),
        method_binds("A", 10),
        method_binds("B", 11),
        method_binds("A", 12),
    ];
    assert_eq!(
        auto_register_classes(&plugins).unwrap_err(),
        RegistrationError::SlotAlreadyFilled { plugin_index: 3 }
    );
}

#[test]
fn second_set_of_virtuals_is_rejected() {
    let plugins = vec![
        virtuals("A", None),
        class_def("A", "Node", Some(1), 2),
        virtuals("A", None),
    ];
    assert_eq!(
        auto_register_classes(&plugins).unwrap_err(),
        RegistrationError::SlotAlreadyFilled { plugin_index: 2 }
    );
}

#[test]
fn fragments_of_a_statically_registered_class_conflict() {
    let callbacks = ClassCallbacks {
        to_string: cb(1),
        reference: cb(2),
        unreference: cb(3),
        create: cb(4),
        free: cb(5),
        get_virtual: cb(6),
        register_by_builder: ErasedRegisterFn { raw: 7 },
    };
    let info = register_class("Enemy", "Node3D", callbacks);
    assert!(would_conflict(&info, &class_def("Enemy", "Node3D", None, 5).component));
    assert!(would_conflict(&info, &virtuals("Enemy", None).component));
    assert!(!would_conflict(&info, &method_binds("Enemy", 8).component));
}

#[test]
fn find_class_gives_first_position_or_length() {
    let plugins = vec![
        class_def("A", "Node", None, 2),
        class_def("B", "Node", None, 2),
    ];
    let infos = auto_register_classes(&plugins).unwrap();
    assert_eq!(find_class(&infos, &ClassName::from_static("A")), 0);
    assert_eq!(find_class(&infos, &ClassName::from_static("B")), 1);
    assert_eq!(find_class(&infos, &ClassName::from_static("C")), 2);
}

#[test]
fn register_class_fills_every_callback_but_get_rid() {
    let callbacks = ClassCallbacks {
        to_string: cb(1),
        reference: cb(2),
        unreference: cb(3),
        create: cb(4),
        free: cb(5),
        get_virtual: cb(6),
        register_by_builder: ErasedRegisterFn { raw: 7 },
    };
    let info = register_class("Enemy", "Node3D", callbacks);
    assert_eq!(info.class_name.as_str(), "Enemy");
    assert_eq!(info.parent_class_name.as_ref().unwrap().as_str(), "Node3D");
    assert_eq!(info.generated_register_fn, None);
    assert_eq!(info.user_register_fn, Some(ErasedRegisterFn { raw: 7 }));
    assert_eq!(info.godot_params.to_string_func, Some(cb(1)));
    assert_eq!(info.godot_params.reference_func, Some(cb(2)));
    assert_eq!(info.godot_params.unreference_func, Some(cb(3)));
    assert_eq!(info.godot_params.create_instance_func, Some(cb(4)));
    assert_eq!(info.godot_params.free_instance_func, Some(cb(5)));
    assert_eq!(info.godot_params.get_virtual_func, Some(cb(6)));
    assert_eq!(info.godot_params.get_rid_func, None);
}

#[test]
fn submission_registers_class_then_generated_then_user() {
    let plugins = vec![
        virtuals("Player", None),
        class_def("Player", "Node2D", Some(60), 61),
        method_binds("Player", 50),
    ];
    let infos = auto_register_classes(&plugins).unwrap();
    let steps = register_class_raw(&infos[0]);
    assert_eq!(steps.len(), 3);
    match &steps[0] {
        RegistrationStep::RegisterClass { class_name, parent_class_name, params } => {
            assert_eq!(class_name.as_str(), "Player");
            assert_eq!(parent_class_name.as_str(), "Node2D");
            assert_eq!(params.create_instance_func, Some(cb(60)));
        }
        other => panic!("unexpected first step {:?}", other),
    }
    assert!(matches!(
        steps[1],
        RegistrationStep::RunGeneratedRegisterFn { register_fn: ErasedRegisterFn { raw: 50 } }
    ));
    assert!(matches!(
        steps[2],
        RegistrationStep::RunUserRegisterFn { register_fn: ErasedRegisterFn { raw: 70 } }
    ));
}

#[test]
fn submission_of_bare_class_is_one_step() {
    let infos = auto_register_classes(&vec![class_def("A", "Object", None, 1)]).unwrap();
    let steps = register_class_raw(&infos[0]);
    assert_eq!(steps.len(), 1);
}

#[test]
fn registry_collects_then_submits_once() {
    let mut registry = gdext_bridge::registry::Registry::new();
    assert!(!registry.is_submitted());
    assert_eq!(registry.plugin_count(), 0);
    assert_eq!(registry.add_plugin(class_def("A", "Node", Some(1), 2)), Ok(()));
    assert_eq!(registry.add_plugin(method_binds("A", 3)), Ok(()));
    assert_eq!(registry.plugin_count(), 2);
    let infos = registry.submit().unwrap();
    assert_eq!(infos.len(), 1);
    assert_eq!(infos[0].generated_register_fn, Some(ErasedRegisterFn { raw: 3 }));
    assert!(registry.is_submitted());
    assert_eq!(
        registry.add_plugin(method_binds("B", 4)),
        Err(gdext_bridge::registry::RegistryError::AlreadySubmitted)
    );
    assert_eq!(registry.plugin_count(), 2);
    assert_eq!(
        registry.submit().err(),
        Some(gdext_bridge::registry::RegistryError::AlreadySubmitted)
    );
}

#[test]
fn registry_stays_open_when_registration_fails() {
    let mut registry = gdext_bridge::registry::Registry::new();
    registry.add_plugin(method_binds("A", 3)).unwrap();
    assert_eq!(
        registry.submit().err(),
        Some(gdext_bridge::registry::RegistryError::Registration(
            RegistrationError::MissingClassDefinition { record_index: 0 }
        ))
    );
    assert!(!registry.is_submitted());
    registry.add_plugin(class_def("A", "Node", None, 2)).unwrap();
    assert_eq!(registry.submit().unwrap().len(), 1);
}

#[test]
fn registered_classes_declare_their_inheritance() {
    let plugins = vec![
        class_def("Player", "Node2D", Some(1), 2),
        method_binds("Player", 3),
        class_def("Boss", "Player", None, 4),
        class_def("Hud", "CanvasLayer", None, 5),
    ];
    let infos = auto_register_classes(&plugins).unwrap();
    let tree = inheritance_of(&infos);
    assert_eq!(tree.derived_to_base.len(), 3);
    assert_eq!(tree.direct_base("Player").map(|s| s.as_str()), Some("Node2D"));
    assert_eq!(tree.direct_base("Boss").map(|s| s.as_str()), Some("Player"));
    assert_eq!(tree.collect_all_bases("Boss"), vec!["Player", "Node2D"]);
    assert!(tree.inherits("Boss", "Node2D"));
    assert!(tree.inherits("Player", "Player"));
    assert!(!tree.inherits("Player", "Boss"));
    assert!(!tree.inherits("Player", "Hud"));
    assert!(!tree.inherits("Player", "CanvasLayer"));
    assert!(!tree.inherits("Hud", "Node2D"));
}

#[test]
fn cast_to_a_class_outside_the_registered_ancestry_yields_nothing() {
    let plugins = vec![
        class_def("Resource", "RefCounted", None, 1),
        class_def("Node2D", "Node", None, 2),
    ];
    let infos = auto_register_classes(&plugins).unwrap();
    let tree = inheritance_of(&infos);
    let id = gdext_bridge::obj::instance_id::InstanceId::try_from_u64(9).unwrap();
    let object: gdext_bridge::obj::gd::Gd<gdext_bridge::engine::Node> =
        gdext_bridge::obj::gd::Gd::from_instance_id(id);
    assert!(object.try_cast::<gdext_bridge::engine::Resource>(&tree, "Node2D").is_none());
    let object: gdext_bridge::obj::gd::Gd<gdext_bridge::engine::Node> =
        gdext_bridge::obj::gd::Gd::from_instance_id(id);
    assert!(object.try_cast::<gdext_bridge::engine::Node>(&tree, "Node2D").is_some());
}

#[test]
fn records_without_parent_declare_no_inheritance() {
    let info = default_registration_info(ClassName::from_static("A"));
    let tree = inheritance_of(&vec![info]);
    assert!(tree.derived_to_base.is_empty());
    assert!(inheritance_of(&Vec::new()).derived_to_base.is_empty());
}

use gdext_bridge::codegen::api::{
    BuiltinClass, Class, ClassMethod, Enum, EnumConstant, ExtensionApi, MethodArg,
};
use gdext_bridge::codegen::class_generator::{
    class_constructor, class_memory, make_class, ConstructorKind,
};
use gdext_bridge::codegen::context::{Context, InheritanceTree};
use gdext_bridge::codegen::files::{
    files_to_remove, generate_builtin_class_files, generate_class_files, generate_core_files,
    generate_sys_files, is_builtin_type_deleted, is_deterministic, is_planned, rustfmt_batches,
    FileKind,
};
use gdext_bridge::codegen::module_files::{
    builtin_module_contents, classes_module_contents, fixed_contents, make_builtin_module,
};
use gdext_bridge::codegen::names::{
    prepare_for_snake_case, restore_abbreviations, to_pascal_case, ModName, TyName,
};
use gdext_bridge::codegen::selection::{
    is_class_bound, is_class_excluded, is_method_excluded, is_type_excluded, selected_classes,
    GeneratorConfig,
};
use gdext_bridge::text::{
    contains_char, ends_with, find_char, split_once, starts_with, str_eq, strip_prefix, join_texts, contains_name, copy_names,
};
use gdext_bridge::codegen::types::{
    is_builtin_scalar, rustify_ty, to_hardcoded_rust_type, to_rust_type, RustTy,
};
use gdext_bridge::obj::mem::Memory;

fn class(name: &str, inherits: Option<&str>, refcounted: bool, instantiable: bool) -> Class {
    Class {
        name: name.to_string(),
        is_refcounted: refcounted,
        is_instantiable: instantiable,
        inherits: inherits.map(|s| s.to_string()),
        enums: Vec::new(),
        methods: Vec::new(),
    }
}

fn builtin(name: &str) -> BuiltinClass {
    BuiltinClass {
        name: name.to_string(),
        has_destructor: false,
        constructors: Vec::new(),
        operators: Vec::new(),
        enums: Vec::new(),
    }
}

fn method(name: &str, ret: Option<&str>, args: &[&str]) -> ClassMethod {
    ClassMethod {
        name: name.to_string(),
        is_const: false,
        is_virtual: false,
        return_type: ret.map(|s| s.to_string()),
        arguments: args
            .iter()
            .map(|t| MethodArg { name: "arg".to_string(), type_: t.to_string() })
            .collect(),
    }
}

fn api() -> ExtensionApi {
    ExtensionApi {
        builtin_class_sizes: Vec::new(),
        utility_functions: Vec::new(),
        builtin_classes: vec![
            builtin("Nil"),
            builtin("bool"),
            builtin("int"),
            builtin("float"),
            builtin("String"),
            builtin("Vector2"),
            builtin("AABB"),
            builtin("PackedByteArray"),
        ],
        classes: vec![
            class("Object", None, false, true),
            class("RefCounted", Some("Object"), true, true),
            class("Node", Some("Object"), false, true),
            class("CanvasItem", Some("Node"), false, false),
            class("Node2D", Some("CanvasItem"), false, true),
            class("CPUParticles3D", Some("Node"), false, true),
            class("Input", Some("Object"), false, false),
            class("AudioStreamWAV", Some("RefCounted"), true, true),
        ],
        global_enums: Vec::new(),
        singletons: vec!["Input".to_string()],
        native_structures: vec!["AudioFrame".to_string()],
    }
}

fn paths(files: &[gdext_bridge::codegen::files::GeneratedFile]) -> Vec<&str> {
    files.iter().map(|f| f.path.as_str()).collect()
}

#[test]
fn text_helpers_agree_with_std() {
    assert!(str_eq("abc", "abc"));
    assert!(!str_eq("abc", "abd"));
    assert!(!str_eq("abc", "ab"));
    assert!(starts_with("enum::Error", "enum::"));
    assert!(!starts_with("enum", "enum::"));
    assert!(starts_with("x", ""));
    assert!(ends_with("PackedByteArray", "Array"));
    assert!(!ends_with("PackedScene", "Array"));
    assert!(!ends_with("ray", "Array"));
    assert_eq!(find_char("a.b.c", '.'), Some(1));
    assert_eq!(find_char("abc", '.'), None);
    assert!(contains_char("const void*", '*'));
    assert!(!contains_char("int", '*'));
    assert_eq!(join_texts("ab", "cd"), "abcd");
    assert_eq!(strip_prefix("typedarray::Node", "typedarray::"), Some("Node"));
    assert_eq!(strip_prefix("Node", "typedarray::"), None);
    assert_eq!(split_once("Node.ProcessMode", '.'), Some(("Node", "ProcessMode")));
    assert_eq!(split_once("a.b.c", '.'), Some(("a", "b.c")));
    assert_eq!(split_once("Error", '.'), None);
    assert_eq!(split_once("héllo.wörld", '.'), Some(("héllo", "wörld")));
}

#[test]
fn abbreviations_keep_their_capitals() {
    assert_eq!(restore_abbreviations("GdExtensionManager"), "GDExtensionManager");
    assert_eq!(restore_abbreviations("WebRtcPeerConnectionGdNative"), "WebRtcPeerConnectionGDNative");
    assert_eq!(restore_abbreviations("Node"), "Node");
    assert_eq!(to_pascal_case("WebRTCPeerConnectionGDNative"), "WebRtcPeerConnectionGDNative");
    assert_eq!(to_pascal_case("GDExtensionManager"), "GDExtensionManager");
    assert_eq!(to_pascal_case("JSONRPC"), "JsonRpc");
}

#[test]
fn snake_case_preparation_splits_dimension_suffixes() {
    assert_eq!(prepare_for_snake_case("AStar3D"), "AStar_3d");
    assert_eq!(prepare_for_snake_case("Node2D"), "Node_2d");
    assert_eq!(prepare_for_snake_case("GDExtension"), "Gdextension");
    assert_eq!(prepare_for_snake_case("WebRTCPeerConnectionGDNative"), "WebRTCPeerConnectionGdnative");
    assert_eq!(ModName::from_godot("Node2D").rust_mod, "node_2d");
    assert_eq!(ModName::from_godot("GDExtensionManager").rust_mod, "gdextension_manager");
}

#[test]
fn ty_name_describes_renames() {
    let same = TyName::from_godot("Node");
    assert_eq!(same.godot_ty, "Node");
    assert_eq!(same.rust_ty, "Node");
    assert_eq!(same.description(), "Node");
    let renamed = TyName::from_godot("AABB");
    assert_eq!(renamed.rust_ty, "Aabb");
    assert_eq!(renamed.description(), "AABB  [renamed Aabb]");
}

#[test]
fn context_gathers_names_and_inheritance() {
    let api = api();
    let ctx = Context::build_from_api(&api);
    assert!(ctx.is_builtin("Vector2"));
    assert!(!ctx.is_builtin("Node"));
    assert!(ctx.is_singleton("Input"));
    assert!(!ctx.is_singleton("Node"));
    assert!(ctx.is_native_structure("AudioFrame"));
    assert_eq!(ctx.inheritance_tree.derived_to_base.len(), 7);
    assert_eq!(
        ctx.inheritance_tree.collect_all_bases("Node2D"),
        vec!["CanvasItem", "Node", "Object"]
    );
    assert!(ctx.inheritance_tree.collect_all_bases("Object").is_empty());
    assert!(ctx.inheritance_tree.collect_all_bases("Unknown").is_empty());
    assert_eq!(ctx.inheritance_tree.direct_base("Node").map(|s| s.as_str()), Some("Object"));
    assert_eq!(ctx.inheritance_tree.direct_base("Object"), None);
    assert!(ctx.inheritance_tree.inherits("Node2D", "Node"));
    assert!(ctx.inheritance_tree.inherits("Node2D", "Node2D"));
    assert!(!ctx.inheritance_tree.inherits("Node", "Node2D"));
    assert!(!ctx.inheritance_tree.inherits("Node2D", "RefCounted"));
    assert!(contains_name(&api.singletons, "Input"));
    assert!(!contains_name(&api.singletons, "input"));
    assert_eq!(copy_names(&api.singletons), api.singletons);
}

#[test]
fn cyclic_inheritance_terminates() {
    let mut tree = InheritanceTree::new();
    tree.insert("A", "B");
    tree.insert("B", "A");
    assert_eq!(tree.collect_all_bases("A"), vec!["B", "A"]);
}

#[test]
fn scalars_and_hardcoded_types() {
    assert!(is_builtin_scalar("int"));
    assert!(is_builtin_scalar("bool"));
    assert!(!is_builtin_scalar("Vector2"));
    assert!(!is_builtin_scalar(""));
    assert!(!is_builtin_scalar("_x"));
    assert_eq!(to_hardcoded_rust_type("int").as_deref(), Some("i64"));
    assert_eq!(to_hardcoded_rust_type("float").as_deref(), Some("f64"));
    assert_eq!(to_hardcoded_rust_type("String").as_deref(), Some("GodotString"));
    assert_eq!(to_hardcoded_rust_type("Error").as_deref(), Some("GodotError"));
    assert_eq!(to_hardcoded_rust_type("Node"), None);
    assert_eq!(rustify_ty("bool"), "bool");
    assert_eq!(rustify_ty("AABB"), "Aabb");
}

#[test]
fn rust_types_of_engine_types() {
    let api = api();
    let ctx = Context::build_from_api(&api);
    match to_rust_type("int", &ctx) {
        RustTy::BuiltinIdent(t) => assert_eq!(t, "i64"),
        other => panic!("{:?}", other),
    }
    match to_rust_type("AABB", &ctx) {
        RustTy::BuiltinIdent(t) => assert_eq!(t, "Aabb"),
        other => panic!("{:?}", other),
    }
    match to_rust_type("bool", &ctx) {
        RustTy::BuiltinIdent(t) => assert_eq!(t, "bool"),
        other => panic!("{:?}", other),
    }
    match to_rust_type("PackedInt32Array", &ctx) {
        RustTy::BuiltinIdent(t) => assert_eq!(t, "PackedInt32Array"),
        other => panic!("{:?}", other),
    }
    match to_rust_type("PackedScene", &ctx) {
        RustTy::EngineClass { tokens, class } => {
            assert_eq!(tokens, "Gd<PackedScene>");
            assert_eq!(class, "PackedScene");
        }
        other => panic!("{:?}", other),
    }
    match to_rust_type("CPUParticles3D", &ctx) {
        RustTy::EngineClass { tokens, class } => {
            assert_eq!(tokens, "Gd<CpuParticles3D>");
            assert_eq!(class, "CpuParticles3D");
        }
        other => panic!("{:?}", other),
    }
    match to_rust_type("enum::Node.ProcessMode", &ctx) {
        RustTy::EngineEnum { tokens, surrounding_class } => {
            assert_eq!(tokens, "crate::engine::node::ProcessMode");
            assert_eq!(surrounding_class.as_deref(), Some("Node"));
        }
        other => panic!("{:?}", other),
    }
    match to_rust_type("bitfield::KeyModifierMask", &ctx) {
        RustTy::EngineEnum { tokens, surrounding_class } => {
            assert_eq!(tokens, "crate::engine::global::KeyModifierMask");
            assert_eq!(surrounding_class, None);
        }
        other => panic!("{:?}", other),
    }
    match to_rust_type("typedarray::Vector2", &ctx) {
        RustTy::BuiltinArray(tokens) => assert_eq!(tokens, "Array<Vector2>"),
        other => panic!("{:?}", other),
    }
    match to_rust_type("typedarray::Node2D", &ctx) {
        RustTy::EngineArray { tokens, elem_class } => {
            assert_eq!(tokens, "Array<Gd<Node2D>>");
            assert_eq!(elem_class, "Node2D");
        }
        other => panic!("{:?}", other),
    }
    match to_rust_type("AudioFrame", &ctx) {
        RustTy::BuiltinIdent(t) => assert_eq!(t, "AudioFrame"),
        other => panic!("{:?}", other),
    }
}

#[test]
fn return_declarations() {
    let api = api();
    let ctx = Context::build_from_api(&api);
    assert_eq!(to_rust_type("Node", &ctx).return_decl(), "-> Option<Gd<Node>>");
    assert_eq!(to_rust_type("int", &ctx).return_decl(), "-> i64");
    assert_eq!(to_rust_type("typedarray::Node", &ctx).return_decl(), "-> Array<Gd<Node>>");
    assert_eq!(to_rust_type("Vector2", &ctx).tokens(), "Vector2");
}

#[test]
fn minimal_selection_holds_the_listed_classes() {
    let names = selected_classes();
    assert_eq!(names.len(), 41);
    assert_eq!(names[0], "AnimatedSprite2D");
    assert_eq!(names[13], "HTTPRequest");
    assert_eq!(names[40], "Timer");
    let config = GeneratorConfig::minimal();
    assert!(!is_class_excluded("Node", &config));
    assert!(!is_class_excluded("OS", &config));
    assert!(is_class_excluded("CPUParticles3D", &config));
    assert!(is_class_excluded("node", &config));
    assert!(!is_class_excluded("CPUParticles3D", &GeneratorConfig::full()));
}

#[test]
fn deleted_classes_are_not_bound() {
    let config = GeneratorConfig {
        selected_classes: None,
        deleted_classes: vec!["Thread".to_string()],
    };
    assert!(!is_class_bound("Thread", &config));
    assert!(is_class_bound("Node", &config));
    assert!(!is_class_bound("Mutex", &GeneratorConfig::minimal()));
    assert!(is_class_bound("Node", &GeneratorConfig::minimal()));
}

#[test]
fn types_outside_the_selection_are_excluded() {
    let api = api();
    let ctx = Context::build_from_api(&api);
    let minimal = GeneratorConfig::minimal();
    let full = GeneratorConfig::full();
    assert!(!is_type_excluded("int", &ctx, &minimal));
    assert!(!is_type_excluded("Vector2", &ctx, &minimal));
    assert!(!is_type_excluded("Node", &ctx, &minimal));
    assert!(is_type_excluded("CPUParticles3D", &ctx, &minimal));
    assert!(!is_type_excluded("CPUParticles3D", &ctx, &full));
    assert!(is_type_excluded("typedarray::CPUParticles3D", &ctx, &minimal));
    assert!(!is_type_excluded("typedarray::Node", &ctx, &minimal));
    assert!(!is_type_excluded("typedarray::Vector2", &ctx, &minimal));
    assert!(is_type_excluded("enum::TextServer.Direction", &ctx, &minimal));
    assert!(!is_type_excluded("enum::Node.ProcessMode", &ctx, &minimal));
    assert!(!is_type_excluded("enum::Error", &ctx, &minimal));
}

#[test]
fn methods_are_excluded_by_name_and_signature() {
    let api = api();
    let ctx = Context::build_from_api(&api);
    let minimal = GeneratorConfig::minimal();
    let full = GeneratorConfig::full();
    assert!(is_method_excluded(&method("_process", None, &[]), &ctx, &full));
    assert!(!is_method_excluded(&method("process", None, &[]), &ctx, &full));
    assert!(is_method_excluded(&method("set_data_ptr", None, &["const uint8_t*"]), &ctx, &full));
    assert!(is_method_excluded(&method("get_ptr", Some("void*"), &[]), &ctx, &full));
    assert!(is_method_excluded(
        &method("mix", None, &["int", "Vector2", "AudioFrame*"]),
        &ctx,
        &full
    ));
    assert!(!is_method_excluded(&method("get_node", Some("Node"), &["int"]), &ctx, &minimal));
    assert!(is_method_excluded(&method("emitter", Some("CPUParticles3D"), &[]), &ctx, &minimal));
    assert!(!is_method_excluded(&method("emitter", Some("CPUParticles3D"), &[]), &ctx, &full));
    assert!(is_method_excluded(
        &method("attach", None, &["Node", "CPUParticles3D"]),
        &ctx,
        &minimal
    ));
    assert!(!is_method_excluded(&method("attach", None, &["Node", "Node2D"]), &ctx, &minimal));
}

#[test]
fn memory_and_constructor_of_classes() {
    let api = api();
    let ctx = Context::build_from_api(&api);
    assert_eq!(class_memory("Object", false), Memory::DynamicRefCount);
    assert_eq!(class_memory("Object", true), Memory::DynamicRefCount);
    assert_eq!(class_memory("RefCounted", true), Memory::StaticRefCount);
    assert_eq!(class_memory("Node", false), Memory::ManualMemory);
    assert_eq!(class_constructor(&api.classes[6], &ctx), ConstructorKind::Singleton);
    assert_eq!(class_constructor(&api.classes[3], &ctx), ConstructorKind::NoConstructor);
    assert_eq!(class_constructor(&api.classes[1], &ctx), ConstructorKind::New);
    assert_eq!(class_constructor(&api.classes[2], &ctx), ConstructorKind::NewAlloc);
}

#[test]
fn make_class_decides_names_bases_and_strategy() {
    let mut api = api();
    api.classes[4].enums.push(Enum {
        name: "Mode".to_string(),
        is_bitfield: false,
        values: vec![EnumConstant { name: "MODE_A".to_string(), value: 0 }],
    });
    let ctx = Context::build_from_api(&api);
    let node2d = make_class(&api.classes[4], &ctx);
    assert_eq!(node2d.class_name.godot_ty, "Node2D");
    assert_eq!(node2d.class_name.rust_ty, "Node2D");
    assert_eq!(node2d.module_name.rust_mod, "node_2d");
    assert_eq!(node2d.base.as_deref(), Some("CanvasItem"));
    assert_eq!(node2d.memory, Memory::ManualMemory);
    assert_eq!(node2d.constructor, ConstructorKind::NewAlloc);
    assert_eq!(node2d.all_bases, vec!["CanvasItem", "Node", "Object"]);
    assert_eq!(node2d.inherits_macro_ident, "inherits_transitive_Node2D");
    assert!(node2d.has_pub_module);

    let wav = make_class(&api.classes[7], &ctx);
    assert_eq!(wav.class_name.rust_ty, "AudioStreamWav");
    assert_eq!(wav.module_name.rust_mod, "audio_stream_wav");
    assert_eq!(wav.memory, Memory::StaticRefCount);
    assert_eq!(wav.constructor, ConstructorKind::New);
    assert_eq!(wav.all_bases, vec!["RefCounted", "Object"]);
    assert_eq!(wav.inherits_macro_ident, "inherits_transitive_AudioStreamWav");
    assert!(!wav.has_pub_module);

    let object = make_class(&api.classes[0], &ctx);
    assert_eq!(object.base, None);
    assert_eq!(object.memory, Memory::DynamicRefCount);
    assert!(object.all_bases.is_empty());
}

#[test]
fn sys_files_are_fixed() {
    let files = generate_sys_files();
    assert_eq!(paths(&files), vec!["mod.rs", "central.rs", "codegen-stats.txt"]);
    assert_eq!(files[0].kind, FileKind::SysModule);
    assert_eq!(files[1].kind, FileKind::SysCentral);
    assert_eq!(files[2].kind, FileKind::Stats);
}

#[test]
fn core_files_in_full_mode() {
    let api = api();
    let files = generate_core_files(&api, &GeneratorConfig::full());
    assert_eq!(
        paths(&files),
        vec![
            "mod.rs",
            "central.rs",
            "utilities.rs",
            "classes/object.rs",
            "classes/ref_counted.rs",
            "classes/node.rs",
            "classes/canvas_item.rs",
            "classes/node_2d.rs",
            "classes/cpu_particles_3d.rs",
            "classes/input.rs",
            "classes/audio_stream_wav.rs",
            "classes/mod.rs",
            "builtin_classes/string.rs",
            "builtin_classes/vector2.rs",
            "builtin_classes/aabb.rs",
            "builtin_classes/packed_byte_array.rs",
            "builtin_classes/mod.rs",
            "codegen-stats.txt",
        ]
    );
    assert_eq!(files[3].kind, FileKind::Class { index: 0 });
    assert_eq!(files[10].kind, FileKind::Class { index: 7 });
    assert_eq!(files[11].kind, FileKind::ClassesModule);
    assert_eq!(files[12].kind, FileKind::BuiltinClass { index: 4 });
    assert_eq!(files[16].kind, FileKind::BuiltinClassesModule);
    assert_eq!(files[17].kind, FileKind::Stats);
}

#[test]
fn core_files_in_minimal_mode_skip_unselected_classes() {
    let api = api();
    let files = generate_class_files(&api.classes, &GeneratorConfig::minimal());
    assert_eq!(
        paths(&files),
        vec![
            "classes/object.rs",
            "classes/ref_counted.rs",
            "classes/node.rs",
            "classes/canvas_item.rs",
            "classes/node_2d.rs",
            "classes/input.rs",
        ]
    );
    assert_eq!(files[5].kind, FileKind::Class { index: 6 });
}

#[test]
fn builtin_files_skip_nil_and_scalars() {
    assert!(is_builtin_type_deleted("Nil"));
    assert!(is_builtin_type_deleted("int"));
    assert!(!is_builtin_type_deleted("String"));
    let files = generate_builtin_class_files(&api().builtin_classes);
    assert_eq!(files.len(), 4);
    assert_eq!(files[0].kind, FileKind::BuiltinClass { index: 4 });
}

#[test]
fn generating_twice_gives_identical_plans() {
    let first = generate_core_files(&api(), &GeneratorConfig::minimal());
    let second = generate_core_files(&api(), &GeneratorConfig::minimal());
    assert_eq!(first.len(), second.len());
    for (a, b) in first.iter().zip(second.iter()) {
        assert_eq!(a.path, b.path);
        assert_eq!(a.kind, b.kind);
    }
    let sys_a = generate_sys_files();
    let sys_b = generate_sys_files();
    assert_eq!(paths(&sys_a), paths(&sys_b));
}

#[test]
fn empty_description_still_has_the_aggregate_files() {
    let api = ExtensionApi {
        builtin_class_sizes: Vec::new(),
        utility_functions: Vec::new(),
        builtin_classes: Vec::new(),
        classes: Vec::new(),
        global_enums: Vec::new(),
        singletons: Vec::new(),
        native_structures: Vec::new(),
    };
    let files = generate_core_files(&api, &GeneratorConfig::full());
    assert_eq!(
        paths(&files),
        vec![
            "mod.rs",
            "central.rs",
            "utilities.rs",
            "classes/mod.rs",
            "builtin_classes/mod.rs",
            "codegen-stats.txt",
        ]
    );
}

#[test]
fn files_of_an_earlier_run_are_removed() {
    let api = api();
    let plan = generate_core_files(&api, &GeneratorConfig::minimal());
    let existing: Vec<String> = [
        "mod.rs",
        "stale.rs",
        "classes/node.rs",
        "classes/cpu_particles_3d.rs",
        "classes/mod.rs",
        "builtin_classes/rect2.rs",
        "builtin_classes/vector2.rs",
        "codegen-stats.txt",
        "notes/readme.txt",
    ]
    .iter()
    .map(|s| s.to_string())
    .collect();
    assert_eq!(
        files_to_remove(&existing, &plan),
        vec![
            "stale.rs",
            "classes/cpu_particles_3d.rs",
            "builtin_classes/rect2.rs",
            "notes/readme.txt",
        ]
    );
    assert!(is_planned("classes/node.rs", &plan));
    assert!(!is_planned("classes/cpu_particles_3d.rs", &plan));
    assert!(files_to_remove(&Vec::new(), &plan).is_empty());
    assert_eq!(files_to_remove(&existing, &Vec::new()), existing);
    let written: Vec<String> = plan.iter().map(|f| f.path.clone()).collect();
    assert!(files_to_remove(&written, &plan).is_empty());
}

#[test]
fn formatter_batches_hold_twenty_files_each() {
    let files = |n: usize| -> Vec<String> { (0..n).map(|i| format!("f{}.rs", i)).collect() };
    assert!(rustfmt_batches(&files(0)).is_empty());
    let one = rustfmt_batches(&files(1));
    assert_eq!(one, vec![vec!["f0.rs".to_string()]]);
    let twenty = rustfmt_batches(&files(20));
    assert_eq!(twenty.len(), 1);
    assert_eq!(twenty[0].len(), 20);
    let more = rustfmt_batches(&files(45));
    assert_eq!(more.len(), 3);
    assert_eq!(more[0].len(), 20);
    assert_eq!(more[1].len(), 20);
    assert_eq!(more[2].len(), 5);
    assert_eq!(more[1][0], "f20.rs");
    assert_eq!(more[2][4], "f44.rs");
    let flat: Vec<String> = more.into_iter().flatten().collect();
    assert_eq!(flat, files(45));
    assert_eq!(rustfmt_batches(&files(21)).len(), 2);
    assert_eq!(rustfmt_batches(&files(40)).len(), 2);
}

#[test]
fn fixed_module_files_have_fixed_text() {
    assert_eq!(
        fixed_contents(FileKind::SysModule).as_deref(),
        Some("pub mod central;\npub mod gdextension_interface;\n")
    );
    assert_eq!(
        fixed_contents(FileKind::CoreModule).as_deref(),
        Some("pub mod central;\npub mod classes;\npub mod builtin_classes;\npub mod utilities;\n")
    );
    assert_eq!(fixed_contents(FileKind::SysCentral), None);
    assert_eq!(fixed_contents(FileKind::Class { index: 0 }), None);
    assert_eq!(fixed_contents(FileKind::ClassesModule), None);
    assert_eq!(fixed_contents(FileKind::Stats), None);
}

#[test]
fn classes_module_file_lists_classes_and_macros() {
    let mut api = api();
    api.classes[4].enums.push(Enum {
        name: "Mode".to_string(),
        is_bitfield: false,
        values: vec![EnumConstant { name: "MODE_A".to_string(), value: 0 }],
    });
    let ctx = Context::build_from_api(&api);
    let classes = vec![make_class(&api.classes[2], &ctx), make_class(&api.classes[4], &ctx)];
    let expected = "mod node;\n\
pub use node::re_export::Node;\n\
pub mod node_2d;\n\
pub use node_2d::re_export::Node2D;\n\
\n\
#[doc(hidden)]\n\
pub mod class_macros {\n    pub use crate::*;\n    pub use inherits_transitive_Node;\n    pub use inherits_transitive_Node2D;\n}\n";
    assert_eq!(classes_module_contents(&classes), expected);
    assert_eq!(classes_module_contents(&classes), classes_module_contents(&classes));
    assert_eq!(
        classes_module_contents(&Vec::new()),
        "\n#[doc(hidden)]\npub mod class_macros {\n    pub use crate::*;\n}\n"
    );
}

#[test]
fn builtin_module_file_lists_inner_types() {
    let api = api();
    let modules = vec![
        make_builtin_module(&api.builtin_classes[5]),
        make_builtin_module(&api.builtin_classes[6]),
    ];
    assert_eq!(modules[1].class_name.godot_ty, "InnerAABB");
    assert_eq!(modules[1].class_name.rust_ty, "InnerAabb");
    assert_eq!(modules[1].module_name.rust_mod, "aabb");
    assert_eq!(
        builtin_module_contents(&modules),
        "mod vector2;\npub use vector2::InnerVector2;\nmod aabb;\npub use aabb::InnerAabb;\n"
    );
    assert_eq!(builtin_module_contents(&Vec::new()), "");
}

#[test]
fn only_the_statistics_differ_between_runs() {
    let plan = generate_core_files(&api(), &GeneratorConfig::full());
    let (last, rest) = plan.split_last().unwrap();
    assert_eq!(last.kind, FileKind::Stats);
    assert!(!is_deterministic(last.kind));
    assert!(rest.iter().all(|f| is_deterministic(f.kind)));
    let sys = generate_sys_files();
    assert!(!is_deterministic(sys[2].kind));
    assert!(is_deterministic(sys[0].kind) && is_deterministic(sys[1].kind));
}

#[test]
fn every_file_is_formatted_exactly_once() {
    for n in [0usize, 1, 19, 20, 21, 39, 40, 41, 100] {
        let files: Vec<String> = (0..n).map(|i| format!("f{}.rs", i)).collect();
        let batches = rustfmt_batches(&files);
        assert_eq!(batches.len(), (n + 19) / 20);
        for (i, batch) in batches.iter().enumerate() {
            let expected = if 20 * (i + 1) <= n { 20 } else { n - 20 * i };
            assert_eq!(batch.len(), expected);
        }
        let flat: Vec<String> = batches.into_iter().flatten().collect();
        assert_eq!(flat, files);
    }
}

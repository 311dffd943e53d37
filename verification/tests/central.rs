use gdext_bridge::builtin::variant::call::{check_call, CallError};
use gdext_bridge::builtin::variant::variant_type::VariantType;
use gdext_bridge::codegen::api::{
    BuiltinClass, BuiltinClassSizes, ClassSize, Constructor, Enum, EnumConstant, ExtensionApi,
    MethodArg, Operator,
};
use gdext_bridge::codegen::central_generator::{
    collect_builtin_types, constructor_field, destructor_field, find_builtin_class, find_enum,
    find_sizes, is_global_enum_generated, opaque_type_name, operator_enumerator, operator_field,
    operator_sys_name, right_variant_type, CollectError,
};
use gdext_bridge::codegen::enums::{insert_ord, unique_ords};
use gdext_bridge::text::{ascii_lower, lower, lower_without};

fn constant(name: &str, value: i32) -> EnumConstant {
    EnumConstant { name: name.to_string(), value }
}

fn builtin(name: &str, has_destructor: bool) -> BuiltinClass {
    BuiltinClass {
        name: name.to_string(),
        has_destructor,
        constructors: Vec::new(),
        operators: Vec::new(),
        enums: Vec::new(),
    }
}

fn api(values: Vec<EnumConstant>) -> ExtensionApi {
    ExtensionApi {
        builtin_class_sizes: Vec::new(),
        utility_functions: Vec::new(),
        builtin_classes: vec![
            builtin("Nil", false),
            builtin("bool", false),
            builtin("int", false),
            builtin("String", true),
            builtin("Vector2i", false),
            builtin("AABB", false),
            builtin("PackedByteArray", true),
        ],
        classes: Vec::new(),
        global_enums: vec![
            Enum { name: "Side".to_string(), is_bitfield: false, values: Vec::new() },
            Enum { name: "Variant.Type".to_string(), is_bitfield: false, values },
            Enum { name: "Variant.Operator".to_string(), is_bitfield: false, values: Vec::new() },
        ],
        singletons: Vec::new(),
        native_structures: Vec::new(),
    }
}

#[test]
fn lowering_text() {
    assert_eq!(ascii_lower('A'), 'a');
    assert_eq!(ascii_lower('Z'), 'z');
    assert_eq!(ascii_lower('a'), 'a');
    assert_eq!(ascii_lower('_'), '_');
    assert_eq!(ascii_lower('É'), 'É');
    assert_eq!(ascii_lower('@'), '@');
    assert_eq!(ascii_lower('['), '[');
    assert_eq!(lower("PackedByteArray"), "packedbytearray");
    assert_eq!(lower("AABB_x"), "aabb_x");
    assert_eq!(lower_without("PACKED_BYTE_ARRAY", '_'), "packedbytearray");
    assert_eq!(lower_without("__A__", '_'), "a");
    assert_eq!(lower_without("", '_'), "");
}

#[test]
fn builtin_types_follow_the_variant_type_enum() {
    let api = api(vec![
        constant("TYPE_NIL", 0),
        constant("TYPE_BOOL", 1),
        constant("TYPE_INT", 2),
        constant("TYPE_STRING", 4),
        constant("TYPE_VECTOR2I", 6),
        constant("TYPE_AABB", 16),
        constant("TYPE_OBJECT", 24),
        constant("TYPE_PACKED_BYTE_ARRAY", 29),
        constant("TYPE_MAX", 38),
    ]);
    let infos = collect_builtin_types(&api).unwrap();
    let names: Vec<&str> = infos.iter().map(|i| i.type_names.json_builtin_name.as_str()).collect();
    assert_eq!(
        names,
        vec!["bool", "int", "String", "Vector2i", "AABB", "Object", "PackedByteArray"]
    );
    let values: Vec<i32> = infos.iter().map(|i| i.value).collect();
    assert_eq!(values, vec![1, 2, 4, 6, 16, 24, 29]);
    assert_eq!(infos[6].type_names.snake_case, "packed_byte_array");
    assert_eq!(
        infos[6].type_names.sys_variant_type,
        "GDEXTENSION_VARIANT_TYPE_PACKED_BYTE_ARRAY"
    );
    assert!(infos[6].has_destructor);
    assert_eq!(infos[6].class_index, Some(6));
    assert_eq!(infos[4].type_names.snake_case, "aabb");
    assert_eq!(infos[3].type_names.snake_case, "vector2i");
    assert_eq!(infos[5].type_names.snake_case, "object");
    assert_eq!(infos[5].type_names.sys_variant_type, "GDEXTENSION_VARIANT_TYPE_OBJECT");
    assert_eq!(infos[5].class_index, None);
    assert!(!infos[5].has_destructor);
    assert!(infos[2].has_destructor);
    assert!(!infos[0].has_destructor);
}

#[test]
fn builtin_types_need_the_variant_type_enum() {
    let mut api = api(Vec::new());
    api.global_enums.remove(1);
    assert_eq!(collect_builtin_types(&api).err(), Some(CollectError::MissingVariantTypeEnum));
    assert_eq!(find_enum(&api.global_enums, "Variant.Type"), None);
    assert_eq!(find_enum(&api.global_enums, "Variant.Operator"), Some(1));
}

#[test]
fn enumerator_without_prefix_is_rejected() {
    let api = api(vec![constant("TYPE_BOOL", 1), constant("KIND_INT", 2)]);
    assert_eq!(
        collect_builtin_types(&api).err(),
        Some(CollectError::EnumeratorWithoutPrefix { index: 1 })
    );
}

#[test]
fn unknown_builtin_type_is_rejected() {
    let api = api(vec![
        constant("TYPE_NIL", 0),
        constant("TYPE_BOOL", 1),
        constant("TYPE_QUATERNION", 15),
        constant("TYPE_KIND_INT", 2),
    ]);
    assert_eq!(
        collect_builtin_types(&api).err(),
        Some(CollectError::UnknownBuiltinType { index: 2 })
    );
}

#[test]
fn empty_variant_type_enum_gives_no_types() {
    assert!(collect_builtin_types(&api(Vec::new())).unwrap().is_empty());
    let only_markers = api(vec![constant("TYPE_NIL", 0), constant("TYPE_MAX", 38)]);
    assert!(collect_builtin_types(&only_markers).unwrap().is_empty());
}

#[test]
fn builtin_class_is_found_by_its_name_in_lower_case() {
    let api = api(Vec::new());
    assert_eq!(find_builtin_class(&api.builtin_classes, "aabb"), Some(5));
    assert_eq!(find_builtin_class(&api.builtin_classes, "nil"), Some(0));
    assert_eq!(find_builtin_class(&api.builtin_classes, "AABB"), None);
    assert_eq!(find_builtin_class(&api.builtin_classes, "object"), None);
}

#[test]
fn unique_ords_are_sorted_and_distinct() {
    let values = vec![
        constant("C", 5),
        constant("A", -1),
        constant("B", 5),
        constant("D", 0),
        constant("E", -1),
        constant("F", i32::MAX),
        constant("G", i32::MIN),
        constant("H", 5),
    ];
    assert_eq!(unique_ords(&values), vec![i32::MIN, -1, 0, 5, i32::MAX]);
    assert_eq!(unique_ords(&Vec::new()), Vec::<i32>::new());
    assert_eq!(unique_ords(&vec![constant("X", 3)]), vec![3]);
    assert_eq!(unique_ords(&vec![constant("X", 3), constant("Y", 3)]), vec![3]);
    assert_eq!(unique_ords(&vec![constant("X", 2), constant("Y", 1)]), vec![1, 2]);
}

#[test]
fn call_errors_follow_the_engine_codes() {
    assert_eq!(check_call(0, 0, 0), Ok(()));
    assert_eq!(check_call(0, 7, 9), Ok(()));
    assert_eq!(check_call(1, 0, 0), Err(CallError::InvalidMethod));
    assert_eq!(
        check_call(2, 1, 2),
        Err(CallError::InvalidArgument { argument: 1, expected_type: Some(VariantType::Int) })
    );
    assert_eq!(
        check_call(2, 0, 99),
        Err(CallError::InvalidArgument { argument: 0, expected_type: None })
    );
    assert_eq!(check_call(3, 0, 2), Err(CallError::TooManyArguments { expected: 2 }));
    assert_eq!(check_call(4, 0, 3), Err(CallError::TooFewArguments { expected: 3 }));
    assert_eq!(check_call(5, 0, 0), Err(CallError::InstanceIsNull));
    assert_eq!(check_call(6, 0, 0), Err(CallError::MethodNotConst));
    assert_eq!(check_call(7, 0, 0), Err(CallError::Unknown { code: 7 }));
    assert_eq!(check_call(-1, 0, 0), Err(CallError::Unknown { code: -1 }));
}

#[test]
fn insert_ord_keeps_order_and_skips_repeats() {
    let mut ords = Vec::new();
    insert_ord(&mut ords, 5);
    assert_eq!(ords, vec![5]);
    insert_ord(&mut ords, 1);
    insert_ord(&mut ords, 9);
    insert_ord(&mut ords, 5);
    insert_ord(&mut ords, 7);
    insert_ord(&mut ords, 1);
    insert_ord(&mut ords, 9);
    assert_eq!(ords, vec![1, 5, 7, 9]);
}

#[test]
fn variant_enums_are_not_written_on_their_own() {
    assert!(!is_global_enum_generated("Variant.Type"));
    assert!(!is_global_enum_generated("Variant.Operator"));
    assert!(is_global_enum_generated("Side"));
    assert!(is_global_enum_generated("Variant"));
}

#[test]
fn builtin_types_carry_constructors_and_operators() {
    let mut api = api(vec![constant("TYPE_VECTOR2I", 6), constant("TYPE_OBJECT", 24)]);
    api.builtin_classes[4].constructors = vec![
        Constructor { index: 0, arguments: Vec::new() },
        Constructor {
            index: 1,
            arguments: vec![
                MethodArg { name: "x".to_string(), type_: "int".to_string() },
                MethodArg { name: "y".to_string(), type_: "int".to_string() },
            ],
        },
    ];
    api.builtin_classes[4].operators = vec![
        Operator {
            name: "==".to_string(),
            right_type: Some("Vector2i".to_string()),
            return_type: "bool".to_string(),
        },
        Operator { name: "unary-".to_string(), right_type: None, return_type: "Vector2i".to_string() },
    ];
    let infos = collect_builtin_types(&api).unwrap();
    assert_eq!(infos.len(), 2);
    assert_eq!(infos[0].constructors.len(), 2);
    assert_eq!(infos[0].constructors[1].index, 1);
    assert_eq!(infos[0].constructors[1].arguments.len(), 2);
    assert_eq!(infos[0].constructors[1].arguments[1].name, "y");
    assert_eq!(infos[0].constructors[1].arguments[1].type_, "int");
    assert_eq!(infos[0].operators.len(), 2);
    assert_eq!(infos[0].operators[0].name, "==");
    assert_eq!(infos[0].operators[0].right_type.as_deref(), Some("Vector2i"));
    assert_eq!(infos[0].operators[1].right_type, None);
    assert_eq!(infos[0].operators[1].return_type, "Vector2i");
    assert!(infos[1].constructors.is_empty());
    assert!(infos[1].operators.is_empty());
}

#[test]
fn sizes_are_found_by_build_configuration() {
    let mut api = api(Vec::new());
    api.builtin_class_sizes = vec![
        BuiltinClassSizes {
            build_configuration: "float_32".to_string(),
            sizes: vec![ClassSize { name: "int".to_string(), size: 8 }],
        },
        BuiltinClassSizes {
            build_configuration: "float_64".to_string(),
            sizes: vec![ClassSize { name: "Vector2".to_string(), size: 8 }],
        },
        BuiltinClassSizes { build_configuration: "float_64".to_string(), sizes: Vec::new() },
    ];
    assert_eq!(find_sizes(&api, "float_32"), Some(0));
    assert_eq!(find_sizes(&api, "float_64"), Some(1));
    assert_eq!(find_sizes(&api, "double_64"), None);
}

#[test]
fn opaque_type_names_are_capitalised() {
    assert_eq!(opaque_type_name("int"), "OpaqueInt");
    assert_eq!(opaque_type_name("Vector2"), "OpaqueVector2");
    assert_eq!(opaque_type_name("bool"), "OpaqueBool");
    assert_eq!(opaque_type_name("x"), "OpaqueX");
    assert_eq!(opaque_type_name("_x"), "Opaque_x");
}

#[test]
fn operators_are_named_as_the_engine_names_them() {
    assert_eq!(operator_enumerator("==").as_deref(), Some("EQUAL"));
    assert_eq!(operator_enumerator("!=").as_deref(), Some("NOT_EQUAL"));
    assert_eq!(operator_enumerator("<=").as_deref(), Some("LESS_EQUAL"));
    assert_eq!(operator_enumerator("unary-").as_deref(), Some("NEGATE"));
    assert_eq!(operator_enumerator("%").as_deref(), Some("MODULE"));
    assert_eq!(operator_enumerator("**").as_deref(), Some("POWER"));
    assert_eq!(operator_enumerator("in").as_deref(), Some("IN"));
    assert_eq!(operator_enumerator("not").as_deref(), Some("NOT"));
    assert_eq!(operator_enumerator("=>"), None);
    assert_eq!(operator_enumerator(""), None);
}

#[test]
fn method_table_fields_are_named_after_type_and_entry() {
    let api = api(vec![
        constant("TYPE_INT", 2),
        constant("TYPE_VECTOR2I", 6),
        constant("TYPE_PACKED_BYTE_ARRAY", 29),
    ]);
    let types = collect_builtin_types(&api).unwrap();
    assert_eq!(destructor_field(&types[2]), "packed_byte_array_destroy");
    assert_eq!(constructor_field(&types[1], 0), "vector2i_construct_0");
    assert_eq!(constructor_field(&types[1], 12), "vector2i_construct_12");
    assert_eq!(constructor_field(&types[2], 305), "packed_byte_array_construct_305");
    assert_eq!(operator_field(&types[1], "EQUAL", Some("Vector2i")), "vector2i_operator_equal_vector2i");
    assert_eq!(
        operator_field(&types[1], "MULTIPLY", Some("PackedByteArray")),
        "vector2i_operator_multiply_packed_byte_array"
    );
    assert_eq!(operator_field(&types[1], "NEGATE", None), "vector2i_operator_negate");
    assert_eq!(operator_field(&types[0], "NOT_EQUAL", Some("int")), "int_operator_not_equal_int");
    assert_eq!(operator_sys_name("EQUAL"), "GDEXTENSION_VARIANT_OP_EQUAL");
}

#[test]
fn right_operand_is_resolved_to_its_variant_type() {
    let api = api(vec![
        constant("TYPE_INT", 2),
        constant("TYPE_VECTOR2I", 6),
        constant("TYPE_OBJECT", 24),
    ]);
    let types = collect_builtin_types(&api).unwrap();
    assert_eq!(right_variant_type(&types, Some("int")), "GDEXTENSION_VARIANT_TYPE_INT");
    assert_eq!(right_variant_type(&types, Some("Vector2i")), "GDEXTENSION_VARIANT_TYPE_VECTOR2I");
    assert_eq!(right_variant_type(&types, Some("Object")), "GDEXTENSION_VARIANT_TYPE_OBJECT");
    assert_eq!(right_variant_type(&types, Some("Variant")), "GDEXTENSION_VARIANT_TYPE_NIL");
    assert_eq!(right_variant_type(&types, Some("vector2i")), "GDEXTENSION_VARIANT_TYPE_NIL");
    assert_eq!(right_variant_type(&types, None), "GDEXTENSION_VARIANT_TYPE_NIL");
    assert_eq!(right_variant_type(&Vec::new(), Some("int")), "GDEXTENSION_VARIANT_TYPE_NIL");
}

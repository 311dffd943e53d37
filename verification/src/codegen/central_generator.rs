//! What the central files need to know about each builtin type.
//!
//! The engine lists its variant types as the enumerators of the global enum
//! `Variant.Type`, spelled in capitals (`TYPE_PACKED_BYTE_ARRAY`), and its
//! builtin classes under their own names (`PackedByteArray`). The two are
//! matched here, and the names under which each type appears in generated
//! code are derived.

use vstd::prelude::*;
use vstd::string::*;
use crate::builtin::decimal::{digits, index_text};
use crate::codegen::api::{
    constructor_views,
    copy_constructors,
    copy_operators,
    operator_views,
    BuiltinClass,
    BuiltinClassSizes,
    Constructor,
    ConstructorView,
    Enum,
    EnumConstant,
    ExtensionApi,
    Operator,
    OperatorView,
};
use crate::codegen::names::{snake_case_of, to_snake_case};
use crate::text::{
    join_texts,
    lower,
    lower_without,
    lowered,
    lowered_without,
    push_char,
    str_eq,
    strip_prefix,
};

verus! {

/// The names of one builtin type.
#[derive(Debug)]
pub struct TypeNames {
    /// The name in the description: `int` or `PackedVector2Array`.
    pub json_builtin_name: String,
    /// `packed_vector2_array`
    pub snake_case: String,
    /// `GDEXTENSION_VARIANT_TYPE_PACKED_VECTOR2_ARRAY`
    pub sys_variant_type: String,
}

/// What is known of one builtin type before its methods are generated.
#[derive(Debug)]
pub struct BuiltinTypeInfo {
    /// The number of the variant type.
    pub value: i32,
    pub type_names: TypeNames,
    /// Whether values of the type must be destroyed.
    pub has_destructor: bool,
    /// The constructors of the type; none for `Object`.
    pub constructors: Vec<Constructor>,
    /// The operators of the type; none for `Object`.
    pub operators: Vec<Operator>,
    /// The position of the builtin class in the description; `None` for
    /// `Object`, which is a class of its own kind.
    pub class_index: Option<usize>,
}

/// Why the builtin types cannot be collected.
#[derive(Copy, Clone, Debug, PartialEq, Eq, Structural)]
pub enum CollectError {
    /// The description has no global enum `Variant.Type`.
    MissingVariantTypeEnum,
    /// The enumerator at this position does not begin with `TYPE_`.
    EnumeratorWithoutPrefix { index: usize },
    /// The enumerator at this position names no builtin class.
    UnknownBuiltinType { index: usize },
}

pub struct BuiltinTypeInfoView {
    pub value: i32,
    pub json_builtin_name: Seq<char>,
    pub snake_case: Seq<char>,
    pub sys_variant_type: Seq<char>,
    pub has_destructor: bool,
    pub constructors: Seq<ConstructorView>,
    pub operators: Seq<OperatorView>,
    pub class_index: Option<usize>,
}

impl View for BuiltinTypeInfo {
    type V = BuiltinTypeInfoView;

    open spec fn view(&self) -> BuiltinTypeInfoView {
        BuiltinTypeInfoView {
            value: self.value,
            json_builtin_name: self.type_names.json_builtin_name@,
            snake_case: self.type_names.snake_case@,
            sys_variant_type: self.type_names.sys_variant_type@,
            has_destructor: self.has_destructor,
            constructors: constructor_views(self.constructors@),
            operators: operator_views(self.operators@),
            class_index: self.class_index,
        }
    }
}

/// The views of a sequence of builtin types, in order.
pub open spec fn type_info_views(infos: Seq<BuiltinTypeInfo>) -> Seq<BuiltinTypeInfoView> {
    Seq::new(infos.len(), |i: int| infos[i]@)
}

/// The position of the first enum named `name`, or the number of enums where
/// there is none.
pub open spec fn enum_position(enums: Seq<Enum>, name: Seq<char>) -> int
    decreases enums.len(),
{
    if enums.len() == 0 {
        0
    } else if enums[0].name@ == name {
        0
    } else {
        1 + enum_position(enums.drop_first(), name)
    }
}

/// The position of the first builtin class whose name, in lower case, is
/// `normalized`, or the number of classes where there is none.
pub open spec fn class_position(classes: Seq<BuiltinClass>, normalized: Seq<char>) -> int
    decreases classes.len(),
{
    if classes.len() == 0 {
        0
    } else if lowered(classes[0].name@) == normalized {
        0
    } else {
        1 + class_position(classes.drop_first(), normalized)
    }
}

/// What one enumerator of `Variant.Type` comes to.
pub enum EnumeratorOutcome {
    /// `TYPE_NIL` and `TYPE_MAX` name no type.
    Skipped,
    Type(BuiltinTypeInfoView),
    Rejected(CollectError),
}

/// What the enumerator `name` with the number `value`, at position `index`,
/// comes to, given the builtin classes.
pub open spec fn enumerator_outcome(
    name: Seq<char>,
    value: i32,
    index: int,
    classes: Seq<BuiltinClass>,
) -> EnumeratorOutcome {
    if !"TYPE_"@.is_prefix_of(name) {
        EnumeratorOutcome::Rejected(CollectError::EnumeratorWithoutPrefix { index: index as usize })
    } else {
        let shout_case = name.skip("TYPE_"@.len() as int);
        if shout_case == "NIL"@ || shout_case == "MAX"@ {
            EnumeratorOutcome::Skipped
        } else {
            let normalized = lowered_without(shout_case, '_');
            let p = class_position(classes, normalized);
            if p < classes.len() {
                EnumeratorOutcome::Type(
                    BuiltinTypeInfoView {
                        value,
                        json_builtin_name: classes[p].name@,
                        snake_case: snake_case_of(classes[p].name@),
                        sys_variant_type: "GDEXTENSION_VARIANT_TYPE_"@ + shout_case,
                        has_destructor: classes[p].has_destructor,
                        constructors: constructor_views(classes[p].constructors@),
                        operators: operator_views(classes[p].operators@),
                        class_index: Some(p as usize),
                    },
                )
            } else if normalized == "object"@ {
                EnumeratorOutcome::Type(
                    BuiltinTypeInfoView {
                        value,
                        json_builtin_name: "Object"@,
                        snake_case: snake_case_of("Object"@),
                        sys_variant_type: "GDEXTENSION_VARIANT_TYPE_"@ + shout_case,
                        has_destructor: false,
                        constructors: Seq::empty(),
                        operators: Seq::empty(),
                        class_index: None,
                    },
                )
            } else {
                EnumeratorOutcome::Rejected(
                    CollectError::UnknownBuiltinType { index: index as usize },
                )
            }
        }
    }
}

/// The builtin types that the enumerators `values` name, in order, or the
/// first rejection met on the way.
pub open spec fn collected(values: Seq<EnumConstant>, classes: Seq<BuiltinClass>) -> Result<
    Seq<BuiltinTypeInfoView>,
    CollectError,
>
    decreases values.len(),
{
    if values.len() == 0 {
        Ok(Seq::empty())
    } else {
        match collected(values.drop_last(), classes) {
            Err(e) => Err(e),
            Ok(front) => match enumerator_outcome(
                values.last().name@,
                values.last().value,
                values.len() - 1,
                classes,
            ) {
                EnumeratorOutcome::Skipped => Ok(front),
                EnumeratorOutcome::Type(info) => Ok(front.push(info)),
                EnumeratorOutcome::Rejected(e) => Err(e),
            },
        }
    }
}

/// The builtin types of a description, or why they cannot be collected.
pub open spec fn builtin_types_of(enums: Seq<Enum>, classes: Seq<BuiltinClass>) -> Result<
    Seq<BuiltinTypeInfoView>,
    CollectError,
> {
    let p = enum_position(enums, "Variant.Type"@);
    if p < enums.len() {
        collected(enums[p].values@, classes)
    } else {
        Err(CollectError::MissingVariantTypeEnum)
    }
}

/// `p` is the position of the first enum named `name` when no enum before
/// `p` carries the name and `p` is the end or carries it.
pub proof fn lemma_enum_position(enums: Seq<Enum>, name: Seq<char>, p: int)
    requires
        0 <= p <= enums.len(),
        forall|k: int| 0 <= k < p ==> (#[trigger] enums[k]).name@ != name,
        p < enums.len() ==> enums[p].name@ == name,
    ensures
        enum_position(enums, name) == p,
    decreases enums.len(),
{
    if enums.len() > 0 && p > 0 {
        let rest = enums.drop_first();
        assert(enums[0].name@ != name);
        assert forall|k: int| 0 <= k < p - 1 implies (#[trigger] rest[k]).name@ != name by {
            assert(rest[k] == enums[k + 1]);
        }
        lemma_enum_position(rest, name, p - 1);
    }
}

/// `p` is the position of the first class that is `normalized` in lower case
/// when no class before `p` is and `p` is the end or is.
pub proof fn lemma_class_position(classes: Seq<BuiltinClass>, normalized: Seq<char>, p: int)
    requires
        0 <= p <= classes.len(),
        forall|k: int| 0 <= k < p ==> lowered((#[trigger] classes[k]).name@) != normalized,
        p < classes.len() ==> lowered(classes[p].name@) == normalized,
    ensures
        class_position(classes, normalized) == p,
    decreases classes.len(),
{
    if classes.len() > 0 && p > 0 {
        let rest = classes.drop_first();
        assert(lowered(classes[0].name@) != normalized);
        assert forall|k: int| 0 <= k < p - 1 implies lowered((#[trigger] rest[k]).name@)
            != normalized by {
            assert(rest[k] == classes[k + 1]);
        }
        lemma_class_position(rest, normalized, p - 1);
    }
}

/// Once a prefix of the enumerators is rejected, the whole is rejected in
/// the same way.
pub proof fn lemma_collected_prefix_error(
    values: Seq<EnumConstant>,
    classes: Seq<BuiltinClass>,
    n: int,
)
    requires
        0 <= n <= values.len(),
        collected(values.take(n), classes).is_err(),
    ensures
        collected(values, classes) == collected(values.take(n), classes),
    decreases values.len(),
{
    if n < values.len() {
        let front = values.drop_last();
        assert(front.take(n) =~= values.take(n));
        lemma_collected_prefix_error(front, classes, n);
    } else {
        assert(values.take(n) =~= values);
    }
}

/// The position of the first enum named `name`, if there is one.
pub fn find_enum(enums: &Vec<Enum>, name: &str) -> (position: Option<usize>)
    ensures
        match position {
            Some(p) => p < enums.len() && p == enum_position(enums@, name@),
            None => enum_position(enums@, name@) == enums.len(),
        },
{
    let mut i: usize = 0;
    while i < enums.len()
        invariant
            i <= enums.len(),
            forall|k: int| 0 <= k < i ==> (#[trigger] enums@[k]).name@ != name@,
        decreases enums.len() - i,
    {
        if str_eq(enums[i].name.as_str(), name) {
            proof {
                lemma_enum_position(enums@, name@, i as int);
            }
            return Some(i);
        }
        i = i + 1;
    }
    proof {
        lemma_enum_position(enums@, name@, i as int);
    }
    None
}

/// The position of the first builtin class whose name, in lower case, is
/// `normalized`, if there is one.
pub fn find_builtin_class(classes: &Vec<BuiltinClass>, normalized: &str) -> (position: Option<
    usize,
>)
    ensures
        match position {
            Some(p) => p < classes.len() && p == class_position(classes@, normalized@),
            None => class_position(classes@, normalized@) == classes.len(),
        },
{
    let mut i: usize = 0;
    while i < classes.len()
        invariant
            i <= classes.len(),
            forall|k: int| 0 <= k < i ==> lowered((#[trigger] classes@[k]).name@) != normalized@,
        decreases classes.len() - i,
    {
        let lowered_name = lower(classes[i].name.as_str());
        if str_eq(lowered_name.as_str(), normalized) {
            proof {
                lemma_class_position(classes@, normalized@, i as int);
            }
            return Some(i);
        }
        i = i + 1;
    }
    proof {
        lemma_class_position(classes@, normalized@, i as int);
    }
    None
}

/// Collects the builtin types of `api`: one for each enumerator of
/// `Variant.Type` but `TYPE_NIL` and `TYPE_MAX`, in the order of the
/// enumerators, each matched to the builtin class of the same name
/// (compared in lower case, without underscores) or to `Object`.
pub fn collect_builtin_types(api: &ExtensionApi) -> (result: Result<
    Vec<BuiltinTypeInfo>,
    CollectError,
>)
    ensures
        match result {
            Ok(infos) => builtin_types_of(api.global_enums@, api.builtin_classes@) == Ok::<
                Seq<BuiltinTypeInfoView>,
                CollectError,
            >(type_info_views(infos@)),
            Err(e) => builtin_types_of(api.global_enums@, api.builtin_classes@) == Err::<
                Seq<BuiltinTypeInfoView>,
                CollectError,
            >(e),
        },
{
    let variant_type_enum = match find_enum(&api.global_enums, "Variant.Type") {
        Some(p) => &api.global_enums[p],
        None => {
            return Err(CollectError::MissingVariantTypeEnum);
        },
    };
    let values = &variant_type_enum.values;
    let ghost classes = api.builtin_classes@;
    let mut infos: Vec<BuiltinTypeInfo> = Vec::new();
    let mut index: usize = 0;
    proof {
        assert(values@.take(0) =~= Seq::<EnumConstant>::empty());
        assert(type_info_views(infos@) =~= Seq::<BuiltinTypeInfoView>::empty());
    }
    while index < values.len()
        invariant
            index <= values.len(),
            classes == api.builtin_classes@,
            builtin_types_of(api.global_enums@, classes) == collected(values@, classes),
            collected(values@.take(index as int), classes) == Ok::<
                Seq<BuiltinTypeInfoView>,
                CollectError,
            >(type_info_views(infos@)),
        decreases values.len() - index,
    {
        let ty = &values[index];
        proof {
            assert(values@.take(index + 1).drop_last() =~= values@.take(index as int));
            assert(values@.take(index + 1).last() == *ty);
        }
        let shout_case = match strip_prefix(ty.name.as_str(), "TYPE_") {
            Some(rest) => rest,
            None => {
                proof {
                    lemma_collected_prefix_error(values@, classes, index + 1);
                }
                return Err(CollectError::EnumeratorWithoutPrefix { index });
            },
        };
        if !(str_eq(shout_case, "NIL") || str_eq(shout_case, "MAX")) {
            let normalized = lower_without(shout_case, '_');
            let sys_variant_type = join_texts("GDEXTENSION_VARIANT_TYPE_", shout_case);
            let ghost before = type_info_views(infos@);
            let info = match find_builtin_class(&api.builtin_classes, normalized.as_str()) {
                Some(p) => {
                    let class = &api.builtin_classes[p];
                    BuiltinTypeInfo {
                        value: ty.value,
                        type_names: TypeNames {
                            json_builtin_name: class.name.clone(),
                            snake_case: to_snake_case(class.name.as_str()),
                            sys_variant_type,
                        },
                        has_destructor: class.has_destructor,
                        constructors: copy_constructors(&class.constructors),
                        operators: copy_operators(&class.operators),
                        class_index: Some(p),
                    }
                },
                None => {
                    if !str_eq(normalized.as_str(), "object") {
                        proof {
                            lemma_collected_prefix_error(values@, classes, index + 1);
                        }
                        return Err(CollectError::UnknownBuiltinType { index });
                    }
                    let info = BuiltinTypeInfo {
                        value: ty.value,
                        type_names: TypeNames {
                            json_builtin_name: String::from_str("Object"),
                            snake_case: to_snake_case("Object"),
                            sys_variant_type,
                        },
                        has_destructor: false,
                        constructors: Vec::new(),
                        operators: Vec::new(),
                        class_index: None,
                    };
                    proof {
                        assert(constructor_views(info.constructors@) =~= Seq::<
                            ConstructorView,
                        >::empty());
                        assert(operator_views(info.operators@) =~= Seq::<OperatorView>::empty());
                    }
                    info
                },
            };
            infos.push(info);
            proof {
                assert(type_info_views(infos@) =~= before.push(info@));
            }
        }
        index = index + 1;
    }
    proof {
        assert(values@.take(index as int) =~= values@);
    }
    Ok(infos)
}

/// Whether the global enum `name` is written as an enum of its own: the
/// enums of the variant types and operators are not, they are written with
/// the variant.
pub open spec fn global_enum_generated(name: Seq<char>) -> bool {
    name != "Variant.Type"@ && name != "Variant.Operator"@
}

/// Whether the global enum `name` is written as an enum of its own.
pub fn is_global_enum_generated(name: &str) -> (generated: bool)
    ensures
        generated == global_enum_generated(name@),
{
    !str_eq(name, "Variant.Type") && !str_eq(name, "Variant.Operator")
}

/// The position of the first list of sizes for `build_config`, or the number
/// of lists where there is none.
pub open spec fn sizes_position(lists: Seq<BuiltinClassSizes>, build_config: Seq<char>) -> int
    decreases lists.len(),
{
    if lists.len() == 0 {
        0
    } else if lists[0].build_configuration@ == build_config {
        0
    } else {
        1 + sizes_position(lists.drop_first(), build_config)
    }
}

/// `p` is the position of the first list for `build_config` when no list
/// before `p` is for it and `p` is the end or is for it.
pub proof fn lemma_sizes_position(lists: Seq<BuiltinClassSizes>, build_config: Seq<char>, p: int)
    requires
        0 <= p <= lists.len(),
        forall|k: int| 0 <= k < p ==> (#[trigger] lists[k]).build_configuration@ != build_config,
        p < lists.len() ==> lists[p].build_configuration@ == build_config,
    ensures
        sizes_position(lists, build_config) == p,
    decreases lists.len(),
{
    if lists.len() > 0 && p > 0 {
        let rest = lists.drop_first();
        assert(lists[0].build_configuration@ != build_config);
        assert forall|k: int| 0 <= k < p - 1 implies (#[trigger] rest[k]).build_configuration@
            != build_config by {
            assert(rest[k] == lists[k + 1]);
        }
        lemma_sizes_position(rest, build_config, p - 1);
    }
}

/// The position of the sizes for the build configuration `build_config`, if
/// the description has them.
pub fn find_sizes(api: &ExtensionApi, build_config: &str) -> (position: Option<usize>)
    ensures
        match position {
            Some(p) => p < api.builtin_class_sizes.len() && p == sizes_position(
                api.builtin_class_sizes@,
                build_config@,
            ),
            None => sizes_position(api.builtin_class_sizes@, build_config@)
                == api.builtin_class_sizes.len(),
        },
{
    let mut i: usize = 0;
    while i < api.builtin_class_sizes.len()
        invariant
            i <= api.builtin_class_sizes.len(),
            forall|k: int|
                0 <= k < i ==> (#[trigger] api.builtin_class_sizes@[k]).build_configuration@
                    != build_config@,
        decreases api.builtin_class_sizes.len() - i,
    {
        if str_eq(api.builtin_class_sizes[i].build_configuration.as_str(), build_config) {
            proof {
                lemma_sizes_position(api.builtin_class_sizes@, build_config@, i as int);
            }
            return Some(i);
        }
        i = i + 1;
    }
    proof {
        lemma_sizes_position(api.builtin_class_sizes@, build_config@, i as int);
    }
    None
}

/// The upper-case form of an ASCII small letter; any other character as it is.
pub open spec fn ascii_raised(c: char) -> char {
    if 'a' <= c <= 'z' {
        ((c as u8) - 32u8) as char
    } else {
        c
    }
}

/// The name of the opaque type that holds the bytes of the builtin type
/// `name`: `Opaque`, then the name with its first letter in upper case.
pub open spec fn opaque_type_name_of(name: Seq<char>) -> Seq<char> {
    "Opaque"@.push(ascii_raised(name[0])) + name.skip(1)
}

/// The name of the opaque type that holds the bytes of the builtin type
/// `name`, which is not empty.
pub fn opaque_type_name(name: &str) -> (opaque: String)
    requires
        name@.len() > 0,
    ensures
        opaque@ == opaque_type_name_of(name@),
{
    let first = name.get_char(0);
    let raised = if 'a' <= first && first <= 'z' {
        ((first as u8) - 32u8) as char
    } else {
        first
    };
    let mut opaque = String::from_str("Opaque");
    push_char(&mut opaque, raised);
    let len = name.unicode_len();
    let rest = name.substring_char(1, len);
    opaque.append(rest);
    proof {
        assert(name@.subrange(1, len as int) =~= name@.skip(1));
    }
    opaque
}

/// The name of the engine's enumerator for the operator that the
/// description spells `name`, without its prefix, if the engine knows the
/// operator.
pub open spec fn operator_enumerator_of(name: Seq<char>) -> Option<Seq<char>> {
    if name == "=="@ {
        Some("EQUAL"@)
    } else if name == "!="@ {
        Some("NOT_EQUAL"@)
    } else if name == "<"@ {
        Some("LESS"@)
    } else if name == "<="@ {
        Some("LESS_EQUAL"@)
    } else if name == ">"@ {
        Some("GREATER"@)
    } else if name == ">="@ {
        Some("GREATER_EQUAL"@)
    } else if name == "+"@ {
        Some("ADD"@)
    } else if name == "-"@ {
        Some("SUBTRACT"@)
    } else if name == "*"@ {
        Some("MULTIPLY"@)
    } else if name == "/"@ {
        Some("DIVIDE"@)
    } else if name == "unary-"@ {
        Some("NEGATE"@)
    } else if name == "unary+"@ {
        Some("POSITIVE"@)
    } else if name == "%"@ {
        Some("MODULE"@)
    } else if name == "**"@ {
        Some("POWER"@)
    } else if name == "<<"@ {
        Some("SHIFT_LEFT"@)
    } else if name == ">>"@ {
        Some("SHIFT_RIGHT"@)
    } else if name == "&"@ {
        Some("BIT_AND"@)
    } else if name == "|"@ {
        Some("BIT_OR"@)
    } else if name == "^"@ {
        Some("BIT_XOR"@)
    } else if name == "~"@ {
        Some("BIT_NEGATE"@)
    } else if name == "and"@ {
        Some("AND"@)
    } else if name == "or"@ {
        Some("OR"@)
    } else if name == "xor"@ {
        Some("XOR"@)
    } else if name == "not"@ {
        Some("NOT"@)
    } else if name == "in"@ {
        Some("IN"@)
    } else {
        None
    }
}

/// The name of the engine's enumerator for the operator that the
/// description spells `name`, without its prefix, if the engine knows the
/// operator.
pub fn operator_enumerator(name: &str) -> (enumerator: Option<String>)
    ensures
        match enumerator {
            Some(e) => operator_enumerator_of(name@) == Some(e@),
            None => operator_enumerator_of(name@).is_none(),
        },
{
    if str_eq(name, "==") {
        Some(String::from_str("EQUAL"))
    } else if str_eq(name, "!=") {
        Some(String::from_str("NOT_EQUAL"))
    } else if str_eq(name, "<") {
        Some(String::from_str("LESS"))
    } else if str_eq(name, "<=") {
        Some(String::from_str("LESS_EQUAL"))
    } else if str_eq(name, ">") {
        Some(String::from_str("GREATER"))
    } else if str_eq(name, ">=") {
        Some(String::from_str("GREATER_EQUAL"))
    } else if str_eq(name, "+") {
        Some(String::from_str("ADD"))
    } else if str_eq(name, "-") {
        Some(String::from_str("SUBTRACT"))
    } else if str_eq(name, "*") {
        Some(String::from_str("MULTIPLY"))
    } else if str_eq(name, "/") {
        Some(String::from_str("DIVIDE"))
    } else if str_eq(name, "unary-") {
        Some(String::from_str("NEGATE"))
    } else if str_eq(name, "unary+") {
        Some(String::from_str("POSITIVE"))
    } else if str_eq(name, "%") {
        Some(String::from_str("MODULE"))
    } else if str_eq(name, "**") {
        Some(String::from_str("POWER"))
    } else if str_eq(name, "<<") {
        Some(String::from_str("SHIFT_LEFT"))
    } else if str_eq(name, ">>") {
        Some(String::from_str("SHIFT_RIGHT"))
    } else if str_eq(name, "&") {
        Some(String::from_str("BIT_AND"))
    } else if str_eq(name, "|") {
        Some(String::from_str("BIT_OR"))
    } else if str_eq(name, "^") {
        Some(String::from_str("BIT_XOR"))
    } else if str_eq(name, "~") {
        Some(String::from_str("BIT_NEGATE"))
    } else if str_eq(name, "and") {
        Some(String::from_str("AND"))
    } else if str_eq(name, "or") {
        Some(String::from_str("OR"))
    } else if str_eq(name, "xor") {
        Some(String::from_str("XOR"))
    } else if str_eq(name, "not") {
        Some(String::from_str("NOT"))
    } else if str_eq(name, "in") {
        Some(String::from_str("IN"))
    } else {
        None
    }
}

// ---------------------------------------------------------------------------
// The entries of the method table

/// The field of the method table that holds the destructor of the builtin
/// type whose name in snake case is `snake`.
pub open spec fn destructor_field_of(snake: Seq<char>) -> Seq<char> {
    snake + "_destroy"@
}

/// The field of the method table that holds the constructor number `index`
/// of the builtin type whose name in snake case is `snake`.
pub open spec fn constructor_field_of(snake: Seq<char>, index: nat) -> Seq<char> {
    snake + "_construct_"@ + digits(index)
}

/// The field of the method table that holds an operator of the builtin type
/// whose name in snake case is `snake`: the enumerator of the operator in
/// lower case, and for a binary operator the type of the right operand in
/// snake case.
pub open spec fn operator_field_of(
    snake: Seq<char>,
    enumerator: Seq<char>,
    right_type: Option<Seq<char>>,
) -> Seq<char> {
    snake + "_operator_"@ + lowered(enumerator) + match right_type {
        Some(right) => "_"@ + snake_case_of(right),
        None => Seq::empty(),
    }
}

/// The engine's name of the enumerator of an operator.
pub open spec fn operator_sys_name_of(enumerator: Seq<char>) -> Seq<char> {
    "GDEXTENSION_VARIANT_OP_"@ + enumerator
}

/// The position of the first builtin type that the description names `name`,
/// or the number of types where there is none.
pub open spec fn type_position(types: Seq<BuiltinTypeInfoView>, name: Seq<char>) -> int
    decreases types.len(),
{
    if types.len() == 0 {
        0
    } else if types[0].json_builtin_name == name {
        0
    } else {
        1 + type_position(types.drop_first(), name)
    }
}

/// The engine's name of the variant type of the right operand of an
/// operator: that of the builtin type that the description names so, and
/// that of `Nil` for a unary operator and for an operand that is no builtin
/// type.
pub open spec fn right_variant_type_of(
    types: Seq<BuiltinTypeInfoView>,
    right_type: Option<Seq<char>>,
) -> Seq<char> {
    match right_type {
        Some(right) => {
            let p = type_position(types, right);
            if p < types.len() {
                types[p].sys_variant_type
            } else {
                "GDEXTENSION_VARIANT_TYPE_NIL"@
            }
        },
        None => "GDEXTENSION_VARIANT_TYPE_NIL"@,
    }
}

/// `p` is the position of the first type named `name` when no type before
/// `p` carries the name and `p` is the end or carries it.
pub proof fn lemma_type_position(types: Seq<BuiltinTypeInfoView>, name: Seq<char>, p: int)
    requires
        0 <= p <= types.len(),
        forall|k: int| 0 <= k < p ==> (#[trigger] types[k]).json_builtin_name != name,
        p < types.len() ==> types[p].json_builtin_name == name,
    ensures
        type_position(types, name) == p,
    decreases types.len(),
{
    if types.len() > 0 && p > 0 {
        let rest = types.drop_first();
        assert(types[0].json_builtin_name != name);
        assert forall|k: int| 0 <= k < p - 1 implies (#[trigger] rest[k]).json_builtin_name
            != name by {
            assert(rest[k] == types[k + 1]);
        }
        lemma_type_position(rest, name, p - 1);
    }
}

/// The field of the method table that holds the destructor of `ty`.
pub fn destructor_field(ty: &BuiltinTypeInfo) -> (field: String)
    ensures
        field@ == destructor_field_of(ty@.snake_case),
{
    join_texts(ty.type_names.snake_case.as_str(), "_destroy")
}

/// The field of the method table that holds the constructor number `index`
/// of `ty`.
pub fn constructor_field(ty: &BuiltinTypeInfo, index: usize) -> (field: String)
    ensures
        field@ == constructor_field_of(ty@.snake_case, index as nat),
{
    let mut field = join_texts(ty.type_names.snake_case.as_str(), "_construct_");
    field.append(index_text(index).as_str());
    field
}

/// The field of the method table that holds the operator of `ty` whose
/// enumerator is `enumerator` and whose right operand, if it has one, is of
/// the type that the description names `right_type`.
pub fn operator_field(ty: &BuiltinTypeInfo, enumerator: &str, right_type: Option<&str>) -> (field:
    String)
    ensures
        field@ == operator_field_of(
            ty@.snake_case,
            enumerator@,
            match right_type {
                Some(right) => Some(right@),
                None => None,
            },
        ),
{
    let mut field = join_texts(ty.type_names.snake_case.as_str(), "_operator_");
    field.append(lower(enumerator).as_str());
    let ghost head = field@;
    match right_type {
        Some(right) => {
            field.append("_");
            field.append(to_snake_case(right).as_str());
            proof {
                assert(field@ =~= head + ("_"@ + snake_case_of(right@)));
            }
        },
        None => {
            proof {
                assert(head + Seq::<char>::empty() =~= head);
            }
        },
    }
    field
}

/// The engine's name of the enumerator of an operator.
pub fn operator_sys_name(enumerator: &str) -> (name: String)
    ensures
        name@ == operator_sys_name_of(enumerator@),
{
    join_texts("GDEXTENSION_VARIANT_OP_", enumerator)
}

/// The engine's name of the variant type of the right operand of an
/// operator, among the builtin types `types`.
pub fn right_variant_type(types: &Vec<BuiltinTypeInfo>, right_type: Option<&str>) -> (name: String)
    ensures
        name@ == right_variant_type_of(
            type_info_views(types@),
            match right_type {
                Some(right) => Some(right@),
                None => None,
            },
        ),
{
    let right = match right_type {
        Some(right) => right,
        None => {
            return String::from_str("GDEXTENSION_VARIANT_TYPE_NIL");
        },
    };
    let ghost views = type_info_views(types@);
    let mut i: usize = 0;
    while i < types.len()
        invariant
            i <= types.len(),
            views == type_info_views(types@),
            right_type == Some(right),
            forall|k: int| 0 <= k < i ==> (#[trigger] views[k]).json_builtin_name != right@,
        decreases types.len() - i,
    {
        if str_eq(types[i].type_names.json_builtin_name.as_str(), right) {
            let name = types[i].type_names.sys_variant_type.clone();
            proof {
                assert(views[i as int] == types[i as int]@);
                assert(views[i as int].json_builtin_name == right@);
                lemma_type_position(views, right@, i as int);
                assert(name@ == views[i as int].sys_variant_type);
            }
            return name;
        }
        i = i + 1;
    }
    proof {
        lemma_type_position(views, right@, i as int);
    }
    String::from_str("GDEXTENSION_VARIANT_TYPE_NIL")
}

} // verus!

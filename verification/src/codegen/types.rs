//! How the engine's type names map to Rust types.

use vstd::prelude::*;
use vstd::string::*;
use crate::codegen::context::Context;
use crate::codegen::names::{pascal_case_of, snake_case_of, to_pascal_case, to_snake_case};
use crate::text::{
    ends_with,
    first_char_position,
    has_char,
    join_texts,
    split_once,
    str_eq,
    strip_prefix,
    texts,
};

verus! {

/// A Rust type in generated code, with the text that names it.
#[derive(Debug)]
pub enum RustTy {
    /// `bool`, `Vector3i`
    BuiltinIdent(String),
    /// `Array<i32>`
    BuiltinArray(String),
    /// `Array<Gd<PhysicsBody3D>>`
    EngineArray { tokens: String, elem_class: String },
    /// `module::Enum`; `surrounding_class` is `None` for global enums.
    EngineEnum { tokens: String, surrounding_class: Option<String> },
    /// `Gd<Node>`
    EngineClass { tokens: String, class: String },
}

pub enum RustTyView {
    BuiltinIdent(Seq<char>),
    BuiltinArray(Seq<char>),
    EngineArray { tokens: Seq<char>, elem_class: Seq<char> },
    EngineEnum { tokens: Seq<char>, surrounding_class: Option<Seq<char>> },
    EngineClass { tokens: Seq<char>, class: Seq<char> },
}

impl RustTyView {
    /// The text that names the type.
    pub open spec fn tokens(self) -> Seq<char> {
        match self {
            RustTyView::BuiltinIdent(t) => t,
            RustTyView::BuiltinArray(t) => t,
            RustTyView::EngineArray { tokens, .. } => tokens,
            RustTyView::EngineEnum { tokens, .. } => tokens,
            RustTyView::EngineClass { tokens, .. } => tokens,
        }
    }

    /// The return type as it is declared: an object may be absent, so a
    /// class comes back as an `Option`.
    pub open spec fn return_decl(self) -> Seq<char> {
        match self {
            RustTyView::EngineClass { tokens, .. } => "-> Option<"@ + tokens + ">"@,
            other => "-> "@ + other.tokens(),
        }
    }
}

impl View for RustTy {
    type V = RustTyView;

    open spec fn view(&self) -> RustTyView {
        match *self {
            RustTy::BuiltinIdent(t) => RustTyView::BuiltinIdent(t@),
            RustTy::BuiltinArray(t) => RustTyView::BuiltinArray(t@),
            RustTy::EngineArray { tokens, elem_class } => RustTyView::EngineArray {
                tokens: tokens@,
                elem_class: elem_class@,
            },
            RustTy::EngineEnum { tokens, surrounding_class } => RustTyView::EngineEnum {
                tokens: tokens@,
                surrounding_class: match surrounding_class {
                    Some(c) => Some(c@),
                    None => None,
                },
            },
            RustTy::EngineClass { tokens, class } => RustTyView::EngineClass {
                tokens: tokens@,
                class: class@,
            },
        }
    }
}

impl RustTy {
    /// The text that names the type.
    pub fn tokens(&self) -> (text: &String)
        ensures
            text@ == self@.tokens(),
    {
        match self {
            RustTy::BuiltinIdent(t) => t,
            RustTy::BuiltinArray(t) => t,
            RustTy::EngineArray { tokens, .. } => tokens,
            RustTy::EngineEnum { tokens, .. } => tokens,
            RustTy::EngineClass { tokens, .. } => tokens,
        }
    }

    /// The return type as it is declared in a generated method.
    pub fn return_decl(&self) -> (decl: String)
        ensures
            decl@ == self@.return_decl(),
    {
        match self {
            RustTy::EngineClass { tokens, .. } => {
                let mut decl = join_texts("-> Option<", tokens.as_str());
                decl.append(">");
                decl
            },
            other => join_texts("-> ", other.tokens().as_str()),
        }
    }
}

/// Whether `ty` names one of the engine's scalar types, which are spelled in
/// lower case (`int`, `float`, `bool`).
pub open spec fn is_builtin_scalar_spec(ty: Seq<char>) -> bool {
    ty.len() > 0 && 'a' as u32 <= ty[0] as u32 <= 'z' as u32
}

/// The Rust types that stand for engine types under another name.
pub open spec fn hardcoded_rust_type(ty: Seq<char>) -> Option<Seq<char>> {
    if ty == "int"@ {
        Some("i64"@)
    } else if ty == "float"@ {
        Some(double_name())
    } else if ty == "String"@ {
        Some("GodotString"@)
    } else if ty == "Error"@ {
        Some("GodotError"@)
    } else {
        None
    }
}

/// The name of Rust's 64-bit floating-point type.
pub open spec fn double_name() -> Seq<char> {
    "f"@ + "64"@
}

/// The Rust name of an engine type that is a class, a builtin or an enum:
/// scalars keep their name, the others are spelled in Pascal case.
pub open spec fn rustified(ty: Seq<char>) -> Seq<char> {
    if is_builtin_scalar_spec(ty) {
        ty
    } else {
        pascal_case_of(ty)
    }
}

/// The Rust type of an enum named `qualified`: `Class.Enum` for one local to
/// a class, `Enum` for a global one.
pub open spec fn enum_rust_type(qualified: Seq<char>) -> RustTyView {
    if has_char(qualified, '.') {
        let p = first_char_position(qualified, '.');
        let class = qualified.take(p);
        RustTyView::EngineEnum {
            tokens: "crate::engine::"@ + snake_case_of(class) + "::"@ + qualified.skip(p + 1),
            surrounding_class: Some(class),
        }
    } else {
        RustTyView::EngineEnum {
            tokens: "crate::engine::global::"@ + qualified,
            surrounding_class: None,
        }
    }
}

/// The Rust type of an engine type that is neither renamed, an enum nor an
/// array: a builtin or native structure under its Rust name, else an object
/// of an engine class.
pub open spec fn plain_rust_type(
    ty: Seq<char>,
    builtins: Seq<Seq<char>>,
    natives: Seq<Seq<char>>,
) -> RustTyView {
    if builtins.contains(ty) || natives.contains(ty) {
        RustTyView::BuiltinIdent(rustified(ty))
    } else {
        RustTyView::EngineClass { tokens: "Gd<"@ + rustified(ty) + ">"@, class: rustified(ty) }
    }
}

/// The Rust type for the engine's type name `ty`, given the names of the
/// builtin types and of the native structures.
pub open spec fn rust_type_of(
    ty: Seq<char>,
    builtins: Seq<Seq<char>>,
    natives: Seq<Seq<char>>,
) -> RustTyView
    decreases ty.len(),
{
    if hardcoded_rust_type(ty).is_some() {
        RustTyView::BuiltinIdent(hardcoded_rust_type(ty).unwrap())
    } else if "enum::"@.is_prefix_of(ty) {
        enum_rust_type(ty.skip("enum::"@.len() as int))
    } else if "bitfield::"@.is_prefix_of(ty) {
        enum_rust_type(ty.skip("bitfield::"@.len() as int))
    } else if "Packed"@.is_prefix_of(ty) {
        if "Array"@.is_suffix_of(ty.skip("Packed"@.len() as int)) {
            RustTyView::BuiltinIdent(rustified(ty))
        } else {
            plain_rust_type(ty, builtins, natives)
        }
    } else if "typedarray::"@.is_prefix_of(ty) && "typedarray::"@.len() > 0 {
        let elem = ty.skip("typedarray::"@.len() as int);
        let tokens = "Array<"@ + rust_type_of(elem, builtins, natives).tokens() + ">"@;
        if builtins.contains(elem) {
            RustTyView::BuiltinArray(tokens)
        } else {
            RustTyView::EngineArray { tokens, elem_class: elem }
        }
    } else {
        plain_rust_type(ty, builtins, natives)
    }
}

/// Whether `ty` names one of the engine's scalar types.
pub fn is_builtin_scalar(ty: &str) -> (yes: bool)
    ensures
        yes == is_builtin_scalar_spec(ty@),
{
    if ty.unicode_len() == 0 {
        return false;
    }
    let c = ty.get_char(0);
    'a' as u32 <= c as u32 && c as u32 <= 'z' as u32
}

/// The Rust name of an engine type that is a class, a builtin or an enum.
pub fn rustify_ty(ty: &str) -> (name: String)
    ensures
        name@ == rustified(ty@),
{
    if is_builtin_scalar(ty) {
        String::from_str(ty)
    } else {
        to_pascal_case(ty)
    }
}

/// The Rust type that stands for `ty` under another name, if there is one.
pub fn to_hardcoded_rust_type(ty: &str) -> (name: Option<String>)
    ensures
        match name {
            Some(n) => hardcoded_rust_type(ty@) == Some(n@),
            None => hardcoded_rust_type(ty@).is_none(),
        },
{
    if str_eq(ty, "int") {
        Some(String::from_str("i64"))
    } else if str_eq(ty, "float") {
        Some(join_texts("f", "64"))
    } else if str_eq(ty, "String") {
        Some(String::from_str("GodotString"))
    } else if str_eq(ty, "Error") {
        Some(String::from_str("GodotError"))
    } else {
        None
    }
}

/// The Rust type of an enum named `qualified`.
pub fn enum_to_rust_type(qualified: &str) -> (ty: RustTy)
    ensures
        ty@ == enum_rust_type(qualified@),
{
    match split_once(qualified, '.') {
        Some((class, enum_name)) => {
            let module = to_snake_case(class);
            let mut tokens = join_texts("crate::engine::", module.as_str());
            tokens.append("::");
            tokens.append(enum_name);
            RustTy::EngineEnum { tokens, surrounding_class: Some(String::from_str(class)) }
        },
        None => RustTy::EngineEnum {
            tokens: join_texts("crate::engine::global::", qualified),
            surrounding_class: None,
        },
    }
}

/// The Rust type of an engine type that is neither renamed, an enum nor an array.
pub fn plain_to_rust_type(ty: &str, ctx: &Context) -> (rust_ty: RustTy)
    ensures
        rust_ty@ == plain_rust_type(ty@, texts(ctx.builtin_types@), texts(ctx.native_structures@)),
{
    if ctx.is_builtin(ty) || ctx.is_native_structure(ty) {
        RustTy::BuiltinIdent(rustify_ty(ty))
    } else {
        let class = rustify_ty(ty);
        let mut tokens = join_texts("Gd<", class.as_str());
        tokens.append(">");
        RustTy::EngineClass { tokens, class }
    }
}

/// The Rust type for the engine's type name `ty`.
pub fn to_rust_type(ty: &str, ctx: &Context) -> (rust_ty: RustTy)
    ensures
        rust_ty@ == rust_type_of(ty@, texts(ctx.builtin_types@), texts(ctx.native_structures@)),
    decreases ty@.len(),
{
    if let Some(hardcoded) = to_hardcoded_rust_type(ty) {
        return RustTy::BuiltinIdent(hardcoded);
    }
    if let Some(qualified) = strip_prefix(ty, "enum::") {
        return enum_to_rust_type(qualified);
    }
    if let Some(qualified) = strip_prefix(ty, "bitfield::") {
        return enum_to_rust_type(qualified);
    }
    if let Some(packed) = strip_prefix(ty, "Packed") {
        if ends_with(packed, "Array") {
            return RustTy::BuiltinIdent(rustify_ty(ty));
        }
        return plain_to_rust_type(ty, ctx);
    }
    proof {
        reveal_strlit("typedarray::");
    }
    if let Some(elem) = strip_prefix(ty, "typedarray::") {
        let elem_ty = to_rust_type(elem, ctx);
        let mut tokens = join_texts("Array<", elem_ty.tokens().as_str());
        tokens.append(">");
        return if ctx.is_builtin(elem) {
            RustTy::BuiltinArray(tokens)
        } else {
            RustTy::EngineArray { tokens, elem_class: String::from_str(elem) }
        };
    }
    plain_to_rust_type(ty, ctx)
}

} // verus!

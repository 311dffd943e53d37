//! What is decided for each class before its file is written: its names, its
//! memory strategy, how it is constructed, and which bases it inherits.

use vstd::prelude::*;
use vstd::string::*;
use crate::codegen::api::Class;
use crate::codegen::context::{all_bases_of, edges, Context};
use crate::codegen::names::{pascal_case_of, snake_case_of, to_pascal_case, ModName, TyName};
use crate::obj::mem::Memory;
use crate::text::{join_texts, str_eq, texts};

verus! {

/// How instances of a generated class come into being.
#[derive(Copy, Clone, Debug, PartialEq, Eq, Structural)]
pub enum ConstructorKind {
    /// `singleton()`: the one instance is looked up.
    Singleton,
    /// No constructor: an abstract class.
    NoConstructor,
    /// `new()`: a counted object.
    New,
    /// `new_alloc()`: an object that the caller must free.
    NewAlloc,
}

/// The memory strategy of a class: found at run time for the root class
/// `Object`, counted for classes that the engine counts, manual otherwise.
pub open spec fn memory_of(rust_ty: Seq<char>, is_refcounted: bool) -> Memory {
    if rust_ty == "Object"@ {
        Memory::DynamicRefCount
    } else if is_refcounted {
        Memory::StaticRefCount
    } else {
        Memory::ManualMemory
    }
}

/// How a class is constructed: singletons are looked up, classes that cannot
/// be instantiated have no constructor, counted classes have `new`, the
/// others `new_alloc`.
pub open spec fn constructor_of(is_singleton: bool, is_instantiable: bool, is_refcounted: bool) -> ConstructorKind {
    if is_singleton {
        ConstructorKind::Singleton
    } else if !is_instantiable {
        ConstructorKind::NoConstructor
    } else if is_refcounted {
        ConstructorKind::New
    } else {
        ConstructorKind::NewAlloc
    }
}

/// What the generator has decided about one class.
#[derive(Debug)]
pub struct GeneratedClass {
    pub class_name: TyName,
    pub module_name: ModName,
    /// The Rust name of the direct base; `None` for the root.
    pub base: Option<String>,
    pub memory: Memory,
    pub constructor: ConstructorKind,
    /// The Rust names of all bases, nearest first.
    pub all_bases: Vec<String>,
    /// The name of the macro that declares what a derived class inherits.
    pub inherits_macro_ident: String,
    /// Whether the class has a public module of its own, for its enums.
    pub has_pub_module: bool,
}

/// The Rust names of a sequence of engine names, in order.
pub open spec fn pascal_names(names: Seq<Seq<char>>) -> Seq<Seq<char>> {
    Seq::new(names.len(), |i: int| pascal_case_of(names[i]))
}

/// The memory strategy of a class.
pub fn class_memory(rust_ty: &str, is_refcounted: bool) -> (memory: Memory)
    ensures
        memory == memory_of(rust_ty@, is_refcounted),
{
    if str_eq(rust_ty, "Object") {
        Memory::DynamicRefCount
    } else if is_refcounted {
        Memory::StaticRefCount
    } else {
        Memory::ManualMemory
    }
}

/// How a class is constructed.
pub fn class_constructor(class: &Class, ctx: &Context) -> (kind: ConstructorKind)
    ensures
        kind == constructor_of(
            texts(ctx.singletons@).contains(class.name@),
            class.is_instantiable,
            class.is_refcounted,
        ),
{
    if ctx.is_singleton(class.name.as_str()) {
        ConstructorKind::Singleton
    } else if !class.is_instantiable {
        ConstructorKind::NoConstructor
    } else if class.is_refcounted {
        ConstructorKind::New
    } else {
        ConstructorKind::NewAlloc
    }
}

/// Decides everything about one class.
pub fn make_class(class: &Class, ctx: &Context) -> (generated: GeneratedClass)
    ensures
        generated.class_name.godot_ty@ == class.name@,
        generated.class_name.rust_ty@ == pascal_case_of(class.name@),
        generated.module_name.rust_mod@ == snake_case_of(class.name@),
        match generated.base {
            Some(base) => class.inherits.is_some() && base@ == pascal_case_of(
                class.inherits.unwrap()@,
            ),
            None => class.inherits.is_none(),
        },
        generated.memory == memory_of(pascal_case_of(class.name@), class.is_refcounted),
        generated.constructor == constructor_of(
            texts(ctx.singletons@).contains(class.name@),
            class.is_instantiable,
            class.is_refcounted,
        ),
        texts(generated.all_bases@) == pascal_names(
            all_bases_of(edges(ctx.inheritance_tree.derived_to_base@), class.name@),
        ),
        generated.inherits_macro_ident@ == "inherits_transitive_"@ + pascal_case_of(class.name@),
        generated.has_pub_module == (class.enums@.len() > 0),
{
    let class_name = TyName::from_godot(class.name.as_str());
    let module_name = ModName::from_godot(class.name.as_str());
    let base = match &class.inherits {
        Some(base) => Some(to_pascal_case(base.as_str())),
        None => None,
    };
    let memory = class_memory(class_name.rust_ty.as_str(), class.is_refcounted);
    let constructor = class_constructor(class, ctx);
    let godot_bases = ctx.inheritance_tree.collect_all_bases(class.name.as_str());
    let mut all_bases: Vec<String> = Vec::new();
    let mut i: usize = 0;
    while i < godot_bases.len()
        invariant
            i <= godot_bases.len(),
            texts(all_bases@) == pascal_names(texts(godot_bases@)).take(i as int),
        decreases godot_bases.len() - i,
    {
        let ghost before = texts(all_bases@);
        let rust_name = to_pascal_case(godot_bases[i].as_str());
        all_bases.push(rust_name);
        proof {
            assert(texts(all_bases@) =~= before.push(pascal_case_of(godot_bases[i as int]@)));
            assert(before.push(pascal_case_of(godot_bases[i as int]@)) =~= pascal_names(
                texts(godot_bases@),
            ).take(i + 1));
        }
        i = i + 1;
    }
    proof {
        assert(pascal_names(texts(godot_bases@)).take(i as int) =~= pascal_names(
            texts(godot_bases@),
        ));
    }
    let inherits_macro_ident = join_texts("inherits_transitive_", class_name.rust_ty.as_str());
    GeneratedClass {
        class_name,
        module_name,
        base,
        memory,
        constructor,
        all_bases,
        inherits_macro_ident,
        has_pub_module: class.enums.len() > 0,
    }
}

} // verus!

//! The text of the module files: the files that list what was generated.
//!
//! These files hold declarations only, so their text is a function of the
//! names that were decided: the same names give the same text, character
//! for character.

use vstd::prelude::*;
use vstd::string::*;
use crate::codegen::api::BuiltinClass;
use crate::codegen::class_generator::GeneratedClass;
use crate::codegen::files::FileKind;
use crate::codegen::names::{pascal_case_of, snake_case_of, ModName, TyName};
use crate::text::join_texts;

verus! {

/// The module file of the low-level bindings.
pub open spec fn sys_module_text() -> Seq<char> {
    "pub mod central;\npub mod gdextension_interface;\n"@
}

/// The module file of the high-level bindings.
pub open spec fn core_module_text() -> Seq<char> {
    "pub mod central;\npub mod classes;\npub mod builtin_classes;\npub mod utilities;\n"@
}

/// The text of a file whose text is the same in every run, if `kind` is one.
pub open spec fn fixed_text(kind: FileKind) -> Option<Seq<char>> {
    match kind {
        FileKind::SysModule => Some(sys_module_text()),
        FileKind::CoreModule => Some(core_module_text()),
        _ => None,
    }
}

/// The text of a file whose text is the same in every run, if `kind` is one.
pub fn fixed_contents(kind: FileKind) -> (contents: Option<String>)
    ensures
        match contents {
            Some(text) => fixed_text(kind) == Some(text@),
            None => fixed_text(kind).is_none(),
        },
{
    match kind {
        FileKind::SysModule => Some(
            String::from_str("pub mod central;\npub mod gdextension_interface;\n"),
        ),
        FileKind::CoreModule => Some(
            String::from_str(
                "pub mod central;\npub mod classes;\npub mod builtin_classes;\npub mod utilities;\n",
            ),
        ),
        _ => None,
    }
}

/// The declaration of one class in the module file of the classes: its
/// module, public where the class has enums of its own, and the class
/// itself, taken out of the module.
pub open spec fn class_decl_text(class: GeneratedClass) -> Seq<char> {
    (if class.has_pub_module {
        "pub mod "@
    } else {
        "mod "@
    }) + class.module_name.rust_mod@ + ";\npub use "@ + class.module_name.rust_mod@
        + "::re_export::"@ + class.class_name.rust_ty@ + ";\n"@
}

/// The declarations of the classes, in order.
pub open spec fn class_decls_text(classes: Seq<GeneratedClass>) -> Seq<char>
    decreases classes.len(),
{
    if classes.len() == 0 {
        Seq::empty()
    } else {
        class_decls_text(classes.drop_last()) + class_decl_text(classes.last())
    }
}

/// The line that takes the inheritance macro of one class into the module
/// of macros.
pub open spec fn class_macro_text(class: GeneratedClass) -> Seq<char> {
    "    pub use "@ + class.inherits_macro_ident@ + ";\n"@
}

/// The lines for the inheritance macros of the classes, in order.
pub open spec fn class_macros_text(classes: Seq<GeneratedClass>) -> Seq<char>
    decreases classes.len(),
{
    if classes.len() == 0 {
        Seq::empty()
    } else {
        class_macros_text(classes.drop_last()) + class_macro_text(classes.last())
    }
}

/// The module file of the classes: the declarations of the classes, then
/// the module that gathers their inheritance macros.
pub open spec fn classes_module_text(classes: Seq<GeneratedClass>) -> Seq<char> {
    class_decls_text(classes) + "\n#[doc(hidden)]\npub mod class_macros {\n    pub use crate::*;\n"@
        + class_macros_text(classes) + "}\n"@
}

/// The module file of the classes `classes`, which are the bound classes in
/// the order of the description.
pub fn classes_module_contents(classes: &Vec<GeneratedClass>) -> (contents: String)
    ensures
        contents@ == classes_module_text(classes@),
{
    let mut contents = String::new();
    let mut i: usize = 0;
    proof {
        assert(classes@.take(0) =~= Seq::<GeneratedClass>::empty());
    }
    while i < classes.len()
        invariant
            i <= classes.len(),
            contents@ == class_decls_text(classes@.take(i as int)),
        decreases classes.len() - i,
    {
        let class = &classes[i];
        let ghost before = contents@;
        proof {
            assert(classes@.take(i + 1).drop_last() =~= classes@.take(i as int));
            assert(classes@.take(i + 1).last() == *class);
        }
        if class.has_pub_module {
            contents.append("pub mod ");
        } else {
            contents.append("mod ");
        }
        contents.append(class.module_name.rust_mod.as_str());
        contents.append(";\npub use ");
        contents.append(class.module_name.rust_mod.as_str());
        contents.append("::re_export::");
        contents.append(class.class_name.rust_ty.as_str());
        contents.append(";\n");
        proof {
            assert(contents@ =~= before + class_decl_text(*class));
        }
        i = i + 1;
    }
    proof {
        assert(classes@.take(i as int) =~= classes@);
    }
    contents.append("\n#[doc(hidden)]\npub mod class_macros {\n    pub use crate::*;\n");
    let ghost head = contents@;
    let mut j: usize = 0;
    proof {
        assert(classes@.take(0) =~= Seq::<GeneratedClass>::empty());
        assert(head + Seq::<char>::empty() =~= head);
    }
    while j < classes.len()
        invariant
            j <= classes.len(),
            contents@ == head + class_macros_text(classes@.take(j as int)),
        decreases classes.len() - j,
    {
        let class = &classes[j];
        let ghost before = contents@;
        let ghost macros = class_macros_text(classes@.take(j as int));
        proof {
            assert(classes@.take(j + 1).drop_last() =~= classes@.take(j as int));
            assert(classes@.take(j + 1).last() == *class);
        }
        contents.append("    pub use ");
        contents.append(class.inherits_macro_ident.as_str());
        contents.append(";\n");
        proof {
            assert(contents@ =~= head + (macros + class_macro_text(*class)));
        }
        j = j + 1;
    }
    proof {
        assert(classes@.take(j as int) =~= classes@);
    }
    contents.append("}\n");
    contents
}

/// What the module file of the builtin classes says of one of them.
#[derive(Debug)]
pub struct GeneratedBuiltinModule {
    /// The names of the type through which the methods of the builtin class
    /// are reached.
    pub class_name: TyName,
    pub module_name: ModName,
}

/// Names the module of the builtin class `class` and the type in it: the
/// type carries the name of the class with `Inner` in front.
pub fn make_builtin_module(class: &BuiltinClass) -> (module: GeneratedBuiltinModule)
    ensures
        module.module_name.rust_mod@ == snake_case_of(class.name@),
        module.class_name.godot_ty@ == "Inner"@ + class.name@,
        module.class_name.rust_ty@ == pascal_case_of("Inner"@ + class.name@),
{
    let inner = join_texts("Inner", class.name.as_str());
    GeneratedBuiltinModule {
        class_name: TyName::from_godot(inner.as_str()),
        module_name: ModName::from_godot(class.name.as_str()),
    }
}

/// The declaration of one builtin class in their module file.
pub open spec fn builtin_decl_text(module: GeneratedBuiltinModule) -> Seq<char> {
    "mod "@ + module.module_name.rust_mod@ + ";\npub use "@ + module.module_name.rust_mod@ + "::"@
        + module.class_name.rust_ty@ + ";\n"@
}

/// The module file of the builtin classes: their declarations, in order.
pub open spec fn builtin_module_text(modules: Seq<GeneratedBuiltinModule>) -> Seq<char>
    decreases modules.len(),
{
    if modules.len() == 0 {
        Seq::empty()
    } else {
        builtin_module_text(modules.drop_last()) + builtin_decl_text(modules.last())
    }
}

/// The module file of the builtin classes `modules`, which are the builtin
/// classes that get a file, in the order of the description.
pub fn builtin_module_contents(modules: &Vec<GeneratedBuiltinModule>) -> (contents: String)
    ensures
        contents@ == builtin_module_text(modules@),
{
    let mut contents = String::new();
    let mut i: usize = 0;
    proof {
        assert(modules@.take(0) =~= Seq::<GeneratedBuiltinModule>::empty());
    }
    while i < modules.len()
        invariant
            i <= modules.len(),
            contents@ == builtin_module_text(modules@.take(i as int)),
        decreases modules.len() - i,
    {
        let module = &modules[i];
        let ghost before = contents@;
        proof {
            assert(modules@.take(i + 1).drop_last() =~= modules@.take(i as int));
            assert(modules@.take(i + 1).last() == *module);
        }
        contents.append("mod ");
        contents.append(module.module_name.rust_mod.as_str());
        contents.append(";\npub use ");
        contents.append(module.module_name.rust_mod.as_str());
        contents.append("::");
        contents.append(module.class_name.rust_ty.as_str());
        contents.append(";\n");
        proof {
            assert(contents@ =~= before + builtin_decl_text(*module));
        }
        i = i + 1;
    }
    proof {
        assert(modules@.take(i as int) =~= modules@);
    }
    contents
}

/// The text of the module files is a function of the names alone: the same
/// classes, by their names and the visibility of their modules, give the
/// same text.
pub proof fn lemma_module_text_deterministic(a: Seq<GeneratedClass>, b: Seq<GeneratedClass>)
    requires
        a.len() == b.len(),
        forall|i: int|
            0 <= i < a.len() ==> class_decl_text(#[trigger] a[i]) == class_decl_text(b[i])
                && class_macro_text(a[i]) == class_macro_text(b[i]),
    ensures
        classes_module_text(a) == classes_module_text(b),
    decreases a.len(),
{
    lemma_class_texts_agree(a, b);
}

/// Classes that agree in what is written of each agree in what is written
/// of all.
pub proof fn lemma_class_texts_agree(a: Seq<GeneratedClass>, b: Seq<GeneratedClass>)
    requires
        a.len() == b.len(),
        forall|i: int|
            0 <= i < a.len() ==> class_decl_text(#[trigger] a[i]) == class_decl_text(b[i])
                && class_macro_text(a[i]) == class_macro_text(b[i]),
    ensures
        class_decls_text(a) == class_decls_text(b),
        class_macros_text(a) == class_macros_text(b),
    decreases a.len(),
{
    if a.len() > 0 {
        assert(a.drop_last().len() == b.drop_last().len());
        assert forall|i: int| 0 <= i < a.drop_last().len() implies class_decl_text(
            #[trigger] a.drop_last()[i],
        ) == class_decl_text(b.drop_last()[i]) && class_macro_text(a.drop_last()[i])
            == class_macro_text(b.drop_last()[i]) by {
            assert(a.drop_last()[i] == a[i]);
            assert(b.drop_last()[i] == b[i]);
        }
        lemma_class_texts_agree(a.drop_last(), b.drop_last());
        assert(a.last() == a[a.len() - 1]);
        assert(b.last() == b[b.len() - 1]);
    }
}

} // verus!

//! Mapping of the engine's names to Rust's conventions.
//!
//! Type names become `PascalCase` and module names `snake_case`. Runs of
//! capitals are folded into one word (`AABB` becomes `Aabb`), with a short
//! table of abbreviations that keep their spelling.

use vstd::prelude::*;
use vstd::string::*;
use crate::text::{join_texts, push_char, str_eq};

verus! {

/// The upper camel case form of `s`, as the `heck` crate computes it.
pub uninterp spec fn upper_camel_case(s: Seq<char>) -> Seq<char>;

/// The snake case form of `s`, as the `heck` crate computes it.
pub uninterp spec fn snake_case(s: Seq<char>) -> Seq<char>;

/// `heck::ToPascalCase::to_pascal_case` on a string slice: splits the text
/// into words and joins them, each capitalised. The result depends on the
/// text alone.
#[verifier::external_body]
fn heck_pascal_case(s: &str) -> (converted: String)
    ensures
        converted@ == upper_camel_case(s@),
{
    heck::ToPascalCase::to_pascal_case(s)
}

/// `heck::ToSnakeCase::to_snake_case` on a string slice: splits the text into
/// words and joins them with underscores, in lower case. The result depends
/// on the text alone.
#[verifier::external_body]
fn heck_snake_case(s: &str) -> (converted: String)
    ensures
        converted@ == snake_case(s@),
{
    heck::ToSnakeCase::to_snake_case(s)
}

/// `s` with every occurrence of `from` replaced by `to`, found from left to
/// right without overlap. Left as `s` where `from` is empty.
pub open spec fn replaced(s: Seq<char>, from: Seq<char>, to: Seq<char>) -> Seq<char>
    decreases s.len(),
{
    if from.len() == 0 || s.len() < from.len() {
        s
    } else if s.subrange(0, from.len() as int) == from {
        to + replaced(s.subrange(from.len() as int, s.len() as int), from, to)
    } else {
        seq![s[0]] + replaced(s.drop_first(), from, to)
    }
}

/// `s` with every occurrence of the non-empty `from` replaced by `to`, found
/// from left to right without overlap.
pub fn replace_all(s: &str, from: &str, to: &str) -> (result: String)
    requires
        from@.len() > 0,
    ensures
        result@ == replaced(s@, from@, to@),
{
    let len = s.unicode_len();
    let n = from.unicode_len();
    let mut result = String::new();
    let mut i: usize = 0;
    proof {
        assert(s@.skip(0) =~= s@);
    }
    while i < len
        invariant
            i <= len,
            len == s@.len(),
            n == from@.len(),
            n > 0,
            replaced(s@, from@, to@) == result@ + replaced(s@.skip(i as int), from@, to@),
        decreases len - i,
    {
        let ghost rest = s@.skip(i as int);
        let ghost done = result@;
        let matches_here = len - i >= n && str_eq(s.substring_char(i, i + n), from);
        proof {
            if len - i >= n {
                assert(rest.subrange(0, n as int) =~= s@.subrange(i as int, i + n));
            }
        }
        if matches_here {
            result.append(to);
            proof {
                assert(rest.subrange(n as int, rest.len() as int) =~= s@.skip(i + n));
                assert(done + (to@ + replaced(s@.skip(i + n), from@, to@)) =~= (done + to@)
                    + replaced(s@.skip(i + n), from@, to@));
            }
            i = i + n;
        } else {
            let c = s.get_char(i);
            push_char(&mut result, c);
            proof {
                assert(rest.drop_first() =~= s@.skip(i + 1));
                assert(rest[0] == c);
                if rest.len() < n {
                    assert(replaced(rest.drop_first(), from@, to@) == rest.drop_first());
                    assert(rest =~= seq![c] + rest.drop_first());
                }
                assert(done + (seq![c] + replaced(s@.skip(i + 1), from@, to@)) =~= done.push(c)
                    + replaced(s@.skip(i + 1), from@, to@));
            }
            i = i + 1;
        }
    }
    proof {
        assert(s@.skip(len as int).len() == 0);
        assert(result@ + s@.skip(len as int) =~= result@);
    }
    result
}

/// A converted type name with the abbreviations that keep their capitals
/// put back.
pub open spec fn abbreviations_restored(converted: Seq<char>) -> Seq<char> {
    replaced(
        replaced(converted, "GdExtension"@, "GDExtension"@),
        "GdNative"@,
        "GDNative"@,
    )
}

/// A type name prepared for the conversion to snake case: dimension suffixes
/// become words of their own, and the abbreviations that keep their capitals
/// become single words.
pub open spec fn prepared_for_snake_case(name: Seq<char>) -> Seq<char> {
    replaced(
        replaced(replaced(replaced(name, "2D"@, "_2d"@), "3D"@, "_3d"@), "GDNative"@, "Gdnative"@),
        "GDExtension"@,
        "Gdextension"@,
    )
}

/// The Rust type name for the engine's class `class_name`.
pub open spec fn pascal_case_of(class_name: Seq<char>) -> Seq<char> {
    if class_name == "JSONRPC"@ {
        "JsonRpc"@
    } else {
        abbreviations_restored(upper_camel_case(class_name))
    }
}

/// The Rust module name for the engine's class `class_name`.
pub open spec fn snake_case_of(class_name: Seq<char>) -> Seq<char> {
    if class_name == "JSONRPC"@ {
        "json_rpc"@
    } else {
        snake_case(prepared_for_snake_case(class_name))
    }
}

/// Puts back the abbreviations that keep their capitals in a converted type
/// name: `GdExtension` becomes `GDExtension`, then `GdNative` becomes
/// `GDNative`.
pub fn restore_abbreviations(converted: &str) -> (name: String)
    ensures
        name@ == abbreviations_restored(converted@),
{
    proof {
        reveal_strlit("GdExtension");
        reveal_strlit("GdNative");
    }
    let first = replace_all(converted, "GdExtension", "GDExtension");
    replace_all(first.as_str(), "GdNative", "GDNative")
}

/// Prepares a type name for the conversion to snake case: `2D` becomes
/// `_2d`, `3D` becomes `_3d`, `GDNative` becomes `Gdnative` and `GDExtension`
/// becomes `Gdextension`, in this order.
pub fn prepare_for_snake_case(class_name: &str) -> (prepared: String)
    ensures
        prepared@ == prepared_for_snake_case(class_name@),
{
    proof {
        reveal_strlit("2D");
        reveal_strlit("3D");
        reveal_strlit("GDNative");
        reveal_strlit("GDExtension");
    }
    let a = replace_all(class_name, "2D", "_2d");
    let b = replace_all(a.as_str(), "3D", "_3d");
    let c = replace_all(b.as_str(), "GDNative", "Gdnative");
    replace_all(c.as_str(), "GDExtension", "Gdextension")
}

/// The Rust type name for the engine's class `class_name`.
pub fn to_pascal_case(class_name: &str) -> (name: String)
    ensures
        name@ == pascal_case_of(class_name@),
{
    if str_eq(class_name, "JSONRPC") {
        return String::from_str("JsonRpc");
    }
    let converted = heck_pascal_case(class_name);
    restore_abbreviations(converted.as_str())
}

/// The Rust module name for the engine's class `class_name`.
pub fn to_snake_case(class_name: &str) -> (name: String)
    ensures
        name@ == snake_case_of(class_name@),
{
    if str_eq(class_name, "JSONRPC") {
        return String::from_str("json_rpc");
    }
    let prepared = prepare_for_snake_case(class_name);
    heck_snake_case(prepared.as_str())
}

/// The name of a type (class, builtin class, enum) in both conventions.
#[derive(Debug)]
pub struct TyName {
    pub godot_ty: String,
    pub rust_ty: String,
}

/// The name of a module.
#[derive(Debug)]
pub struct ModName {
    pub rust_mod: String,
}

impl TyName {
    /// The names of the engine's type `godot_ty`.
    pub fn from_godot(godot_ty: &str) -> (name: Self)
        ensures
            name.godot_ty@ == godot_ty@,
            name.rust_ty@ == pascal_case_of(godot_ty@),
    {
        Self { godot_ty: String::from_str(godot_ty), rust_ty: to_pascal_case(godot_ty) }
    }

    /// What `description` returns.
    pub open spec fn description_spec(self) -> Seq<char> {
        if self.rust_ty@ == self.godot_ty@ {
            self.godot_ty@
        } else {
            self.godot_ty@ + "  [renamed "@ + self.rust_ty@ + "]"@
        }
    }

    /// The engine's name, with the Rust name added where the two differ.
    pub fn description(&self) -> (text: String)
        ensures
            text@ == self.description_spec(),
    {
        if self.rust_ty == self.godot_ty {
            self.godot_ty.clone()
        } else {
            let mut text = join_texts(self.godot_ty.as_str(), "  [renamed ");
            text.append(self.rust_ty.as_str());
            text.append("]");
            text
        }
    }
}

impl Clone for TyName {
    fn clone(&self) -> (copy: Self)
        ensures
            copy.godot_ty@ == self.godot_ty@,
            copy.rust_ty@ == self.rust_ty@,
    {
        Self { godot_ty: self.godot_ty.clone(), rust_ty: self.rust_ty.clone() }
    }
}

impl ModName {
    /// The module of the engine's type `godot_ty`.
    pub fn from_godot(godot_ty: &str) -> (name: Self)
        ensures
            name.rust_mod@ == snake_case_of(godot_ty@),
    {
        Self { rust_mod: to_snake_case(godot_ty) }
    }
}

} // verus!

//! Which classes and methods the generator binds.
//!
//! By default every class of the description is bound. For faster iteration
//! a selection can be given: then only the selected classes are bound, and
//! no method whose signature mentions a class outside the selection.

use vstd::prelude::*;
use vstd::string::*;
use crate::codegen::api::{argument_types, ClassMethod};
use crate::codegen::context::Context;
use crate::codegen::types::{rust_type_of, to_rust_type, RustTy, RustTyView};
use crate::text::{
    contains_char,
    contains_name,
    has_char,
    starts_with,
    text_option,
    texts,
};

verus! {

/// What the generator is asked to bind.
#[derive(Debug)]
pub struct GeneratorConfig {
    /// The engine's names of the classes to bind; `None` binds all.
    pub selected_classes: Option<Vec<String>>,
    /// The engine's names of classes that are never bound.
    pub deleted_classes: Vec<String>,
}

pub struct GeneratorConfigView {
    pub selected_classes: Option<Seq<Seq<char>>>,
    pub deleted_classes: Seq<Seq<char>>,
}

impl View for GeneratorConfig {
    type V = GeneratorConfigView;

    open spec fn view(&self) -> GeneratorConfigView {
        GeneratorConfigView {
            selected_classes: match self.selected_classes {
                Some(names) => Some(texts(names@)),
                None => None,
            },
            deleted_classes: texts(self.deleted_classes@),
        }
    }
}

/// The classes of the minimal selection.
pub open spec fn selected_classes_spec() -> Seq<Seq<char>> {
    seq![
        "AnimatedSprite2D"@,
        "Area2D"@,
        "AudioStreamPlayer"@,
        "BaseButton"@,
        "Button"@,
        "Camera2D"@,
        "Camera3D"@,
        "CanvasItem"@,
        "CanvasLayer"@,
        "CollisionObject2D"@,
        "CollisionShape2D"@,
        "Control"@,
        "FileAccess"@,
        "HTTPRequest"@,
        "Image"@,
        "ImageTextureLayered"@,
        "Input"@,
        "Label"@,
        "MainLoop"@,
        "Marker2D"@,
        "Node"@,
        "Node2D"@,
        "Node3D"@,
        "Node3DGizmo"@,
        "Object"@,
        "OS"@,
        "PackedScene"@,
        "PathFollow2D"@,
        "PhysicsBody2D"@,
        "RefCounted"@,
        "Resource"@,
        "ResourceLoader"@,
        "RigidBody2D"@,
        "SceneTree"@,
        "Sprite2D"@,
        "SpriteFrames"@,
        "Texture"@,
        "Texture2DArray"@,
        "TextureLayered"@,
        "Time"@,
        "Timer"@,
    ]
}

/// The classes of the minimal selection.
pub fn selected_classes() -> (names: Vec<String>)
    ensures
        texts(names@) == selected_classes_spec(),
{
    let mut names: Vec<String> = Vec::new();
    names.push(String::from_str("AnimatedSprite2D"));
    names.push(String::from_str("Area2D"));
    names.push(String::from_str("AudioStreamPlayer"));
    names.push(String::from_str("BaseButton"));
    names.push(String::from_str("Button"));
    names.push(String::from_str("Camera2D"));
    names.push(String::from_str("Camera3D"));
    names.push(String::from_str("CanvasItem"));
    names.push(String::from_str("CanvasLayer"));
    names.push(String::from_str("CollisionObject2D"));
    names.push(String::from_str("CollisionShape2D"));
    names.push(String::from_str("Control"));
    names.push(String::from_str("FileAccess"));
    names.push(String::from_str("HTTPRequest"));
    names.push(String::from_str("Image"));
    names.push(String::from_str("ImageTextureLayered"));
    names.push(String::from_str("Input"));
    names.push(String::from_str("Label"));
    names.push(String::from_str("MainLoop"));
    names.push(String::from_str("Marker2D"));
    names.push(String::from_str("Node"));
    names.push(String::from_str("Node2D"));
    names.push(String::from_str("Node3D"));
    names.push(String::from_str("Node3DGizmo"));
    names.push(String::from_str("Object"));
    names.push(String::from_str("OS"));
    names.push(String::from_str("PackedScene"));
    names.push(String::from_str("PathFollow2D"));
    names.push(String::from_str("PhysicsBody2D"));
    names.push(String::from_str("RefCounted"));
    names.push(String::from_str("Resource"));
    names.push(String::from_str("ResourceLoader"));
    names.push(String::from_str("RigidBody2D"));
    names.push(String::from_str("SceneTree"));
    names.push(String::from_str("Sprite2D"));
    names.push(String::from_str("SpriteFrames"));
    names.push(String::from_str("Texture"));
    names.push(String::from_str("Texture2DArray"));
    names.push(String::from_str("TextureLayered"));
    names.push(String::from_str("Time"));
    names.push(String::from_str("Timer"));
    proof {
        assert(texts(names@) =~= selected_classes_spec());
    }
    names
}

impl GeneratorConfig {
    /// Binds every class.
    pub fn full() -> (config: Self)
        ensures
            config@.selected_classes.is_none(),
            config@.deleted_classes.len() == 0,
    {
        Self { selected_classes: None, deleted_classes: Vec::new() }
    }

    /// Binds the classes of the minimal selection only.
    pub fn minimal() -> (config: Self)
        ensures
            config@.selected_classes == Some(selected_classes_spec()),
            config@.deleted_classes.len() == 0,
    {
        Self { selected_classes: Some(selected_classes()), deleted_classes: Vec::new() }
    }
}

/// Whether the selection leaves out the class `class`.
pub open spec fn class_excluded(config: GeneratorConfigView, class: Seq<char>) -> bool {
    match config.selected_classes {
        Some(names) => !names.contains(class),
        None => false,
    }
}

/// Whether the class `class` is bound: selected and not deleted.
pub open spec fn class_bound(config: GeneratorConfigView, class: Seq<char>) -> bool {
    !class_excluded(config, class) && !config.deleted_classes.contains(class)
}

/// Whether the selection leaves out a class that the Rust type `ty`, which
/// the engine calls `godot_ty`, mentions.
pub open spec fn rust_type_excluded(
    config: GeneratorConfigView,
    godot_ty: Seq<char>,
    ty: RustTyView,
) -> bool {
    match ty {
        RustTyView::BuiltinIdent(_) => false,
        RustTyView::BuiltinArray(_) => false,
        RustTyView::EngineArray { elem_class, .. } => class_excluded(config, elem_class),
        RustTyView::EngineEnum { surrounding_class, .. } => match surrounding_class {
            Some(class) => class_excluded(config, class),
            None => false,
        },
        RustTyView::EngineClass { .. } => class_excluded(config, godot_ty),
    }
}

/// Whether the selection leaves out a class that the engine's type `ty` mentions.
pub open spec fn type_excluded(
    config: GeneratorConfigView,
    ty: Seq<char>,
    builtins: Seq<Seq<char>>,
    natives: Seq<Seq<char>>,
) -> bool {
    rust_type_excluded(config, ty, rust_type_of(ty, builtins, natives))
}

/// Whether a type with this name cannot be bound whatever the selection:
/// one that is passed as a raw pointer, or that the selection leaves out.
pub open spec fn type_unbindable(
    config: GeneratorConfigView,
    ty: Seq<char>,
    builtins: Seq<Seq<char>>,
    natives: Seq<Seq<char>>,
) -> bool {
    has_char(ty, '*') || type_excluded(config, ty, builtins, natives)
}

/// Whether a method with this name, return type and argument types is left
/// out: a private virtual method (its name begins with an underscore), or
/// one with an unbindable type in its signature.
pub open spec fn method_excluded(
    config: GeneratorConfigView,
    name: Seq<char>,
    return_type: Option<Seq<char>>,
    arguments: Seq<Seq<char>>,
    builtins: Seq<Seq<char>>,
    natives: Seq<Seq<char>>,
) -> bool {
    ||| "_"@.is_prefix_of(name)
    ||| (return_type.is_some() && type_unbindable(config, return_type.unwrap(), builtins, natives))
    ||| exists|i: int|
        0 <= i < arguments.len() && type_unbindable(
            config,
            #[trigger] arguments[i],
            builtins,
            natives,
        )
}

/// Whether the selection leaves out the class `class`.
pub fn is_class_excluded(class: &str, config: &GeneratorConfig) -> (excluded: bool)
    ensures
        excluded == class_excluded(config@, class@),
{
    match &config.selected_classes {
        Some(names) => !contains_name(names, class),
        None => false,
    }
}

/// Whether the class `class` is bound: selected and not deleted.
pub fn is_class_bound(class: &str, config: &GeneratorConfig) -> (bound: bool)
    ensures
        bound == class_bound(config@, class@),
{
    !is_class_excluded(class, config) && !contains_name(&config.deleted_classes, class)
}

/// Whether the selection leaves out a class that the engine's type `ty` mentions.
pub fn is_type_excluded(ty: &str, ctx: &Context, config: &GeneratorConfig) -> (excluded: bool)
    ensures
        excluded == type_excluded(
            config@,
            ty@,
            texts(ctx.builtin_types@),
            texts(ctx.native_structures@),
        ),
{
    match to_rust_type(ty, ctx) {
        RustTy::BuiltinIdent(_) => false,
        RustTy::BuiltinArray(_) => false,
        RustTy::EngineArray { elem_class, .. } => is_class_excluded(elem_class.as_str(), config),
        RustTy::EngineEnum { surrounding_class, .. } => match surrounding_class {
            Some(class) => is_class_excluded(class.as_str(), config),
            None => false,
        },
        RustTy::EngineClass { .. } => is_class_excluded(ty, config),
    }
}

/// Whether a type with this name cannot be bound.
pub fn is_type_unbindable(ty: &str, ctx: &Context, config: &GeneratorConfig) -> (unbindable: bool)
    ensures
        unbindable == type_unbindable(
            config@,
            ty@,
            texts(ctx.builtin_types@),
            texts(ctx.native_structures@),
        ),
{
    contains_char(ty, '*') || is_type_excluded(ty, ctx, config)
}

/// Whether `method` is left out of the bindings.
pub fn is_method_excluded(method: &ClassMethod, ctx: &Context, config: &GeneratorConfig) -> (excluded:
    bool)
    ensures
        excluded == method_excluded(
            config@,
            method.name@,
            text_option(method.return_type),
            argument_types(method.arguments@),
            texts(ctx.builtin_types@),
            texts(ctx.native_structures@),
        ),
{
    if starts_with(method.name.as_str(), "_") {
        return true;
    }
    if let Some(ret) = &method.return_type {
        if is_type_unbindable(ret.as_str(), ctx, config) {
            return true;
        }
    }
    let ghost types = argument_types(method.arguments@);
    let mut i: usize = 0;
    while i < method.arguments.len()
        invariant
            i <= method.arguments.len(),
            types == argument_types(method.arguments@),
            forall|k: int|
                0 <= k < i ==> !type_unbindable(
                    config@,
                    #[trigger] types[k],
                    texts(ctx.builtin_types@),
                    texts(ctx.native_structures@),
                ),
        decreases method.arguments.len() - i,
    {
        if is_type_unbindable(method.arguments[i].type_.as_str(), ctx, config) {
            assert(types[i as int] == method.arguments[i as int].type_@);
            return true;
        }
        i = i + 1;
    }
    false
}

} // verus!

//! Registration of classes with the engine.
//!
//! Pieces of information about a class ("plugins") are contributed
//! independently, in no particular order: the class definition, the methods
//! bound by the user, the virtual functions the user overrides. They are
//! merged by class name into one record per class, and each record is then
//! submitted to the engine once. A slot of a record can be filled by one
//! contribution only.

use vstd::prelude::*;
use crate::builtin::class_name::ClassName;
use crate::codegen::context::{
    bases_within,
    direct_base_of,
    edge_position,
    edges,
    inherits_from,
    lemma_edge_position,
    lemma_edge_position_bounds,
    lemma_inherits_through_base,
    InheritanceTree,
};

verus! {

/// Stands for a function that registers the members of one class through a
/// builder. The function itself lives with the caller; `raw` identifies it.
#[derive(Copy, Clone, Debug, PartialEq, Eq, Structural)]
pub struct ErasedRegisterFn {
    pub raw: usize,
}

/// Stands for a callback that the engine invokes with its own calling
/// convention. The callback itself lives with the caller; `addr` identifies it.
#[derive(Copy, Clone, Debug, PartialEq, Eq, Structural)]
pub struct EngineCallback {
    pub addr: usize,
}

/// The callbacks that the engine is given when a class is created.
#[derive(Copy, Clone, Debug, PartialEq, Eq, Structural)]
pub struct ClassCreationInfo {
    pub to_string_func: Option<EngineCallback>,
    pub reference_func: Option<EngineCallback>,
    pub unreference_func: Option<EngineCallback>,
    pub create_instance_func: Option<EngineCallback>,
    pub free_instance_func: Option<EngineCallback>,
    pub get_virtual_func: Option<EngineCallback>,
    pub get_rid_func: Option<EngineCallback>,
}

/// The callbacks of a class that is registered with full static knowledge.
#[derive(Copy, Clone, Debug, PartialEq, Eq, Structural)]
pub struct ClassCallbacks {
    pub to_string: EngineCallback,
    pub reference: EngineCallback,
    pub unreference: EngineCallback,
    pub create: EngineCallback,
    pub free: EngineCallback,
    pub get_virtual: EngineCallback,
    pub register_by_builder: ErasedRegisterFn,
}

/// The data part of a [`ClassPlugin`].
#[derive(Debug)]
pub enum PluginComponent {
    /// The class definition itself; every class needs one.
    ClassDef {
        base_class_name: ClassName,
        /// The engine's `create` callback, wired to the generated `init`.
        generated_create_fn: Option<EngineCallback>,
        free_fn: EngineCallback,
    },
    /// The methods that the user binds.
    UserMethodBinds {
        /// Registers those methods; always present.
        generated_register_fn: ErasedRegisterFn,
    },
    /// The virtual functions that the user overrides.
    UserVirtuals {
        /// The user's own registration function.
        user_register_fn: Option<ErasedRegisterFn>,
        /// The engine's `create` callback, wired to the user's `init`.
        user_create_fn: Option<EngineCallback>,
        /// The user's `to_string`.
        user_to_string_fn: Option<EngineCallback>,
        /// Looks up the other virtual functions.
        get_virtual_fn: EngineCallback,
    },
}

/// One piece of information contributed for one class.
#[derive(Debug)]
pub struct ClassPlugin {
    pub class_name: ClassName,
    pub component: PluginComponent,
}

/// Everything that is known about one class once its plugins are merged.
#[derive(Debug)]
pub struct ClassRegistrationInfo {
    pub class_name: ClassName,
    pub parent_class_name: Option<ClassName>,
    pub generated_register_fn: Option<ErasedRegisterFn>,
    pub user_register_fn: Option<ErasedRegisterFn>,
    pub godot_params: ClassCreationInfo,
}

/// Why a set of plugins cannot be registered.
#[derive(Copy, Clone, Debug, PartialEq, Eq, Structural)]
pub enum RegistrationError {
    /// The plugin at this position fills a slot that an earlier plugin of the
    /// same class has filled already.
    SlotAlreadyFilled { plugin_index: usize },
    /// The merged record at this position has no class definition.
    MissingClassDefinition { record_index: usize },
}

/// One thing to do, in order, to make a class known to the engine.
#[derive(Debug)]
pub enum RegistrationStep {
    /// Hand the class, its parent and its callbacks to the engine.
    RegisterClass { class_name: ClassName, parent_class_name: ClassName, params: ClassCreationInfo },
    /// Run the registration function that was generated for the bound methods.
    RunGeneratedRegisterFn { register_fn: ErasedRegisterFn },
    /// Run the user's own registration function.
    RunUserRegisterFn { register_fn: ErasedRegisterFn },
}

// ---------------------------------------------------------------------------
// Mathematical models

pub enum PluginComponentView {
    ClassDef {
        base_class_name: Seq<char>,
        generated_create_fn: Option<EngineCallback>,
        free_fn: EngineCallback,
    },
    UserMethodBinds { generated_register_fn: ErasedRegisterFn },
    UserVirtuals {
        user_register_fn: Option<ErasedRegisterFn>,
        user_create_fn: Option<EngineCallback>,
        user_to_string_fn: Option<EngineCallback>,
        get_virtual_fn: EngineCallback,
    },
}

pub struct ClassPluginView {
    pub class_name: Seq<char>,
    pub component: PluginComponentView,
}

pub struct ClassRegistrationInfoView {
    pub class_name: Seq<char>,
    pub parent_class_name: Option<Seq<char>>,
    pub generated_register_fn: Option<ErasedRegisterFn>,
    pub user_register_fn: Option<ErasedRegisterFn>,
    pub godot_params: ClassCreationInfo,
}

pub enum RegistrationStepView {
    RegisterClass { class_name: Seq<char>, parent_class_name: Seq<char>, params: ClassCreationInfo },
    RunGeneratedRegisterFn { register_fn: ErasedRegisterFn },
    RunUserRegisterFn { register_fn: ErasedRegisterFn },
}

impl View for PluginComponent {
    type V = PluginComponentView;

    open spec fn view(&self) -> PluginComponentView {
        match *self {
            PluginComponent::ClassDef { base_class_name, generated_create_fn, free_fn } => {
                PluginComponentView::ClassDef {
                    base_class_name: base_class_name@,
                    generated_create_fn,
                    free_fn,
                }
            },
            PluginComponent::UserMethodBinds { generated_register_fn } => {
                PluginComponentView::UserMethodBinds { generated_register_fn }
            },
            PluginComponent::UserVirtuals {
                user_register_fn,
                user_create_fn,
                user_to_string_fn,
                get_virtual_fn,
            } => PluginComponentView::UserVirtuals {
                user_register_fn,
                user_create_fn,
                user_to_string_fn,
                get_virtual_fn,
            },
        }
    }
}

impl View for ClassPlugin {
    type V = ClassPluginView;

    open spec fn view(&self) -> ClassPluginView {
        ClassPluginView { class_name: self.class_name@, component: self.component@ }
    }
}

/// The view of an optional name.
pub open spec fn name_option_view(name: Option<ClassName>) -> Option<Seq<char>> {
    match name {
        Some(n) => Some(n@),
        None => None,
    }
}

impl View for ClassRegistrationInfo {
    type V = ClassRegistrationInfoView;

    open spec fn view(&self) -> ClassRegistrationInfoView {
        ClassRegistrationInfoView {
            class_name: self.class_name@,
            parent_class_name: name_option_view(self.parent_class_name),
            generated_register_fn: self.generated_register_fn,
            user_register_fn: self.user_register_fn,
            godot_params: self.godot_params,
        }
    }
}

impl View for RegistrationStep {
    type V = RegistrationStepView;

    open spec fn view(&self) -> RegistrationStepView {
        match *self {
            RegistrationStep::RegisterClass { class_name, parent_class_name, params } => {
                RegistrationStepView::RegisterClass {
                    class_name: class_name@,
                    parent_class_name: parent_class_name@,
                    params,
                }
            },
            RegistrationStep::RunGeneratedRegisterFn { register_fn } => {
                RegistrationStepView::RunGeneratedRegisterFn { register_fn }
            },
            RegistrationStep::RunUserRegisterFn { register_fn } => {
                RegistrationStepView::RunUserRegisterFn { register_fn }
            },
        }
    }
}

/// The views of a sequence of plugins, in order.
pub open spec fn plugin_views(plugins: Seq<ClassPlugin>) -> Seq<ClassPluginView> {
    Seq::new(plugins.len(), |i: int| plugins[i]@)
}

/// The views of a sequence of records, in order.
pub open spec fn info_views(infos: Seq<ClassRegistrationInfo>) -> Seq<ClassRegistrationInfoView> {
    Seq::new(infos.len(), |i: int| infos[i]@)
}

/// The views of a sequence of steps, in order.
pub open spec fn step_views(steps: Seq<RegistrationStep>) -> Seq<RegistrationStepView> {
    Seq::new(steps.len(), |i: int| steps[i]@)
}

/// A slot after a contribution: an empty slot takes what is offered, a filled
/// one keeps what it has.
pub open spec fn filled<A>(dst: Option<A>, src: Option<A>) -> Option<A> {
    if dst.is_none() {
        src
    } else {
        dst
    }
}

/// Whether a contribution collides with what the slot holds.
pub open spec fn collides<A>(dst: Option<A>, src: Option<A>) -> bool {
    dst.is_some() && src.is_some()
}

/// Callbacks of a class about which nothing is known yet.
pub open spec fn default_creation_info_spec() -> ClassCreationInfo {
    ClassCreationInfo {
        to_string_func: None,
        reference_func: None,
        unreference_func: None,
        create_instance_func: None,
        free_instance_func: None,
        get_virtual_func: None,
        get_rid_func: None,
    }
}

/// The record of a class about which nothing but its name is known yet.
pub open spec fn default_registration_info_spec(class_name: Seq<char>) -> ClassRegistrationInfoView {
    ClassRegistrationInfoView {
        class_name,
        parent_class_name: None,
        generated_register_fn: None,
        user_register_fn: None,
        godot_params: default_creation_info_spec(),
    }
}

/// Whether `component` would fill a slot of `info` that is filled already.
///
/// A class definition sets the parent and the `free` callback and may offer
/// a `create` callback. Bound methods set the generated registration
/// function. The user's virtual functions set the lookup of virtual
/// functions and may offer a registration function, a `create` callback and
/// a `to_string` callback. So a second class definition, a second set of
/// bound methods and a second set of virtual functions for one class
/// conflict, and so do a class definition and virtual functions that both
/// offer `create`.
pub open spec fn component_conflicts(
    info: ClassRegistrationInfoView,
    component: PluginComponentView,
) -> bool {
    match component {
        PluginComponentView::ClassDef { generated_create_fn, .. } => {
            ||| info.parent_class_name.is_some()
            ||| info.godot_params.free_instance_func.is_some()
            ||| collides(info.godot_params.create_instance_func, generated_create_fn)
        },
        PluginComponentView::UserMethodBinds { .. } => info.generated_register_fn.is_some(),
        PluginComponentView::UserVirtuals {
            user_register_fn,
            user_create_fn,
            user_to_string_fn,
            ..
        } => {
            ||| info.godot_params.get_virtual_func.is_some()
            ||| collides(info.user_register_fn, user_register_fn)
            ||| collides(info.godot_params.create_instance_func, user_create_fn)
            ||| collides(info.godot_params.to_string_func, user_to_string_fn)
        },
    }
}

/// The record `info` after `component` was merged into it: every slot that
/// the component fills takes what is offered if it is empty, and keeps what
/// it has otherwise.
pub open spec fn with_component(
    info: ClassRegistrationInfoView,
    component: PluginComponentView,
) -> ClassRegistrationInfoView {
    match component {
        PluginComponentView::ClassDef { base_class_name, generated_create_fn, free_fn } => {
            ClassRegistrationInfoView {
                parent_class_name: filled(info.parent_class_name, Some(base_class_name)),
                godot_params: ClassCreationInfo {
                    create_instance_func: filled(
                        info.godot_params.create_instance_func,
                        generated_create_fn,
                    ),
                    free_instance_func: filled(info.godot_params.free_instance_func, Some(free_fn)),
                    ..info.godot_params
                },
                ..info
            }
        },
        PluginComponentView::UserMethodBinds { generated_register_fn } => {
            ClassRegistrationInfoView {
                generated_register_fn: filled(
                    info.generated_register_fn,
                    Some(generated_register_fn),
                ),
                ..info
            }
        },
        PluginComponentView::UserVirtuals {
            user_register_fn,
            user_create_fn,
            user_to_string_fn,
            get_virtual_fn,
        } => ClassRegistrationInfoView {
            user_register_fn: filled(info.user_register_fn, user_register_fn),
            godot_params: ClassCreationInfo {
                create_instance_func: filled(info.godot_params.create_instance_func, user_create_fn),
                to_string_func: filled(info.godot_params.to_string_func, user_to_string_fn),
                get_virtual_func: filled(info.godot_params.get_virtual_func, Some(get_virtual_fn)),
                ..info.godot_params
            },
            ..info
        },
    }
}

/// Whether a slot that was filled holds what it held.
pub open spec fn slot_kept<A>(before: Option<A>, after: Option<A>) -> bool {
    before.is_some() ==> after == before
}

/// Whether every slot of `before` that was filled holds in `after` what it
/// held.
pub open spec fn slots_kept(
    before: ClassRegistrationInfoView,
    after: ClassRegistrationInfoView,
) -> bool {
    &&& after.class_name == before.class_name
    &&& slot_kept(before.parent_class_name, after.parent_class_name)
    &&& slot_kept(before.generated_register_fn, after.generated_register_fn)
    &&& slot_kept(before.user_register_fn, after.user_register_fn)
    &&& slot_kept(before.godot_params.to_string_func, after.godot_params.to_string_func)
    &&& slot_kept(before.godot_params.reference_func, after.godot_params.reference_func)
    &&& slot_kept(before.godot_params.unreference_func, after.godot_params.unreference_func)
    &&& slot_kept(
        before.godot_params.create_instance_func,
        after.godot_params.create_instance_func,
    )
    &&& slot_kept(before.godot_params.free_instance_func, after.godot_params.free_instance_func)
    &&& slot_kept(before.godot_params.get_virtual_func, after.godot_params.get_virtual_func)
    &&& slot_kept(before.godot_params.get_rid_func, after.godot_params.get_rid_func)
}

/// What `component` offers for the slots of a record, as a record of its
/// own: a slot that the component does not fill is empty.
pub open spec fn offered(component: PluginComponentView) -> ClassRegistrationInfoView {
    with_component(default_registration_info_spec(Seq::empty()), component)
}

/// Merging never replaces: a slot that was filled holds what it held, and a
/// slot that the component fills without conflict holds what was offered.
pub proof fn lemma_merge_never_replaces(
    info: ClassRegistrationInfoView,
    component: PluginComponentView,
)
    ensures
        slots_kept(info, with_component(info, component)),
        !component_conflicts(info, component) ==> slots_kept(
            ClassRegistrationInfoView { class_name: info.class_name, ..offered(component) },
            with_component(info, component),
        ),
{
}

/// The same kind of contribution cannot be merged twice into one record.
pub proof fn lemma_second_fill_conflicts(
    info: ClassRegistrationInfoView,
    first: PluginComponentView,
    second: PluginComponentView,
)
    requires
        (first is ClassDef && second is ClassDef) || (first is UserMethodBinds
            && second is UserMethodBinds) || (first is UserVirtuals && second is UserVirtuals),
    ensures
        component_conflicts(with_component(info, first), second),
{
}

/// The position of the first record named `name`, or the number of records
/// where there is none.
pub open spec fn position_of(infos: Seq<ClassRegistrationInfoView>, name: Seq<char>) -> int
    decreases infos.len(),
{
    if infos.len() == 0 {
        0
    } else if infos[0].class_name == name {
        0
    } else {
        1 + position_of(infos.drop_first(), name)
    }
}

/// The records after one more plugin was merged: into the record of its
/// class, or into a new record at the end where the class is new.
pub open spec fn merge_one(
    infos: Seq<ClassRegistrationInfoView>,
    plugin: ClassPluginView,
    plugin_index: int,
) -> Result<Seq<ClassRegistrationInfoView>, RegistrationError> {
    let p = position_of(infos, plugin.class_name);
    let base = if p < infos.len() {
        infos[p]
    } else {
        default_registration_info_spec(plugin.class_name)
    };
    if component_conflicts(base, plugin.component) {
        Err(RegistrationError::SlotAlreadyFilled { plugin_index: plugin_index as usize })
    } else if p < infos.len() {
        Ok(infos.update(p, with_component(base, plugin.component)))
    } else {
        Ok(infos.push(with_component(base, plugin.component)))
    }
}

/// The records after all plugins were merged, first to last, or the first
/// conflict met on the way.
pub open spec fn merge_all(plugins: Seq<ClassPluginView>) -> Result<
    Seq<ClassRegistrationInfoView>,
    RegistrationError,
>
    decreases plugins.len(),
{
    if plugins.len() == 0 {
        Ok(Seq::empty())
    } else {
        match merge_all(plugins.drop_last()) {
            Err(e) => Err(e),
            Ok(infos) => merge_one(infos, plugins.last(), plugins.len() - 1),
        }
    }
}

/// The position of the first record without a class definition, or the
/// number of records where every record has one.
pub open spec fn first_undefined(infos: Seq<ClassRegistrationInfoView>) -> int
    decreases infos.len(),
{
    if infos.len() == 0 {
        0
    } else if infos[0].parent_class_name.is_none() {
        0
    } else {
        1 + first_undefined(infos.drop_first())
    }
}

/// What registering `plugins` comes to: one record per class, in the order in
/// which the classes first occur, each with a class definition; or the reason
/// why not.
pub open spec fn registration_of(plugins: Seq<ClassPluginView>) -> Result<
    Seq<ClassRegistrationInfoView>,
    RegistrationError,
> {
    match merge_all(plugins) {
        Err(e) => Err(e),
        Ok(infos) => {
            let u = first_undefined(infos);
            if u < infos.len() {
                Err(RegistrationError::MissingClassDefinition { record_index: u as usize })
            } else {
                Ok(infos)
            }
        },
    }
}

/// No two records carry the same name.
pub open spec fn names_distinct(infos: Seq<ClassRegistrationInfoView>) -> bool {
    forall|i: int, j: int|
        0 <= i < j < infos.len() ==> #[trigger] infos[i].class_name != #[trigger] infos[j].class_name
}

/// Every plugin's class has a record.
pub open spec fn every_class_has_record(
    plugins: Seq<ClassPluginView>,
    infos: Seq<ClassRegistrationInfoView>,
) -> bool {
    forall|i: int|
        0 <= i < plugins.len() ==> exists|k: int|
            0 <= k < infos.len() && (#[trigger] infos[k]).class_name == (
            #[trigger] plugins[i]).class_name
}

/// What submitting one record comes to: the class itself first, then the
/// generated registration function, then the user's.
pub open spec fn submission_of(info: ClassRegistrationInfoView) -> Seq<RegistrationStepView> {
    let first = seq![
        RegistrationStepView::RegisterClass {
            class_name: info.class_name,
            parent_class_name: info.parent_class_name.unwrap(),
            params: info.godot_params,
        },
    ];
    let second = match info.generated_register_fn {
        Some(register_fn) => first.push(RegistrationStepView::RunGeneratedRegisterFn { register_fn }),
        None => first,
    };
    match info.user_register_fn {
        Some(register_fn) => second.push(RegistrationStepView::RunUserRegisterFn { register_fn }),
        None => second,
    }
}

// ---------------------------------------------------------------------------
// Lemmas

/// `p` is the position of the first record named `name` when no record
/// before `p` carries the name and `p` is the end or carries it.
pub proof fn lemma_position_of(infos: Seq<ClassRegistrationInfoView>, name: Seq<char>, p: int)
    requires
        0 <= p <= infos.len(),
        forall|k: int| 0 <= k < p ==> (#[trigger] infos[k]).class_name != name,
        p < infos.len() ==> infos[p].class_name == name,
    ensures
        position_of(infos, name) == p,
    decreases infos.len(),
{
    if infos.len() > 0 && p > 0 {
        let rest = infos.drop_first();
        assert(infos[0].class_name != name);
        assert forall|k: int| 0 <= k < p - 1 implies (#[trigger] rest[k]).class_name != name by {
            assert(rest[k] == infos[k + 1]);
        }
        lemma_position_of(rest, name, p - 1);
    }
}

/// The position of a name lies within the records or at their end; before
/// it no record carries the name, and at it, if within, the record does.
pub proof fn lemma_position_of_bounds(infos: Seq<ClassRegistrationInfoView>, name: Seq<char>)
    ensures
        0 <= position_of(infos, name) <= infos.len(),
        forall|k: int|
            0 <= k < position_of(infos, name) ==> (#[trigger] infos[k]).class_name != name,
        position_of(infos, name) < infos.len() ==> infos[position_of(infos, name)].class_name
            == name,
    decreases infos.len(),
{
    if infos.len() > 0 && infos[0].class_name != name {
        let rest = infos.drop_first();
        lemma_position_of_bounds(rest, name);
        let p = position_of(infos, name);
        assert forall|k: int| 0 <= k < p implies (#[trigger] infos[k]).class_name != name by {
            if k > 0 {
                assert(rest[k - 1] == infos[k]);
            }
        }
    }
}

/// `u` is the position of the first record without a class definition when
/// every record before `u` has one and `u` is the end or has none.
pub proof fn lemma_first_undefined(infos: Seq<ClassRegistrationInfoView>, u: int)
    requires
        0 <= u <= infos.len(),
        forall|k: int| 0 <= k < u ==> (#[trigger] infos[k]).parent_class_name.is_some(),
        u < infos.len() ==> infos[u].parent_class_name.is_none(),
    ensures
        first_undefined(infos) == u,
    decreases infos.len(),
{
    if infos.len() > 0 && u > 0 {
        let rest = infos.drop_first();
        assert(infos[0].parent_class_name.is_some());
        assert forall|k: int| 0 <= k < u - 1 implies (#[trigger] rest[k]).parent_class_name.is_some() by {
            assert(rest[k] == infos[k + 1]);
        }
        lemma_first_undefined(rest, u - 1);
    }
}

/// Merging one plugin keeps the names of the records distinct, keeps every
/// record that was there under its name and at its place, and leaves a
/// record for the plugin's class.
pub proof fn lemma_merge_one_names(
    infos: Seq<ClassRegistrationInfoView>,
    plugin: ClassPluginView,
    plugin_index: int,
)
    requires
        names_distinct(infos),
        merge_one(infos, plugin, plugin_index).is_ok(),
    ensures
        names_distinct(merge_one(infos, plugin, plugin_index).unwrap()),
        infos.len() <= merge_one(infos, plugin, plugin_index).unwrap().len() <= infos.len() + 1,
        forall|k: int|
            0 <= k < infos.len() ==> (#[trigger] merge_one(
                infos,
                plugin,
                plugin_index,
            ).unwrap()[k]).class_name == infos[k].class_name,
        exists|k: int|
            0 <= k < merge_one(infos, plugin, plugin_index).unwrap().len() && (#[trigger] merge_one(
                infos,
                plugin,
                plugin_index,
            ).unwrap()[k]).class_name == plugin.class_name,
{
    lemma_position_of_bounds(infos, plugin.class_name);
    let p = position_of(infos, plugin.class_name);
    let merged = merge_one(infos, plugin, plugin_index).unwrap();
    assert(merged[p].class_name == plugin.class_name);
}

/// Every class is merged into one record: the records that come out of a
/// merge carry pairwise distinct names, and every plugin's class has one.
pub proof fn lemma_merge_all_names(plugins: Seq<ClassPluginView>)
    requires
        merge_all(plugins).is_ok(),
    ensures
        names_distinct(merge_all(plugins).unwrap()),
        every_class_has_record(plugins, merge_all(plugins).unwrap()),
        merge_all(plugins).unwrap().len() <= plugins.len(),
    decreases plugins.len(),
{
    if plugins.len() > 0 {
        let front = plugins.drop_last();
        lemma_merge_all_names(front);
        let infos = merge_all(front).unwrap();
        let n = plugins.len() - 1;
        lemma_merge_one_names(infos, plugins.last(), n);
        let merged = merge_all(plugins).unwrap();
        assert(merged == merge_one(infos, plugins.last(), n).unwrap());
        assert forall|i: int| 0 <= i < plugins.len() implies exists|k: int|
            0 <= k < merged.len() && (#[trigger] merged[k]).class_name == (
            #[trigger] plugins[i]).class_name by {
            if i < n {
                assert(front[i] == plugins[i]);
                let k = choose|k: int|
                    0 <= k < infos.len() && (#[trigger] infos[k]).class_name == front[i].class_name;
                assert(merged[k].class_name == infos[k].class_name);
            }
        }
    }
}

// ---------------------------------------------------------------------------
// Operations

impl Clone for PluginComponent {
    fn clone(&self) -> (copy: Self)
        ensures
            copy@ == self@,
    {
        match self {
            PluginComponent::ClassDef { base_class_name, generated_create_fn, free_fn } => {
                PluginComponent::ClassDef {
                    base_class_name: base_class_name.clone(),
                    generated_create_fn: *generated_create_fn,
                    free_fn: *free_fn,
                }
            },
            PluginComponent::UserMethodBinds { generated_register_fn } => {
                PluginComponent::UserMethodBinds { generated_register_fn: *generated_register_fn }
            },
            PluginComponent::UserVirtuals {
                user_register_fn,
                user_create_fn,
                user_to_string_fn,
                get_virtual_fn,
            } => PluginComponent::UserVirtuals {
                user_register_fn: *user_register_fn,
                user_create_fn: *user_create_fn,
                user_to_string_fn: *user_to_string_fn,
                get_virtual_fn: *get_virtual_fn,
            },
        }
    }
}

impl Clone for ClassRegistrationInfo {
    fn clone(&self) -> (copy: Self)
        ensures
            copy@ == self@,
    {
        let parent_class_name = match &self.parent_class_name {
            Some(name) => Some(name.clone()),
            None => None,
        };
        ClassRegistrationInfo {
            class_name: self.class_name.clone(),
            parent_class_name,
            generated_register_fn: self.generated_register_fn,
            user_register_fn: self.user_register_fn,
            godot_params: self.godot_params,
        }
    }
}

/// Callbacks of a class about which nothing is known yet.
pub fn default_creation_info() -> (info: ClassCreationInfo)
    ensures
        info == default_creation_info_spec(),
{
    ClassCreationInfo {
        to_string_func: None,
        reference_func: None,
        unreference_func: None,
        create_instance_func: None,
        free_instance_func: None,
        get_virtual_func: None,
        get_rid_func: None,
    }
}

/// The record of a class about which nothing but its name is known yet.
pub fn default_registration_info(class_name: ClassName) -> (info: ClassRegistrationInfo)
    ensures
        info@ == default_registration_info_spec(class_name@),
{
    ClassRegistrationInfo {
        class_name,
        parent_class_name: None,
        generated_register_fn: None,
        user_register_fn: None,
        godot_params: default_creation_info(),
    }
}

/// If `src` is occupied, moves it into `dst`. Both being occupied is a
/// double fill, which callers must rule out.
pub fn fill_into<A>(dst: &mut Option<A>, src: Option<A>)
    requires
        !collides(*old(dst), src),
    ensures
        *final(dst) == filled(*old(dst), src),
{
    if dst.is_none() {
        *dst = src;
    }
}

/// Whether merging `component` into `info` would fill a slot twice.
pub fn would_conflict(info: &ClassRegistrationInfo, component: &PluginComponent) -> (conflict: bool)
    ensures
        conflict == component_conflicts(info@, component@),
{
    match component {
        PluginComponent::ClassDef { generated_create_fn, .. } => {
            info.parent_class_name.is_some() || info.godot_params.free_instance_func.is_some() || (
            info.godot_params.create_instance_func.is_some() && generated_create_fn.is_some())
        },
        PluginComponent::UserMethodBinds { .. } => info.generated_register_fn.is_some(),
        PluginComponent::UserVirtuals {
            user_register_fn,
            user_create_fn,
            user_to_string_fn,
            ..
        } => {
            info.godot_params.get_virtual_func.is_some() || (info.user_register_fn.is_some()
                && user_register_fn.is_some()) || (info.godot_params.create_instance_func.is_some()
                && user_create_fn.is_some()) || (info.godot_params.to_string_func.is_some()
                && user_to_string_fn.is_some())
        },
    }
}

/// Merges `component` into the record `c`: the class definition fills the
/// parent and the `free` callback and offers a `create` callback; bound
/// methods fill the generated registration function; the user's virtual
/// functions fill the lookup of virtual functions and offer a registration
/// function, a `create` callback and a `to_string` callback. No slot that is
/// filled may be filled again.
pub fn fill_class_info(component: PluginComponent, c: &mut ClassRegistrationInfo)
    requires
        !component_conflicts(old(c)@, component@),
    ensures
        final(c)@ == with_component(old(c)@, component@),
        slots_kept(old(c)@, final(c)@),
{
    match component {
        PluginComponent::ClassDef { base_class_name, generated_create_fn, free_fn } => {
            fill_into(&mut c.parent_class_name, Some(base_class_name));
            let mut create = c.godot_params.create_instance_func;
            fill_into(&mut create, generated_create_fn);
            c.godot_params.create_instance_func = create;
            let mut free = c.godot_params.free_instance_func;
            fill_into(&mut free, Some(free_fn));
            c.godot_params.free_instance_func = free;
        },
        PluginComponent::UserMethodBinds { generated_register_fn } => {
            let mut register = c.generated_register_fn;
            fill_into(&mut register, Some(generated_register_fn));
            c.generated_register_fn = register;
        },
        PluginComponent::UserVirtuals {
            user_register_fn,
            user_create_fn,
            user_to_string_fn,
            get_virtual_fn,
        } => {
            let mut register = c.user_register_fn;
            fill_into(&mut register, user_register_fn);
            c.user_register_fn = register;
            let mut create = c.godot_params.create_instance_func;
            fill_into(&mut create, user_create_fn);
            c.godot_params.create_instance_func = create;
            let mut to_string = c.godot_params.to_string_func;
            fill_into(&mut to_string, user_to_string_fn);
            c.godot_params.to_string_func = to_string;
            let mut get_virtual = c.godot_params.get_virtual_func;
            fill_into(&mut get_virtual, Some(get_virtual_fn));
            c.godot_params.get_virtual_func = get_virtual;
        },
    }
}

/// The position of the first record named `name`, or the number of records
/// where there is none.
pub fn find_class(infos: &Vec<ClassRegistrationInfo>, name: &ClassName) -> (position: usize)
    ensures
        position == position_of(info_views(infos@), name@),
        position <= infos.len(),
{
    let mut i: usize = 0;
    while i < infos.len()
        invariant
            i <= infos.len(),
            forall|k: int| 0 <= k < i ==> (#[trigger] info_views(infos@)[k]).class_name != name@,
        decreases infos.len() - i,
    {
        if infos[i].class_name.matches(name) {
            proof {
                lemma_position_of(info_views(infos@), name@, i as int);
            }
            return i;
        }
        i = i + 1;
    }
    proof {
        lemma_position_of(info_views(infos@), name@, i as int);
    }
    i
}

/// The position of the first record without a class definition, or the
/// number of records where every record has one.
pub fn find_undefined(infos: &Vec<ClassRegistrationInfo>) -> (position: usize)
    ensures
        position == first_undefined(info_views(infos@)),
        position <= infos.len(),
{
    let mut i: usize = 0;
    while i < infos.len()
        invariant
            i <= infos.len(),
            forall|k: int|
                0 <= k < i ==> (#[trigger] info_views(infos@)[k]).parent_class_name.is_some(),
        decreases infos.len() - i,
    {
        if infos[i].parent_class_name.is_none() {
            proof {
                lemma_first_undefined(info_views(infos@), i as int);
            }
            return i;
        }
        i = i + 1;
    }
    proof {
        lemma_first_undefined(info_views(infos@), i as int);
    }
    i
}

/// Merges all plugins, first to last, into one record per class and checks
/// that every class has a definition.
///
/// Returns the records in the order in which their classes first occur among
/// the plugins. Fails with the first plugin that fills a slot twice, and
/// otherwise with the first record that lacks a class definition.
pub fn auto_register_classes(plugins: &Vec<ClassPlugin>) -> (result: Result<
    Vec<ClassRegistrationInfo>,
    RegistrationError,
>)
    ensures
        match result {
            Ok(infos) => registration_of(plugin_views(plugins@)) == Ok::<
                Seq<ClassRegistrationInfoView>,
                RegistrationError,
            >(info_views(infos@)) && names_distinct(info_views(infos@)) && every_class_has_record(
                plugin_views(plugins@),
                info_views(infos@),
            ),
            Err(e) => registration_of(plugin_views(plugins@)) == Err::<
                Seq<ClassRegistrationInfoView>,
                RegistrationError,
            >(e),
        },
{
    let ghost all = plugin_views(plugins@);
    let mut map: Vec<ClassRegistrationInfo> = Vec::new();
    let mut i: usize = 0;
    proof {
        assert(all.take(0) =~= Seq::<ClassPluginView>::empty());
        assert(info_views(map@) =~= Seq::<ClassRegistrationInfoView>::empty());
    }
    while i < plugins.len()
        invariant
            i <= plugins.len(),
            all == plugin_views(plugins@),
            merge_all(all.take(i as int)) == Ok::<
                Seq<ClassRegistrationInfoView>,
                RegistrationError,
            >(info_views(map@)),
        decreases plugins.len() - i,
    {
        let elem = &plugins[i];
        let ghost before = info_views(map@);
        proof {
            assert(all.take(i + 1).drop_last() =~= all.take(i as int));
            assert(all.take(i + 1).last() == elem@);
        }
        let p = find_class(&map, &elem.class_name);
        let mut class_info = if p < map.len() {
            map[p].clone()
        } else {
            default_registration_info(elem.class_name.clone())
        };
        if would_conflict(&class_info, &elem.component) {
            proof {
                lemma_merge_prefix_error(all, i + 1);
            }
            return Err(RegistrationError::SlotAlreadyFilled { plugin_index: i });
        }
        fill_class_info(elem.component.clone(), &mut class_info);
        if p < map.len() {
            map.set(p, class_info);
            proof {
                assert(info_views(map@) =~= before.update(p as int, class_info@));
            }
        } else {
            map.push(class_info);
            proof {
                assert(info_views(map@) =~= before.push(class_info@));
            }
        }
        i = i + 1;
    }
    proof {
        assert(all.take(i as int) =~= all);
        lemma_merge_all_names(all);
    }
    let u = find_undefined(&map);
    if u < map.len() {
        Err(RegistrationError::MissingClassDefinition { record_index: u })
    } else {
        Ok(map)
    }
}

/// Once a prefix of the plugins fails to merge, the whole fails in the same way.
pub proof fn lemma_merge_prefix_error(plugins: Seq<ClassPluginView>, n: int)
    requires
        0 <= n <= plugins.len(),
        merge_all(plugins.take(n)).is_err(),
    ensures
        merge_all(plugins) == merge_all(plugins.take(n)),
    decreases plugins.len(),
{
    if n < plugins.len() {
        let front = plugins.drop_last();
        assert(front.take(n) =~= plugins.take(n));
        lemma_merge_prefix_error(front, n);
    } else {
        assert(plugins.take(n) =~= plugins);
    }
}

/// The record of a class whose callbacks are all known statically: every
/// callback slot but `get_rid` is filled, and the class registers its members
/// through its builder.
pub fn register_class(class_name: &str, base_class_name: &str, callbacks: ClassCallbacks) -> (info:
    ClassRegistrationInfo)
    ensures
        info@ == (ClassRegistrationInfoView {
            class_name: class_name@,
            parent_class_name: Some(base_class_name@),
            generated_register_fn: None,
            user_register_fn: Some(callbacks.register_by_builder),
            godot_params: ClassCreationInfo {
                to_string_func: Some(callbacks.to_string),
                reference_func: Some(callbacks.reference),
                unreference_func: Some(callbacks.unreference),
                create_instance_func: Some(callbacks.create),
                free_instance_func: Some(callbacks.free),
                get_virtual_func: Some(callbacks.get_virtual),
                get_rid_func: None,
            },
        }),
{
    let godot_params = ClassCreationInfo {
        to_string_func: Some(callbacks.to_string),
        reference_func: Some(callbacks.reference),
        unreference_func: Some(callbacks.unreference),
        create_instance_func: Some(callbacks.create),
        free_instance_func: Some(callbacks.free),
        get_virtual_func: Some(callbacks.get_virtual),
        get_rid_func: None,
    };
    ClassRegistrationInfo {
        class_name: ClassName::from_static(class_name),
        parent_class_name: Some(ClassName::from_static(base_class_name)),
        generated_register_fn: None,
        user_register_fn: Some(callbacks.register_by_builder),
        godot_params,
    }
}

/// What is to be done, in order, to submit one record to the engine.
/// The record must have a class definition.
pub fn register_class_raw(info: &ClassRegistrationInfo) -> (steps: Vec<RegistrationStep>)
    requires
        info@.parent_class_name.is_some(),
    ensures
        step_views(steps@) == submission_of(info@),
{
    let mut steps: Vec<RegistrationStep> = Vec::new();
    let parent_class_name = match &info.parent_class_name {
        Some(name) => name.clone(),
        None => info.class_name.clone(),
    };
    steps.push(
        RegistrationStep::RegisterClass {
            class_name: info.class_name.clone(),
            parent_class_name,
            params: info.godot_params,
        },
    );
    if let Some(register_fn) = info.generated_register_fn {
        steps.push(RegistrationStep::RunGeneratedRegisterFn { register_fn });
    }
    if let Some(register_fn) = info.user_register_fn {
        steps.push(RegistrationStep::RunUserRegisterFn { register_fn });
    }
    proof {
        assert(step_views(steps@) =~= submission_of(info@));
    }
    steps
}

// ---------------------------------------------------------------------------
// The registry

/// Where a registry stands: plugins are collected first, then merged and
/// submitted, once.
#[derive(Copy, Clone, Debug, PartialEq, Eq, Structural)]
pub enum RegistryPhase {
    Collecting,
    Submitted,
}

/// Why a registry refuses an operation.
#[derive(Copy, Clone, Debug, PartialEq, Eq, Structural)]
pub enum RegistryError {
    /// The classes have been submitted; nothing can be added or submitted
    /// again.
    AlreadySubmitted,
    /// The plugins cannot be registered.
    Registration(RegistrationError),
}

/// The plugins contributed so far, and whether they have been submitted.
#[derive(Debug)]
pub struct Registry {
    plugins: Vec<ClassPlugin>,
    phase: RegistryPhase,
}

impl Registry {
    /// The plugins contributed so far, in order.
    pub closed spec fn plugins(self) -> Seq<ClassPluginView> {
        plugin_views(self.plugins@)
    }

    pub closed spec fn phase(self) -> RegistryPhase {
        self.phase
    }

    /// An empty registry that collects.
    pub fn new() -> (registry: Self)
        ensures
            registry.plugins().len() == 0,
            registry.phase() == RegistryPhase::Collecting,
    {
        let registry = Registry { plugins: Vec::new(), phase: RegistryPhase::Collecting };
        proof {
            assert(registry.plugins() =~= Seq::<ClassPluginView>::empty());
        }
        registry
    }

    /// Whether the classes have been submitted.
    pub fn is_submitted(&self) -> (submitted: bool)
        ensures
            submitted == (self.phase() == RegistryPhase::Submitted),
    {
        match self.phase {
            RegistryPhase::Submitted => true,
            RegistryPhase::Collecting => false,
        }
    }

    /// The number of plugins contributed so far.
    pub fn plugin_count(&self) -> (count: usize)
        ensures
            count == self.plugins().len(),
    {
        self.plugins.len()
    }

    /// Contributes one plugin. Refused once the classes have been submitted;
    /// the registry is then left as it was.
    pub fn add_plugin(&mut self, plugin: ClassPlugin) -> (result: Result<(), RegistryError>)
        ensures
            final(self).phase() == old(self).phase(),
            match result {
                Ok(_) => old(self).phase() == RegistryPhase::Collecting && final(self).plugins()
                    == old(self).plugins().push(plugin@),
                Err(e) => e == RegistryError::AlreadySubmitted && old(self).phase()
                    == RegistryPhase::Submitted && final(self).plugins() == old(self).plugins(),
            },
    {
        if self.is_submitted() {
            return Err(RegistryError::AlreadySubmitted);
        }
        let ghost before = self.plugins();
        self.plugins.push(plugin);
        proof {
            assert(self.plugins() =~= before.push(plugin@));
        }
        Ok(())
    }

    /// Merges the plugins into one record per class and marks the classes
    /// as submitted. Refused where they have been submitted already, and
    /// where the plugins cannot be registered; the registry is then left as
    /// it was.
    pub fn submit(&mut self) -> (result: Result<Vec<ClassRegistrationInfo>, RegistryError>)
        ensures
            final(self).plugins() == old(self).plugins(),
            match result {
                Ok(infos) => old(self).phase() == RegistryPhase::Collecting && final(self).phase()
                    == RegistryPhase::Submitted && registration_of(old(self).plugins()) == Ok::<
                    Seq<ClassRegistrationInfoView>,
                    RegistrationError,
                >(info_views(infos@)) && names_distinct(info_views(infos@))
                    && every_class_has_record(old(self).plugins(), info_views(infos@)),
                Err(RegistryError::AlreadySubmitted) => old(self).phase()
                    == RegistryPhase::Submitted && final(self).phase() == RegistryPhase::Submitted,
                Err(RegistryError::Registration(e)) => old(self).phase()
                    == RegistryPhase::Collecting && final(self).phase()
                    == RegistryPhase::Collecting && registration_of(old(self).plugins()) == Err::<
                    Seq<ClassRegistrationInfoView>,
                    RegistrationError,
                >(e),
            },
    {
        if self.is_submitted() {
            return Err(RegistryError::AlreadySubmitted);
        }
        match auto_register_classes(&self.plugins) {
            Ok(infos) => {
                self.phase = RegistryPhase::Submitted;
                Ok(infos)
            },
            Err(e) => Err(RegistryError::Registration(e)),
        }
    }
}

// ---------------------------------------------------------------------------
// The inheritance that the records declare

/// The edges of inheritance that the records declare, in order: one for
/// each record that names a parent.
pub open spec fn record_edges(infos: Seq<ClassRegistrationInfoView>) -> Seq<
    (Seq<char>, Seq<char>),
>
    decreases infos.len(),
{
    if infos.len() == 0 {
        Seq::empty()
    } else {
        let front = record_edges(infos.drop_last());
        match infos.last().parent_class_name {
            Some(parent) => front.push((infos.last().class_name, parent)),
            None => front,
        }
    }
}

/// Every edge that the records declare starts at the class of a record.
pub proof fn lemma_record_edges_start_at_records(infos: Seq<ClassRegistrationInfoView>)
    ensures
        forall|k: int|
            0 <= k < record_edges(infos).len() ==> exists|j: int|
                0 <= j < infos.len() && (#[trigger] infos[j]).class_name == (
                #[trigger] record_edges(infos)[k]).0,
    decreases infos.len(),
{
    if infos.len() > 0 {
        let front = infos.drop_last();
        lemma_record_edges_start_at_records(front);
        let edges = record_edges(infos);
        assert forall|k: int| 0 <= k < edges.len() implies exists|j: int|
            0 <= j < infos.len() && (#[trigger] infos[j]).class_name == (#[trigger] edges[k]).0 by {
            if k < record_edges(front).len() {
                assert(edges[k] == record_edges(front)[k]);
                let j = choose|j: int|
                    0 <= j < front.len() && (#[trigger] front[j]).class_name == record_edges(
                        front,
                    )[k].0;
                assert(infos[j] == front[j]);
            } else {
                assert(infos[infos.len() - 1].class_name == edges[k].0);
            }
        }
    }
}

/// Among records with distinct names, the parent that a record names is the
/// direct base of its class in the inheritance that the records declare:
/// the record names no other base.
pub proof fn lemma_record_parent_is_direct_base(infos: Seq<ClassRegistrationInfoView>, i: int)
    requires
        names_distinct(infos),
        0 <= i < infos.len(),
        infos[i].parent_class_name.is_some(),
    ensures
        direct_base_of(record_edges(infos), infos[i].class_name)
            == infos[i].parent_class_name,
    decreases infos.len(),
{
    let name = infos[i].class_name;
    let front = infos.drop_last();
    let front_edges = record_edges(front);
    let edges = record_edges(infos);
    assert(names_distinct(front)) by {
        assert forall|a: int, b: int| 0 <= a < b < front.len() implies (
        #[trigger] front[a]).class_name != (#[trigger] front[b]).class_name by {
            assert(front[a] == infos[a]);
            assert(front[b] == infos[b]);
        }
    }
    if i == infos.len() - 1 {
        lemma_record_edges_start_at_records(front);
        assert forall|k: int| 0 <= k < front_edges.len() implies (#[trigger] edges[k]).0
            != name by {
            assert(edges[k] == front_edges[k]);
            let j = choose|j: int|
                0 <= j < front.len() && (#[trigger] front[j]).class_name == front_edges[k].0;
            assert(front[j] == infos[j]);
        }
        lemma_edge_position(edges, name, front_edges.len() as int);
    } else {
        assert(front[i] == infos[i]);
        lemma_record_parent_is_direct_base(front, i);
        lemma_edge_position_bounds(front_edges, name);
        let p = edge_position(front_edges, name);
        assert forall|k: int| 0 <= k < p implies (#[trigger] edges[k]).0 != name by {
            assert(edges[k] == front_edges[k]);
        }
        assert(edges[p] == front_edges[p]);
        lemma_edge_position(edges, name, p);
    }
}

/// A class that is neither the class of a record, nor the parent that the
/// record names, nor anything that the parent inherits from, is not
/// inherited by the class of the record: a cast of an object of that class
/// to it yields nothing.
pub proof fn lemma_unrelated_class_is_not_inherited(
    infos: Seq<ClassRegistrationInfoView>,
    i: int,
    other: Seq<char>,
)
    requires
        names_distinct(infos),
        0 <= i < infos.len(),
        infos[i].parent_class_name.is_some(),
        other != infos[i].class_name,
        other != infos[i].parent_class_name.unwrap(),
        !bases_within(
            record_edges(infos),
            infos[i].parent_class_name.unwrap(),
            (record_edges(infos).len() - 1) as nat,
        ).contains(other),
    ensures
        !inherits_from(record_edges(infos), infos[i].class_name, other),
{
    lemma_record_parent_is_direct_base(infos, i);
    lemma_inherits_through_base(
        record_edges(infos),
        infos[i].class_name,
        infos[i].parent_class_name.unwrap(),
        other,
    );
}

/// The inheritance that the records declare, as a tree that casts can read.
pub fn inheritance_of(infos: &Vec<ClassRegistrationInfo>) -> (tree: InheritanceTree)
    ensures
        edges(tree.derived_to_base@) == record_edges(info_views(infos@)),
{
    let ghost all = info_views(infos@);
    let mut tree = InheritanceTree::new();
    let mut i: usize = 0;
    proof {
        assert(all.take(0) =~= Seq::<ClassRegistrationInfoView>::empty());
        assert(edges(tree.derived_to_base@) =~= record_edges(
            all.take(0),
        ));
    }
    while i < infos.len()
        invariant
            i <= infos.len(),
            all == info_views(infos@),
            edges(tree.derived_to_base@) == record_edges(
                all.take(i as int),
            ),
        decreases infos.len() - i,
    {
        proof {
            assert(all.take(i + 1).drop_last() =~= all.take(i as int));
            assert(all.take(i + 1).last() == infos[i as int]@);
        }
        match &infos[i].parent_class_name {
            Some(parent) => {
                tree.insert(infos[i].class_name.as_str(), parent.as_str());
            },
            None => {},
        }
        i = i + 1;
    }
    proof {
        assert(all.take(i as int) =~= all);
    }
    tree
}

} // verus!

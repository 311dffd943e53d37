//! What the `godot_api` attribute decides about an `impl` block.
//!
//! The attribute is applied to the inherent `impl` of a class, where it binds
//! the functions marked `func` and registers the signals marked `signal`,
//! and to the `impl` of the extension trait, where it finds out which of the
//! engine's virtual functions the class overrides. The syntax tree stays with
//! the caller; the types here hold what the decisions read.

use vstd::prelude::*;
use vstd::string::*;
use crate::text::{copy_names, join_texts, str_eq, text_option, texts};

verus! {

/// The kind of item that an attribute is applied to.
#[derive(Copy, Clone, Debug, PartialEq, Eq, Structural)]
pub enum DeclarationKind {
    Struct,
    Enum,
    Union,
    Impl,
    Function,
    Other,
}

/// The qualifiers in front of a function.
#[derive(Copy, Clone, Debug, PartialEq, Eq, Structural)]
pub struct Qualifiers {
    /// `default`
    pub tk_default: bool,
    /// `const`
    pub tk_const: bool,
    /// `async`
    pub tk_async: bool,
    /// The keyword that lifts the compiler's memory-safety checks.
    pub tk_unchecked: bool,
    /// The keyword that asks for a foreign calling convention.
    pub tk_foreign: bool,
    /// The name of the foreign calling convention, where one is given.
    pub foreign_abi: bool,
}

/// One function of an `impl` block.
#[derive(Debug)]
pub struct Method {
    pub name: String,
    /// The names of the attributes on the function, in order.
    pub attributes: Vec<String>,
    pub qualifiers: Qualifiers,
    pub has_generic_params: bool,
    pub param_count: usize,
    pub has_return_ty: bool,
}

/// One item in the body of an `impl` block.
#[derive(Debug)]
pub enum ImplMember {
    Method(Method),
    Constant,
    AssocTy,
}

/// An `impl` block.
#[derive(Debug)]
pub struct Impl {
    pub has_generic_params: bool,
    /// The last segment of the path of the type, where the type is a path.
    pub self_ty: Option<String>,
    pub self_ty_has_generic_args: bool,
    /// Whether the block implements a trait.
    pub has_trait: bool,
    /// The last segment of the path of the trait, where it is a path.
    pub trait_ty: Option<String>,
    pub body_items: Vec<ImplMember>,
}

/// Which attribute binds a function.
#[derive(Copy, Clone, Debug, PartialEq, Eq, Structural)]
pub enum BoundAttrType {
    Func,
    Signal,
}

/// The binding attribute found on a function, and its position among the
/// function's attributes.
#[derive(Copy, Clone, Debug, PartialEq, Eq, Structural)]
pub struct BoundAttr {
    pub index: usize,
    pub ty: BoundAttrType,
}

/// Which kind of `impl` block the attribute is on.
#[derive(Copy, Clone, Debug, PartialEq, Eq, Structural)]
pub enum ImplKind {
    Inherent,
    Trait,
}

/// Why the attribute rejects its input.
#[derive(Copy, Clone, Debug, PartialEq, Eq, Structural)]
pub enum ApiError {
    /// The attribute is not on an `impl` block.
    NotAnImpl,
    /// The `impl` block has generic parameters.
    GenericParams,
    /// The type of the `impl` block is not a path.
    InvalidSelfType,
    /// The trait of the `impl` block is not the extension trait.
    WrongTrait,
    /// The type of the `impl` block has generic arguments.
    GenericSelfType,
    /// The function at this position carries two binding attributes in a row.
    MultipleAttributes { member: usize },
    /// The bound function at this position has qualifiers.
    QualifiersNotAllowed { member: usize, attr: BoundAttrType },
    /// The bound function at this position has generic parameters.
    GenericFn { member: usize, attr: BoundAttrType },
    /// The signal at this position has parameters or a return type.
    SignalSignature { member: usize },
    /// The function at this position is none that the extension trait has.
    UnsupportedMethod { member: usize },
}

/// What is generated for an inherent `impl` block.
#[derive(Debug)]
pub struct InherentImplPlan {
    pub class_name: String,
    /// The names of the bound functions, in order.
    pub funcs: Vec<String>,
    /// The names of the signals, in order.
    pub signals: Vec<String>,
}

/// What is generated for an `impl` of the extension trait.
#[derive(Debug)]
pub struct TraitImplPlan {
    pub class_name: String,
    /// Whether the class registers itself through `register_class`.
    pub has_register_fn: bool,
    /// Whether the class has an `init`, and with it a `create` callback.
    pub has_create_fn: bool,
    /// Whether the class has its own `to_string`.
    pub has_to_string_fn: bool,
    /// The engine's names of the overridden virtual functions, in order.
    pub virtual_method_names: Vec<String>,
}

// ---------------------------------------------------------------------------
// Mathematical models

pub struct MethodView {
    pub name: Seq<char>,
    pub attributes: Seq<Seq<char>>,
    pub qualifiers: Qualifiers,
    pub has_generic_params: bool,
    pub param_count: usize,
    pub has_return_ty: bool,
}

pub enum ImplMemberView {
    Method(MethodView),
    Constant,
    AssocTy,
}

impl View for Method {
    type V = MethodView;

    open spec fn view(&self) -> MethodView {
        MethodView {
            name: self.name@,
            attributes: texts(self.attributes@),
            qualifiers: self.qualifiers,
            has_generic_params: self.has_generic_params,
            param_count: self.param_count,
            has_return_ty: self.has_return_ty,
        }
    }
}

impl View for ImplMember {
    type V = ImplMemberView;

    open spec fn view(&self) -> ImplMemberView {
        match *self {
            ImplMember::Method(m) => ImplMemberView::Method(m@),
            ImplMember::Constant => ImplMemberView::Constant,
            ImplMember::AssocTy => ImplMemberView::AssocTy,
        }
    }
}

/// The views of the items of a body, in order.
pub open spec fn member_views(items: Seq<ImplMember>) -> Seq<ImplMemberView> {
    Seq::new(items.len(), |i: int| items[i]@)
}

impl Qualifiers {
    /// Whether any qualifier is present.
    pub open spec fn any(self) -> bool {
        self.tk_default || self.tk_const || self.tk_async || self.tk_unchecked || self.tk_foreign
            || self.foreign_abi
    }
}

/// The binding that an attribute name stands for.
pub open spec fn binding_of(attr_name: Seq<char>) -> Option<BoundAttrType> {
    if attr_name == "func"@ {
        Some(BoundAttrType::Func)
    } else if attr_name == "signal"@ {
        Some(BoundAttrType::Signal)
    } else {
        None
    }
}

/// Whether two binding attributes stand next to each other at `i - 1` and `i`.
pub open spec fn doubled_at(attributes: Seq<Seq<char>>, i: int) -> bool {
    0 < i < attributes.len() && binding_of(attributes[i - 1]).is_some() && binding_of(
        attributes[i],
    ).is_some()
}

/// Whether two binding attributes stand next to each other somewhere.
pub open spec fn has_doubled(attributes: Seq<Seq<char>>) -> bool {
    exists|i: int| doubled_at(attributes, i)
}

/// The binding attribute of a function: the one that stands last among its
/// attributes, if the last attribute is one. Two binding attributes in a row
/// are an error.
pub open spec fn bound_attr_of(attributes: Seq<Seq<char>>) -> Result<Option<BoundAttr>, ()> {
    if has_doubled(attributes) {
        Err(())
    } else if attributes.len() > 0 && binding_of(attributes.last()).is_some() {
        Ok(
            Some(
                BoundAttr {
                    index: (attributes.len() - 1) as usize,
                    ty: binding_of(attributes.last()).unwrap(),
                },
            ),
        )
    } else {
        Ok(None)
    }
}

/// What becomes of one item of the body.
pub enum MemberOutcome {
    /// The item stays as it is.
    Kept(ImplMemberView),
    /// The function is bound; it stays, without its binding attribute.
    Func(MethodView),
    /// The function declares a signal and leaves the body.
    Signal(Seq<char>),
    /// The item is rejected.
    Rejected(ApiError),
}

/// What becomes of the item `item` at position `member`.
pub open spec fn member_outcome(item: ImplMemberView, member: int) -> MemberOutcome {
    match item {
        ImplMemberView::Method(method) => match bound_attr_of(method.attributes) {
            Err(_) => MemberOutcome::Rejected(
                ApiError::MultipleAttributes { member: member as usize },
            ),
            Ok(None) => MemberOutcome::Kept(item),
            Ok(Some(attr)) => {
                if method.qualifiers.any() {
                    MemberOutcome::Rejected(
                        ApiError::QualifiersNotAllowed { member: member as usize, attr: attr.ty },
                    )
                } else if method.has_generic_params {
                    MemberOutcome::Rejected(
                        ApiError::GenericFn { member: member as usize, attr: attr.ty },
                    )
                } else {
                    match attr.ty {
                        BoundAttrType::Func => MemberOutcome::Func(
                            MethodView {
                                attributes: method.attributes.remove(attr.index as int),
                                ..method
                            },
                        ),
                        BoundAttrType::Signal => if method.param_count != 0
                            || method.has_return_ty {
                            MemberOutcome::Rejected(
                                ApiError::SignalSignature { member: member as usize },
                            )
                        } else {
                            MemberOutcome::Signal(method.name)
                        },
                    }
                }
            },
        },
        other => MemberOutcome::Kept(other),
    }
}

/// A body after its bound functions were processed: what stays in it, and
/// the names of the bound functions and of the signals, each in order.
pub struct ProcessedView {
    pub body_items: Seq<ImplMemberView>,
    pub funcs: Seq<Seq<char>>,
    pub signals: Seq<Seq<char>>,
}

/// The body `items` after its bound functions were processed, or the first
/// rejection met on the way.
pub open spec fn processed(items: Seq<ImplMemberView>) -> Result<ProcessedView, ApiError>
    decreases items.len(),
{
    if items.len() == 0 {
        Ok(ProcessedView { body_items: Seq::empty(), funcs: Seq::empty(), signals: Seq::empty() })
    } else {
        match processed(items.drop_last()) {
            Err(e) => Err(e),
            Ok(front) => match member_outcome(items.last(), items.len() - 1) {
                MemberOutcome::Rejected(e) => Err(e),
                MemberOutcome::Kept(item) => Ok(
                    ProcessedView { body_items: front.body_items.push(item), ..front },
                ),
                MemberOutcome::Func(method) => Ok(
                    ProcessedView {
                        body_items: front.body_items.push(ImplMemberView::Method(method)),
                        funcs: front.funcs.push(method.name),
                        ..front
                    },
                ),
                MemberOutcome::Signal(name) => Ok(
                    ProcessedView { signals: front.signals.push(name), ..front },
                ),
            },
        }
    }
}

/// Once a prefix of a body is rejected, the whole body is rejected in the
/// same way.
pub proof fn lemma_processed_prefix_error(items: Seq<ImplMemberView>, n: int)
    requires
        0 <= n <= items.len(),
        processed(items.take(n)).is_err(),
    ensures
        processed(items) == processed(items.take(n)),
    decreases items.len(),
{
    if n < items.len() {
        let front = items.drop_last();
        assert(front.take(n) =~= items.take(n));
        lemma_processed_prefix_error(front, n);
    } else {
        assert(items.take(n) =~= items);
    }
}

/// The engine's virtual functions that the extension trait offers.
pub open spec fn is_virtual_method_name(name: Seq<char>) -> bool {
    name == "ready"@ || name == "process"@ || name == "physics_process"@
}

/// What the functions of an `impl` of the extension trait come to.
pub struct VirtualsView {
    pub has_register_fn: bool,
    pub has_create_fn: bool,
    pub has_to_string_fn: bool,
    pub virtual_method_names: Seq<Seq<char>>,
}

/// What the items of an `impl` of the extension trait come to, or the first
/// function that the trait does not have.
pub open spec fn virtuals_of(items: Seq<ImplMemberView>) -> Result<VirtualsView, ApiError>
    decreases items.len(),
{
    if items.len() == 0 {
        Ok(
            VirtualsView {
                has_register_fn: false,
                has_create_fn: false,
                has_to_string_fn: false,
                virtual_method_names: Seq::empty(),
            },
        )
    } else {
        match virtuals_of(items.drop_last()) {
            Err(e) => Err(e),
            Ok(front) => match items.last() {
                ImplMemberView::Method(method) => {
                    if method.name == "register_class"@ {
                        Ok(VirtualsView { has_register_fn: true, ..front })
                    } else if method.name == "init"@ {
                        Ok(VirtualsView { has_create_fn: true, ..front })
                    } else if method.name == "to_string"@ {
                        Ok(VirtualsView { has_to_string_fn: true, ..front })
                    } else if is_virtual_method_name(method.name) {
                        Ok(
                            VirtualsView {
                                virtual_method_names: front.virtual_method_names.push(
                                    "_"@ + method.name,
                                ),
                                ..front
                            },
                        )
                    } else {
                        Err(ApiError::UnsupportedMethod { member: (items.len() - 1) as usize })
                    }
                },
                _ => Ok(front),
            },
        }
    }
}

/// Once a prefix of the items is rejected, the whole is rejected in the same way.
pub proof fn lemma_virtuals_prefix_error(items: Seq<ImplMemberView>, n: int)
    requires
        0 <= n <= items.len(),
        virtuals_of(items.take(n)).is_err(),
    ensures
        virtuals_of(items) == virtuals_of(items.take(n)),
    decreases items.len(),
{
    if n < items.len() {
        let front = items.drop_last();
        assert(front.take(n) =~= items.take(n));
        lemma_virtuals_prefix_error(front, n);
    } else {
        assert(items.take(n) =~= items);
    }
}

/// The class that an `impl` block is for, or why the block is rejected: a
/// trait, where one is expected, must be the expected one, and the type must
/// be a path without generic arguments.
pub open spec fn validated_class(
    trait_ty: Option<Seq<char>>,
    self_ty: Option<Seq<char>>,
    self_ty_has_generic_args: bool,
    expected_trait: Option<Seq<char>>,
) -> Result<Seq<char>, ApiError> {
    if expected_trait.is_some() && trait_ty != expected_trait {
        Err(ApiError::WrongTrait)
    } else if self_ty.is_none() {
        Err(ApiError::InvalidSelfType)
    } else if self_ty_has_generic_args {
        Err(ApiError::GenericSelfType)
    } else {
        Ok(self_ty.unwrap())
    }
}

/// Which kind of block the attribute is on, or why it rejects the item.
pub open spec fn impl_kind_of(
    kind: DeclarationKind,
    has_generic_params: bool,
    self_ty_is_path: bool,
    has_trait: bool,
) -> Result<ImplKind, ApiError> {
    if kind != DeclarationKind::Impl {
        Err(ApiError::NotAnImpl)
    } else if has_generic_params {
        Err(ApiError::GenericParams)
    } else if !self_ty_is_path {
        Err(ApiError::InvalidSelfType)
    } else if has_trait {
        Ok(ImplKind::Trait)
    } else {
        Ok(ImplKind::Inherent)
    }
}

/// What an `impl` of the extension trait comes to: the class and what its
/// functions come to, or why the block is rejected.
pub open spec fn trait_outcome(
    trait_ty: Option<Seq<char>>,
    self_ty: Option<Seq<char>>,
    self_ty_has_generic_args: bool,
    items: Seq<ImplMemberView>,
) -> Result<(Seq<char>, VirtualsView), ApiError> {
    match validated_class(trait_ty, self_ty, self_ty_has_generic_args, Some("GodotExt"@)) {
        Err(e) => Err(e),
        Ok(class_name) => match virtuals_of(items) {
            Err(e) => Err(e),
            Ok(virtuals) => Ok((class_name, virtuals)),
        },
    }
}

/// What an inherent `impl` block comes to: the class and the processed body,
/// or why the block is rejected.
pub open spec fn inherent_outcome(
    trait_ty: Option<Seq<char>>,
    self_ty: Option<Seq<char>>,
    self_ty_has_generic_args: bool,
    items: Seq<ImplMemberView>,
) -> Result<(Seq<char>, ProcessedView), ApiError> {
    match validated_class(trait_ty, self_ty, self_ty_has_generic_args, None) {
        Err(e) => Err(e),
        Ok(class_name) => match processed(items) {
            Err(e) => Err(e),
            Ok(body) => Ok((class_name, body)),
        },
    }
}

// ---------------------------------------------------------------------------
// Operations

/// Two binding attributes stand next to each other on one function.
#[derive(Copy, Clone, Debug, PartialEq, Eq, Structural)]
pub struct DoubledAttribute;

/// An item that an attribute is applied to.
#[derive(Debug)]
pub enum Declaration {
    Struct,
    Enum,
    Union,
    Impl(Impl),
    Function,
    Other,
}

/// What the attribute makes of an `impl` block.
#[derive(Debug)]
pub enum Transformed {
    /// The inherent block, as it stays, and what is generated for it.
    Inherent { decl: Impl, plan: InherentImplPlan },
    /// The trait block, unchanged, and what is generated for it.
    Trait { decl: Impl, virtuals: TraitImplPlan },
}

impl TraitImplPlan {
    /// What the plan says of the functions of the block.
    pub open spec fn virtuals(self) -> VirtualsView {
        VirtualsView {
            has_register_fn: self.has_register_fn,
            has_create_fn: self.has_create_fn,
            has_to_string_fn: self.has_to_string_fn,
            virtual_method_names: texts(self.virtual_method_names@),
        }
    }
}

impl Declaration {
    /// The kind of the item.
    pub open spec fn kind(self) -> DeclarationKind {
        match self {
            Declaration::Struct => DeclarationKind::Struct,
            Declaration::Enum => DeclarationKind::Enum,
            Declaration::Union => DeclarationKind::Union,
            Declaration::Impl(_) => DeclarationKind::Impl,
            Declaration::Function => DeclarationKind::Function,
            Declaration::Other => DeclarationKind::Other,
        }
    }
}

impl Qualifiers {
    /// No qualifier at all.
    pub fn none() -> (q: Self)
        ensures
            !q.any(),
    {
        Qualifiers {
            tk_default: false,
            tk_const: false,
            tk_async: false,
            tk_unchecked: false,
            tk_foreign: false,
            foreign_abi: false,
        }
    }

    /// Whether any qualifier is present.
    pub fn is_any(&self) -> (yes: bool)
        ensures
            yes == self.any(),
    {
        self.tk_default || self.tk_const || self.tk_async || self.tk_unchecked || self.tk_foreign
            || self.foreign_abi
    }
}

impl Clone for Method {
    fn clone(&self) -> (copy: Self)
        ensures
            copy@ == self@,
    {
        Method {
            name: self.name.clone(),
            attributes: copy_names(&self.attributes),
            qualifiers: self.qualifiers,
            has_generic_params: self.has_generic_params,
            param_count: self.param_count,
            has_return_ty: self.has_return_ty,
        }
    }
}

impl Clone for ImplMember {
    fn clone(&self) -> (copy: Self)
        ensures
            copy@ == self@,
    {
        match self {
            ImplMember::Method(m) => ImplMember::Method(m.clone()),
            ImplMember::Constant => ImplMember::Constant,
            ImplMember::AssocTy => ImplMember::AssocTy,
        }
    }
}

/// The binding that an attribute name stands for.
pub fn attribute_binding(attr_name: &str) -> (binding: Option<BoundAttrType>)
    ensures
        binding == binding_of(attr_name@),
{
    if str_eq(attr_name, "func") {
        Some(BoundAttrType::Func)
    } else if str_eq(attr_name, "signal") {
        Some(BoundAttrType::Signal)
    } else {
        None
    }
}

/// Finds the binding attribute of `method`: the last of its attributes, if
/// that is `func` or `signal`. Fails where two binding attributes stand next
/// to each other.
pub fn extract_attributes(method: &Method) -> (result: Result<Option<BoundAttr>, DoubledAttribute>)
    ensures
        match result {
            Ok(found) => bound_attr_of(method@.attributes) == Ok::<Option<BoundAttr>, ()>(found),
            Err(_) => bound_attr_of(method@.attributes).is_err(),
        },
{
    let ghost names = method@.attributes;
    let mut found: Option<BoundAttr> = None;
    let mut index: usize = 0;
    while index < method.attributes.len()
        invariant
            index <= method.attributes.len(),
            names == texts(method.attributes@),
            forall|k: int| 0 < k < index ==> !doubled_at(names, k),
            index == 0 ==> found.is_none(),
            index > 0 ==> found == match binding_of(names[index - 1]) {
                Some(ty) => Some(BoundAttr { index: (index - 1) as usize, ty }),
                None => None,
            },
        decreases method.attributes.len() - index,
    {
        let new_found = match attribute_binding(method.attributes[index].as_str()) {
            Some(ty) => Some(BoundAttr { index, ty }),
            None => None,
        };
        if found.is_some() && new_found.is_some() {
            assert(doubled_at(names, index as int));
            return Err(DoubledAttribute);
        }
        found = new_found;
        index = index + 1;
    }
    proof {
        assert(!has_doubled(names)) by {
            if has_doubled(names) {
                let i = choose|i: int| doubled_at(names, i);
                assert(!doubled_at(names, i));
            }
        }
    }
    Ok(found)
}

/// The bound function `method` without its binding attribute at `index`.
fn without_attribute(method: &Method, index: usize) -> (reduced: Method)
    requires
        index < method.attributes.len(),
    ensures
        reduced@ == (MethodView { attributes: method@.attributes.remove(index as int), ..method@ }),
{
    let mut reduced = method.clone();
    let ghost before = texts(reduced.attributes@);
    assert(before.len() == texts(method.attributes@).len());
    reduced.attributes.remove(index);
    proof {
        assert(texts(reduced.attributes@) =~= before.remove(index as int));
    }
    reduced
}

/// Processes the bound functions of an inherent `impl` block.
///
/// A function marked `func` stays in the block without the mark, and its
/// name is reported. A function marked `signal` leaves the block, and its
/// name is reported. A bound function may have neither qualifiers nor
/// generic parameters, and a signal neither parameters nor a return type.
/// On a rejection the block is left as it was.
pub fn process_godot_fns(decl: &mut Impl) -> (result: Result<(Vec<String>, Vec<String>), ApiError>)
    ensures
        match result {
            Ok((funcs, signals)) => processed(member_views(old(decl).body_items@)) == Ok::<
                ProcessedView,
                ApiError,
            >(
                ProcessedView {
                    body_items: member_views(final(decl).body_items@),
                    funcs: texts(funcs@),
                    signals: texts(signals@),
                },
            ),
            Err(e) => processed(member_views(old(decl).body_items@)) == Err::<
                ProcessedView,
                ApiError,
            >(e) && final(decl).body_items == old(decl).body_items,
        },
        final(decl).has_generic_params == old(decl).has_generic_params,
        final(decl).self_ty == old(decl).self_ty,
        final(decl).self_ty_has_generic_args == old(decl).self_ty_has_generic_args,
        final(decl).has_trait == old(decl).has_trait,
        final(decl).trait_ty == old(decl).trait_ty,
{
    let ghost all = member_views(decl.body_items@);
    let mut func_names: Vec<String> = Vec::new();
    let mut signal_idents: Vec<String> = Vec::new();
    let mut kept: Vec<ImplMember> = Vec::new();
    let mut index: usize = 0;
    proof {
        assert(all.take(0) =~= Seq::<ImplMemberView>::empty());
        assert(member_views(kept@) =~= Seq::<ImplMemberView>::empty());
        assert(texts(func_names@) =~= Seq::<Seq<char>>::empty());
        assert(texts(signal_idents@) =~= Seq::<Seq<char>>::empty());
    }
    while index < decl.body_items.len()
        invariant
            index <= decl.body_items.len(),
            *decl == *old(decl),
            all == member_views(decl.body_items@),
            processed(all.take(index as int)) == Ok::<ProcessedView, ApiError>(
                ProcessedView {
                    body_items: member_views(kept@),
                    funcs: texts(func_names@),
                    signals: texts(signal_idents@),
                },
            ),
        decreases decl.body_items.len() - index,
    {
        proof {
            assert(all.take(index + 1).drop_last() =~= all.take(index as int));
            assert(all.take(index + 1).last() == decl.body_items[index as int]@);
        }
        let ghost kept_before = member_views(kept@);
        let ghost funcs_before = texts(func_names@);
        let ghost signals_before = texts(signal_idents@);
        match &decl.body_items[index] {
            ImplMember::Method(method) => {
                match extract_attributes(method) {
                    Err(_) => {
                        proof {
                            lemma_processed_prefix_error(all, index + 1);
                        }
                        return Err(ApiError::MultipleAttributes { member: index });
                    },
                    Ok(None) => {
                        let item = ImplMember::Method(method.clone());
                        kept.push(item);
                        proof {
                            assert(member_views(kept@) =~= kept_before.push(
                                decl.body_items[index as int]@,
                            ));
                        }
                    },
                    Ok(Some(attr)) => {
                        if method.qualifiers.is_any() {
                            proof {
                                lemma_processed_prefix_error(all, index + 1);
                            }
                            return Err(
                                ApiError::QualifiersNotAllowed { member: index, attr: attr.ty },
                            );
                        }
                        if method.has_generic_params {
                            proof {
                                lemma_processed_prefix_error(all, index + 1);
                            }
                            return Err(ApiError::GenericFn { member: index, attr: attr.ty });
                        }
                        match attr.ty {
                            BoundAttrType::Func => {
                                let reduced = without_attribute(method, attr.index);
                                func_names.push(reduced.name.clone());
                                let item = ImplMember::Method(reduced);
                                kept.push(item);
                                proof {
                                    assert(member_views(kept@) =~= kept_before.push(item@));
                                    assert(texts(func_names@) =~= funcs_before.push(method@.name));
                                }
                            },
                            BoundAttrType::Signal => {
                                if method.param_count != 0 || method.has_return_ty {
                                    proof {
                                        lemma_processed_prefix_error(all, index + 1);
                                    }
                                    return Err(ApiError::SignalSignature { member: index });
                                }
                                signal_idents.push(method.name.clone());
                                proof {
                                    assert(texts(signal_idents@) =~= signals_before.push(
                                        method@.name,
                                    ));
                                }
                            },
                        }
                    },
                }
            },
            other => {
                let item = other.clone();
                kept.push(item);
                proof {
                    assert(member_views(kept@) =~= kept_before.push(
                        decl.body_items[index as int]@,
                    ));
                }
            },
        }
        index = index + 1;
    }
    proof {
        assert(all.take(index as int) =~= all);
    }
    decl.body_items = kept;
    Ok((func_names, signal_idents))
}

/// Checks that an `impl` block is one the attribute accepts and names its
/// class: a trait, where one is expected, must be the expected one, and the
/// type must be a path without generic arguments.
pub fn validate_impl(block: &Impl, expected_trait: Option<&str>) -> (result: Result<
    String,
    ApiError,
>)
    ensures
        match result {
            Ok(class_name) => validated_class(
                text_option(block.trait_ty),
                text_option(block.self_ty),
                block.self_ty_has_generic_args,
                match expected_trait {
                    Some(t) => Some(t@),
                    None => None,
                },
            ) == Ok::<Seq<char>, ApiError>(class_name@),
            Err(e) => validated_class(
                text_option(block.trait_ty),
                text_option(block.self_ty),
                block.self_ty_has_generic_args,
                match expected_trait {
                    Some(t) => Some(t@),
                    None => None,
                },
            ) == Err::<Seq<char>, ApiError>(e),
        },
{
    if let Some(expected) = expected_trait {
        let matches_trait = match &block.trait_ty {
            Some(trait_name) => str_eq(trait_name.as_str(), expected),
            None => false,
        };
        if !matches_trait {
            return Err(ApiError::WrongTrait);
        }
    }
    match &block.self_ty {
        None => Err(ApiError::InvalidSelfType),
        Some(name) => {
            if block.self_ty_has_generic_args {
                Err(ApiError::GenericSelfType)
            } else {
                Ok(name.clone())
            }
        },
    }
}

/// Whether the extension trait offers the engine's virtual function `name`.
pub fn is_virtual_method(name: &str) -> (yes: bool)
    ensures
        yes == is_virtual_method_name(name@),
{
    str_eq(name, "ready") || str_eq(name, "process") || str_eq(name, "physics_process")
}

/// Decides what is generated for an inherent `impl` block, and takes the
/// signals out of it. On a rejection the block is left as it was.
pub fn transform_inherent_impl(decl: &mut Impl) -> (result: Result<InherentImplPlan, ApiError>)
    ensures
        match result {
            Ok(plan) => inherent_outcome(
                text_option(old(decl).trait_ty),
                text_option(old(decl).self_ty),
                old(decl).self_ty_has_generic_args,
                member_views(old(decl).body_items@),
            ) == Ok::<(Seq<char>, ProcessedView), ApiError>(
                (
                    plan.class_name@,
                    ProcessedView {
                        body_items: member_views(final(decl).body_items@),
                        funcs: texts(plan.funcs@),
                        signals: texts(plan.signals@),
                    },
                ),
            ),
            Err(e) => inherent_outcome(
                text_option(old(decl).trait_ty),
                text_option(old(decl).self_ty),
                old(decl).self_ty_has_generic_args,
                member_views(old(decl).body_items@),
            ) == Err::<(Seq<char>, ProcessedView), ApiError>(e) && final(decl).body_items == old(
                decl,
            ).body_items,
        },
        final(decl).has_generic_params == old(decl).has_generic_params,
        final(decl).self_ty == old(decl).self_ty,
        final(decl).self_ty_has_generic_args == old(decl).self_ty_has_generic_args,
        final(decl).has_trait == old(decl).has_trait,
        final(decl).trait_ty == old(decl).trait_ty,
{
    let class_name = match validate_impl(decl, None) {
        Ok(name) => name,
        Err(e) => {
            return Err(e);
        },
    };
    match process_godot_fns(decl) {
        Ok((funcs, signals)) => Ok(InherentImplPlan { class_name, funcs, signals }),
        Err(e) => Err(e),
    }
}

/// Decides what is generated for an `impl` of the extension trait: which of
/// `register_class`, `init` and `to_string` the class has, and which of the
/// engine's virtual functions it overrides, under the engine's names (with
/// a leading underscore). Any other function is rejected.
pub fn transform_trait_impl(block: &Impl) -> (result: Result<TraitImplPlan, ApiError>)
    ensures
        match result {
            Ok(plan) => trait_outcome(
                text_option(block.trait_ty),
                text_option(block.self_ty),
                block.self_ty_has_generic_args,
                member_views(block.body_items@),
            ) == Ok::<(Seq<char>, VirtualsView), ApiError>((plan.class_name@, plan.virtuals())),
            Err(e) => trait_outcome(
                text_option(block.trait_ty),
                text_option(block.self_ty),
                block.self_ty_has_generic_args,
                member_views(block.body_items@),
            ) == Err::<(Seq<char>, VirtualsView), ApiError>(e),
        },
{
    let class_name = match validate_impl(block, Some("GodotExt")) {
        Ok(name) => name,
        Err(e) => {
            return Err(e);
        },
    };
    let ghost all = member_views(block.body_items@);
    let mut has_register_fn = false;
    let mut has_create_fn = false;
    let mut has_to_string_fn = false;
    let mut virtual_method_names: Vec<String> = Vec::new();
    let mut index: usize = 0;
    proof {
        assert(all.take(0) =~= Seq::<ImplMemberView>::empty());
        assert(texts(virtual_method_names@) =~= Seq::<Seq<char>>::empty());
    }
    while index < block.body_items.len()
        invariant
            index <= block.body_items.len(),
            all == member_views(block.body_items@),
            validated_class(
                text_option(block.trait_ty),
                text_option(block.self_ty),
                block.self_ty_has_generic_args,
                Some("GodotExt"@),
            ) == Ok::<Seq<char>, ApiError>(class_name@),
            virtuals_of(all.take(index as int)) == Ok::<VirtualsView, ApiError>(
                VirtualsView {
                    has_register_fn,
                    has_create_fn,
                    has_to_string_fn,
                    virtual_method_names: texts(virtual_method_names@),
                },
            ),
        decreases block.body_items.len() - index,
    {
        proof {
            assert(all.take(index + 1).drop_last() =~= all.take(index as int));
            assert(all.take(index + 1).last() == block.body_items[index as int]@);
        }
        if let ImplMember::Method(method) = &block.body_items[index] {
            let method_name = method.name.as_str();
            if str_eq(method_name, "register_class") {
                has_register_fn = true;
            } else if str_eq(method_name, "init") {
                has_create_fn = true;
            } else if str_eq(method_name, "to_string") {
                has_to_string_fn = true;
            } else if is_virtual_method(method_name) {
                let ghost before = texts(virtual_method_names@);
                virtual_method_names.push(join_texts("_", method_name));
                proof {
                    assert(texts(virtual_method_names@) =~= before.push("_"@ + method@.name));
                }
            } else {
                proof {
                    assert(virtuals_of(all.take(index + 1)) == Err::<VirtualsView, ApiError>(
                        ApiError::UnsupportedMethod { member: index },
                    ));
                    lemma_virtuals_prefix_error(all, index + 1);
                }
                return Err(ApiError::UnsupportedMethod { member: index });
            }
        }
        index = index + 1;
    }
    proof {
        assert(all.take(index as int) =~= all);
    }
    Ok(
        TraitImplPlan {
            class_name,
            has_register_fn,
            has_create_fn,
            has_to_string_fn,
            virtual_method_names,
        },
    )
}

/// What the attribute makes of an item, as far as it depends on the item's
/// kind and header alone.
pub open spec fn header_outcome(input_decl: Declaration) -> Result<ImplKind, ApiError> {
    match input_decl {
        Declaration::Impl(decl) => impl_kind_of(
            DeclarationKind::Impl,
            decl.has_generic_params,
            decl.self_ty.is_some(),
            decl.has_trait,
        ),
        other => impl_kind_of(other.kind(), false, false, false),
    }
}

/// Decides what the attribute makes of the item it is applied to: only an
/// `impl` block without generic parameters, for a type that is a path, is
/// accepted; a block that implements a trait is handled as the extension
/// trait's, any other as the inherent block of the class.
pub fn transform(input_decl: Declaration) -> (result: Result<Transformed, ApiError>)
    ensures
        match header_outcome(input_decl) {
            Err(e) => result == Err::<Transformed, ApiError>(e),
            Ok(ImplKind::Trait) => match result {
                Ok(Transformed::Trait { decl, virtuals }) => Declaration::Impl(decl) == input_decl
                    && trait_outcome(
                    text_option(decl.trait_ty),
                    text_option(decl.self_ty),
                    decl.self_ty_has_generic_args,
                    member_views(decl.body_items@),
                ) == Ok::<(Seq<char>, VirtualsView), ApiError>(
                    (virtuals.class_name@, virtuals.virtuals()),
                ),
                Ok(_) => false,
                Err(e) => input_decl is Impl && trait_outcome(
                    text_option(input_decl->Impl_0.trait_ty),
                    text_option(input_decl->Impl_0.self_ty),
                    input_decl->Impl_0.self_ty_has_generic_args,
                    member_views(input_decl->Impl_0.body_items@),
                ) == Err::<(Seq<char>, VirtualsView), ApiError>(e),
            },
            Ok(ImplKind::Inherent) => match result {
                Ok(Transformed::Inherent { decl, plan }) => input_decl is Impl && inherent_outcome(
                    text_option(input_decl->Impl_0.trait_ty),
                    text_option(input_decl->Impl_0.self_ty),
                    input_decl->Impl_0.self_ty_has_generic_args,
                    member_views(input_decl->Impl_0.body_items@),
                ) == Ok::<(Seq<char>, ProcessedView), ApiError>(
                    (
                        plan.class_name@,
                        ProcessedView {
                            body_items: member_views(decl.body_items@),
                            funcs: texts(plan.funcs@),
                            signals: texts(plan.signals@),
                        },
                    ),
                ) && decl.self_ty == input_decl->Impl_0.self_ty && decl.trait_ty
                    == input_decl->Impl_0.trait_ty,
                Ok(_) => false,
                Err(e) => input_decl is Impl && inherent_outcome(
                    text_option(input_decl->Impl_0.trait_ty),
                    text_option(input_decl->Impl_0.self_ty),
                    input_decl->Impl_0.self_ty_has_generic_args,
                    member_views(input_decl->Impl_0.body_items@),
                ) == Err::<(Seq<char>, ProcessedView), ApiError>(e),
            },
        },
{
    let mut decl = match input_decl {
        Declaration::Impl(decl) => decl,
        _ => {
            return Err(ApiError::NotAnImpl);
        },
    };
    if decl.has_generic_params {
        return Err(ApiError::GenericParams);
    }
    if decl.self_ty.is_none() {
        return Err(ApiError::InvalidSelfType);
    }
    if decl.has_trait {
        match transform_trait_impl(&decl) {
            Ok(virtuals) => Ok(Transformed::Trait { decl, virtuals }),
            Err(e) => Err(e),
        }
    } else {
        match transform_inherent_impl(&mut decl) {
            Ok(plan) => Ok(Transformed::Inherent { decl, plan }),
            Err(e) => Err(e),
        }
    }
}

} // verus!

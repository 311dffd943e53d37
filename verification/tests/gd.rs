use gdext_bridge::builtin::variant::variant_traits::VariantConversionError;
use gdext_bridge::builtin::variant::Variant;
use gdext_bridge::codegen::context::InheritanceTree;
use gdext_bridge::obj::gd::{FreeError, Gd};
use gdext_bridge::obj::instance_id::InstanceId;
use gdext_bridge::obj::mem::{MemAction, Memory};
use gdext_bridge::engine::{Node, Node2D, Object, RefCounted, Resource};
use gdext_bridge::obj::traits::{Domain, GodotClass};

const COUNTED_BIT: u64 = 1 << 63;

fn manual_id() -> InstanceId {
    InstanceId::try_from_u64(1234).unwrap()
}

fn counted_id() -> InstanceId {
    InstanceId::try_from_u64(COUNTED_BIT | 55).unwrap()
}

fn tree() -> InheritanceTree {
    let mut tree = InheritanceTree::new();
    tree.insert("Node", "Object");
    tree.insert("CanvasItem", "Node");
    tree.insert("Node2D", "CanvasItem");
    tree.insert("Resource", "RefCounted");
    tree.insert("RefCounted", "Object");
    tree
}

fn apply(count: i64, action: MemAction) -> i64 {
    match action {
        MemAction::Nothing => count,
        MemAction::InitRef => 1,
        MemAction::IncRef => count + 1,
        MemAction::DecRef => count - 1,
    }
}

#[test]
fn instance_id_zero_is_no_object() {
    assert!(InstanceId::try_from_u64(0).is_none());
    assert!(InstanceId::try_from_i64(0).is_none());
    assert_eq!(InstanceId::try_from_i64(-1).unwrap().to_u64(), u64::MAX);
    assert_eq!(InstanceId::from_nonzero(42).to_i64(), 42);
    assert_eq!(InstanceId::from_nonzero(i64::MIN).to_u64(), COUNTED_BIT);
}

#[test]
fn instance_id_highest_bit_marks_ref_counted() {
    assert!(!manual_id().is_ref_counted());
    assert!(counted_id().is_ref_counted());
    assert!(InstanceId::try_from_u64(COUNTED_BIT).unwrap().is_ref_counted());
    assert!(!InstanceId::try_from_u64(COUNTED_BIT - 1).unwrap().is_ref_counted());
}

#[test]
fn memory_strategy_decides_counting() {
    assert!(!Memory::ManualMemory.is_ref_counted(true));
    assert!(Memory::StaticRefCount.is_ref_counted(false));
    assert!(Memory::DynamicRefCount.is_ref_counted(true));
    assert!(!Memory::DynamicRefCount.is_ref_counted(false));
    assert_eq!(Memory::ManualMemory.maybe_inc_ref(true), MemAction::Nothing);
    assert_eq!(Memory::StaticRefCount.maybe_inc_ref(false), MemAction::IncRef);
    assert_eq!(Memory::StaticRefCount.maybe_dec_ref(false), MemAction::DecRef);
    assert_eq!(Memory::DynamicRefCount.maybe_dec_ref(false), MemAction::Nothing);
    assert_eq!(Memory::StaticRefCount.maybe_init_ref(true, 0), MemAction::InitRef);
    assert_eq!(Memory::StaticRefCount.maybe_init_ref(true, 2), MemAction::IncRef);
    assert_eq!(Memory::ManualMemory.maybe_init_ref(true, 0), MemAction::Nothing);
}

#[test]
fn variant_round_trips_leave_refcount_unchanged() {
    let obj: Gd<RefCounted> = Gd::from_instance_id(counted_id());
    let mut count: i64 = 1;
    for _ in 0..5 {
        let (variant, up) = obj.to_variant();
        count = apply(count, up);
        assert_eq!(count, 2);
        let (back, up2) = Gd::<RefCounted>::try_from_variant(&variant).unwrap();
        count = apply(count, up2);
        assert_eq!(count, 3);
        assert_eq!(back.cached_instance_id(), obj.cached_instance_id());
        count = apply(count, variant.release());
        assert_eq!(count, 2);
        count = apply(count, back.release());
        assert_eq!(count, 1);
    }
}

#[test]
fn shared_variants_count_as_aliases() {
    let counted = Variant::Object(Some(counted_id()));
    assert!(counted.is_counted());
    let (copy, action) = counted.share();
    assert_eq!(copy, counted);
    assert_eq!(action, MemAction::IncRef);
    assert_eq!(copy.release(), MemAction::DecRef);
    assert_eq!(counted.release(), MemAction::DecRef);

    let manual = Variant::Object(Some(manual_id()));
    assert!(!manual.is_counted());
    let (copy, action) = manual.share();
    assert_eq!(copy, manual);
    assert_eq!(action, MemAction::Nothing);
    assert_eq!(manual.release(), MemAction::Nothing);

    for value in [Variant::Nil, Variant::Int(3), Variant::Bool(true), Variant::Object(None)] {
        let (copy, action) = value.share();
        assert_eq!(copy, value);
        assert_eq!(action, MemAction::Nothing);
        assert_eq!(value.release(), MemAction::Nothing);
    }
}

#[test]
fn round_trip_is_neutral_when_class_and_object_disagree() {
    let obj: Gd<Node> = Gd::from_instance_id(counted_id());
    let mut count: i64 = 4;
    let (variant, up) = obj.to_variant();
    assert_eq!(up, MemAction::IncRef);
    count = apply(count, up);
    let (back, up2) = Gd::<Node>::try_from_variant(&variant).unwrap();
    assert_eq!(up2, MemAction::Nothing);
    count = apply(count, up2);
    count = apply(count, variant.release());
    count = apply(count, back.release());
    assert_eq!(count, 4);
}

#[test]
fn each_live_alias_counts_once() {
    let obj: Gd<Object> = Gd::from_instance_id(counted_id());
    let mut count: i64 = 1;
    let mut aliases = Vec::new();
    for n in 1..=4 {
        let (alias, action) = obj.share();
        assert_eq!(action, MemAction::IncRef);
        count = apply(count, action);
        assert_eq!(count, 1 + n);
        aliases.push(alias);
    }
    for alias in aliases {
        count = apply(count, alias.release());
    }
    assert_eq!(count, 1);
}

#[test]
fn manual_objects_are_not_counted() {
    let node: Gd<Node> = Gd::from_instance_id(manual_id());
    let (alias, action) = node.share();
    assert_eq!(action, MemAction::Nothing);
    assert_eq!(alias.release(), MemAction::Nothing);
    assert_eq!(node.to_variant(), (Variant::Object(Some(manual_id())), MemAction::Nothing));
    let dynamic: Gd<Object> = Gd::from_instance_id(manual_id());
    assert!(!dynamic.is_ref_counted());
    assert_eq!(dynamic.release(), MemAction::Nothing);
}

#[test]
fn dead_object_is_detected_after_free() {
    let node: Gd<Node> = Gd::from_instance_id(manual_id());
    let (mut remaining, _) = node.share();
    assert!(remaining.is_instance_valid(true));
    assert_eq!(remaining.instance_id(true), manual_id());
    let destroyed = node.free(true);
    assert_eq!(destroyed, manual_id());
    assert!(!remaining.is_instance_valid(false));
    assert_eq!(remaining.instance_id_or_none(false), None);
    assert_eq!(remaining.cached_instance_id(), None);
    assert_eq!(remaining.instance_id_or_none(true), None);
    assert!(!remaining.is_instance_valid(true));
}

#[test]
fn free_is_refused_twice_and_for_counted_objects() {
    let node: Gd<Node> = Gd::from_instance_id(manual_id());
    assert_eq!(node.check_free(true), Ok(manual_id()));
    assert_eq!(node.check_free(false), Err(FreeError::AlreadyDestroyed));
    let counted: Gd<Object> = Gd::from_instance_id(counted_id());
    assert_eq!(counted.check_free(true), Err(FreeError::RefCounted));
    let refc: Gd<RefCounted> = Gd::from_instance_id(manual_id());
    assert_eq!(refc.check_free(true), Err(FreeError::RefCounted));
    let mut gone: Gd<Node> = Gd::from_instance_id(manual_id());
    assert!(!gone.is_instance_valid(false));
    assert_eq!(gone.check_free(true), Err(FreeError::AlreadyDestroyed));
}

#[test]
fn try_cast_to_unrelated_class_is_none() {
    let tree = tree();
    let node: Gd<Node> = Gd::from_instance_id(manual_id());
    assert!(node.try_cast::<Resource>(&tree, "Node2D").is_none());
    let node: Gd<Node> = Gd::from_instance_id(manual_id());
    assert!(node.try_cast::<RefCounted>(&tree, "Node2D").is_none());
    let node: Gd<Node> = Gd::from_instance_id(manual_id());
    assert!(node.try_cast::<Node2D>(&tree, "Node").is_none());
    let node: Gd<Node> = Gd::from_instance_id(manual_id());
    assert!(node.try_cast::<Node2D>(&tree, "NoSuchClass").is_none());
}

#[test]
fn try_cast_to_runtime_class_or_its_bases_succeeds() {
    let tree = tree();
    let node: Gd<Node> = Gd::from_instance_id(manual_id());
    let derived = node.try_cast::<Node2D>(&tree, "Node2D").unwrap();
    assert_eq!(derived.cached_instance_id(), Some(manual_id()));
    let back = derived.try_cast::<Node>(&tree, "Node2D").unwrap();
    let object = back.try_cast::<Object>(&tree, "Node2D").unwrap();
    let up: Gd<Object> = object.upcast::<Object>();
    assert_eq!(up.cached_instance_id(), Some(manual_id()));
    let cast: Gd<Node2D> = up.cast::<Node2D>(&tree, "Node2D");
    assert_eq!(cast.cached_instance_id(), Some(manual_id()));
}

#[test]
fn handle_from_variant_needs_an_object() {
    assert_eq!(
        Gd::<Node>::try_from_variant(&Variant::Int(3)).err(),
        Some(VariantConversionError)
    );
    assert_eq!(
        Gd::<Node>::try_from_variant(&Variant::Object(None)).err(),
        Some(VariantConversionError)
    );
    assert_eq!(Gd::<Node>::try_from_variant(&Variant::Nil).err(), Some(VariantConversionError));
    let (handle, action) = Gd::<Node>::try_from_variant(&Variant::Object(Some(manual_id()))).unwrap();
    assert_eq!(handle.cached_instance_id(), Some(manual_id()));
    assert_eq!(action, MemAction::Nothing);
}

#[test]
fn unit_type_stands_for_no_base() {
    assert_eq!(<() as GodotClass>::class_name(), "(no base)");
    assert_eq!(<() as GodotClass>::memory(), Memory::ManualMemory);
    assert_eq!(<() as GodotClass>::declarer(), Domain::EngineDomain);
}

#[test]
fn engine_classes_name_their_strategy() {
    assert_eq!(Object::memory(), Memory::DynamicRefCount);
    assert_eq!(RefCounted::memory(), Memory::StaticRefCount);
    assert_eq!(Resource::memory(), Memory::StaticRefCount);
    assert_eq!(Node::memory(), Memory::ManualMemory);
    assert_eq!(Node2D::class_name(), "Node2D");
    assert_eq!(Node2D::base_class_name(), "CanvasItem");
    assert_eq!(Object::base_class_name(), "(no base)");
}

struct Player {
    hp: i32,
}

impl GodotClass for Player {
    fn class_name() -> &'static str {
        "Player"
    }
    fn base_class_name() -> &'static str {
        "Node2D"
    }
    fn memory() -> Memory {
        Memory::ManualMemory
    }
    fn declarer() -> Domain {
        Domain::UserDomain
    }
}

#[test]
fn handle_binds_the_user_instance() {
    let mut storage = gdext_bridge::storage::InstanceStorage::construct(
        Player { hp: 10 },
        &mut gdext_bridge::storage::KeySource::new(),
    );
    let mut handle: Gd<Player> = Gd::from_instance_id(manual_id());
    let (other, _) = handle.share();
    let a = handle.bind(&mut storage);
    let b = other.bind(&mut storage);
    assert_eq!(storage.read(&a).hp, 10);
    assert!(!storage.can_get_mut());
    storage.release(a);
    storage.release(b);
    let guard = handle.bind_mut(&mut storage);
    assert!(!storage.can_get());
    storage.write(&guard, Player { hp: 9 });
    storage.release_mut(guard);
    let reader = other.bind(&mut storage);
    assert_eq!(storage.read(&reader).hp, 9);
    storage.release(reader);
}

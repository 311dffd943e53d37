//! The engine classes that the library itself refers to.

use vstd::prelude::*;
use crate::obj::mem::Memory;
use crate::obj::traits::{Domain, GodotClass};

verus! {

/// The root of the engine's class hierarchy. Whether an instance is reference-counted is
/// found at run time.
#[derive(Debug)]
pub struct Object;

impl GodotClass for Object {
    open spec fn class_name_spec() -> Seq<char> {
        "Object"@
    }

    open spec fn base_class_name_spec() -> Seq<char> {
        "(no base)"@
    }

    open spec fn memory_spec() -> Memory {
        Memory::DynamicRefCount
    }

    open spec fn declarer_spec() -> Domain {
        Domain::EngineDomain
    }

    fn class_name() -> (name: &'static str) {
        "Object"
    }

    fn base_class_name() -> (name: &'static str) {
        "(no base)"
    }

    fn memory() -> (memory: Memory) {
        Memory::DynamicRefCount
    }

    fn declarer() -> (domain: Domain) {
        Domain::EngineDomain
    }
}

/// Base of all reference-counted classes.
#[derive(Debug)]
pub struct RefCounted;

impl GodotClass for RefCounted {
    open spec fn class_name_spec() -> Seq<char> {
        "RefCounted"@
    }

    open spec fn base_class_name_spec() -> Seq<char> {
        "Object"@
    }

    open spec fn memory_spec() -> Memory {
        Memory::StaticRefCount
    }

    open spec fn declarer_spec() -> Domain {
        Domain::EngineDomain
    }

    fn class_name() -> (name: &'static str) {
        "RefCounted"
    }

    fn base_class_name() -> (name: &'static str) {
        "Object"
    }

    fn memory() -> (memory: Memory) {
        Memory::StaticRefCount
    }

    fn declarer() -> (domain: Domain) {
        Domain::EngineDomain
    }
}

/// Base of all resources; reference-counted.
#[derive(Debug)]
pub struct Resource;

impl GodotClass for Resource {
    open spec fn class_name_spec() -> Seq<char> {
        "Resource"@
    }

    open spec fn base_class_name_spec() -> Seq<char> {
        "RefCounted"@
    }

    open spec fn memory_spec() -> Memory {
        Memory::StaticRefCount
    }

    open spec fn declarer_spec() -> Domain {
        Domain::EngineDomain
    }

    fn class_name() -> (name: &'static str) {
        "Resource"
    }

    fn base_class_name() -> (name: &'static str) {
        "RefCounted"
    }

    fn memory() -> (memory: Memory) {
        Memory::StaticRefCount
    }

    fn declarer() -> (domain: Domain) {
        Domain::EngineDomain
    }
}

/// Base of everything in the scene tree; freed by hand or by its parent.
#[derive(Debug)]
pub struct Node;

impl GodotClass for Node {
    open spec fn class_name_spec() -> Seq<char> {
        "Node"@
    }

    open spec fn base_class_name_spec() -> Seq<char> {
        "Object"@
    }

    open spec fn memory_spec() -> Memory {
        Memory::ManualMemory
    }

    open spec fn declarer_spec() -> Domain {
        Domain::EngineDomain
    }

    fn class_name() -> (name: &'static str) {
        "Node"
    }

    fn base_class_name() -> (name: &'static str) {
        "Object"
    }

    fn memory() -> (memory: Memory) {
        Memory::ManualMemory
    }

    fn declarer() -> (domain: Domain) {
        Domain::EngineDomain
    }
}

/// Base of everything that draws in 2D.
#[derive(Debug)]
pub struct CanvasItem;

impl GodotClass for CanvasItem {
    open spec fn class_name_spec() -> Seq<char> {
        "CanvasItem"@
    }

    open spec fn base_class_name_spec() -> Seq<char> {
        "Node"@
    }

    open spec fn memory_spec() -> Memory {
        Memory::ManualMemory
    }

    open spec fn declarer_spec() -> Domain {
        Domain::EngineDomain
    }

    fn class_name() -> (name: &'static str) {
        "CanvasItem"
    }

    fn base_class_name() -> (name: &'static str) {
        "Node"
    }

    fn memory() -> (memory: Memory) {
        Memory::ManualMemory
    }

    fn declarer() -> (domain: Domain) {
        Domain::EngineDomain
    }
}

/// A 2D game object.
#[derive(Debug)]
pub struct Node2D;

impl GodotClass for Node2D {
    open spec fn class_name_spec() -> Seq<char> {
        "Node2D"@
    }

    open spec fn base_class_name_spec() -> Seq<char> {
        "CanvasItem"@
    }

    open spec fn memory_spec() -> Memory {
        Memory::ManualMemory
    }

    open spec fn declarer_spec() -> Domain {
        Domain::EngineDomain
    }

    fn class_name() -> (name: &'static str) {
        "Node2D"
    }

    fn base_class_name() -> (name: &'static str) {
        "CanvasItem"
    }

    fn memory() -> (memory: Memory) {
        Memory::ManualMemory
    }

    fn declarer() -> (domain: Domain) {
        Domain::EngineDomain
    }
}

} // verus!

//! The engine's API description, as the generator reads it.

use vstd::prelude::*;

verus! {

/// One enumerator of an enum.
#[derive(Debug)]
pub struct EnumConstant {
    pub name: String,
    pub value: i32,
}

/// An enum, global or local to a class.
#[derive(Debug)]
pub struct Enum {
    pub name: String,
    pub is_bitfield: bool,
    pub values: Vec<EnumConstant>,
}

/// One argument of a method.
#[derive(Debug)]
pub struct MethodArg {
    pub name: String,
    pub type_: String,
}

/// One method of an engine class.
#[derive(Debug)]
pub struct ClassMethod {
    pub name: String,
    pub is_const: bool,
    pub is_virtual: bool,
    /// The engine's name of the type returned, if the method returns a value.
    pub return_type: Option<String>,
    pub arguments: Vec<MethodArg>,
}

/// One engine class.
#[derive(Debug)]
pub struct Class {
    pub name: String,
    pub is_refcounted: bool,
    pub is_instantiable: bool,
    /// The engine's name of the direct base class; none for the root.
    pub inherits: Option<String>,
    pub enums: Vec<Enum>,
    pub methods: Vec<ClassMethod>,
}

/// One constructor of a builtin value type.
#[derive(Debug)]
pub struct Constructor {
    /// The number under which the engine knows the constructor.
    pub index: usize,
    pub arguments: Vec<MethodArg>,
}

/// One operator of a builtin value type.
#[derive(Debug)]
pub struct Operator {
    /// The operator as the engine spells it: `==`, `unary-`, `in`.
    pub name: String,
    /// The engine's name of the type of the right operand; none for a unary
    /// operator.
    pub right_type: Option<String>,
    /// The engine's name of the type of the result.
    pub return_type: String,
}

/// One builtin value type.
#[derive(Debug)]
pub struct BuiltinClass {
    pub name: String,
    pub has_destructor: bool,
    pub constructors: Vec<Constructor>,
    pub operators: Vec<Operator>,
    pub enums: Vec<Enum>,
}

/// The size of the values of one builtin type, in bytes.
#[derive(Debug)]
pub struct ClassSize {
    pub name: String,
    pub size: usize,
}

/// The sizes of the builtin types under one build configuration of the
/// engine (pointer width and precision of floating-point numbers).
#[derive(Debug)]
pub struct BuiltinClassSizes {
    pub build_configuration: String,
    pub sizes: Vec<ClassSize>,
}

/// The whole description.
#[derive(Debug)]
pub struct ExtensionApi {
    /// The sizes of the builtin types, by build configuration.
    pub builtin_class_sizes: Vec<BuiltinClassSizes>,
    /// The global functions; described like methods.
    pub utility_functions: Vec<ClassMethod>,
    pub builtin_classes: Vec<BuiltinClass>,
    pub classes: Vec<Class>,
    pub global_enums: Vec<Enum>,
    /// The engine's names of the classes that exist once, as singletons.
    pub singletons: Vec<String>,
    /// The engine's names of the plain structures passed by pointer.
    pub native_structures: Vec<String>,
}

/// The names of the classes, in the order of the description.
pub open spec fn class_names(classes: Seq<Class>) -> Seq<Seq<char>> {
    Seq::new(classes.len(), |i: int| classes[i].name@)
}

/// The names of the builtin classes, in the order of the description.
pub open spec fn builtin_names(classes: Seq<BuiltinClass>) -> Seq<Seq<char>> {
    Seq::new(classes.len(), |i: int| classes[i].name@)
}

/// The engine's names of the argument types of a method, in order.
pub open spec fn argument_types(arguments: Seq<MethodArg>) -> Seq<Seq<char>> {
    Seq::new(arguments.len(), |i: int| arguments[i].type_@)
}

/// The values of the enumerators, in order.
pub open spec fn enumerator_values(values: Seq<EnumConstant>) -> Seq<i32> {
    Seq::new(values.len(), |i: int| values[i].value)
}

pub struct MethodArgView {
    pub name: Seq<char>,
    pub type_: Seq<char>,
}

pub struct ConstructorView {
    pub index: usize,
    pub arguments: Seq<MethodArgView>,
}

pub struct OperatorView {
    pub name: Seq<char>,
    pub right_type: Option<Seq<char>>,
    pub return_type: Seq<char>,
}

impl View for MethodArg {
    type V = MethodArgView;

    open spec fn view(&self) -> MethodArgView {
        MethodArgView { name: self.name@, type_: self.type_@ }
    }
}

/// The views of a sequence of arguments, in order.
pub open spec fn argument_views(arguments: Seq<MethodArg>) -> Seq<MethodArgView> {
    Seq::new(arguments.len(), |i: int| arguments[i]@)
}

impl View for Constructor {
    type V = ConstructorView;

    open spec fn view(&self) -> ConstructorView {
        ConstructorView { index: self.index, arguments: argument_views(self.arguments@) }
    }
}

impl View for Operator {
    type V = OperatorView;

    open spec fn view(&self) -> OperatorView {
        OperatorView {
            name: self.name@,
            right_type: match self.right_type {
                Some(t) => Some(t@),
                None => None,
            },
            return_type: self.return_type@,
        }
    }
}

/// The views of a sequence of constructors, in order.
pub open spec fn constructor_views(constructors: Seq<Constructor>) -> Seq<ConstructorView> {
    Seq::new(constructors.len(), |i: int| constructors[i]@)
}

/// The views of a sequence of operators, in order.
pub open spec fn operator_views(operators: Seq<Operator>) -> Seq<OperatorView> {
    Seq::new(operators.len(), |i: int| operators[i]@)
}

impl Clone for MethodArg {
    fn clone(&self) -> (copy: Self)
        ensures
            copy@ == self@,
    {
        MethodArg { name: self.name.clone(), type_: self.type_.clone() }
    }
}

impl Clone for Constructor {
    fn clone(&self) -> (copy: Self)
        ensures
            copy@ == self@,
    {
        let mut arguments: Vec<MethodArg> = Vec::new();
        let mut i: usize = 0;
        while i < self.arguments.len()
            invariant
                i <= self.arguments.len(),
                argument_views(arguments@) == argument_views(self.arguments@).take(i as int),
            decreases self.arguments.len() - i,
        {
            let ghost before = argument_views(arguments@);
            arguments.push(self.arguments[i].clone());
            proof {
                assert(argument_views(arguments@) =~= before.push(self.arguments[i as int]@));
                assert(before.push(self.arguments[i as int]@) =~= argument_views(
                    self.arguments@,
                ).take(i + 1));
            }
            i = i + 1;
        }
        proof {
            assert(argument_views(self.arguments@).take(i as int) =~= argument_views(
                self.arguments@,
            ));
        }
        Constructor { index: self.index, arguments }
    }
}

impl Clone for Operator {
    fn clone(&self) -> (copy: Self)
        ensures
            copy@ == self@,
    {
        let right_type = match &self.right_type {
            Some(t) => Some(t.clone()),
            None => None,
        };
        Operator { name: self.name.clone(), right_type, return_type: self.return_type.clone() }
    }
}

/// A copy of `constructors`, in order.
pub fn copy_constructors(constructors: &Vec<Constructor>) -> (copy: Vec<Constructor>)
    ensures
        constructor_views(copy@) == constructor_views(constructors@),
{
    let mut copy: Vec<Constructor> = Vec::new();
    let mut i: usize = 0;
    while i < constructors.len()
        invariant
            i <= constructors.len(),
            constructor_views(copy@) == constructor_views(constructors@).take(i as int),
        decreases constructors.len() - i,
    {
        let ghost before = constructor_views(copy@);
        copy.push(constructors[i].clone());
        proof {
            assert(constructor_views(copy@) =~= before.push(constructors[i as int]@));
            assert(before.push(constructors[i as int]@) =~= constructor_views(constructors@).take(
                i + 1,
            ));
        }
        i = i + 1;
    }
    proof {
        assert(constructor_views(constructors@).take(i as int) =~= constructor_views(
            constructors@,
        ));
    }
    copy
}

/// A copy of `operators`, in order.
pub fn copy_operators(operators: &Vec<Operator>) -> (copy: Vec<Operator>)
    ensures
        operator_views(copy@) == operator_views(operators@),
{
    let mut copy: Vec<Operator> = Vec::new();
    let mut i: usize = 0;
    while i < operators.len()
        invariant
            i <= operators.len(),
            operator_views(copy@) == operator_views(operators@).take(i as int),
        decreases operators.len() - i,
    {
        let ghost before = operator_views(copy@);
        copy.push(operators[i].clone());
        proof {
            assert(operator_views(copy@) =~= before.push(operators[i as int]@));
            assert(before.push(operators[i as int]@) =~= operator_views(operators@).take(i + 1));
        }
        i = i + 1;
    }
    proof {
        assert(operator_views(operators@).take(i as int) =~= operator_views(operators@));
    }
    copy
}

} // verus!

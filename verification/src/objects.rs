//! What a program declares: types, variables and functions.

use vstd::prelude::*;
use vstd::string::*;
use crate::text::spelled;

verus! {

/// The type that a variable is declared with.
#[derive(Clone, Copy, Debug, PartialEq, Eq, Structural)]
pub enum Type {
    /// `byte`: one byte.
    Byte,
    /// `int`: a four-byte integer.
    Integer,
    /// `bigint`: an eight-byte integer.
    BigInteger,
    /// `str`: a string; a local of this type holds its address.
    Str,
}

/// The type that a name in the source stands for, if it is a type's name.
pub open spec fn type_named(name: Seq<char>) -> Option<Type> {
    if name == "byte"@ {
        Some(Type::Byte)
    } else if name == "int"@ {
        Some(Type::Integer)
    } else if name == "bigint"@ {
        Some(Type::BigInteger)
    } else if name == "str"@ {
        Some(Type::Str)
    } else {
        None
    }
}

/// The number of bytes that a local of the type takes on the stack.
pub open spec fn width(type_: Type) -> nat {
    match type_ {
        Type::Byte => 1,
        Type::Integer => 4,
        Type::BigInteger => 8,
        Type::Str => 8,
    }
}

/// The directive that defines data of the type in the data section.
pub open spec fn directive(type_: Type) -> Seq<char> {
    match type_ {
        Type::Byte => "db"@,
        Type::Integer => "dd"@,
        Type::BigInteger => "dq"@,
        Type::Str => "db"@,
    }
}

/// The keyword that gives a store to the stack the width of the type.
pub open spec fn width_keyword(type_: Type) -> Seq<char> {
    match type_ {
        Type::Byte => "byte"@,
        Type::Integer => "dword"@,
        Type::BigInteger => "qword"@,
        Type::Str => "qword"@,
    }
}

/// Each of the four names stands for its type.
pub proof fn lemma_type_names()
    ensures
        type_named("byte"@) == Some(Type::Byte),
        type_named("int"@) == Some(Type::Integer),
        type_named("bigint"@) == Some(Type::BigInteger),
        type_named("str"@) == Some(Type::Str),
{
    reveal_strlit("byte");
    reveal_strlit("int");
    reveal_strlit("bigint");
    reveal_strlit("str");
    assert("byte"@.len() == 4);
    assert("int"@.len() == 3 && "int"@[0] == 'i');
    assert("bigint"@.len() == 6);
    assert("str"@.len() == 3 && "str"@[0] == 's');
}

/// Resolves a type's name; `None` for a name that is no type's.
pub fn string_to_type(type_as_string: &String) -> (type_: Option<Type>)
    ensures
        type_ == type_named(type_as_string@),
{
    if spelled(type_as_string, "byte") {
        Some(Type::Byte)
    } else if spelled(type_as_string, "int") {
        Some(Type::Integer)
    } else if spelled(type_as_string, "bigint") {
        Some(Type::BigInteger)
    } else if spelled(type_as_string, "str") {
        Some(Type::Str)
    } else {
        None
    }
}

/// The number of bytes that a local of the type takes on the stack.
pub fn type_size_to_usize(type_: &Type) -> (size: usize)
    ensures
        size == width(*type_),
{
    match type_ {
        Type::Byte => 1,
        Type::Integer => 4,
        Type::BigInteger => 8,
        Type::Str => 8,
    }
}

/// The directive that defines data of the type, as text.
pub fn type_to_asm(type_: Type) -> (text: String)
    ensures
        text@ == directive(type_),
{
    match type_ {
        Type::Byte => String::from_str("db"),
        Type::Integer => String::from_str("dd"),
        Type::BigInteger => String::from_str("dq"),
        Type::Str => String::from_str("db"),
    }
}

/// The keyword for a store of the type's width, as text.
pub fn type_size_to_asm(type_: Type) -> (text: String)
    ensures
        text@ == width_keyword(type_),
{
    match type_ {
        Type::Byte => String::from_str("byte"),
        Type::Integer => String::from_str("dword"),
        Type::BigInteger => String::from_str("qword"),
        Type::Str => String::from_str("qword"),
    }
}

/// A declared variable. A local has a place on the stack; a static has none
/// and lives in the data section under its identifier.
#[derive(Debug, PartialEq, Eq)]
pub struct Variable {
    id: String,
    type_: Type,
    current_value: String,
    stack_pos: Option<usize>,
}

/// What a [`Variable`] is in contracts.
pub struct VariableView {
    /// The identifier.
    pub id: Seq<char>,
    /// The declared type.
    pub type_: Type,
    /// The current value, as the literal text that the source gave; no text
    /// where it gave none.
    pub value: Seq<char>,
    /// For a local, the offset of its slot below the frame base: the slot is
    /// the `width(type_)` bytes that end at this offset.
    pub offset: Option<nat>,
}

impl View for Variable {
    type V = VariableView;

    closed spec fn view(&self) -> VariableView {
        VariableView {
            id: self.id@,
            type_: self.type_,
            value: self.current_value@,
            offset: match self.stack_pos {
                Some(pos) => Some(pos as nat),
                None => None,
            },
        }
    }
}

impl DeepView for Variable {
    type V = VariableView;

    open spec fn deep_view(&self) -> VariableView {
        self@
    }
}

impl Clone for Variable {
    fn clone(&self) -> (copy: Variable)
        ensures
            copy@ == self@,
    {
        Variable {
            id: self.id.clone(),
            type_: self.type_,
            current_value: self.current_value.clone(),
            stack_pos: self.stack_pos,
        }
    }
}

impl Variable {
    /// A local variable whose slot ends `stack_pos` bytes below the frame
    /// base.
    pub fn new(id: String, type_: Type, current_value: String, stack_pos: usize) -> (variable: Self)
        ensures
            variable@ == (VariableView {
                id: id@,
                type_,
                value: current_value@,
                offset: Some(stack_pos as nat),
            }),
    {
        Variable { id, type_, current_value, stack_pos: Some(stack_pos) }
    }

    /// A static variable.
    pub fn static_(id: String, type_: Type, current_value: String) -> (variable: Self)
        ensures
            variable@ == (VariableView { id: id@, type_, value: current_value@, offset: None }),
    {
        Variable { id, type_, current_value, stack_pos: None }
    }

    /// The identifier.
    pub fn id(&self) -> (id: &String)
        ensures
            id@ == self@.id,
    {
        &self.id
    }

    /// The declared type.
    pub fn type_(&self) -> (type_: &Type)
        ensures
            *type_ == self@.type_,
    {
        &self.type_
    }

    /// The current value.
    pub fn current_value(&self) -> (value: &String)
        ensures
            value@ == self@.value,
    {
        &self.current_value
    }

    /// The offset of a local's slot; `None` for a static.
    pub fn stack_pos(&self) -> (pos: Option<usize>)
        ensures
            pos is Some == self@.offset is Some,
            pos matches Some(p) ==> self@.offset == Some(p as nat),
    {
        self.stack_pos
    }
}

/// A declared function.
#[derive(Debug, PartialEq, Eq)]
pub struct Function {
    id: String,
    params: Vec<Variable>,
    return_type: String,
}

/// What a [`Function`] is in contracts.
pub struct FunctionView {
    /// The identifier, which is also the label that the function is emitted
    /// under.
    pub id: Seq<char>,
    /// The parameters.
    pub params: Seq<VariableView>,
    /// The marker of the return type.
    pub return_type: Seq<char>,
}

impl View for Function {
    type V = FunctionView;

    closed spec fn view(&self) -> FunctionView {
        FunctionView {
            id: self.id@,
            params: self.params.deep_view(),
            return_type: self.return_type@,
        }
    }
}

impl DeepView for Function {
    type V = FunctionView;

    open spec fn deep_view(&self) -> FunctionView {
        self@
    }
}

impl Function {
    /// A function of the given name, parameters and return type.
    pub fn new(id: String, params: Vec<Variable>, return_type: String) -> (function: Self)
        ensures
            function@ == (FunctionView {
                id: id@,
                params: params.deep_view(),
                return_type: return_type@,
            }),
    {
        Function { id, params, return_type }
    }

    /// The identifier.
    pub fn id(&self) -> (id: &String)
        ensures
            id@ == self@.id,
    {
        &self.id
    }

    /// The parameters.
    pub fn params(&self) -> (params: &Vec<Variable>)
        ensures
            params.deep_view() == self@.params,
    {
        &self.params
    }

    /// The marker of the return type.
    pub fn return_type(&self) -> (return_type: &String)
        ensures
            return_type@ == self@.return_type,
    {
        &self.return_type
    }
}

} // verus!

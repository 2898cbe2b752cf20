//! What each keyword does: the handlers that the dispatcher calls, and the
//! generators of the backend that they rest on.

use vstd::prelude::*;
use vstd::string::*;
use crate::assembly::{
    assembly_line, exit_lines, function_lines, print_lines, raw_assembly, return_lines,
    static_line, store_line,
};
use crate::data::{CompilerData, CompilerDataView, Fault};
use crate::objects::{
    string_to_type, type_named, type_size_to_usize, width, Function, FunctionView, Type, Variable,
    VariableView,
};
use crate::tokens::{Token, TokenView};

verus! {

/// That a step ended as expected: where a new state is expected, the step
/// succeeded and reached it; where a fault is expected, the step failed with
/// that fault and left the state as it was.
pub open spec fn follows(
    before: CompilerDataView,
    after: CompilerDataView,
    done: Result<(), Fault>,
    expected: Result<CompilerDataView, Fault>,
) -> bool {
    match expected {
        Ok(state) => done is Ok && after == state,
        Err(fault) => done == Err::<(), Fault>(fault) && after == before,
    }
}

/// The state with more lines at the end of its text section.
pub open spec fn emitted(d: CompilerDataView, lines: Seq<Seq<char>>) -> CompilerDataView {
    CompilerDataView { text: d.text + lines, ..d }
}

/// The state once a function is declared: the function is registered, and
/// its label and prologue stand at the end of the text section.
pub open spec fn function_added(d: CompilerDataView, function: FunctionView) -> CompilerDataView {
    CompilerDataView {
        functions: d.functions.push(function),
        text: d.text + function_lines(function.id),
        ..d
    }
}

/// The state once a static is declared: its definition stands at the end of
/// the data section.
pub open spec fn static_added(d: CompilerDataView, variable: VariableView) -> CompilerDataView {
    CompilerDataView { data: d.data.push(static_line(variable)), ..d }
}

/// Whether a local has a slot that starts at or above the top of the slots in
/// use.
pub open spec fn slot_fits(d: CompilerDataView, variable: VariableView) -> bool {
    variable.offset is Some && d.offset + width(variable.type_) <= variable.offset->0
}

/// The state once a local is declared: the table holds it under its
/// identifier, in place of any earlier declaration; the stack reaches down to
/// the end of its slot; and the store of its value stands at the end of the
/// text section. A local without a fitting slot is a fault.
pub open spec fn variable_added(d: CompilerDataView, variable: VariableView) -> Result<
    CompilerDataView,
    Fault,
> {
    if slot_fits(d, variable) {
        Ok(
            CompilerDataView {
                variables: d.variables.insert(variable.id, variable),
                offset: variable.offset->0,
                text: d.text.push(store_line(variable, variable.offset->0)),
                ..d
            },
        )
    } else {
        Err(Fault::NoStackSlot)
    }
}

/// The state once a local is assigned to: the store of its value stands at
/// the end of the text section. A variable without a slot is a fault.
pub open spec fn value_changed(d: CompilerDataView, variable: VariableView) -> Result<
    CompilerDataView,
    Fault,
> {
    match variable.offset {
        Some(offset) => Ok(emitted(d, seq![store_line(variable, offset)])),
        None => Err(Fault::NoStackSlot),
    }
}

/// The literal that must follow a keyword: the text of the first token, which
/// has to be a leaf.
pub open spec fn name_in(next_tokens: Seq<TokenView>) -> Result<Seq<char>, Fault> {
    if next_tokens.len() == 0 {
        Err(Fault::ExpectedLiteral)
    } else {
        match next_tokens[0] {
            TokenView::RawString(text) => Ok(text),
            _ => Err(Fault::ExpectedLiteral),
        }
    }
}

/// The literal that may follow a keyword: `0` where the line ends, else the
/// text of the first token, which has to be a leaf.
pub open spec fn operand_in(next_tokens: Seq<TokenView>) -> Result<Seq<char>, Fault> {
    if next_tokens.len() == 0 {
        Ok("0"@)
    } else {
        name_in(next_tokens)
    }
}

/// What a declaration says.
pub struct Declaration {
    /// The identifier.
    pub id: Seq<char>,
    /// The declared type.
    pub type_: Type,
    /// The value, where one is given.
    pub value: Option<Seq<char>>,
}

/// Whether tokens have the shape of a declaration: `name : type`, alone or
/// followed by `= value`, where name, type and value are leaves.
pub open spec fn is_declaration(t: Seq<TokenView>) -> bool {
    &&& t.len() == 3 || t.len() == 5
    &&& t[0] is RawString
    &&& t[1] is TypeDef
    &&& t[2] is RawString
    &&& t.len() == 5 ==> t[3] is Assign && t[4] is RawString
}

/// The declaration that tokens stand for. Tokens of another shape are a
/// malformed declaration; a type that does not exist is an unknown type.
pub open spec fn declaration(t: Seq<TokenView>) -> Result<Declaration, Fault> {
    if !is_declaration(t) {
        Err(Fault::MalformedDeclaration)
    } else {
        match type_named(t[2]->0) {
            None => Err(Fault::UnknownType),
            Some(type_) => Ok(
                Declaration {
                    id: t[0]->0,
                    type_,
                    value: if t.len() == 5 {
                        Some(t[4]->0)
                    } else {
                        None
                    },
                },
            ),
        }
    }
}

/// After the escape: the rest of the line is one line of raw assembly.
pub open spec fn assembly_handled(d: CompilerDataView, next_tokens: Seq<TokenView>) -> Result<
    CompilerDataView,
    Fault,
> {
    Ok(emitted(d, seq![assembly_line(next_tokens)]))
}

/// After `func`: the next token names a function without parameters; the
/// scope goes one name deeper, and the function is declared.
pub open spec fn function_handled(d: CompilerDataView, next_tokens: Seq<TokenView>) -> Result<
    CompilerDataView,
    Fault,
> {
    match name_in(next_tokens) {
        Ok(id) => Ok(
            function_added(
                CompilerDataView { scope: d.scope.push(id), ..d },
                FunctionView { id, params: Seq::empty(), return_type: Seq::empty() },
            ),
        ),
        Err(fault) => Err(fault),
    }
}

/// After `ret`: the return sequence, with the next token as the value, or `0`
/// where the line ends.
pub open spec fn return_handled(d: CompilerDataView, next_tokens: Seq<TokenView>) -> Result<
    CompilerDataView,
    Fault,
> {
    match operand_in(next_tokens) {
        Ok(value) => Ok(emitted(d, return_lines(value))),
        Err(fault) => Err(fault),
    }
}

/// After `static`: the rest of the line declares a static. Where no value is
/// given, the static has none: its value is the empty text.
pub open spec fn static_handled(d: CompilerDataView, next_tokens: Seq<TokenView>) -> Result<
    CompilerDataView,
    Fault,
> {
    match declaration(next_tokens) {
        Ok(decl) => Ok(
            static_added(
                d,
                VariableView {
                    id: decl.id,
                    type_: decl.type_,
                    value: match decl.value {
                        Some(value) => value,
                        None => Seq::empty(),
                    },
                    offset: None,
                },
            ),
        ),
        Err(fault) => Err(fault),
    }
}

/// After `variable`: the rest of the line declares a local, with a value.
/// Its slot lies directly below the slots in use: the stack offset grows by
/// the width of its type, and the new offset is the local's.
pub open spec fn variable_handled(d: CompilerDataView, next_tokens: Seq<TokenView>) -> Result<
    CompilerDataView,
    Fault,
> {
    match declaration(next_tokens) {
        Ok(decl) => match decl.value {
            None => Err(Fault::MalformedDeclaration),
            Some(value) => if d.offset + width(decl.type_) > usize::MAX {
                Err(Fault::FrameTooLarge)
            } else {
                variable_added(
                    d,
                    VariableView {
                        id: decl.id,
                        type_: decl.type_,
                        value,
                        offset: Some(d.offset + width(decl.type_)),
                    },
                )
            },
        },
        Err(fault) => Err(fault),
    }
}

/// After `print`: the next token is the label of the string to print.
pub open spec fn print_handled(d: CompilerDataView, next_tokens: Seq<TokenView>) -> Result<
    CompilerDataView,
    Fault,
> {
    match name_in(next_tokens) {
        Ok(label) => Ok(emitted(d, print_lines(label))),
        Err(fault) => Err(fault),
    }
}

/// After `exit`: the next token is the status, or `0` where the line ends.
pub open spec fn exit_handled(d: CompilerDataView, next_tokens: Seq<TokenView>) -> Result<
    CompilerDataView,
    Fault,
> {
    match operand_in(next_tokens) {
        Ok(value) => Ok(emitted(d, exit_lines(value))),
        Err(fault) => Err(fault),
    }
}

/// The handlers of the keywords, shared by every backend, over the
/// generators that a backend provides.
pub trait Caller {
    /// The state of the build that the backend holds.
    spec fn model(&self) -> CompilerData;

    /// The state of the build, to read and to change.
    fn data(&mut self) -> (data: &mut CompilerData)
        ensures
            *data == old(self).model(),
            final(self).model() == *final(data),
    ;

    /// Declares a local: see [`variable_added`].
    fn add_variable(&mut self, variable: Variable) -> (done: Result<(), Fault>)
        ensures
            follows(
                old(self).model()@,
                final(self).model()@,
                done,
                variable_added(old(self).model()@, variable@),
            ),
    ;

    /// Declares a static: see [`static_added`].
    fn add_static_variable(&mut self, variable: Variable)
        ensures
            final(self).model()@ == static_added(old(self).model()@, variable@),
    ;

    /// Declares a function: see [`function_added`].
    fn add_function(&mut self, function: Function)
        ensures
            final(self).model()@ == function_added(old(self).model()@, function@),
    ;

    /// Assigns to a local: see [`value_changed`].
    fn change_variable_value(&mut self, variable: &Variable) -> (done: Result<(), Fault>)
        ensures
            follows(
                old(self).model()@,
                final(self).model()@,
                done,
                value_changed(old(self).model()@, variable@),
            ),
    ;

    /// Emits the return sequence for the given value.
    fn return_(&mut self, value: String)
        ensures
            final(self).model()@ == emitted(old(self).model()@, return_lines(value@)),
    ;

    /// Emits the printing of the zero-terminated string at the given label.
    fn print(&mut self, to_print: String)
        ensures
            final(self).model()@ == emitted(old(self).model()@, print_lines(to_print@)),
    ;

    /// Emits the end of the process with the given status.
    fn exit(&mut self, value: String)
        ensures
            final(self).model()@ == emitted(old(self).model()@, exit_lines(value@)),
    ;

    /// Puts one line at the end of the text section, as it is.
    fn write_asm(&mut self, asm_code: String)
        ensures
            final(self).model()@ == emitted(old(self).model()@, seq![asm_code@]),
    {
        let data = self.data();
        let ghost before = data.section_text.deep_view();
        data.section_text.push(asm_code);
        assert(data.section_text.deep_view() =~= before + seq![asm_code@]);
    }

    /// After the escape: see [`assembly_handled`].
    fn when_assembly_code(&mut self, next_tokens: Vec<Token>) -> (done: Result<(), Fault>)
        ensures
            follows(
                old(self).model()@,
                final(self).model()@,
                done,
                assembly_handled(old(self).model()@, next_tokens.deep_view()),
            ),
    {
        let line = raw_assembly(&next_tokens);
        self.write_asm(line);
        Ok(())
    }

    /// After `=`: nothing is generated for an assignment.
    fn when_assign(&mut self, _next_tokens: Vec<Token>)
        ensures
            final(self).model() == old(self).model(),
    {
    }

    /// After `func`: see [`function_handled`].
    fn when_function(&mut self, next_tokens: Vec<Token>) -> (done: Result<(), Fault>)
        ensures
            follows(
                old(self).model()@,
                final(self).model()@,
                done,
                function_handled(old(self).model()@, next_tokens.deep_view()),
            ),
    {
        if next_tokens.len() == 0 {
            return Err(Fault::ExpectedLiteral);
        }
        match &next_tokens[0] {
            Token::RawString(name) => {
                let params: Vec<Variable> = Vec::new();
                assert(params.deep_view() =~= Seq::<VariableView>::empty());
                let function = Function::new(name.clone(), params, String::new());
                let data = self.data();
                let ghost before = data.current_scope.deep_view();
                data.current_scope.push(name.clone());
                assert(data.current_scope.deep_view() =~= before.push(name@));
                self.add_function(function);
                Ok(())
            },
            _ => Err(Fault::ExpectedLiteral),
        }
    }

    /// After `ret`: see [`return_handled`].
    fn when_return(&mut self, next_tokens: Vec<Token>) -> (done: Result<(), Fault>)
        ensures
            follows(
                old(self).model()@,
                final(self).model()@,
                done,
                return_handled(old(self).model()@, next_tokens.deep_view()),
            ),
    {
        if next_tokens.len() == 0 {
            self.return_(String::from_str("0"));
            return Ok(());
        }
        match &next_tokens[0] {
            Token::RawString(value) => {
                self.return_(value.clone());
                Ok(())
            },
            _ => Err(Fault::ExpectedLiteral),
        }
    }

    /// After `static`: see [`static_handled`].
    fn when_static(&mut self, next_tokens: Vec<Token>) -> (done: Result<(), Fault>)
        ensures
            follows(
                old(self).model()@,
                final(self).model()@,
                done,
                static_handled(old(self).model()@, next_tokens.deep_view()),
            ),
    {
        match self.retrieve_variable_info(next_tokens) {
            Ok((id, type_, value)) => {
                let current_value = match value {
                    Some(value) => value,
                    None => String::new(),
                };
                self.add_static_variable(Variable::static_(id, type_, current_value));
                Ok(())
            },
            Err(fault) => Err(fault),
        }
    }

    /// After `variable`: see [`variable_handled`].
    fn when_variable(&mut self, next_tokens: Vec<Token>) -> (done: Result<(), Fault>)
        ensures
            follows(
                old(self).model()@,
                final(self).model()@,
                done,
                variable_handled(old(self).model()@, next_tokens.deep_view()),
            ),
    {
        match self.retrieve_variable_info(next_tokens) {
            Ok((id, type_, value)) => match value {
                None => Err(Fault::MalformedDeclaration),
                Some(current_value) => {
                    let top = self.data().i_variable_stack;
                    match top.checked_add(type_size_to_usize(&type_)) {
                        None => Err(Fault::FrameTooLarge),
                        Some(stack_pos) => self.add_variable(
                            Variable::new(id, type_, current_value, stack_pos),
                        ),
                    }
                },
            },
            Err(fault) => Err(fault),
        }
    }

    /// After `print`: see [`print_handled`].
    fn when_print(&mut self, next_tokens: Vec<Token>) -> (done: Result<(), Fault>)
        ensures
            follows(
                old(self).model()@,
                final(self).model()@,
                done,
                print_handled(old(self).model()@, next_tokens.deep_view()),
            ),
    {
        if next_tokens.len() == 0 {
            return Err(Fault::ExpectedLiteral);
        }
        match &next_tokens[0] {
            Token::RawString(label) => {
                self.print(label.clone());
                Ok(())
            },
            _ => Err(Fault::ExpectedLiteral),
        }
    }

    /// After `exit`: see [`exit_handled`].
    fn when_exit(&mut self, next_tokens: Vec<Token>) -> (done: Result<(), Fault>)
        ensures
            follows(
                old(self).model()@,
                final(self).model()@,
                done,
                exit_handled(old(self).model()@, next_tokens.deep_view()),
            ),
    {
        if next_tokens.len() == 0 {
            self.exit(String::from_str("0"));
            return Ok(());
        }
        match &next_tokens[0] {
            Token::RawString(value) => {
                self.exit(value.clone());
                Ok(())
            },
            _ => Err(Fault::ExpectedLiteral),
        }
    }

    /// Reads a declaration: see [`declaration`]. The state stays as it is.
    fn retrieve_variable_info(&mut self, next_tokens: Vec<Token>) -> (info: Result<
        (String, Type, Option<String>),
        Fault,
    >)
        ensures
            final(self).model() == old(self).model(),
            match declaration(next_tokens.deep_view()) {
                Ok(decl) => info matches Ok((id, type_, value)) && id@ == decl.id && type_
                    == decl.type_ && value is Some == decl.value is Some && (value matches Some(
                    text,
                ) ==> decl.value == Some(text@)),
                Err(fault) => info == Err::<(String, Type, Option<String>), Fault>(fault),
            },
    {
        let n = next_tokens.len();
        if n != 3 && n != 5 {
            return Err(Fault::MalformedDeclaration);
        }
        let id = match &next_tokens[0] {
            Token::RawString(id) => id.clone(),
            _ => {
                return Err(Fault::MalformedDeclaration);
            },
        };
        match &next_tokens[1] {
            Token::TypeDef => {},
            _ => {
                return Err(Fault::MalformedDeclaration);
            },
        }
        let declared_type = match &next_tokens[2] {
            Token::RawString(name) => name,
            _ => {
                return Err(Fault::MalformedDeclaration);
            },
        };
        let value = if n == 5 {
            match &next_tokens[3] {
                Token::Assign => {},
                _ => {
                    return Err(Fault::MalformedDeclaration);
                },
            }
            match &next_tokens[4] {
                Token::RawString(value) => Some(value.clone()),
                _ => {
                    return Err(Fault::MalformedDeclaration);
                },
            }
        } else {
            None
        };
        match string_to_type(declared_type) {
            Some(type_) => Ok((id, type_, value)),
            None => Err(Fault::UnknownType),
        }
    }

    /// After any other token: nothing is generated.
    fn when_other(&mut self)
        ensures
            final(self).model() == old(self).model(),
    {
    }
}

} // verus!

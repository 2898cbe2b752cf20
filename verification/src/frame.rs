//! The stack frame of a file: where its locals lie, and why they never
//! overlap.

use vstd::prelude::*;
use crate::base::{
    entered, instruction, instruction_at, key_at, line_from, lines_of, program_from, rest_at,
    resumed,
};
use crate::caller::{declaration, variable_added, variable_handled};
use crate::data::CompilerDataView;
use crate::objects::{width, VariableView};
use crate::tokens::TokenView;

verus! {

/// Where the slot of a local begins, as an offset below the frame base: the
/// slot is the bytes from here to the local's own offset.
pub open spec fn slot_start(variable: VariableView) -> int {
    variable.offset->0 - width(variable.type_)
}

/// Whether the slots of two locals have no byte in common.
pub open spec fn apart(a: VariableView, b: VariableView) -> bool {
    a.offset->0 <= slot_start(b) || b.offset->0 <= slot_start(a)
}

/// Whether the locals of a state lie well: each has a slot that begins at or
/// below the frame base and ends within the stack in use, and the slots of
/// two different identifiers have no byte in common.
pub open spec fn frame_ok(d: CompilerDataView) -> bool {
    &&& forall|id: Seq<char>| #[trigger]
        d.variables.contains_key(id) ==> {
            &&& d.variables[id].offset is Some
            &&& 0 <= slot_start(d.variables[id])
            &&& d.variables[id].offset->0 <= d.offset
        }
    &&& forall|a: Seq<char>, b: Seq<char>|
        #![trigger d.variables.contains_key(a), d.variables.contains_key(b)]
        d.variables.contains_key(a) && d.variables.contains_key(b) && a != b ==> apart(
            d.variables[a],
            d.variables[b],
        )
}

/// A state without locals lies well.
pub proof fn lemma_empty_frame(d: CompilerDataView)
    requires
        d.variables == Map::<Seq<char>, VariableView>::empty(),
    ensures
        frame_ok(d),
{
}

/// Declaring a local keeps the frame well: the new slot begins where the
/// stack in use ended or below, so it is apart from every slot that was
/// there, and the stack in use grows by at least the local's width.
pub proof fn lemma_variable_added_keeps_frame(d: CompilerDataView, variable: VariableView)
    requires
        frame_ok(d),
        variable_added(d, variable) is Ok,
    ensures
        frame_ok(variable_added(d, variable)->Ok_0),
        variable_added(d, variable)->Ok_0.offset >= d.offset + width(variable.type_),
        forall|id: Seq<char>| #[trigger]
            d.variables.contains_key(id) ==> d.variables[id].offset->0 <= slot_start(variable),
{
    let after = variable_added(d, variable)->Ok_0;
    assert forall|id: Seq<char>| #[trigger] after.variables.contains_key(id) implies {
        &&& after.variables[id].offset is Some
        &&& 0 <= slot_start(after.variables[id])
        &&& after.variables[id].offset->0 <= after.offset
    } by {
        if id != variable.id {
            assert(d.variables.contains_key(id));
        }
    }
    assert forall|a: Seq<char>, b: Seq<char>|
        #![trigger after.variables.contains_key(a), after.variables.contains_key(b)]
        after.variables.contains_key(a) && after.variables.contains_key(b) && a != b implies apart(
        after.variables[a],
        after.variables[b],
    ) by {
        if a != variable.id {
            assert(d.variables.contains_key(a));
        }
        if b != variable.id {
            assert(d.variables.contains_key(b));
        }
    }
}

/// Two locals declared one after the other lie one below the other: the
/// offset of each is the stack in use before it plus the width of its type,
/// and the slot of the second begins where the stack ended after the first.
pub proof fn lemma_locals_stack_up(
    d: CompilerDataView,
    first: Seq<TokenView>,
    second: Seq<TokenView>,
)
    requires
        variable_handled(d, first) is Ok,
        variable_handled(variable_handled(d, first)->Ok_0, second) is Ok,
    ensures
        ({
            let a = declaration(first)->Ok_0;
            let b = declaration(second)->Ok_0;
            let d1 = variable_handled(d, first)->Ok_0;
            let d2 = variable_handled(d1, second)->Ok_0;
            &&& d1.offset == d.offset + width(a.type_)
            &&& d2.offset == d.offset + width(a.type_) + width(b.type_)
            &&& d1.variables[a.id].offset == Some(d1.offset)
            &&& d2.variables[b.id].offset == Some(d2.offset)
            &&& slot_start(d2.variables[b.id]) == d1.offset
            &&& d1.offset < d2.offset
        }),
{
}

/// Declaring an identifier again replaces what the table held under it: the
/// last declaration is the one that is found, and no other entry changes.
pub proof fn lemma_last_declaration_wins(
    d: CompilerDataView,
    first: VariableView,
    second: VariableView,
)
    requires
        first.id == second.id,
        variable_added(d, first) is Ok,
        variable_added(variable_added(d, first)->Ok_0, second) is Ok,
    ensures
        ({
            let d2 = variable_added(variable_added(d, first)->Ok_0, second)->Ok_0;
            &&& d2.variables[second.id] == second
            &&& d2.variables == d.variables.insert(second.id, second)
        }),
{
    let d1 = variable_added(d, first)->Ok_0;
    let d2 = variable_added(d1, second)->Ok_0;
    assert(d2.variables =~= d.variables.insert(second.id, second));
}

/// No instruction harms the frame, and none lets the stack in use shrink.
pub proof fn lemma_instruction_keeps_frame(
    d: CompilerDataView,
    key: TokenView,
    rest: Seq<TokenView>,
)
    requires
        frame_ok(d),
        instruction(d, key, rest) is Ok,
    ensures
        frame_ok(instruction(d, key, rest)->Ok_0.0),
        d.offset <= instruction(d, key, rest)->Ok_0.0.offset,
{
    if key is Variable {
        let decl = declaration(rest)->Ok_0;
        let variable = VariableView {
            id: decl.id,
            type_: decl.type_,
            value: decl.value->0,
            offset: Some(d.offset + width(decl.type_)),
        };
        lemma_variable_added_keeps_frame(d, variable);
    } else {
        let after = instruction(d, key, rest)->Ok_0.0;
        assert(after.variables == d.variables && after.offset == d.offset);
    }
}

/// Walking a line keeps the frame well, whether the walk ends in a fault or
/// not.
pub proof fn lemma_line_keeps_frame(d: CompilerDataView, line: Seq<TokenView>, position: int)
    requires
        frame_ok(d),
    ensures
        frame_ok(line_from(d, line, position).0),
        d.offset <= line_from(d, line, position).0.offset,
    decreases line.len() - position,
{
    if 0 <= position < line.len() {
        let at = CompilerDataView { token: line[position], ..d };
        assert(frame_ok(at));
        match instruction_at(at, line, position) {
            Err(_) => {},
            Ok((next, consumed)) => {
                lemma_instruction_keeps_frame(
                    at,
                    key_at(line, position),
                    rest_at(line, position),
                );
                if !consumed {
                    lemma_line_keeps_frame(next, line, position + 1);
                }
            },
        }
    }
}

/// Compiling the lines of a file keeps the frame well: in every state that
/// the compiling of a file reaches, the slots of its locals do not overlap,
/// and the stack in use never shrinks.
pub proof fn lemma_program_keeps_frame(d: CompilerDataView, lines: Seq<Seq<TokenView>>, index: int)
    requires
        frame_ok(d),
    ensures
        frame_ok(program_from(d, lines, index).0),
        d.offset <= program_from(d, lines, index).0.offset,
    decreases lines.len() - index,
{
    if 0 <= index < lines.len() {
        let entered = CompilerDataView { line: lines[index], ..d };
        assert(frame_ok(entered));
        lemma_line_keeps_frame(entered, lines[index], 0);
        let (next, fault) = line_from(entered, lines[index], 0);
        if fault is None {
            lemma_program_keeps_frame(next, lines, index + 1);
        }
    }
}

/// Each file starts with an empty frame.
pub proof fn lemma_file_starts_with_empty_frame(
    d: CompilerDataView,
    source: Seq<char>,
    content: Seq<char>,
)
    ensures
        frame_ok(entered(d, source, content)),
        entered(d, source, content).offset == 0,
{
}

/// A step of the build keeps the frame well: whatever the awaited source
/// holds, and whether its compiling ends in a fault or not, the locals of the
/// state that is reached do not overlap.
pub proof fn lemma_build_keeps_frame(d: CompilerDataView, content: Option<Seq<char>>)
    requires
        frame_ok(d),
    ensures
        frame_ok(resumed(d, content).0),
{
    if d.next_source < d.sources.len() {
        if let Some(text) = content {
            let source = d.sources[d.next_source as int];
            let e = entered(d, source, text);
            let logged = CompilerDataView { logs: e.logs + Seq::empty(), ..e };
            assert(frame_ok(logged));
            lemma_program_keeps_frame(logged, lines_of(logged), 0);
            let compiled = program_from(logged, lines_of(logged), 0).0;
            let after = resumed(d, content).0;
            assert(after.variables == compiled.variables && after.offset == compiled.offset);
        }
    }
}

} // verus!

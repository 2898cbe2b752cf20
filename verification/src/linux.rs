//! The backend for Linux on x86-64, in the syntax of the NASM assembler.

use vstd::prelude::*;
use vstd::string::*;
use crate::assembly::{
    define_static, exit_sequence, open_function, print_sequence, render_file, return_sequence,
    store,
};
use crate::base::Compiler;
use crate::caller::Caller;
use crate::data::{CompilerData, Fault};
use crate::effects::{
    assemble, assembly_file, object_file, object_path, object_paths, output_path, Effect,
    EffectView,
};
use crate::objects::{type_size_to_usize, Function, Variable};

verus! {

/// The compiler for Linux.
#[derive(Debug)]
pub struct LinuxCompiler {
    data: CompilerData,
}

impl LinuxCompiler {
    /// A compiler in the given state.
    pub fn new(data: CompilerData) -> (compiler: Self)
        ensures
            compiler.model() == data,
    {
        Self { data }
    }

    /// Puts the lines at the end of the text section.
    fn emit(&mut self, lines: Vec<String>)
        ensures
            final(self).data == (CompilerData {
                section_text: final(self).data.section_text,
                ..old(self).data
            }),
            final(self).data.section_text.deep_view() == old(self).data.section_text.deep_view()
                + lines.deep_view(),
    {
        let mut lines = lines;
        let ghost before = self.data.section_text.deep_view();
        let ghost added = lines.deep_view();
        self.data.section_text.append(&mut lines);
        assert(self.data.section_text.deep_view() =~= before + added);
    }
}

impl Caller for LinuxCompiler {
    closed spec fn model(&self) -> CompilerData {
        self.data
    }

    fn data(&mut self) -> (data: &mut CompilerData) {
        &mut self.data
    }

    fn add_variable(&mut self, variable: Variable) -> (done: Result<(), Fault>) {
        let stack_pos = match variable.stack_pos() {
            Some(stack_pos) => stack_pos,
            None => {
                return Err(Fault::NoStackSlot);
            },
        };
        let size = type_size_to_usize(variable.type_());
        if stack_pos < size || stack_pos - size < self.data.i_variable_stack {
            return Err(Fault::NoStackSlot);
        }
        let line = store(&variable, stack_pos);
        let ghost before = self.data.section_text.deep_view();
        self.data.section_text.push(line);
        assert(self.data.section_text.deep_view() =~= before.push(line@));
        self.data.i_variable_stack = stack_pos;
        self.data.variable_stack.insert(variable);
        Ok(())
    }

    fn add_static_variable(&mut self, variable: Variable) {
        let line = define_static(&variable);
        let ghost before = self.data.section_data.deep_view();
        self.data.section_data.push(line);
        assert(self.data.section_data.deep_view() =~= before.push(line@));
    }

    fn add_function(&mut self, function: Function) {
        let lines = open_function(function.id());
        self.emit(lines);
        let ghost before = self.data.functions.deep_view();
        self.data.functions.push(function);
        assert(self.data.functions.deep_view() =~= before.push(function@));
    }

    fn change_variable_value(&mut self, variable: &Variable) -> (done: Result<(), Fault>) {
        match variable.stack_pos() {
            Some(stack_pos) => {
                let line = store(variable, stack_pos);
                let ghost before = self.data.section_text.deep_view();
                self.data.section_text.push(line);
                assert(self.data.section_text.deep_view() =~= before + seq![line@]);
                Ok(())
            },
            None => Err(Fault::NoStackSlot),
        }
    }

    fn return_(&mut self, value: String) {
        self.emit(return_sequence(&value));
    }

    fn print(&mut self, to_print: String) {
        self.emit(print_sequence(&to_print));
    }

    fn exit(&mut self, value: String) {
        self.emit(exit_sequence(&value));
    }
}

impl Compiler for LinuxCompiler {
    fn init(&mut self) -> (effects: Vec<Effect>) {
        let mut effects: Vec<Effect> = Vec::new();
        if self.data.is_library {
            assert(effects.deep_view() =~= Seq::<EffectView>::empty());
            return effects;
        }
        let path = String::from_str("build/_start.asm");
        let write = Effect::Write {
            path: path.clone(),
            content: String::from_str(
                "section .text\n\tglobal _start\nextern main\n_start:\n\tcall main\n",
            ),
        };
        let run = assemble(&path, String::from_str("build/_start.asm.o"));
        effects.push(write);
        effects.push(run);
        assert(effects.deep_view() =~= seq![write@, run@]);
        effects
    }

    fn link(&mut self) -> (effect: Effect) {
        let mut arguments: Vec<String> = Vec::new();
        arguments.push(String::from_str("-o"));
        let output = match self.data.options.get('o') {
            Some(path) => path.clone(),
            None => String::from_str("a.out"),
        };
        arguments.push(output);
        if self.data.is_library {
            arguments.push(String::from_str("-shared"));
        } else {
            arguments.push(String::from_str("build/_start.asm.o"));
        }
        let ghost sources = self.data.sources.deep_view();
        let ghost head = arguments.deep_view();
        assert(head =~= seq!["-o"@, output_path(self.data@.options)] + (if self.data.is_library {
            seq!["-shared"@]
        } else {
            seq!["build/_start.asm.o"@]
        }));
        let mut i: usize = 0;
        assert(object_paths(sources).take(0) =~= Seq::<Seq<char>>::empty());
        assert(head + Seq::<Seq<char>>::empty() =~= head);
        while i < self.data.sources.len()
            invariant
                i <= self.data.sources.len(),
                sources == self.data.sources.deep_view(),
                arguments.deep_view() == head + object_paths(sources).take(i as int),
            decreases self.data.sources.len() - i,
        {
            let ghost before = arguments.deep_view();
            let path = object_file(&self.data.sources[i]);
            arguments.push(path);
            assert(arguments.deep_view() =~= before.push(path@));
            assert(object_paths(sources).take(i + 1) =~= object_paths(sources).take(i as int).push(
                object_path(sources[i as int]),
            ));
            assert(head + object_paths(sources).take(i + 1) =~= (head + object_paths(sources).take(
                i as int,
            )).push(path@));
            i += 1;
        }
        assert(object_paths(sources).take(sources.len() as int) =~= object_paths(sources));
        Effect::Execute { program: String::from_str("ld"), arguments }
    }

    fn finish_one(&mut self, source: &String) -> (effects: Vec<Effect>) {
        let path = assembly_file(source);
        let run = assemble(&path, object_file(source));
        let write = Effect::Write {
            path,
            content: render_file(&self.data.section_text, &self.data.section_data),
        };
        let mut effects: Vec<Effect> = Vec::new();
        effects.push(write);
        effects.push(run);
        assert(effects.deep_view() =~= seq![write@, run@]);
        self.data.section_text = Vec::new();
        self.data.section_data = Vec::new();
        assert(self.data.section_text.deep_view() =~= Seq::<Seq<char>>::empty());
        assert(self.data.section_data.deep_view() =~= Seq::<Seq<char>>::empty());
        effects
    }
}

} // verus!

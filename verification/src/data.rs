//! The state of a build: what is known of the sources, and what has been
//! generated for the file that is being compiled.

use vstd::prelude::*;
use vstd::string::*;
use crate::logger::{Logger, LogView};
use crate::objects::{Function, FunctionView, Variable, VariableView};
use crate::parser::{Parser, ParserView};
use crate::tokens::{Token, TokenView};

verus! {

/// Why an instruction could not be compiled. Each one ends the build.
#[derive(Clone, Copy, Debug, PartialEq, Eq, Structural)]
pub enum Fault {
    /// A literal was needed, and a keyword or the end of the line stood there.
    ExpectedLiteral,
    /// The tokens of a declaration are not `name : type`, with `= value`
    /// behind it where a value is given or needed.
    MalformedDeclaration,
    /// A declaration names a type that does not exist.
    UnknownType,
    /// The locals of one file need more stack than can be counted.
    FrameTooLarge,
    /// A local reached the backend without a slot, or with a slot that starts
    /// below the top of the slots in use.
    NoStackSlot,
}

/// The map that a list of entries stands for, where a later entry replaces an
/// earlier one of the same key.
pub open spec fn map_of<K, V>(entries: Seq<(K, V)>) -> Map<K, V>
    decreases entries.len(),
{
    if entries.len() == 0 {
        Map::empty()
    } else {
        map_of(entries.drop_last()).insert(entries.last().0, entries.last().1)
    }
}

/// Adding an entry at the end is an insertion into the map.
pub proof fn lemma_map_of_push<K, V>(entries: Seq<(K, V)>, key: K, value: V)
    ensures
        map_of(entries.push((key, value))) == map_of(entries).insert(key, value),
{
    assert(entries.push((key, value)).drop_last() =~= entries);
}

/// Entries behind position `i` that do not hold `key` do not matter to what
/// the map holds under `key`.
proof fn lemma_map_of_skip<K, V>(entries: Seq<(K, V)>, i: int, key: K)
    requires
        0 <= i <= entries.len(),
        forall|j: int| i <= j < entries.len() ==> (#[trigger] entries[j]).0 != key,
    ensures
        map_of(entries).contains_key(key) == map_of(entries.take(i)).contains_key(key),
        map_of(entries).contains_key(key) ==> map_of(entries)[key] == map_of(entries.take(i))[key],
    decreases entries.len() - i,
{
    if i == entries.len() {
        assert(entries.take(i) =~= entries);
    } else {
        let front = entries.drop_last();
        assert(entries.last() == entries[entries.len() - 1]);
        assert forall|j: int| i <= j < front.len() implies (#[trigger] front[j]).0 != key by {
            assert(front[j] == entries[j]);
        }
        lemma_map_of_skip(front, i, key);
        assert(front.take(i) =~= entries.take(i));
    }
}

/// The variables of one file, by identifier. Declaring an identifier again
/// replaces what was declared under it.
#[derive(Debug)]
pub struct VariableTable {
    entries: Vec<Variable>,
}

/// A list of variables as entries of a map, each under its identifier.
pub open spec fn by_id(variables: Seq<VariableView>) -> Seq<(Seq<char>, VariableView)> {
    variables.map_values(|variable: VariableView| (variable.id, variable))
}

impl View for VariableTable {
    type V = Map<Seq<char>, VariableView>;

    closed spec fn view(&self) -> Map<Seq<char>, VariableView> {
        map_of(by_id(self.entries.deep_view()))
    }
}

impl VariableTable {
    /// A table that holds nothing.
    pub fn new() -> (table: Self)
        ensures
            table@ == Map::<Seq<char>, VariableView>::empty(),
    {
        let table = VariableTable { entries: Vec::new() };
        assert(by_id(table.entries.deep_view()) =~= Seq::empty());
        table
    }

    /// Puts the variable under its identifier; the last declaration of an
    /// identifier is the one that the table holds.
    pub fn insert(&mut self, variable: Variable)
        ensures
            final(self)@ == old(self)@.insert(variable@.id, variable@),
    {
        let ghost before = by_id(self.entries.deep_view());
        self.entries.push(variable);
        proof {
            assert(by_id(self.entries.deep_view()) =~= before.push((variable@.id, variable@)));
            lemma_map_of_push(before, variable@.id, variable@);
        }
    }

    /// The variable that the table holds under the identifier.
    pub fn get(&self, id: &String) -> (found: Option<&Variable>)
        ensures
            found is Some == self@.contains_key(id@),
            found matches Some(variable) ==> variable@ == self@[id@],
    {
        let mut i: usize = self.entries.len();
        let ghost all = by_id(self.entries.deep_view());
        while i > 0
            invariant
                i <= self.entries.len(),
                all == by_id(self.entries.deep_view()),
                forall|j: int| i <= j < all.len() ==> (#[trigger] all[j]).0 != id@,
            decreases i,
        {
            i -= 1;
            if *self.entries[i].id() == *id {
                proof {
                    lemma_map_of_skip(all, i + 1, id@);
                    assert(all.take(i + 1).drop_last() =~= all.take(i as int));
                    assert(all.take(i + 1).last() == all[i as int]);
                }
                return Some(&self.entries[i]);
            }
        }
        proof {
            lemma_map_of_skip(all, 0, id@);
            assert(all.take(0) =~= Seq::empty());
        }
        None
    }
}

/// The options of a build: the value given with each flag.
#[derive(Debug)]
pub struct Options {
    entries: Vec<(char, String)>,
}

/// The entries of an option list as they stand in contracts.
pub open spec fn flags_of(entries: Seq<(char, String)>) -> Seq<(char, Seq<char>)> {
    entries.map_values(|entry: (char, String)| (entry.0, entry.1@))
}

impl View for Options {
    type V = Map<char, Seq<char>>;

    closed spec fn view(&self) -> Map<char, Seq<char>> {
        map_of(flags_of(self.entries@))
    }
}

impl Clone for Options {
    fn clone(&self) -> (copy: Options)
        ensures
            copy@ == self@,
    {
        let mut entries: Vec<(char, String)> = Vec::new();
        let mut i: usize = 0;
        while i < self.entries.len()
            invariant
                i <= self.entries.len(),
                flags_of(entries@) == flags_of(self.entries@).take(i as int),
            decreases self.entries.len() - i,
        {
            let ghost before = entries@;
            let value = self.entries[i].1.clone();
            entries.push((self.entries[i].0, value));
            assert(flags_of(entries@) =~= flags_of(before).push(flags_of(self.entries@)[i as int]));
            assert(flags_of(self.entries@).take(i + 1) =~= flags_of(self.entries@).take(i as int).push(
                flags_of(self.entries@)[i as int],
            ));
            i += 1;
        }
        assert(flags_of(self.entries@).take(self.entries.len() as int) =~= flags_of(self.entries@));
        Options { entries }
    }
}

impl Options {
    /// No flag is set.
    pub fn new() -> (options: Self)
        ensures
            options@ == Map::<char, Seq<char>>::empty(),
    {
        let options = Options { entries: Vec::new() };
        assert(flags_of(options.entries@) =~= Seq::empty());
        options
    }

    /// Sets a flag to a value; a flag that is set again takes the new value.
    pub fn set(&mut self, flag: char, value: String)
        ensures
            final(self)@ == old(self)@.insert(flag, value@),
    {
        let ghost before = flags_of(self.entries@);
        self.entries.push((flag, value));
        proof {
            assert(flags_of(self.entries@) =~= before.push((flag, value@)));
            lemma_map_of_push(before, flag, value@);
        }
    }

    /// The value that a flag is set to.
    pub fn get(&self, flag: char) -> (found: Option<&String>)
        ensures
            found is Some == self@.contains_key(flag),
            found matches Some(value) ==> value@ == self@[flag],
    {
        let mut i: usize = self.entries.len();
        let ghost all = flags_of(self.entries@);
        while i > 0
            invariant
                i <= self.entries.len(),
                all == flags_of(self.entries@),
                forall|j: int| i <= j < all.len() ==> (#[trigger] all[j]).0 != flag,
            decreases i,
        {
            i -= 1;
            if self.entries[i].0 == flag {
                proof {
                    lemma_map_of_skip(all, i + 1, flag);
                    assert(all.take(i + 1).drop_last() =~= all.take(i as int));
                    assert(all.take(i + 1).last() == all[i as int]);
                }
                return Some(&self.entries[i].1);
            }
        }
        proof {
            lemma_map_of_skip(all, 0, flag);
            assert(all.take(0) =~= Seq::empty());
        }
        None
    }
}

/// The state of a build. Sources, options and diagnostics last for the whole
/// build; the parser, the scope, the variables, the stack offset, the functions
/// and the two section buffers belong to the file that is being compiled.
#[derive(Debug)]
pub struct CompilerData {
    /// Whether the build makes a shared library instead of a program.
    pub is_library: bool,
    /// The paths of the sources, in the order in which they are compiled.
    pub sources: Vec<String>,
    /// The options that the build was started with.
    pub options: Options,
    /// The index of the source that is compiled next.
    pub next_source: usize,
    /// The diagnostics of the files compiled so far.
    pub logger: Logger,
    /// The lexer of the current file.
    pub parser: Option<Parser>,
    /// The path of the assembly file of the current file.
    pub current_source: String,
    /// The names that enclose the code being compiled, outermost first.
    pub current_scope: Vec<String>,
    /// The line under dispatch.
    pub current_line: Vec<Token>,
    /// The token under dispatch.
    pub current_token: Token,
    /// The locals declared in the current file.
    pub variable_stack: VariableTable,
    /// The number of bytes of stack that the locals of the current file take.
    pub i_variable_stack: usize,
    /// The functions declared in the current file.
    pub functions: Vec<Function>,
    /// The lines generated for the text section of the current file.
    pub section_text: Vec<String>,
    /// The lines generated for the data section of the current file.
    pub section_data: Vec<String>,
}

/// What a [`CompilerData`] is in contracts.
pub struct CompilerDataView {
    pub is_library: bool,
    pub sources: Seq<Seq<char>>,
    pub options: Map<char, Seq<char>>,
    pub next_source: nat,
    pub logs: Seq<LogView>,
    pub parser: Option<ParserView>,
    pub current_source: Seq<char>,
    pub scope: Seq<Seq<char>>,
    pub line: Seq<TokenView>,
    pub token: TokenView,
    pub variables: Map<Seq<char>, VariableView>,
    pub offset: nat,
    pub functions: Seq<FunctionView>,
    pub text: Seq<Seq<char>>,
    pub data: Seq<Seq<char>>,
}

impl View for CompilerData {
    type V = CompilerDataView;

    open spec fn view(&self) -> CompilerDataView {
        CompilerDataView {
            is_library: self.is_library,
            sources: self.sources.deep_view(),
            options: self.options@,
            next_source: self.next_source as nat,
            logs: self.logger@,
            parser: match self.parser {
                Some(parser) => Some(parser@),
                None => None,
            },
            current_source: self.current_source@,
            scope: self.current_scope.deep_view(),
            line: self.current_line.deep_view(),
            token: self.current_token@,
            variables: self.variable_stack@,
            offset: self.i_variable_stack as nat,
            functions: self.functions.deep_view(),
            text: self.section_text.deep_view(),
            data: self.section_data.deep_view(),
        }
    }
}

/// The state in which a build starts: nothing compiled, nothing generated.
pub open spec fn fresh(
    sources: Seq<Seq<char>>,
    options: Map<char, Seq<char>>,
    is_library: bool,
) -> CompilerDataView {
    CompilerDataView {
        is_library,
        sources,
        options,
        next_source: 0,
        logs: Seq::empty(),
        parser: None,
        current_source: Seq::empty(),
        scope: Seq::empty(),
        line: Seq::empty(),
        token: TokenView::Nothing,
        variables: Map::empty(),
        offset: 0,
        functions: Seq::empty(),
        text: Seq::empty(),
        data: Seq::empty(),
    }
}

impl CompilerData {
    /// The state in which a build of the given sources starts.
    pub fn new(sources: Vec<String>, options: Options, is_library: bool) -> (data: Self)
        ensures
            data@ == fresh(sources.deep_view(), options@, is_library),
    {
        let data = CompilerData {
            is_library,
            sources,
            options,
            next_source: 0,
            logger: Logger::new(),
            parser: None,
            current_source: String::new(),
            current_scope: Vec::new(),
            current_line: Vec::new(),
            current_token: Token::Nothing,
            variable_stack: VariableTable::new(),
            i_variable_stack: 0,
            functions: Vec::new(),
            section_text: Vec::new(),
            section_data: Vec::new(),
        };
        assert(data.current_scope.deep_view() =~= Seq::<Seq<char>>::empty());
        assert(data.current_line.deep_view() =~= Seq::<TokenView>::empty());
        assert(data.functions.deep_view() =~= Seq::<FunctionView>::empty());
        assert(data.section_text.deep_view() =~= Seq::<Seq<char>>::empty());
        assert(data.section_data.deep_view() =~= Seq::<Seq<char>>::empty());
        data
    }
}

} // verus!

//! What the outside symbols of a shape mean to the machine.
//!
//! A shape refers to symbols of the program it was made for: functions
//! that it calls, and variables that it reads and writes. A table says
//! for each name what the machine is to map at the address of the symbol.

use super::interp::Interpreter;
use super::machine::MachineView;
use super::memory::{MappingView, RegionView};
use vstd::prelude::*;

verus! {

/// What a symbol is to the machine.
pub enum SymbolKind {
    /// A function: a trampoline that takes so many words from the stack.
    Trampoline(usize),
    /// A variable that is only read: a constant word.
    Constant(u32),
    /// A variable that is read and written: a buffer that starts with
    /// these bytes.
    Writable(Vec<u8>),
}

/// What a symbol is to the machine, as a value of specifications.
pub enum SymbolKindView {
    Trampoline(usize),
    Constant(u32),
    Writable(Seq<u8>),
}

impl View for SymbolKind {
    type V = SymbolKindView;

    open spec fn view(&self) -> SymbolKindView {
        match self {
            SymbolKind::Trampoline(arity) => SymbolKindView::Trampoline(*arity),
            SymbolKind::Constant(v) => SymbolKindView::Constant(*v),
            SymbolKind::Writable(bytes) => SymbolKindView::Writable(bytes@),
        }
    }
}

/// A name and what it means.
pub struct Symbol {
    pub name: String,
    pub kind: SymbolKind,
}

impl View for Symbol {
    type V = (Seq<char>, SymbolKindView);

    open spec fn view(&self) -> (Seq<char>, SymbolKindView) {
        (self.name@, self.kind@)
    }
}

/// The meanings of the symbols. A name that is registered again has its
/// last meaning.
pub struct SymbolTable {
    pub symbols: Vec<Symbol>,
}

impl View for SymbolTable {
    type V = Seq<(Seq<char>, SymbolKindView)>;

    open spec fn view(&self) -> Seq<(Seq<char>, SymbolKindView)> {
        self.symbols@.map_values(|s: Symbol| s@)
    }
}

/// The index of the last of the first `n` entries with the name `name`.
pub open spec fn spec_lookup(
    table: Seq<(Seq<char>, SymbolKindView)>,
    name: Seq<char>,
    n: int,
) -> Option<int>
    decreases n,
{
    if n <= 0 {
        None
    } else if table[n - 1].0 == name {
        Some(n - 1)
    } else {
        spec_lookup(table, name, n - 1)
    }
}

/// What the machine maps for a symbol of the kind `kind` with the name
/// `name`.
pub open spec fn spec_region(name: Seq<char>, kind: SymbolKindView) -> RegionView {
    match kind {
        SymbolKindView::Trampoline(arity) => RegionView::Trampoline(name, arity),
        SymbolKindView::Constant(v) => RegionView::Constant(v),
        SymbolKindView::Writable(bytes) => RegionView::Writable(bytes),
    }
}

impl SymbolTable {
    /// A table without entries.
    pub fn new() -> (r: Self)
        ensures
            r@ == Seq::<(Seq<char>, SymbolKindView)>::empty(),
    {
        let r = SymbolTable { symbols: Vec::new() };
        assert(r@ =~= Seq::<(Seq<char>, SymbolKindView)>::empty());
        r
    }

    /// Gives the name `name` the meaning `kind`.
    pub fn register(&mut self, name: &str, kind: SymbolKind)
        ensures
            final(self)@ == old(self)@.push((name@, kind@)),
    {
        self.symbols.push(Symbol { name: name.to_owned(), kind });
        assert(self@ =~= old(self)@.push((name@, kind@)));
    }

    /// The index of the entry that gives `name` its meaning: the last
    /// with that name.
    pub fn lookup(&self, name: &str) -> (r: Option<usize>)
        ensures
            r matches Some(i) ==> i < self.symbols@.len() && spec_lookup(
                self@,
                name@,
                self@.len() as int,
            ) == Some(i as int),
            r is None ==> spec_lookup(self@, name@, self@.len() as int) is None,
    {
        let wanted: String = name.to_owned();
        let mut n: usize = self.symbols.len();
        while n > 0
            invariant
                n <= self.symbols@.len(),
                wanted@ == name@,
                spec_lookup(self@, name@, n as int) == spec_lookup(
                    self@,
                    name@,
                    self@.len() as int,
                ),
            decreases n,
        {
            assert(self@[n - 1] == self.symbols@[n - 1]@);
            if self.symbols[n - 1].name == wanted {
                return Some(n - 1);
            }
            n -= 1;
        }
        None
    }
}

impl Interpreter {
    /// Maps at `address` what `table` says the symbol `name` is: a
    /// trampoline with that name, a constant, or a buffer. Maps nothing,
    /// and returns `false`, where the table does not know the name.
    pub fn bind(&mut self, address: u32, name: &str, table: &SymbolTable) -> (r: bool)
        ensures
            final(self).code == old(self).code,
            match spec_lookup(table@, name@, table@.len() as int) {
                Some(i) => r && final(self)@ == (MachineView {
                    memory: old(self)@.memory.push(
                        MappingView { address, region: spec_region(name@, table@[i].1) },
                    ),
                    ..old(self)@
                }),
                None => !r && final(self)@ == old(self)@,
            },
    {
        match table.lookup(name) {
            None => false,
            Some(i) => {
                assert(table@[i as int] == table.symbols@[i as int]@);
                match &table.symbols[i].kind {
                    SymbolKind::Trampoline(arity) => {
                        self.add_trampoline(address, name, *arity);
                    },
                    SymbolKind::Constant(v) => {
                        self.map_value(address, *v);
                    },
                    SymbolKind::Writable(bytes) => {
                        self.map_writable(address, vstd::slice::slice_to_vec(bytes.as_slice()));
                    },
                }
                true
            },
        }
    }
}

} // verus!

//! The symbol table: the single source of truth mapping program symbol names
//! to addresses and type-graph references, together with the debug-information
//! bundle handed to the update engine.

use vstd::prelude::*;
use crate::typegraph::TypeGraph;

verus! {

/// One symbol of the compiled program: its name, absolute address, and the
/// handle of its type in the type graph.
pub struct SymbolEntry {
    pub name: String,
    pub address: u64,
    pub typeref: usize,
}

/// Maps program symbol names to (address, type handle). Built once from debug
/// information and read-only for the lifetime of the update engine.
pub struct SymbolTable {
    pub entries: Vec<SymbolEntry>,
}

/// First entry whose name equals `name`, searched front to back.
pub open spec fn spec_find(entries: Seq<SymbolEntry>, name: Seq<char>) -> Option<SymbolEntry>
    decreases entries.len(),
{
    if entries.len() == 0 {
        None
    } else if entries[0].name@ == name {
        Some(entries[0])
    } else {
        spec_find(entries.drop_first(), name)
    }
}

impl SymbolTable {
    /// Every entry's type handle points inside a type graph of `type_count`
    /// nodes.
    pub open spec fn wf(&self, type_count: nat) -> bool {
        forall|i: int|
            0 <= i < self.entries@.len() ==> (#[trigger] self.entries@[i]).typeref < type_count
    }

    /// Look a symbol name up; returns its address and type handle.
    pub fn find(&self, name: &String) -> (r: Option<(u64, usize)>)
        ensures
            match spec_find(self.entries@, name@) {
                Some(e) => r == Some((e.address, e.typeref)),
                None => r is None,
            },
    {
        let mut i: usize = 0;
        proof {
            assert(self.entries@.skip(0) =~= self.entries@);
        }
        while i < self.entries.len()
            invariant
                i <= self.entries@.len(),
                spec_find(self.entries@, name@) == spec_find(self.entries@.skip(i as int), name@),
            decreases self.entries@.len() - i,
        {
            if self.entries[i].name == *name {
                proof {
                    assert(self.entries@.skip(i as int)[0] == self.entries@[i as int]);
                }
                let e = &self.entries[i];
                return Some((e.address, e.typeref));
            }
            proof {
                assert(self.entries@.skip(i as int).drop_first() =~= self.entries@.skip(
                    i as int + 1,
                ));
            }
            i += 1;
        }
        None
    }

    /// The number of discoverable symbols.
    pub fn count(&self) -> (n: usize)
        ensures
            n == self.entries@.len(),
    {
        self.entries.len()
    }
}

/// A found entry really is one of the table's entries, under the searched
/// name.
pub proof fn lemma_find_is_entry(entries: Seq<SymbolEntry>, name: Seq<char>)
    ensures
        match spec_find(entries, name) {
            Some(e) => exists|i: int|
                0 <= i < entries.len() && entries[i] == e && e.name@ == name,
            None => true,
        },
    decreases entries.len(),
{
    if entries.len() > 0 {
        if entries[0].name@ == name {
        } else {
            lemma_find_is_entry(entries.drop_first(), name);
            match spec_find(entries.drop_first(), name) {
                Some(e) => {
                    let i = choose|i: int|
                        0 <= i < entries.drop_first().len() && entries.drop_first()[i] == e
                            && e.name@ == name;
                    assert(entries[i + 1] == e);
                },
                None => {},
            }
        }
    }
}

/// Debug information extracted from a compiled program: the shared type graph
/// and the symbol table referencing into it. Immutable for the run.
pub struct DebugInfo {
    pub types: TypeGraph,
    pub symbols: SymbolTable,
}

impl DebugInfo {
    pub open spec fn wf(&self) -> bool {
        &&& self.types.wf()
        &&& self.symbols.wf(self.types.nodes@.len())
    }
}

} // verus!

//! The symbol resolver: from an object's declared name, optional explicit
//! link override and embedded metadata claims, produce the canonical
//! (name, address, type) triple, or collect every diagnostic for the object.

use vstd::prelude::*;
use crate::objects::{blocks_model, link_model, BlockModel, MetadataBlock, ObjectKind};
use crate::symbols::{spec_find, SymbolEntry, SymbolTable};

verus! {

/// What went wrong for one object, as structured data; rendering to text is
/// the caller's business.
#[derive(Debug)]
pub enum DiagnosticInfo {
    /// The looked-up name is absent from the symbol table.
    SymbolNotFound { symbol: String },
    /// An embedded metadata block claims an address for a symbol that
    /// disagrees with the debug information.
    MetadataMismatch { symbol: String, claimed: u64, actual: u64 },
    /// An instance object's type-template reference names no known template.
    UnknownTypeRef { type_ref: String },
}

#[verifier::ext_equal]
pub ghost enum InfoModel {
    SymbolNotFound { symbol: Seq<char> },
    MetadataMismatch { symbol: Seq<char>, claimed: u64, actual: u64 },
    UnknownTypeRef { type_ref: Seq<char> },
}

impl View for DiagnosticInfo {
    type V = InfoModel;

    open spec fn view(&self) -> InfoModel {
        match self {
            DiagnosticInfo::SymbolNotFound { symbol } => InfoModel::SymbolNotFound {
                symbol: symbol@,
            },
            DiagnosticInfo::MetadataMismatch { symbol, claimed, actual } => InfoModel::MetadataMismatch {
                symbol: symbol@,
                claimed: *claimed,
                actual: *actual,
            },
            DiagnosticInfo::UnknownTypeRef { type_ref } => InfoModel::UnknownTypeRef {
                type_ref: type_ref@,
            },
        }
    }
}

/// One logged diagnostic: what happened, on which object kind, at which
/// source line of the object.
#[derive(Debug)]
pub struct Diagnostic {
    pub kind: ObjectKind,
    pub line: u32,
    pub info: DiagnosticInfo,
}

#[verifier::ext_equal]
pub ghost struct DiagModel {
    pub kind: ObjectKind,
    pub line: u32,
    pub info: InfoModel,
}

impl View for Diagnostic {
    type V = DiagModel;

    open spec fn view(&self) -> DiagModel {
        DiagModel { kind: self.kind, line: self.line, info: self.info@ }
    }
}

/// A successfully resolved symbol: the canonical name actually found, its
/// absolute address, and its type-graph handle.
#[derive(Debug)]
pub struct ResolvedSymbol {
    pub name: String,
    pub address: u64,
    pub typeref: usize,
}

/// The lookup key: the explicit override if present and non-empty, else the
/// declared name.
pub open spec fn spec_key(name: Seq<char>, link: Option<Seq<char>>) -> Seq<char> {
    match link {
        Some(l) => if l.len() > 0 {
            l
        } else {
            name
        },
        None => name,
    }
}

/// The metadata-mismatch diagnostics contributed by the blocks, in block
/// order: one for each symbol claim that the debug information contradicts.
pub open spec fn spec_hint_errors(tab: Seq<SymbolEntry>, blocks: Seq<BlockModel>) -> Seq<
    InfoModel,
>
    decreases blocks.len(),
{
    if blocks.len() == 0 {
        Seq::empty()
    } else {
        let prev = spec_hint_errors(tab, blocks.drop_last());
        match blocks.last().hint {
            Some(h) => match spec_find(tab, h.symbol) {
                Some(e) => if e.address != h.address {
                    prev.push(
                        InfoModel::MetadataMismatch {
                            symbol: h.symbol,
                            claimed: h.address,
                            actual: e.address,
                        },
                    )
                } else {
                    prev
                },
                None => prev,
            },
            None => prev,
        }
    }
}

/// Resolution succeeds exactly when the key is in the symbol table and no
/// embedded metadata claim contradicts the debug information.
pub open spec fn spec_resolve_ok(
    tab: Seq<SymbolEntry>,
    name: Seq<char>,
    link: Option<Seq<char>>,
    blocks: Seq<BlockModel>,
) -> bool {
    &&& spec_find(tab, spec_key(name, link)) is Some
    &&& spec_hint_errors(tab, blocks).len() == 0
}

/// All diagnostics for a failed resolution, in order: the missing key first
/// (if it is missing), then the metadata mismatches in block order.
pub open spec fn spec_resolve_errors(
    tab: Seq<SymbolEntry>,
    name: Seq<char>,
    link: Option<Seq<char>>,
    blocks: Seq<BlockModel>,
) -> Seq<InfoModel> {
    let base: Seq<InfoModel> = if spec_find(tab, spec_key(name, link)) is Some {
        Seq::empty()
    } else {
        seq![InfoModel::SymbolNotFound { symbol: spec_key(name, link) }]
    };
    base + spec_hint_errors(tab, blocks)
}

/// Resolve an object's symbol. Pure: the caller writes the canonical name
/// back into the object. On failure every diagnostic is collected, not just
/// the first.
pub fn resolve(
    name: &String,
    symbol_link: &Option<String>,
    if_data: &Vec<MetadataBlock>,
    table: &SymbolTable,
) -> (r: Result<ResolvedSymbol, Vec<DiagnosticInfo>>)
    ensures
        ({
            let tab = table.entries@;
            let key = spec_key(name@, link_model(*symbol_link));
            let blocks = blocks_model(if_data@);
            match r {
                Ok(s) => {
                    &&& spec_resolve_ok(tab, name@, link_model(*symbol_link), blocks)
                    &&& s.name@ == key
                    &&& match spec_find(tab, key) {
                        Some(e) => s.address == e.address && s.typeref == e.typeref,
                        None => false,
                    }
                },
                Err(errs) => {
                    &&& !spec_resolve_ok(tab, name@, link_model(*symbol_link), blocks)
                    &&& errs@.map_values(|d: DiagnosticInfo| d@) == spec_resolve_errors(
                        tab,
                        name@,
                        link_model(*symbol_link),
                        blocks,
                    )
                },
            }
        }),
{
    let ghost tab = table.entries@;
    let ghost blocks = blocks_model(if_data@);
    let key: &String;
    match symbol_link {
        Some(l) => {
            if l.as_str().is_empty() {
                key = name;
            } else {
                key = l;
            }
        },
        None => {
            key = name;
        },
    }
    assert(key@ == spec_key(name@, link_model(*symbol_link)));

    let mut errs: Vec<DiagnosticInfo> = Vec::new();
    let mut i: usize = 0;
    proof {
        assert(blocks.take(0) =~= Seq::<BlockModel>::empty());
    }
    while i < if_data.len()
        invariant
            i <= if_data@.len(),
            tab == table.entries@,
            blocks == blocks_model(if_data@),
            errs@.map_values(|d: DiagnosticInfo| d@) == spec_hint_errors(tab, blocks.take(i as int)),
        decreases if_data@.len() - i,
    {
        proof {
            assert(blocks.take(i + 1).drop_last() =~= blocks.take(i as int));
            assert(blocks.take(i + 1).last() == if_data@[i as int]@);
        }
        match &if_data[i].hint {
            Some(h) => {
                match table.find(&h.symbol) {
                    Some((addr, _tyref)) => {
                        if addr != h.address {
                            errs.push(
                                DiagnosticInfo::MetadataMismatch {
                                    symbol: h.symbol.clone(),
                                    claimed: h.address,
                                    actual: addr,
                                },
                            );
                            proof {
                                assert(errs@.map_values(|d: DiagnosticInfo| d@) =~= errs@.drop_last().map_values(
                                    |d: DiagnosticInfo| d@,
                                ).push(errs@.last()@));
                            }
                        }
                    },
                    None => {},
                }
            },
            None => {},
        }
        i += 1;
    }
    proof {
        assert(blocks.take(if_data@.len() as int) =~= blocks);
    }

    match table.find(key) {
        Some((addr, tyref)) => {
            if errs.len() == 0 {
                proof {
                    assert(spec_hint_errors(tab, blocks).len() == errs@.map_values(
                        |d: DiagnosticInfo| d@,
                    ).len());
                }
                Ok(ResolvedSymbol { name: key.clone(), address: addr, typeref: tyref })
            } else {
                proof {
                    assert(Seq::<InfoModel>::empty() + spec_hint_errors(tab, blocks)
                        =~= spec_hint_errors(tab, blocks));
                }
                Err(errs)
            }
        },
        None => {
            let mut out: Vec<DiagnosticInfo> = Vec::new();
            out.push(DiagnosticInfo::SymbolNotFound { symbol: key.clone() });
            out.append(&mut errs);
            proof {
                assert(out@.map_values(|d: DiagnosticInfo| d@) =~= seq![
                    InfoModel::SymbolNotFound { symbol: key@ },
                ] + spec_hint_errors(tab, blocks));
            }
            Err(out)
        },
    }
}

} // verus!

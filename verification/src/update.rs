//! The per-kind update procedure and the module-level update engine: resolve
//! every object's symbol, rewrite the survivors, collect removals, counts,
//! diagnostics and the typedef reference ledger, and finish with the
//! cascading cleanup.

use vstd::prelude::*;
use crate::cleanup::{cleanup_module, spec_cleanup_module, RemovedModel, RemovedSet};
use crate::objects::{
    name_in, names_model, objs_model, BlockModel, CalObject, MetadataBlock, Module, ModuleModel,
    ObjModel, ObjectKind, SymHint,
};
use crate::resolve::{
    resolve, spec_key, spec_resolve_errors, spec_resolve_ok, DiagModel, Diagnostic,
    DiagnosticInfo, InfoModel,
};
use crate::symbols::{lemma_find_is_entry, spec_find, DebugInfo, SymbolEntry};
use crate::typegraph::{spec_normalize, TypeNode};

verus! {

/// One typedef-reference ledger entry: a surviving instance object bound to
/// the template named `template`, whose normalized leaf type (if resolution
/// succeeded) is `leaf`, standing at `position` in the survivors collection.
pub struct LedgerEntry {
    pub template: String,
    pub leaf: Option<usize>,
    pub position: usize,
}

#[verifier::ext_equal]
pub ghost struct LedgerModel {
    pub template: Seq<char>,
    pub leaf: Option<usize>,
    pub position: int,
}

impl View for LedgerEntry {
    type V = LedgerModel;

    open spec fn view(&self) -> LedgerModel {
        LedgerModel { template: self.template@, leaf: self.leaf, position: self.position as int }
    }
}

/// Model of a per-kind update outcome.
#[verifier::ext_equal]
pub ghost struct KindOutModel {
    pub survivors: Seq<ObjModel>,
    pub removed: Seq<Seq<char>>,
    pub updated: int,
    pub not_updated: int,
    pub diags: Seq<DiagModel>,
    pub ledger: Seq<LedgerModel>,
}

/// Every block keeps its claim, its address field is set to `a`.
pub open spec fn spec_patch_blocks(bs: Seq<BlockModel>, a: u32) -> Seq<BlockModel> {
    bs.map_values(|b: BlockModel| BlockModel { address: a, hint: b.hint })
}

/// A preserved-but-unresolved object: address zeroed, every embedded
/// metadata address neutralized, everything else untouched.
pub open spec fn spec_neutralized(m: ObjModel) -> ObjModel {
    ObjModel {
        name: m.name,
        symbol_link: m.symbol_link,
        address: 0,
        address_class: m.address_class,
        dimensions: m.dimensions,
        if_data: spec_patch_blocks(m.if_data, 0),
        type_ref: m.type_ref,
        line: m.line,
    }
}

/// A successfully updated object: canonical link written, address taken from
/// the symbol table (narrowed to the 32-bit address field), address class and
/// dimensions from the normalization policy, embedded metadata addresses
/// patched.
pub open spec fn spec_updated_obj(m: ObjModel, e: SymbolEntry, nodes: Seq<TypeNode>) -> ObjModel {
    let norm = spec_normalize(nodes, e.typeref);
    ObjModel {
        name: m.name,
        symbol_link: Some(spec_key(m.name, m.symbol_link)),
        address: e.address as u32,
        address_class: norm.addr_class,
        dimensions: norm.dims,
        if_data: spec_patch_blocks(m.if_data, e.address as u32),
        type_ref: m.type_ref,
        line: m.line,
    }
}

/// The object after rewriting, assuming its key is in the table.
pub open spec fn spec_rewrite(m: ObjModel, tab: Seq<SymbolEntry>, nodes: Seq<TypeNode>) -> ObjModel {
    match spec_find(tab, spec_key(m.name, m.symbol_link)) {
        Some(e) => spec_updated_obj(m, e, nodes),
        None => m,
    }
}

/// The normalized leaf type of the object's resolved symbol.
pub open spec fn spec_leaf_of(m: ObjModel, tab: Seq<SymbolEntry>, nodes: Seq<TypeNode>) -> Option<
    usize,
> {
    match spec_find(tab, spec_key(m.name, m.symbol_link)) {
        Some(e) => Some(spec_normalize(nodes, e.typeref).leaf),
        None => None,
    }
}

/// An object is updated when its symbol resolves and, for the instance kind,
/// its type-template reference names a known template.
pub open spec fn spec_object_ok(
    m: ObjModel,
    tab: Seq<SymbolEntry>,
    kind: ObjectKind,
    templates: Seq<Seq<char>>,
) -> bool {
    &&& spec_resolve_ok(tab, m.name, m.symbol_link, m.if_data)
    &&& (kind == ObjectKind::Instance ==> name_in(templates, m.type_ref))
}

/// The failure diagnostics for one object: the resolver's, or the
/// template-validity diagnostic where the symbol itself resolved.
pub open spec fn spec_fail_infos(
    m: ObjModel,
    tab: Seq<SymbolEntry>,
) -> Seq<InfoModel> {
    if !spec_resolve_ok(tab, m.name, m.symbol_link, m.if_data) {
        spec_resolve_errors(tab, m.name, m.symbol_link, m.if_data)
    } else {
        seq![InfoModel::UnknownTypeRef { type_ref: m.type_ref }]
    }
}

/// Diagnostics tagged with the object kind and source line.
pub open spec fn wrap_infos(infos: Seq<InfoModel>, kind: ObjectKind, line: u32) -> Seq<DiagModel> {
    infos.map_values(|i: InfoModel| DiagModel { kind, line, info: i })
}

pub open spec fn spec_fail_diags(
    m: ObjModel,
    tab: Seq<SymbolEntry>,
    kind: ObjectKind,
) -> Seq<DiagModel> {
    wrap_infos(spec_fail_infos(m, tab), kind, m.line)
}

pub open spec fn spec_empty_out() -> KindOutModel {
    KindOutModel {
        survivors: Seq::empty(),
        removed: Seq::empty(),
        updated: 0,
        not_updated: 0,
        diags: Seq::empty(),
        ledger: Seq::empty(),
    }
}

/// One object folded into the outcome, per the update policy.
pub open spec fn spec_step(
    acc: KindOutModel,
    m: ObjModel,
    tab: Seq<SymbolEntry>,
    nodes: Seq<TypeNode>,
    kind: ObjectKind,
    preserve: bool,
    templates: Seq<Seq<char>>,
) -> KindOutModel {
    if spec_object_ok(m, tab, kind, templates) {
        KindOutModel {
            survivors: acc.survivors.push(spec_rewrite(m, tab, nodes)),
            removed: acc.removed,
            updated: acc.updated + 1,
            not_updated: acc.not_updated,
            diags: acc.diags,
            ledger: if kind == ObjectKind::Instance {
                acc.ledger.push(
                    LedgerModel {
                        template: m.type_ref,
                        leaf: spec_leaf_of(m, tab, nodes),
                        position: acc.survivors.len() as int,
                    },
                )
            } else {
                acc.ledger
            },
        }
    } else if preserve {
        KindOutModel {
            survivors: acc.survivors.push(spec_neutralized(m)),
            removed: acc.removed,
            updated: acc.updated,
            not_updated: acc.not_updated + 1,
            diags: acc.diags + spec_fail_diags(m, tab, kind),
            ledger: if kind == ObjectKind::Instance {
                acc.ledger.push(
                    LedgerModel {
                        template: m.type_ref,
                        leaf: None,
                        position: acc.survivors.len() as int,
                    },
                )
            } else {
                acc.ledger
            },
        }
    } else {
        KindOutModel {
            survivors: acc.survivors,
            removed: acc.removed.push(m.name),
            updated: acc.updated,
            not_updated: acc.not_updated + 1,
            diags: acc.diags + spec_fail_diags(m, tab, kind),
            ledger: acc.ledger,
        }
    }
}

/// The whole per-kind update, objects processed in original order.
pub open spec fn spec_process(
    objs: Seq<ObjModel>,
    tab: Seq<SymbolEntry>,
    nodes: Seq<TypeNode>,
    kind: ObjectKind,
    preserve: bool,
    templates: Seq<Seq<char>>,
) -> KindOutModel
    decreases objs.len(),
{
    if objs.len() == 0 {
        spec_empty_out()
    } else {
        spec_step(
            spec_process(objs.drop_last(), tab, nodes, kind, preserve, templates),
            objs.last(),
            tab,
            nodes,
            kind,
            preserve,
            templates,
        )
    }
}

fn patch_blocks(src: &Vec<MetadataBlock>, addr: u32) -> (r: Vec<MetadataBlock>)
    ensures
        r@.map_values(|b: MetadataBlock| b@) == spec_patch_blocks(
            src@.map_values(|b: MetadataBlock| b@),
            addr,
        ),
{
    let mut out: Vec<MetadataBlock> = Vec::new();
    let mut i: usize = 0;
    while i < src.len()
        invariant
            i <= src@.len(),
            out@.len() == i,
            forall|j: int|
                0 <= j < i ==> (#[trigger] out@[j])@ == (BlockModel {
                    address: addr,
                    hint: src@[j]@.hint,
                }),
        decreases src@.len() - i,
    {
        let hint = match &src[i].hint {
            Some(h) => Some(SymHint { symbol: h.symbol.clone(), address: h.address }),
            None => None,
        };
        out.push(MetadataBlock { address: addr, hint });
        i += 1;
    }
    proof {
        assert(out@.map_values(|b: MetadataBlock| b@) =~= spec_patch_blocks(
            src@.map_values(|b: MetadataBlock| b@),
            addr,
        ));
    }
    out
}

fn clone_opt_string(s: &Option<String>) -> (r: Option<String>)
    ensures
        crate::objects::link_model(r) == crate::objects::link_model(*s),
{
    match s {
        Some(l) => Some(l.clone()),
        None => None,
    }
}

fn clone_opt_dims(d: &Option<Vec<u16>>) -> (r: Option<Vec<u16>>)
    ensures
        match (r, d) {
            (Some(a), Some(b)) => a@ == b@,
            (None, None) => true,
            _ => false,
        },
{
    match d {
        Some(v) => {
            let mut out: Vec<u16> = Vec::new();
            let mut i: usize = 0;
            while i < v.len()
                invariant
                    i <= v@.len(),
                    out@ == v@.take(i as int),
                decreases v@.len() - i,
            {
                out.push(v[i]);
                proof {
                    assert(out@ =~= v@.take(i + 1));
                }
                i += 1;
            }
            proof {
                assert(v@.take(v@.len() as int) =~= v@);
            }
            Some(out)
        },
        None => None,
    }
}

fn neutralize_object(obj: &CalObject) -> (r: CalObject)
    ensures
        r@ == spec_neutralized(obj@),
{
    let r = CalObject {
        name: obj.name.clone(),
        symbol_link: clone_opt_string(&obj.symbol_link),
        address: 0,
        address_class: obj.address_class,
        dimensions: clone_opt_dims(&obj.dimensions),
        if_data: patch_blocks(&obj.if_data, 0),
        type_ref: obj.type_ref.clone(),
        line: obj.line,
    };
    proof {
        assert(r@ =~= spec_neutralized(obj@));
    }
    r
}

fn clone_info(info: &DiagnosticInfo) -> (r: DiagnosticInfo)
    ensures
        r@ == info@,
{
    match info {
        DiagnosticInfo::SymbolNotFound { symbol } => DiagnosticInfo::SymbolNotFound {
            symbol: symbol.clone(),
        },
        DiagnosticInfo::MetadataMismatch { symbol, claimed, actual } => DiagnosticInfo::MetadataMismatch {
            symbol: symbol.clone(),
            claimed: *claimed,
            actual: *actual,
        },
        DiagnosticInfo::UnknownTypeRef { type_ref } => DiagnosticInfo::UnknownTypeRef {
            type_ref: type_ref.clone(),
        },
    }
}

} // verus!

verus! {

/// Outcome of one per-kind update: the surviving objects in original relative
/// order, the removed names, the two counts, every diagnostic in object
/// order, and (instance kind) the typedef reference ledger.
pub struct KindUpdateResult {
    pub survivors: Vec<CalObject>,
    pub removed: Vec<String>,
    pub updated: usize,
    pub not_updated: usize,
    pub diagnostics: Vec<Diagnostic>,
    pub ledger: Vec<LedgerEntry>,
}

/// Update every object of one kind against the debug information, in
/// original order. No failure escapes: it is all represented in the result.
pub fn update_kind(
    objs: &Vec<CalObject>,
    kind: ObjectKind,
    debug: &DebugInfo,
    preserve_unknown: bool,
    templates: &Vec<String>,
) -> (r: KindUpdateResult)
    requires
        debug.wf(),
    ensures
        ({
            let out = spec_process(
                objs_model(objs@),
                debug.symbols.entries@,
                debug.types.nodes@,
                kind,
                preserve_unknown,
                names_model(templates@),
            );
            &&& objs_model(r.survivors@) == out.survivors
            &&& names_model(r.removed@) == out.removed
            &&& r.updated == out.updated
            &&& r.not_updated == out.not_updated
            &&& r.diagnostics@.map_values(|d: Diagnostic| d@) == out.diags
            &&& r.ledger@.map_values(|l: LedgerEntry| l@) == out.ledger
        }),
{
    let ghost tab = debug.symbols.entries@;
    let ghost nodes = debug.types.nodes@;
    let ghost tmpl = names_model(templates@);
    let ghost input = objs_model(objs@);

    let mut survivors: Vec<CalObject> = Vec::new();
    let mut removed: Vec<String> = Vec::new();
    let mut updated: usize = 0;
    let mut not_updated: usize = 0;
    let mut diagnostics: Vec<Diagnostic> = Vec::new();
    let mut ledger: Vec<LedgerEntry> = Vec::new();

    let mut i: usize = 0;
    proof {
        assert(input.take(0) =~= Seq::<ObjModel>::empty());
        assert(objs_model(survivors@) =~= Seq::<ObjModel>::empty());
        assert(names_model(removed@) =~= Seq::<Seq<char>>::empty());
        assert(diagnostics@.map_values(|d: Diagnostic| d@) =~= Seq::<DiagModel>::empty());
        assert(ledger@.map_values(|l: LedgerEntry| l@) =~= Seq::<LedgerModel>::empty());
    }
    while i < objs.len()
        invariant
            i <= objs@.len(),
            debug.wf(),
            tab == debug.symbols.entries@,
            nodes == debug.types.nodes@,
            tmpl == names_model(templates@),
            input == objs_model(objs@),
            updated <= i,
            not_updated <= i,
            ({
                let out = spec_process(input.take(i as int), tab, nodes, kind, preserve_unknown, tmpl);
                &&& objs_model(survivors@) == out.survivors
                &&& names_model(removed@) == out.removed
                &&& updated == out.updated
                &&& not_updated == out.not_updated
                &&& diagnostics@.map_values(|d: Diagnostic| d@) == out.diags
                &&& ledger@.map_values(|l: LedgerEntry| l@) == out.ledger
            }),
        decreases objs@.len() - i,
    {
        let ghost acc = spec_process(input.take(i as int), tab, nodes, kind, preserve_unknown, tmpl);
        let ghost m = input[i as int];
        let obj = &objs[i];
        let line: u32 = obj.line;
        proof {
            assert(input.take(i + 1).drop_last() =~= input.take(i as int));
            assert(input.take(i + 1).last() == obj@);
            assert(m == obj@);
        }
        match resolve(&obj.name, &obj.symbol_link, &obj.if_data, &debug.symbols) {
            Ok(sym) => {
                let template_ok = if kind == ObjectKind::Instance {
                    crate::objects::contains_name(templates, &obj.type_ref)
                } else {
                    true
                };
                if template_ok {
                    proof {
                        assert(spec_object_ok(m, tab, kind, tmpl));
                        lemma_find_is_entry(tab, spec_key(m.name, m.symbol_link));
                        match spec_find(tab, spec_key(m.name, m.symbol_link)) {
                            Some(e) => {
                                let w = choose|w: int|
                                    0 <= w < tab.len() && tab[w] == e && e.name@ == spec_key(
                                        m.name,
                                        m.symbol_link,
                                    );
                                assert(e.typeref < nodes.len());
                            },
                            None => {
                                assert(false);
                            },
                        }
                    }
                    let norm = crate::typegraph::normalize(&debug.types, sym.typeref);
                    let addr32: u32 = #[verifier::truncate] (sym.address as u32);
                    let new_blocks = patch_blocks(&obj.if_data, addr32);
                    let pos = survivors.len();
                    if kind == ObjectKind::Instance {
                        ledger.push(
                            LedgerEntry {
                                template: obj.type_ref.clone(),
                                leaf: Some(norm.leaf),
                                position: pos,
                            },
                        );
                    }
                    let survivor = CalObject {
                        name: obj.name.clone(),
                        symbol_link: Some(sym.name),
                        address: addr32,
                        address_class: norm.addr_class,
                        dimensions: norm.dims,
                        if_data: new_blocks,
                        type_ref: obj.type_ref.clone(),
                        line: obj.line,
                    };
                    survivors.push(survivor);
                    updated = updated + 1;
                    proof {
                        match spec_find(tab, spec_key(m.name, m.symbol_link)) {
                            Some(e) => {
                                assert(survivors@.last()@ =~= spec_updated_obj(m, e, nodes));
                                assert(survivors@.last()@ == spec_rewrite(m, tab, nodes));
                                if kind == ObjectKind::Instance {
                                    assert(ledger@.last()@ =~= (LedgerModel {
                                        template: m.type_ref,
                                        leaf: spec_leaf_of(m, tab, nodes),
                                        position: acc.survivors.len() as int,
                                    }));
                                }
                            },
                            None => {
                                assert(false);
                            },
                        }
                        assert(objs_model(survivors@) =~= acc.survivors.push(
                            spec_rewrite(m, tab, nodes),
                        ));
                        assert(ledger@.map_values(|l: LedgerEntry| l@) =~= spec_step(
                            acc,
                            m,
                            tab,
                            nodes,
                            kind,
                            preserve_unknown,
                            tmpl,
                        ).ledger);
                    }
                } else {
                    diagnostics.push(
                        Diagnostic {
                            kind,
                            line,
                            info: DiagnosticInfo::UnknownTypeRef { type_ref: obj.type_ref.clone() },
                        },
                    );
                    proof {
                        assert(!spec_object_ok(m, tab, kind, tmpl));
                        assert(spec_fail_infos(m, tab) =~= seq![
                            InfoModel::UnknownTypeRef { type_ref: m.type_ref },
                        ]);
                        assert(diagnostics@.map_values(|d: Diagnostic| d@) =~= acc.diags
                            + spec_fail_diags(m, tab, kind));
                    }
                    if preserve_unknown {
                        let pos = survivors.len();
                        if kind == ObjectKind::Instance {
                            ledger.push(
                                LedgerEntry {
                                    template: obj.type_ref.clone(),
                                    leaf: None,
                                    position: pos,
                                },
                            );
                        }
                        let n = neutralize_object(obj);
                        survivors.push(n);
                        proof {
                            assert(objs_model(survivors@) =~= acc.survivors.push(
                                spec_neutralized(m),
                            ));
                            assert(ledger@.map_values(|l: LedgerEntry| l@) =~= spec_step(
                                acc,
                                m,
                                tab,
                                nodes,
                                kind,
                                preserve_unknown,
                                tmpl,
                            ).ledger);
                        }
                    } else {
                        removed.push(obj.name.clone());
                        proof {
                            assert(names_model(removed@) =~= acc.removed.push(m.name));
                        }
                    }
                    not_updated = not_updated + 1;
                }
            },
            Err(errs) => {
                proof {
                    assert(!spec_resolve_ok(tab, m.name, m.symbol_link, m.if_data));
                    assert(!spec_object_ok(m, tab, kind, tmpl));
                }
                let ghost prev_diags = diagnostics@.map_values(|d: Diagnostic| d@);
                let ghost full = errs@.map_values(|d: DiagnosticInfo| d@);
                proof {
                    assert(full == spec_fail_infos(m, tab));
                    assert(full.take(0) =~= Seq::<InfoModel>::empty());
                    assert(prev_diags + wrap_infos(full.take(0), kind, m.line) =~= prev_diags);
                }
                let mut k: usize = 0;
                while k < errs.len()
                    invariant
                        k <= errs@.len(),
                        full == errs@.map_values(|d: DiagnosticInfo| d@),
                        line == m.line,
                        diagnostics@.map_values(|d: Diagnostic| d@) == prev_diags + wrap_infos(
                            full.take(k as int),
                            kind,
                            m.line,
                        ),
                    decreases errs@.len() - k,
                {
                    let d = Diagnostic { kind, line, info: clone_info(&errs[k]) };
                    let ghost pre = diagnostics@;
                    let ghost premap = pre.map_values(|d2: Diagnostic| d2@);
                    diagnostics.push(d);
                    proof {
                        let dd = DiagModel { kind, line: m.line, info: errs@[k as int]@ };
                        assert(diagnostics@.last()@ == dd);
                        assert(full.take(k + 1).drop_last() =~= full.take(k as int));
                        assert(full.take(k + 1).last() == errs@[k as int]@);
                        assert(wrap_infos(full.take(k + 1), kind, m.line) =~= wrap_infos(
                            full.take(k as int),
                            kind,
                            m.line,
                        ).push(dd));
                        assert(diagnostics@.map_values(|d2: Diagnostic| d2@) =~= premap.push(dd));
                        assert(premap.push(dd) =~= prev_diags + wrap_infos(
                            full.take(k + 1),
                            kind,
                            m.line,
                        ));
                    }
                    k += 1;
                }
                proof {
                    assert(full.take(errs@.len() as int) =~= full);
                    assert(diagnostics@.map_values(|d: Diagnostic| d@) == prev_diags
                        + spec_fail_diags(m, tab, kind));
                }
                if preserve_unknown {
                    let pos = survivors.len();
                    if kind == ObjectKind::Instance {
                        ledger.push(
                            LedgerEntry { template: obj.type_ref.clone(), leaf: None, position: pos },
                        );
                    }
                    let n = neutralize_object(obj);
                    survivors.push(n);
                    proof {
                        assert(objs_model(survivors@) =~= acc.survivors.push(spec_neutralized(m)));
                        assert(ledger@.map_values(|l: LedgerEntry| l@) =~= spec_step(
                            acc,
                            m,
                            tab,
                            nodes,
                            kind,
                            preserve_unknown,
                            tmpl,
                        ).ledger);
                    }
                } else {
                    removed.push(obj.name.clone());
                    proof {
                        assert(names_model(removed@) =~= acc.removed.push(m.name));
                    }
                }
                not_updated = not_updated + 1;
            },
        }
        proof {
            assert(spec_process(input.take(i + 1), tab, nodes, kind, preserve_unknown, tmpl)
                == spec_step(acc, m, tab, nodes, kind, preserve_unknown, tmpl));
        }
        i += 1;
    }
    proof {
        assert(input.take(objs@.len() as int) =~= input);
    }
    KindUpdateResult { survivors, removed, updated, not_updated, diagnostics, ledger }
}

} // verus!

verus! {

/// Model of a whole-module update: the module after the five per-kind passes
/// and the final cleanup, plus each per-kind outcome.
#[verifier::ext_equal]
pub ghost struct UpdateModel {
    pub module: ModuleModel,
    pub meas: KindOutModel,
    pub chr: KindOutModel,
    pub axis: KindOutModel,
    pub blob: KindOutModel,
    pub inst: KindOutModel,
}

/// The five kinds processed in fixed order over their own collections, the
/// removal names accumulated, and cleanup run once after all five.
pub open spec fn spec_update_module(
    m: ModuleModel,
    tab: Seq<SymbolEntry>,
    nodes: Seq<TypeNode>,
    preserve: bool,
) -> UpdateModel {
    let meas = spec_process(m.measurement, tab, nodes, ObjectKind::Measurement, preserve, m.typedef_names);
    let chr = spec_process(m.characteristic, tab, nodes, ObjectKind::Characteristic, preserve, m.typedef_names);
    let axis = spec_process(m.axis_pts, tab, nodes, ObjectKind::AxisPts, preserve, m.typedef_names);
    let blob = spec_process(m.blob, tab, nodes, ObjectKind::Blob, preserve, m.typedef_names);
    let inst = spec_process(m.instance, tab, nodes, ObjectKind::Instance, preserve, m.typedef_names);
    let rem = RemovedModel {
        measurement: meas.removed,
        characteristic: chr.removed,
        axis_pts: axis.removed,
        blob: blob.removed,
        instance: inst.removed,
    };
    let m1 = ModuleModel {
        measurement: meas.survivors,
        characteristic: chr.survivors,
        axis_pts: axis.survivors,
        blob: blob.survivors,
        instance: inst.survivors,
        group: m.group,
        function: m.function,
        axis_ref: m.axis_ref,
        transformer: m.transformer,
        typedef_names: m.typedef_names,
    };
    UpdateModel { module: spec_cleanup_module(m1, rem), meas, chr, axis, blob, inst }
}

/// Per-kind summary counts, the full diagnostic log in kind order, the
/// typedef reference ledger, and the removal-name sets.
pub struct UpdateSummary {
    pub measurement_updated: usize,
    pub measurement_not_updated: usize,
    pub characteristic_updated: usize,
    pub characteristic_not_updated: usize,
    pub axis_pts_updated: usize,
    pub axis_pts_not_updated: usize,
    pub blob_updated: usize,
    pub blob_not_updated: usize,
    pub instance_updated: usize,
    pub instance_not_updated: usize,
    pub diagnostics: Vec<Diagnostic>,
    pub ledger: Vec<LedgerEntry>,
    pub removed: RemovedSet,
}

/// Update the addresses of every calibration object of the module, all five
/// kinds in fixed order, then prune dangling references once at the end.
pub fn update_module(module: &mut Module, debug: &DebugInfo, preserve_unknown: bool) -> (r:
    UpdateSummary)
    requires
        debug.wf(),
    ensures
        ({
            let u = spec_update_module(
                old(module)@,
                debug.symbols.entries@,
                debug.types.nodes@,
                preserve_unknown,
            );
            &&& final(module)@ == u.module
            &&& r.measurement_updated == u.meas.updated
            &&& r.measurement_not_updated == u.meas.not_updated
            &&& r.characteristic_updated == u.chr.updated
            &&& r.characteristic_not_updated == u.chr.not_updated
            &&& r.axis_pts_updated == u.axis.updated
            &&& r.axis_pts_not_updated == u.axis.not_updated
            &&& r.blob_updated == u.blob.updated
            &&& r.blob_not_updated == u.blob.not_updated
            &&& r.instance_updated == u.inst.updated
            &&& r.instance_not_updated == u.inst.not_updated
            &&& r.diagnostics@.map_values(|d: Diagnostic| d@) == u.meas.diags + u.chr.diags
                + u.axis.diags + u.blob.diags + u.inst.diags
            &&& r.ledger@.map_values(|l: LedgerEntry| l@) == u.inst.ledger
            &&& r.removed@ == (RemovedModel {
                measurement: u.meas.removed,
                characteristic: u.chr.removed,
                axis_pts: u.axis.removed,
                blob: u.blob.removed,
                instance: u.inst.removed,
            })
        }),
{
    let ghost m0 = module@;
    let ghost tab = debug.symbols.entries@;
    let ghost nodes = debug.types.nodes@;

    let rm = update_kind(
        &module.measurement,
        ObjectKind::Measurement,
        debug,
        preserve_unknown,
        &module.typedef_names,
    );
    module.measurement = rm.survivors;
    let rc = update_kind(
        &module.characteristic,
        ObjectKind::Characteristic,
        debug,
        preserve_unknown,
        &module.typedef_names,
    );
    module.characteristic = rc.survivors;
    let ra = update_kind(
        &module.axis_pts,
        ObjectKind::AxisPts,
        debug,
        preserve_unknown,
        &module.typedef_names,
    );
    module.axis_pts = ra.survivors;
    let rb = update_kind(
        &module.blob,
        ObjectKind::Blob,
        debug,
        preserve_unknown,
        &module.typedef_names,
    );
    module.blob = rb.survivors;
    let ri = update_kind(
        &module.instance,
        ObjectKind::Instance,
        debug,
        preserve_unknown,
        &module.typedef_names,
    );
    module.instance = ri.survivors;

    let removed = RemovedSet {
        measurement: rm.removed,
        characteristic: rc.removed,
        axis_pts: ra.removed,
        blob: rb.removed,
        instance: ri.removed,
    };
    proof {
        let u = spec_update_module(m0, tab, nodes, preserve_unknown);
        assert(module@ =~= (ModuleModel {
            measurement: u.meas.survivors,
            characteristic: u.chr.survivors,
            axis_pts: u.axis.survivors,
            blob: u.blob.survivors,
            instance: u.inst.survivors,
            group: m0.group,
            function: m0.function,
            axis_ref: m0.axis_ref,
            transformer: m0.transformer,
            typedef_names: m0.typedef_names,
        }));
        assert(removed@ =~= (RemovedModel {
            measurement: u.meas.removed,
            characteristic: u.chr.removed,
            axis_pts: u.axis.removed,
            blob: u.blob.removed,
            instance: u.inst.removed,
        }));
    }
    cleanup_module(module, &removed);

    let mut diagnostics = rm.diagnostics;
    let mut d_chr = rc.diagnostics;
    let mut d_axis = ra.diagnostics;
    let mut d_blob = rb.diagnostics;
    let mut d_inst = ri.diagnostics;
    diagnostics.append(&mut d_chr);
    diagnostics.append(&mut d_axis);
    diagnostics.append(&mut d_blob);
    diagnostics.append(&mut d_inst);
    proof {
        let u = spec_update_module(m0, tab, nodes, preserve_unknown);
        assert(diagnostics@.map_values(|d: Diagnostic| d@) =~= u.meas.diags + u.chr.diags
            + u.axis.diags + u.blob.diags + u.inst.diags);
    }

    UpdateSummary {
        measurement_updated: rm.updated,
        measurement_not_updated: rm.not_updated,
        characteristic_updated: rc.updated,
        characteristic_not_updated: rc.not_updated,
        axis_pts_updated: ra.updated,
        axis_pts_not_updated: ra.not_updated,
        blob_updated: rb.updated,
        blob_not_updated: rb.not_updated,
        instance_updated: ri.updated,
        instance_not_updated: ri.not_updated,
        diagnostics,
        ledger: ri.ledger,
        removed,
    }
}

/// The one fatal precondition: an update requested without debug information.
#[derive(Clone, Copy, PartialEq, Eq, Structural, Debug)]
pub enum UpdateError {
    DebugInfoMissing,
}

/// The update engine's entry point: refuse the request cleanly when no debug
/// information was loaded, otherwise run the whole module update.
pub fn update_addresses(
    module: &mut Module,
    debug: Option<&DebugInfo>,
    preserve_unknown: bool,
) -> (r: Result<UpdateSummary, UpdateError>)
    requires
        match debug {
            Some(d) => d.wf(),
            None => true,
        },
    ensures
        match debug {
            None => r matches Err(UpdateError::DebugInfoMissing) && final(module)@ == old(module)@,
            Some(d) => match r {
                Ok(s) => {
                    let u = spec_update_module(
                        old(module)@,
                        d.symbols.entries@,
                        d.types.nodes@,
                        preserve_unknown,
                    );
                    &&& final(module)@ == u.module
                    &&& s.measurement_updated == u.meas.updated
                    &&& s.measurement_not_updated == u.meas.not_updated
                    &&& s.characteristic_updated == u.chr.updated
                    &&& s.characteristic_not_updated == u.chr.not_updated
                    &&& s.axis_pts_updated == u.axis.updated
                    &&& s.axis_pts_not_updated == u.axis.not_updated
                    &&& s.blob_updated == u.blob.updated
                    &&& s.blob_not_updated == u.blob.not_updated
                    &&& s.instance_updated == u.inst.updated
                    &&& s.instance_not_updated == u.inst.not_updated
                    &&& s.diagnostics@.map_values(|d2: Diagnostic| d2@) == u.meas.diags
                        + u.chr.diags + u.axis.diags + u.blob.diags + u.inst.diags
                    &&& s.ledger@.map_values(|l: LedgerEntry| l@) == u.inst.ledger
                },
                Err(_) => false,
            },
        },
{
    match debug {
        Some(d) => Ok(update_module(module, d, preserve_unknown)),
        None => Err(UpdateError::DebugInfoMissing),
    }
}

} // verus!

verus! {

/// An element of a filtered sequence is an element of the original that
/// satisfies the predicate.
proof fn lemma_filter_elem_of(s: Seq<ObjModel>, pred: spec_fn(ObjModel) -> bool, j: int)
    requires
        0 <= j < s.filter(pred).len(),
    ensures
        exists|p: int| 0 <= p < s.len() && s[p] == s.filter(pred)[j] && pred(s[p]),
    decreases s.len(),
{
    reveal_with_fuel(Seq::filter, 2);
    if s.len() > 0 {
        let sub = s.drop_last().filter(pred);
        if pred(s.last()) {
            if j < sub.len() {
                lemma_filter_elem_of(s.drop_last(), pred, j);
                let p = choose|p: int|
                    0 <= p < s.drop_last().len() && s.drop_last()[p] == sub[j] && pred(
                        s.drop_last()[p],
                    );
                assert(s[p] == s.filter(pred)[j] && pred(s[p]));
            } else {
                assert(s[s.len() - 1] == s.filter(pred)[j] && pred(s[s.len() - 1]));
            }
        } else {
            lemma_filter_elem_of(s.drop_last(), pred, j);
            let p = choose|p: int|
                0 <= p < s.drop_last().len() && s.drop_last()[p] == sub[j] && pred(
                    s.drop_last()[p],
                );
            assert(s[p] == s.filter(pred)[j] && pred(s[p]));
        }
    }
}

/// Ordering: with preserve-unknown off, the survivors are exactly the
/// objects that update, in their original relative order and rewritten, and
/// the removed names are exactly the failing objects' names, in order.
pub proof fn lemma_update_ordering(
    objs: Seq<ObjModel>,
    tab: Seq<SymbolEntry>,
    nodes: Seq<TypeNode>,
    kind: ObjectKind,
    templates: Seq<Seq<char>>,
)
    ensures
        ({
            let out = spec_process(objs, tab, nodes, kind, false, templates);
            &&& out.survivors == objs.filter(
                |m: ObjModel| spec_object_ok(m, tab, kind, templates),
            ).map_values(|m: ObjModel| spec_rewrite(m, tab, nodes))
            &&& out.removed == objs.filter(
                |m: ObjModel| !spec_object_ok(m, tab, kind, templates),
            ).map_values(|m: ObjModel| m.name)
        }),
    decreases objs.len(),
{
    reveal_with_fuel(Seq::filter, 2);
    let okp = |m: ObjModel| spec_object_ok(m, tab, kind, templates);
    let badp = |m: ObjModel| !spec_object_ok(m, tab, kind, templates);
    let rw = |m: ObjModel| spec_rewrite(m, tab, nodes);
    let nm = |m: ObjModel| m.name;
    if objs.len() == 0 {
        assert(objs.filter(okp).map_values(rw) =~= Seq::<ObjModel>::empty());
        assert(objs.filter(badp).map_values(nm) =~= Seq::<Seq<char>>::empty());
    } else {
        lemma_update_ordering(objs.drop_last(), tab, nodes, kind, templates);
        let prev = spec_process(objs.drop_last(), tab, nodes, kind, false, templates);
        let last = objs.last();
        if spec_object_ok(last, tab, kind, templates) {
            assert(objs.filter(okp) == objs.drop_last().filter(okp).push(last));
            assert(objs.filter(okp).map_values(rw) =~= objs.drop_last().filter(okp).map_values(
                rw,
            ).push(spec_rewrite(last, tab, nodes)));
            assert(objs.filter(badp) == objs.drop_last().filter(badp));
        } else {
            assert(objs.filter(okp) == objs.drop_last().filter(okp));
            assert(objs.filter(badp) == objs.drop_last().filter(badp).push(last));
            assert(objs.filter(badp).map_values(nm) =~= objs.drop_last().filter(badp).map_values(
                nm,
            ).push(last.name));
        }
    }
}

/// Counting: every object is counted exactly once, updated or not.
pub proof fn lemma_update_counts(
    objs: Seq<ObjModel>,
    tab: Seq<SymbolEntry>,
    nodes: Seq<TypeNode>,
    kind: ObjectKind,
    preserve: bool,
    templates: Seq<Seq<char>>,
)
    ensures
        ({
            let out = spec_process(objs, tab, nodes, kind, preserve, templates);
            &&& out.updated == objs.filter(
                |m: ObjModel| spec_object_ok(m, tab, kind, templates),
            ).len()
            &&& out.updated + out.not_updated == objs.len()
        }),
    decreases objs.len(),
{
    reveal_with_fuel(Seq::filter, 2);
    let okp = |m: ObjModel| spec_object_ok(m, tab, kind, templates);
    if objs.len() == 0 {
        assert(objs.filter(okp) =~= Seq::<ObjModel>::empty());
    } else {
        lemma_update_counts(objs.drop_last(), tab, nodes, kind, preserve, templates);
        if okp(objs.last()) {
            assert(objs.filter(okp) == objs.drop_last().filter(okp).push(objs.last()));
        } else {
            assert(objs.filter(okp) == objs.drop_last().filter(okp));
        }
    }
}

/// Preserve-unknown: every object survives, in place; the ones that update
/// are rewritten, the others are neutralized (address zero, metadata
/// addresses zero), and nothing is removed.
pub proof fn lemma_preserve_keeps_all(
    objs: Seq<ObjModel>,
    tab: Seq<SymbolEntry>,
    nodes: Seq<TypeNode>,
    kind: ObjectKind,
    templates: Seq<Seq<char>>,
)
    ensures
        ({
            let out = spec_process(objs, tab, nodes, kind, true, templates);
            &&& out.survivors.len() == objs.len()
            &&& out.removed.len() == 0
            &&& forall|i: int|
                0 <= i < objs.len() ==> out.survivors[i] == if spec_object_ok(
                    #[trigger] objs[i],
                    tab,
                    kind,
                    templates,
                ) {
                    spec_rewrite(objs[i], tab, nodes)
                } else {
                    spec_neutralized(objs[i])
                }
        }),
    decreases objs.len(),
{
    if objs.len() > 0 {
        lemma_preserve_keeps_all(objs.drop_last(), tab, nodes, kind, templates);
        assert forall|i: int| 0 <= i < objs.len() - 1 implies objs.drop_last()[i] == objs[i] by {}
    }
}

/// Dropped objects: with preserve-unknown off, a failing object's name goes
/// into the removal set, and (given names unique within the kind) no
/// survivor carries its name.
pub proof fn lemma_dropped_absent(
    objs: Seq<ObjModel>,
    tab: Seq<SymbolEntry>,
    nodes: Seq<TypeNode>,
    kind: ObjectKind,
    templates: Seq<Seq<char>>,
    i: int,
)
    requires
        0 <= i < objs.len(),
        !spec_object_ok(objs[i], tab, kind, templates),
        forall|p: int, q: int| 0 <= p < q < objs.len() ==> objs[p].name != objs[q].name,
    ensures
        ({
            let out = spec_process(objs, tab, nodes, kind, false, templates);
            &&& name_in(out.removed, objs[i].name)
            &&& forall|j: int|
                0 <= j < out.survivors.len() ==> (#[trigger] out.survivors[j]).name != objs[i].name
        }),
{
    let out = spec_process(objs, tab, nodes, kind, false, templates);
    let okp = |m: ObjModel| spec_object_ok(m, tab, kind, templates);
    let badp = |m: ObjModel| !spec_object_ok(m, tab, kind, templates);
    lemma_update_ordering(objs, tab, nodes, kind, templates);
    objs.lemma_filter_contains(badp, i);
    let k = choose|k: int| 0 <= k < objs.filter(badp).len() && objs.filter(badp)[k] == objs[i];
    assert(out.removed[k] == objs[i].name);
    assert(name_in(out.removed, objs[i].name));
    assert forall|j: int|
        0 <= j < out.survivors.len() implies (#[trigger] out.survivors[j]).name
        != objs[i].name by {
        lemma_filter_elem_of(objs, okp, j);
        let p = choose|p: int|
            0 <= p < objs.len() && objs[p] == objs.filter(okp)[j] && okp(objs[p]);
        assert(out.survivors[j] == spec_rewrite(objs[p], tab, nodes));
        assert(spec_rewrite(objs[p], tab, nodes).name == objs[p].name);
        assert(p != i);
        if p < i {
            assert(objs[p].name != objs[i].name);
        } else {
            assert(objs[i].name != objs[p].name);
        }
    }
}

/// Ledger alignment (instance kind): one entry per survivor, the entry's
/// position is exactly the survivor's final index, and the entry carries the
/// survivor's template reference.
pub proof fn lemma_ledger_positions(
    objs: Seq<ObjModel>,
    tab: Seq<SymbolEntry>,
    nodes: Seq<TypeNode>,
    preserve: bool,
    templates: Seq<Seq<char>>,
)
    ensures
        ({
            let out = spec_process(objs, tab, nodes, ObjectKind::Instance, preserve, templates);
            &&& out.ledger.len() == out.survivors.len()
            &&& forall|i: int|
                0 <= i < out.ledger.len() ==> (#[trigger] out.ledger[i]).position == i
                    && out.ledger[i].template == out.survivors[i].type_ref
        }),
    decreases objs.len(),
{
    if objs.len() > 0 {
        lemma_ledger_positions(objs.drop_last(), tab, nodes, preserve, templates);
        let last = objs.last();
        assert(spec_rewrite(last, tab, nodes).type_ref == last.type_ref);
        assert(spec_neutralized(last).type_ref == last.type_ref);
    }
}

/// A successfully rewritten object: its address is the symbol table's
/// address for the canonical name (narrowed to the 32-bit field), its link
/// is the canonical name, its address class and dimensions follow the
/// normalization policy, and every embedded metadata address tracks the
/// primary address.
pub proof fn lemma_updated_matches_table(m: ObjModel, tab: Seq<SymbolEntry>, nodes: Seq<TypeNode>)
    requires
        spec_find(tab, spec_key(m.name, m.symbol_link)) is Some,
    ensures
        match spec_find(tab, spec_key(m.name, m.symbol_link)) {
            Some(e) => {
                let u = spec_rewrite(m, tab, nodes);
                let norm = spec_normalize(nodes, e.typeref);
                &&& u.address == e.address as u32
                &&& u.symbol_link == Some(e.name@)
                &&& u.address_class == norm.addr_class
                &&& u.dimensions == norm.dims
                &&& u.if_data.len() == m.if_data.len()
                &&& forall|j: int|
                    0 <= j < u.if_data.len() ==> (#[trigger] u.if_data[j]).address == e.address
                        as u32
            },
            None => true,
        },
{
    lemma_find_is_entry(tab, spec_key(m.name, m.symbol_link));
}

} // verus!

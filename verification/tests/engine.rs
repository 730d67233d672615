use a2lupdate::cleanup::{cleanup_module, RemovedSet};
use a2lupdate::objects::{
    AxisRef, CalObject, Group, FunctionDesc, MetadataBlock, Module, ObjectKind, SymHint,
    Transformer,
};
use a2lupdate::resolve::{resolve, DiagnosticInfo};
use a2lupdate::symbols::{DebugInfo, SymbolEntry, SymbolTable};
use a2lupdate::typegraph::{normalize, AddrClass, TypeGraph, TypeNode};
use a2lupdate::update::{update_addresses, update_kind, update_module, UpdateError};

fn s(t: &str) -> String {
    t.to_string()
}

fn obj(name: &str, line: u32) -> CalObject {
    CalObject {
        name: s(name),
        symbol_link: None,
        address: 0xdead,
        address_class: None,
        dimensions: None,
        if_data: Vec::new(),
        type_ref: String::new(),
        line,
    }
}

fn inst(name: &str, type_ref: &str, line: u32) -> CalObject {
    CalObject {
        name: s(name),
        symbol_link: None,
        address: 0xdead,
        address_class: None,
        dimensions: None,
        if_data: Vec::new(),
        type_ref: s(type_ref),
        line,
    }
}

/// A graph with: 0 = uint16 scalar, 1 = pointer-to-uint16, 2 = array [4,2] of
/// uint16, 3 = pointer-to-array, 4 = pointer-to-pointer, 5 = array of
/// pointers, 6 = pointer with unsupported pointee size.
fn graph() -> TypeGraph {
    TypeGraph {
        nodes: vec![
            TypeNode::Scalar { size: 2 },
            TypeNode::Pointer { pointee: 0, pointee_size: 2 },
            TypeNode::Array { element: 0, dims: vec![4, 2] },
            TypeNode::Pointer { pointee: 2, pointee_size: 8 },
            TypeNode::Pointer { pointee: 1, pointee_size: 4 },
            TypeNode::Array { element: 1, dims: vec![3] },
            TypeNode::Pointer { pointee: 0, pointee_size: 3 },
        ],
    }
}

fn debug_info() -> DebugInfo {
    DebugInfo {
        types: graph(),
        symbols: SymbolTable {
            entries: vec![
                SymbolEntry { name: s("speed"), address: 0x1000, typeref: 1 },
                SymbolEntry { name: s("rpm"), address: 0x2000, typeref: 0 },
                SymbolEntry { name: s("map_table"), address: 0x3000, typeref: 2 },
                SymbolEntry { name: s("big"), address: 0x1_2345_6789, typeref: 0 },
            ],
        },
    }
}

fn empty_module() -> Module {
    Module {
        measurement: Vec::new(),
        characteristic: Vec::new(),
        axis_pts: Vec::new(),
        blob: Vec::new(),
        instance: Vec::new(),
        group: Vec::new(),
        function: Vec::new(),
        axis_ref: Vec::new(),
        transformer: Vec::new(),
        typedef_names: Vec::new(),
    }
}

#[test]
fn resolved_pointer_measurement() {
    let debug = debug_info();
    let objs = vec![obj("speed", 10)];
    let r = update_kind(&objs, ObjectKind::Measurement, &debug, false, &Vec::new());
    assert_eq!(r.updated, 1);
    assert_eq!(r.not_updated, 0);
    assert!(r.diagnostics.is_empty());
    assert!(r.removed.is_empty());
    assert_eq!(r.survivors.len(), 1);
    let u = &r.survivors[0];
    assert_eq!(u.address, 0x1000);
    assert_eq!(u.address_class, Some(AddrClass::Pword));
    assert!(u.dimensions.is_none());
    assert_eq!(u.symbol_link.as_deref(), Some("speed"));
}

#[test]
fn unknown_symbol_dropped() {
    let debug = debug_info();
    let objs = vec![obj("unknown_var", 22)];
    let r = update_kind(&objs, ObjectKind::Measurement, &debug, false, &Vec::new());
    assert_eq!(r.updated, 0);
    assert_eq!(r.not_updated, 1);
    assert!(r.survivors.is_empty());
    assert_eq!(r.removed, vec![s("unknown_var")]);
    assert_eq!(r.diagnostics.len(), 1);
    assert_eq!(r.diagnostics[0].kind, ObjectKind::Measurement);
    assert_eq!(r.diagnostics[0].line, 22);
    match &r.diagnostics[0].info {
        DiagnosticInfo::SymbolNotFound { symbol } => assert_eq!(symbol, "unknown_var"),
        other => panic!("unexpected diagnostic {:?}", info_tag(other)),
    }
}

fn info_tag(i: &DiagnosticInfo) -> &'static str {
    match i {
        DiagnosticInfo::SymbolNotFound { .. } => "SymbolNotFound",
        DiagnosticInfo::MetadataMismatch { .. } => "MetadataMismatch",
        DiagnosticInfo::UnknownTypeRef { .. } => "UnknownTypeRef",
    }
}

#[test]
fn unknown_symbol_preserved_and_neutralized() {
    let debug = debug_info();
    let mut o = obj("unknown_var", 5);
    o.if_data = vec![
        MetadataBlock { address: 0x77, hint: None },
        MetadataBlock { address: 0x88, hint: None },
    ];
    let objs = vec![o];
    let r = update_kind(&objs, ObjectKind::Measurement, &debug, true, &Vec::new());
    assert_eq!(r.updated, 0);
    assert_eq!(r.not_updated, 1);
    assert!(r.removed.is_empty());
    assert_eq!(r.survivors.len(), 1);
    let kept = &r.survivors[0];
    assert_eq!(kept.address, 0);
    assert!(kept.if_data.iter().all(|b| b.address == 0));
}

#[test]
fn unknown_template_is_failure_even_with_symbol() {
    let debug = debug_info();
    let templates = vec![s("T_KNOWN")];
    let objs = vec![inst("speed", "T_MISSING", 7)];
    let r = update_kind(&objs, ObjectKind::Instance, &debug, false, &templates);
    assert_eq!(r.updated, 0);
    assert_eq!(r.not_updated, 1);
    assert!(r.survivors.is_empty());
    assert_eq!(r.removed, vec![s("speed")]);
    assert_eq!(r.diagnostics.len(), 1);
    match &r.diagnostics[0].info {
        DiagnosticInfo::UnknownTypeRef { type_ref } => assert_eq!(type_ref, "T_MISSING"),
        other => panic!("unexpected diagnostic {:?}", info_tag(other)),
    }
}

#[test]
fn unknown_template_preserved_is_neutralized() {
    let debug = debug_info();
    let templates = vec![s("T_KNOWN")];
    let objs = vec![inst("speed", "T_MISSING", 7)];
    let r = update_kind(&objs, ObjectKind::Instance, &debug, true, &templates);
    assert_eq!(r.updated, 0);
    assert_eq!(r.not_updated, 1);
    assert_eq!(r.survivors.len(), 1);
    assert_eq!(r.survivors[0].address, 0);
    assert_eq!(r.ledger.len(), 1);
    assert_eq!(r.ledger[0].leaf, None);
    assert_eq!(r.ledger[0].position, 0);
}

#[test]
fn normalize_policy_table() {
    let g = graph();
    // plain scalar
    let n = normalize(&g, 0);
    assert_eq!(n.addr_class, None);
    assert!(n.dims.is_none());
    assert_eq!(n.leaf, 0);
    // pointer to scalar, pointee size 2
    let n = normalize(&g, 1);
    assert_eq!(n.addr_class, Some(AddrClass::Pword));
    assert!(n.dims.is_none());
    assert_eq!(n.leaf, 0);
    // array of scalar
    let n = normalize(&g, 2);
    assert_eq!(n.addr_class, None);
    assert_eq!(n.dims.as_deref(), Some(&[4u16, 2u16][..]));
    assert_eq!(n.leaf, 0);
    // pointer to array
    let n = normalize(&g, 3);
    assert_eq!(n.addr_class, Some(AddrClass::Plonglong));
    assert_eq!(n.dims.as_deref(), Some(&[4u16, 2u16][..]));
    assert_eq!(n.leaf, 0);
    // pointer to pointer: opaque
    let n = normalize(&g, 4);
    assert_eq!(n.addr_class, None);
    assert!(n.dims.is_none());
    assert_eq!(n.leaf, 1);
    // array of pointers: opaque
    let n = normalize(&g, 5);
    assert_eq!(n.addr_class, None);
    assert!(n.dims.is_none());
    assert_eq!(n.leaf, 1);
    // unsupported pointee size clears the address class but still unwraps
    let n = normalize(&g, 6);
    assert_eq!(n.addr_class, None);
    assert!(n.dims.is_none());
    assert_eq!(n.leaf, 0);
}

#[test]
fn survivor_order_and_ledger_positions() {
    let debug = debug_info();
    let templates = vec![s("T_A")];
    let objs = vec![inst("speed", "T_A", 1), inst("gone", "T_A", 2), inst("rpm", "T_A", 3)];
    let r = update_kind(&objs, ObjectKind::Instance, &debug, false, &templates);
    assert_eq!(r.updated, 2);
    assert_eq!(r.not_updated, 1);
    assert_eq!(r.survivors.len(), 2);
    assert_eq!(r.survivors[0].name, "speed");
    assert_eq!(r.survivors[1].name, "rpm");
    assert_eq!(r.removed, vec![s("gone")]);
    assert_eq!(r.ledger.len(), 2);
    assert_eq!(r.ledger[0].position, 0);
    assert_eq!(r.ledger[1].position, 1);
    assert_eq!(r.ledger[0].template, "T_A");
    // leaf of pointer-to-uint16 is the scalar node
    assert_eq!(r.ledger[0].leaf, Some(0));
    assert_eq!(r.ledger[1].leaf, Some(0));
}

#[test]
fn address_narrowed_to_32_bits() {
    let debug = debug_info();
    let objs = vec![obj("big", 1)];
    let r = update_kind(&objs, ObjectKind::Characteristic, &debug, false, &Vec::new());
    assert_eq!(r.survivors[0].address, 0x2345_6789);
}

#[test]
fn override_link_wins_and_empty_override_falls_back() {
    let debug = debug_info();
    let mut o = obj("nosuch", 1);
    o.symbol_link = Some(s("speed"));
    let r = resolve(&o.name, &o.symbol_link, &o.if_data, &debug.symbols);
    let got = r.expect("override should resolve");
    assert_eq!(got.name, "speed");
    assert_eq!(got.address, 0x1000);

    let mut o2 = obj("rpm", 1);
    o2.symbol_link = Some(String::new());
    let r2 = resolve(&o2.name, &o2.symbol_link, &o2.if_data, &debug.symbols);
    let got2 = r2.expect("empty override falls back to the declared name");
    assert_eq!(got2.name, "rpm");
    assert_eq!(got2.address, 0x2000);
}

#[test]
fn metadata_mismatch_is_collected() {
    let debug = debug_info();
    let mut o = obj("speed", 9);
    o.if_data = vec![MetadataBlock {
        address: 0,
        hint: Some(SymHint { symbol: s("rpm"), address: 0x9999 }),
    }];
    let r = resolve(&o.name, &o.symbol_link, &o.if_data, &debug.symbols);
    let errs = match r {
        Err(e) => e,
        Ok(_) => panic!("a contradicted metadata claim must fail resolution"),
    };
    assert_eq!(errs.len(), 1);
    match &errs[0] {
        DiagnosticInfo::MetadataMismatch { symbol, claimed, actual } => {
            assert_eq!(symbol, "rpm");
            assert_eq!(*claimed, 0x9999);
            assert_eq!(*actual, 0x2000);
        }
        other => panic!("unexpected diagnostic {:?}", info_tag(other)),
    }
}

#[test]
fn consistent_metadata_claim_is_fine() {
    let debug = debug_info();
    let mut o = obj("speed", 9);
    o.if_data = vec![MetadataBlock {
        address: 0,
        hint: Some(SymHint { symbol: s("rpm"), address: 0x2000 }),
    }];
    let r = resolve(&o.name, &o.symbol_link, &o.if_data, &debug.symbols);
    assert!(r.is_ok());
}

#[test]
fn update_without_debug_info_is_refused() {
    let mut module = empty_module();
    module.measurement.push(obj("speed", 1));
    let r = update_addresses(&mut module, None, false);
    match r {
        Err(UpdateError::DebugInfoMissing) => {}
        Ok(_) => panic!("an update without debug information must be refused"),
    }
    assert_eq!(module.measurement.len(), 1);
}

#[test]
fn cascading_cleanup_of_dropped_instance() {
    let debug = debug_info();
    let mut module = empty_module();
    module.typedef_names.push(s("T_A"));
    module.instance.push(inst("ghost_obj", "T_A", 4));
    module.group.push(Group {
        name: s("g1"),
        ref_measurement: vec![s("ghost_obj"), s("speed")],
        ref_characteristic: vec![s("ghost_obj")],
        ref_axis_pts: vec![s("ghost_obj"), s("other")],
        ref_blob: vec![s("ghost_obj")],
    });
    module.function.push(FunctionDesc {
        name: s("f1"),
        def_characteristic: vec![s("ghost_obj")],
        ref_characteristic: Vec::new(),
        in_measurement: vec![s("ghost_obj")],
        out_measurement: Vec::new(),
        loc_measurement: Vec::new(),
    });
    module.axis_ref.push(AxisRef { owner: s("curve"), axis_pts: s("ghost_obj") });
    module.transformer.push(Transformer {
        name: s("t1"),
        in_objects: vec![s("ghost_obj")],
        out_objects: Vec::new(),
    });
    let summary = update_module(&mut module, &debug, false);
    assert_eq!(summary.instance_not_updated, 1);
    assert!(module.instance.is_empty());
    assert_eq!(summary.removed.instance, vec![s("ghost_obj")]);
    // the grouping in the axis-points domain no longer references the
    // dropped instance, though it was never in the axis-points collection
    assert_eq!(module.group[0].ref_axis_pts, vec![s("other")]);
    assert!(module.group[0].ref_measurement == vec![s("speed")]);
    assert!(module.group[0].ref_characteristic.is_empty());
    assert!(module.group[0].ref_blob.is_empty());
    assert!(module.function[0].def_characteristic.is_empty());
    assert!(module.function[0].in_measurement.is_empty());
    assert!(module.axis_ref.is_empty());
    assert!(module.transformer[0].in_objects.is_empty());
}

#[test]
fn cleanup_twice_changes_nothing() {
    let mut module = empty_module();
    module.group.push(Group {
        name: s("g"),
        ref_measurement: vec![s("a"), s("b"), s("c")],
        ref_characteristic: vec![s("b")],
        ref_axis_pts: vec![s("a")],
        ref_blob: Vec::new(),
    });
    module.axis_ref.push(AxisRef { owner: s("o"), axis_pts: s("b") });
    module.axis_ref.push(AxisRef { owner: s("o"), axis_pts: s("keep") });
    let removed = RemovedSet {
        measurement: vec![s("a")],
        characteristic: Vec::new(),
        axis_pts: Vec::new(),
        blob: Vec::new(),
        instance: vec![s("b")],
    };
    cleanup_module(&mut module, &removed);
    let after_once_meas = module.group[0].ref_measurement.clone();
    let after_once_chr = module.group[0].ref_characteristic.clone();
    let after_once_axis = module.group[0].ref_axis_pts.clone();
    let after_once_axis_refs: Vec<String> =
        module.axis_ref.iter().map(|a| a.axis_pts.clone()).collect();
    assert_eq!(after_once_meas, vec![s("c")]);
    assert!(after_once_chr.is_empty());
    assert_eq!(after_once_axis, vec![s("a")]);
    assert_eq!(after_once_axis_refs, vec![s("keep")]);
    cleanup_module(&mut module, &removed);
    assert_eq!(module.group[0].ref_measurement, after_once_meas);
    assert_eq!(module.group[0].ref_characteristic, after_once_chr);
    assert_eq!(module.group[0].ref_axis_pts, after_once_axis);
    let again: Vec<String> = module.axis_ref.iter().map(|a| a.axis_pts.clone()).collect();
    assert_eq!(again, after_once_axis_refs);
}

#[test]
fn module_update_summary_counts() {
    let debug = debug_info();
    let mut module = empty_module();
    module.typedef_names.push(s("T_A"));
    module.measurement.push(obj("speed", 1));
    module.measurement.push(obj("missing1", 2));
    module.characteristic.push(obj("rpm", 3));
    module.axis_pts.push(obj("map_table", 4));
    module.blob.push(obj("missing2", 5));
    module.instance.push(inst("speed", "T_A", 6));
    let summary = update_module(&mut module, &debug, false);
    assert_eq!(summary.measurement_updated, 1);
    assert_eq!(summary.measurement_not_updated, 1);
    assert_eq!(summary.characteristic_updated, 1);
    assert_eq!(summary.characteristic_not_updated, 0);
    assert_eq!(summary.axis_pts_updated, 1);
    assert_eq!(summary.axis_pts_not_updated, 0);
    assert_eq!(summary.blob_updated, 0);
    assert_eq!(summary.blob_not_updated, 1);
    assert_eq!(summary.instance_updated, 1);
    assert_eq!(summary.instance_not_updated, 0);
    assert_eq!(summary.diagnostics.len(), 2);
    assert_eq!(summary.ledger.len(), 1);
    // array normalization fills the dimension list
    assert_eq!(module.axis_pts[0].dimensions.as_deref(), Some(&[4u16, 2u16][..]));
    // metadata blocks track the primary address
    assert_eq!(module.measurement[0].address, 0x1000);
}

#[test]
fn patched_metadata_tracks_address() {
    let debug = debug_info();
    let mut o = obj("rpm", 1);
    o.if_data = vec![MetadataBlock { address: 1, hint: None }];
    let r = update_kind(&vec![o], ObjectKind::Measurement, &debug, false, &Vec::new());
    assert_eq!(r.survivors[0].if_data[0].address, 0x2000);
}

#[test]
fn all_failures_are_collected_not_short_circuited() {
    let debug = debug_info();
    let mut o = obj("unknown_var", 12);
    o.if_data = vec![MetadataBlock {
        address: 0,
        hint: Some(SymHint { symbol: s("speed"), address: 0xbad }),
    }];
    let r = resolve(&o.name, &o.symbol_link, &o.if_data, &debug.symbols);
    let errs = r.expect_err("unknown symbol and contradicted claim must fail");
    assert_eq!(errs.len(), 2);
    match &errs[0] {
        DiagnosticInfo::SymbolNotFound { symbol } => assert_eq!(symbol, "unknown_var"),
        other => panic!("unexpected diagnostic {:?}", info_tag(other)),
    }
    match &errs[1] {
        DiagnosticInfo::MetadataMismatch { symbol, claimed, actual } => {
            assert_eq!(symbol, "speed");
            assert_eq!(*claimed, 0xbad);
            assert_eq!(*actual, 0x1000);
        }
        other => panic!("unexpected diagnostic {:?}", info_tag(other)),
    }
}

#[test]
fn module_update_preserve_keeps_everything() {
    let debug = debug_info();
    let mut module = empty_module();
    module.typedef_names.push(s("T_A"));
    module.instance.push(inst("speed", "T_A", 1));
    module.instance.push(inst("lost", "T_A", 2));
    let summary = update_module(&mut module, &debug, true);
    assert_eq!(summary.instance_updated, 1);
    assert_eq!(summary.instance_not_updated, 1);
    assert!(summary.removed.instance.is_empty());
    assert_eq!(module.instance.len(), 2);
    assert_eq!(module.instance[0].name, "speed");
    assert_eq!(module.instance[0].address, 0x1000);
    assert_eq!(module.instance[1].name, "lost");
    assert_eq!(module.instance[1].address, 0);
    // the preserved failure still contributes a ledger slot, with no type
    assert_eq!(summary.ledger.len(), 2);
    assert_eq!(summary.ledger[1].leaf, None);
    assert_eq!(summary.ledger[1].position, 1);
}

#[test]
fn symbol_count_reports_discoverable_symbols() {
    let debug = debug_info();
    assert_eq!(debug.symbols.count(), 4);
}

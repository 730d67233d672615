//! Cascading cleanup: after the per-kind updates, prune every reference whose
//! target name was removed. Because an instance object may play the
//! structural role of any of the other four kinds, an instance removal
//! cascades into all four domains.

use vstd::prelude::*;
use crate::objects::{
    name_in, names_model, AxisRef, AxisRefModel, FunctionDesc, FunctionModel, Group, GroupModel,
    Module, ModuleModel, Transformer, TransformerModel,
};

verus! {

/// The names removed during the update, one list per object kind.
pub struct RemovedSet {
    pub measurement: Vec<String>,
    pub characteristic: Vec<String>,
    pub axis_pts: Vec<String>,
    pub blob: Vec<String>,
    pub instance: Vec<String>,
}

#[verifier::ext_equal]
pub ghost struct RemovedModel {
    pub measurement: Seq<Seq<char>>,
    pub characteristic: Seq<Seq<char>>,
    pub axis_pts: Seq<Seq<char>>,
    pub blob: Seq<Seq<char>>,
    pub instance: Seq<Seq<char>>,
}

impl View for RemovedSet {
    type V = RemovedModel;

    open spec fn view(&self) -> RemovedModel {
        RemovedModel {
            measurement: names_model(self.measurement@),
            characteristic: names_model(self.characteristic@),
            axis_pts: names_model(self.axis_pts@),
            blob: names_model(self.blob@),
            instance: names_model(self.instance@),
        }
    }
}

/// A name list with every name struck that occurs in `a` or in `b`, order
/// otherwise kept.
pub open spec fn spec_prune(
    names: Seq<Seq<char>>,
    a: Seq<Seq<char>>,
    b: Seq<Seq<char>>,
) -> Seq<Seq<char>>
    decreases names.len(),
{
    if names.len() == 0 {
        Seq::empty()
    } else {
        let prev = spec_prune(names.drop_last(), a, b);
        if name_in(a, names.last()) || name_in(b, names.last()) {
            prev
        } else {
            prev.push(names.last())
        }
    }
}

/// Axis cross-references with every entry struck whose axis-points name
/// occurs in `a` or in `b`.
pub open spec fn spec_prune_axis(
    entries: Seq<AxisRefModel>,
    a: Seq<Seq<char>>,
    b: Seq<Seq<char>>,
) -> Seq<AxisRefModel>
    decreases entries.len(),
{
    if entries.len() == 0 {
        Seq::empty()
    } else {
        let prev = spec_prune_axis(entries.drop_last(), a, b);
        if name_in(a, entries.last().axis_pts) || name_in(b, entries.last().axis_pts) {
            prev
        } else {
            prev.push(entries.last())
        }
    }
}

pub open spec fn spec_clean_group(g: GroupModel, r: RemovedModel) -> GroupModel {
    GroupModel {
        name: g.name,
        ref_measurement: spec_prune(g.ref_measurement, r.measurement, r.instance),
        ref_characteristic: spec_prune(g.ref_characteristic, r.characteristic, r.instance),
        ref_axis_pts: spec_prune(g.ref_axis_pts, r.axis_pts, r.instance),
        ref_blob: spec_prune(g.ref_blob, r.blob, r.instance),
    }
}

pub open spec fn spec_clean_function(f: FunctionModel, r: RemovedModel) -> FunctionModel {
    FunctionModel {
        name: f.name,
        def_characteristic: spec_prune(f.def_characteristic, r.characteristic, r.instance),
        ref_characteristic: spec_prune(f.ref_characteristic, r.characteristic, r.instance),
        in_measurement: spec_prune(f.in_measurement, r.measurement, r.instance),
        out_measurement: spec_prune(f.out_measurement, r.measurement, r.instance),
        loc_measurement: spec_prune(f.loc_measurement, r.measurement, r.instance),
    }
}

pub open spec fn spec_clean_transformer(t: TransformerModel, r: RemovedModel) -> TransformerModel {
    TransformerModel {
        name: t.name,
        in_objects: spec_prune(t.in_objects, r.blob, r.instance),
        out_objects: spec_prune(t.out_objects, r.blob, r.instance),
    }
}

/// The whole module after cleanup: object collections untouched, every
/// reference list of the four domains pruned.
pub open spec fn spec_cleanup_module(m: ModuleModel, r: RemovedModel) -> ModuleModel {
    ModuleModel {
        measurement: m.measurement,
        characteristic: m.characteristic,
        axis_pts: m.axis_pts,
        blob: m.blob,
        instance: m.instance,
        group: m.group.map_values(|g: GroupModel| spec_clean_group(g, r)),
        function: m.function.map_values(|f: FunctionModel| spec_clean_function(f, r)),
        axis_ref: spec_prune_axis(m.axis_ref, r.axis_pts, r.instance),
        transformer: m.transformer.map_values(|t: TransformerModel| spec_clean_transformer(t, r)),
        typedef_names: m.typedef_names,
    }
}

fn prune_names(list: &Vec<String>, a: &Vec<String>, b: &Vec<String>) -> (r: Vec<String>)
    ensures
        names_model(r@) == spec_prune(names_model(list@), names_model(a@), names_model(b@)),
{
    let ghost lm = names_model(list@);
    let mut out: Vec<String> = Vec::new();
    let mut i: usize = 0;
    proof {
        assert(lm.take(0) =~= Seq::<Seq<char>>::empty());
    }
    while i < list.len()
        invariant
            i <= list@.len(),
            lm == names_model(list@),
            names_model(out@) == spec_prune(lm.take(i as int), names_model(a@), names_model(b@)),
        decreases list@.len() - i,
    {
        proof {
            assert(lm.take(i + 1).drop_last() =~= lm.take(i as int));
            assert(lm.take(i + 1).last() == list@[i as int]@);
        }
        let banned = crate::objects::contains_name(a, &list[i]) || crate::objects::contains_name(
            b,
            &list[i],
        );
        if !banned {
            out.push(list[i].clone());
            proof {
                assert(names_model(out@) =~= names_model(out@.drop_last()).push(out@.last()@));
            }
        }
        i += 1;
    }
    proof {
        assert(lm.take(list@.len() as int) =~= lm);
    }
    out
}

fn prune_axis_refs(list: &Vec<AxisRef>, a: &Vec<String>, b: &Vec<String>) -> (r: Vec<AxisRef>)
    ensures
        r@.map_values(|x: AxisRef| x@) == spec_prune_axis(
            list@.map_values(|x: AxisRef| x@),
            names_model(a@),
            names_model(b@),
        ),
{
    let ghost lm = list@.map_values(|x: AxisRef| x@);
    let mut out: Vec<AxisRef> = Vec::new();
    let mut i: usize = 0;
    proof {
        assert(lm.take(0) =~= Seq::<AxisRefModel>::empty());
    }
    while i < list.len()
        invariant
            i <= list@.len(),
            lm == list@.map_values(|x: AxisRef| x@),
            out@.map_values(|x: AxisRef| x@) == spec_prune_axis(
                lm.take(i as int),
                names_model(a@),
                names_model(b@),
            ),
        decreases list@.len() - i,
    {
        proof {
            assert(lm.take(i + 1).drop_last() =~= lm.take(i as int));
            assert(lm.take(i + 1).last() == list@[i as int]@);
        }
        let banned = crate::objects::contains_name(a, &list[i].axis_pts)
            || crate::objects::contains_name(b, &list[i].axis_pts);
        if !banned {
            out.push(
                AxisRef { owner: list[i].owner.clone(), axis_pts: list[i].axis_pts.clone() },
            );
            proof {
                assert(out@.map_values(|x: AxisRef| x@) =~= out@.drop_last().map_values(
                    |x: AxisRef| x@,
                ).push(out@.last()@));
                assert(out@.last()@ == lm.take(i + 1).last());
            }
        }
        i += 1;
    }
    proof {
        assert(lm.take(list@.len() as int) =~= lm);
    }
    out
}

/// Prune all dangling references to removed names from the groupings,
/// function descriptions, axis cross-references and transformers. Scans the
/// instance removals in all four domains.
pub fn cleanup_module(module: &mut Module, removed: &RemovedSet)
    ensures
        final(module)@ == spec_cleanup_module(old(module)@, removed@),
{
    let ghost m0 = module@;
    let ghost rm = removed@;

    let mut new_groups: Vec<Group> = Vec::new();
    let mut i: usize = 0;
    while i < module.group.len()
        invariant
            i <= module.group@.len(),
            module == old(module),
            rm == removed@,
            new_groups@.len() == i,
            forall|j: int|
                0 <= j < i ==> (#[trigger] new_groups@[j])@ == spec_clean_group(
                    module.group@[j]@,
                    rm,
                ),
        decreases module.group@.len() - i,
    {
        let g = &module.group[i];
        new_groups.push(
            Group {
                name: g.name.clone(),
                ref_measurement: prune_names(&g.ref_measurement, &removed.measurement, &removed.instance),
                ref_characteristic: prune_names(
                    &g.ref_characteristic,
                    &removed.characteristic,
                    &removed.instance,
                ),
                ref_axis_pts: prune_names(&g.ref_axis_pts, &removed.axis_pts, &removed.instance),
                ref_blob: prune_names(&g.ref_blob, &removed.blob, &removed.instance),
            },
        );
        i += 1;
    }

    let mut new_functions: Vec<FunctionDesc> = Vec::new();
    let mut i: usize = 0;
    while i < module.function.len()
        invariant
            i <= module.function@.len(),
            module == old(module),
            rm == removed@,
            new_functions@.len() == i,
            forall|j: int|
                0 <= j < i ==> (#[trigger] new_functions@[j])@ == spec_clean_function(
                    module.function@[j]@,
                    rm,
                ),
        decreases module.function@.len() - i,
    {
        let f = &module.function[i];
        new_functions.push(
            FunctionDesc {
                name: f.name.clone(),
                def_characteristic: prune_names(
                    &f.def_characteristic,
                    &removed.characteristic,
                    &removed.instance,
                ),
                ref_characteristic: prune_names(
                    &f.ref_characteristic,
                    &removed.characteristic,
                    &removed.instance,
                ),
                in_measurement: prune_names(&f.in_measurement, &removed.measurement, &removed.instance),
                out_measurement: prune_names(&f.out_measurement, &removed.measurement, &removed.instance),
                loc_measurement: prune_names(&f.loc_measurement, &removed.measurement, &removed.instance),
            },
        );
        i += 1;
    }

    let mut new_transformers: Vec<Transformer> = Vec::new();
    let mut i: usize = 0;
    while i < module.transformer.len()
        invariant
            i <= module.transformer@.len(),
            module == old(module),
            rm == removed@,
            new_transformers@.len() == i,
            forall|j: int|
                0 <= j < i ==> (#[trigger] new_transformers@[j])@ == spec_clean_transformer(
                    module.transformer@[j]@,
                    rm,
                ),
        decreases module.transformer@.len() - i,
    {
        let t = &module.transformer[i];
        new_transformers.push(
            Transformer {
                name: t.name.clone(),
                in_objects: prune_names(&t.in_objects, &removed.blob, &removed.instance),
                out_objects: prune_names(&t.out_objects, &removed.blob, &removed.instance),
            },
        );
        i += 1;
    }

    let new_axis_refs = prune_axis_refs(&module.axis_ref, &removed.axis_pts, &removed.instance);

    module.group = new_groups;
    module.function = new_functions;
    module.axis_ref = new_axis_refs;
    module.transformer = new_transformers;

    proof {
        let target = spec_cleanup_module(m0, rm);
        assert(module@.group =~= target.group);
        assert(module@.function =~= target.function);
        assert(module@.transformer =~= target.transformer);
        assert(module@ =~= target);
    }
}

/// No pruned list retains a banned name.
pub proof fn lemma_prune_no_banned(
    names: Seq<Seq<char>>,
    a: Seq<Seq<char>>,
    b: Seq<Seq<char>>,
    x: Seq<char>,
)
    requires
        name_in(a, x) || name_in(b, x),
    ensures
        !name_in(spec_prune(names, a, b), x),
    decreases names.len(),
{
    if names.len() > 0 {
        lemma_prune_no_banned(names.drop_last(), a, b, x);
        let prev = spec_prune(names.drop_last(), a, b);
        if !(name_in(a, names.last()) || name_in(b, names.last())) {
            assert forall|i: int|
                0 <= i < prev.push(names.last()).len() implies prev.push(names.last())[i]
                != x by {
                if i < prev.len() {
                    assert(!name_in(prev, x));
                }
            }
        }
    }
}

/// No pruned axis-reference list retains an entry for a banned name.
pub proof fn lemma_prune_axis_no_banned(
    entries: Seq<AxisRefModel>,
    a: Seq<Seq<char>>,
    b: Seq<Seq<char>>,
    x: Seq<char>,
)
    requires
        name_in(a, x) || name_in(b, x),
    ensures
        forall|i: int|
            0 <= i < spec_prune_axis(entries, a, b).len() ==> (#[trigger] spec_prune_axis(
                entries,
                a,
                b,
            )[i]).axis_pts != x,
    decreases entries.len(),
{
    if entries.len() > 0 {
        lemma_prune_axis_no_banned(entries.drop_last(), a, b, x);
        let prev = spec_prune_axis(entries.drop_last(), a, b);
        let last = entries.last();
        if !(name_in(a, last.axis_pts) || name_in(b, last.axis_pts)) {
            assert forall|i: int|
                0 <= i < prev.push(last).len() implies (#[trigger] prev.push(last)[i]).axis_pts
                != x by {
                if i < prev.len() {
                    assert(prev.push(last)[i] == prev[i]);
                } else {
                    assert(prev.push(last)[i] == last);
                }
            }
        }
    }
}

/// Pruning is idempotent: pruning an already pruned list changes nothing.
pub proof fn lemma_prune_idempotent(names: Seq<Seq<char>>, a: Seq<Seq<char>>, b: Seq<Seq<char>>)
    ensures
        spec_prune(spec_prune(names, a, b), a, b) == spec_prune(names, a, b),
    decreases names.len(),
{
    if names.len() == 0 {
    } else {
        lemma_prune_idempotent(names.drop_last(), a, b);
        let prev = spec_prune(names.drop_last(), a, b);
        let last = names.last();
        if name_in(a, last) || name_in(b, last) {
        } else {
            let whole = prev.push(last);
            assert(whole.drop_last() =~= prev);
            assert(whole.last() == last);
            assert(spec_prune(whole, a, b) == spec_prune(prev, a, b).push(last));
        }
    }
}

pub proof fn lemma_prune_axis_idempotent(
    entries: Seq<AxisRefModel>,
    a: Seq<Seq<char>>,
    b: Seq<Seq<char>>,
)
    ensures
        spec_prune_axis(spec_prune_axis(entries, a, b), a, b) == spec_prune_axis(entries, a, b),
    decreases entries.len(),
{
    if entries.len() == 0 {
    } else {
        lemma_prune_axis_idempotent(entries.drop_last(), a, b);
        let prev = spec_prune_axis(entries.drop_last(), a, b);
        let last = entries.last();
        if name_in(a, last.axis_pts) || name_in(b, last.axis_pts) {
        } else {
            let whole = prev.push(last);
            assert(whole.drop_last() =~= prev);
            assert(whole.last() == last);
            assert(spec_prune_axis(whole, a, b) == spec_prune_axis(prev, a, b).push(last));
        }
    }
}

/// Cleanup is idempotent: running it twice with the same removal set yields
/// the same module as running it once.
pub proof fn lemma_cleanup_idempotent(m: ModuleModel, r: RemovedModel)
    ensures
        spec_cleanup_module(spec_cleanup_module(m, r), r) == spec_cleanup_module(m, r),
{
    let c1 = spec_cleanup_module(m, r);
    let c2 = spec_cleanup_module(c1, r);
    assert forall|i: int| 0 <= i < c1.group.len() implies c2.group[i] == c1.group[i] by {
        let g = m.group[i];
        lemma_prune_idempotent(g.ref_measurement, r.measurement, r.instance);
        lemma_prune_idempotent(g.ref_characteristic, r.characteristic, r.instance);
        lemma_prune_idempotent(g.ref_axis_pts, r.axis_pts, r.instance);
        lemma_prune_idempotent(g.ref_blob, r.blob, r.instance);
        assert(c2.group[i] =~= c1.group[i]);
    }
    assert forall|i: int| 0 <= i < c1.function.len() implies c2.function[i] == c1.function[i] by {
        let f = m.function[i];
        lemma_prune_idempotent(f.def_characteristic, r.characteristic, r.instance);
        lemma_prune_idempotent(f.ref_characteristic, r.characteristic, r.instance);
        lemma_prune_idempotent(f.in_measurement, r.measurement, r.instance);
        lemma_prune_idempotent(f.out_measurement, r.measurement, r.instance);
        lemma_prune_idempotent(f.loc_measurement, r.measurement, r.instance);
        assert(c2.function[i] =~= c1.function[i]);
    }
    assert forall|i: int| 0 <= i < c1.transformer.len() implies c2.transformer[i]
        == c1.transformer[i] by {
        let t = m.transformer[i];
        lemma_prune_idempotent(t.in_objects, r.blob, r.instance);
        lemma_prune_idempotent(t.out_objects, r.blob, r.instance);
        assert(c2.transformer[i] =~= c1.transformer[i]);
    }
    lemma_prune_axis_idempotent(m.axis_ref, r.axis_pts, r.instance);
    assert(c2.group =~= c1.group);
    assert(c2.function =~= c1.function);
    assert(c2.transformer =~= c1.transformer);
    assert(c2 =~= c1);
}

/// Cascading removal: a name removed in the instance kind is gone from every
/// reference list of all four domains after cleanup, even where the object
/// never belonged to that domain's own collection.
pub proof fn lemma_cleanup_cascades(m: ModuleModel, r: RemovedModel, x: Seq<char>)
    requires
        name_in(r.instance, x),
    ensures
        ({
            let c = spec_cleanup_module(m, r);
            &&& forall|i: int|
                0 <= i < c.group.len() ==> {
                    &&& !name_in((#[trigger] c.group[i]).ref_measurement, x)
                    &&& !name_in(c.group[i].ref_characteristic, x)
                    &&& !name_in(c.group[i].ref_axis_pts, x)
                    &&& !name_in(c.group[i].ref_blob, x)
                }
            &&& forall|i: int|
                0 <= i < c.function.len() ==> {
                    &&& !name_in((#[trigger] c.function[i]).def_characteristic, x)
                    &&& !name_in(c.function[i].ref_characteristic, x)
                    &&& !name_in(c.function[i].in_measurement, x)
                    &&& !name_in(c.function[i].out_measurement, x)
                    &&& !name_in(c.function[i].loc_measurement, x)
                }
            &&& forall|i: int|
                0 <= i < c.axis_ref.len() ==> (#[trigger] c.axis_ref[i]).axis_pts != x
            &&& forall|i: int|
                0 <= i < c.transformer.len() ==> {
                    &&& !name_in((#[trigger] c.transformer[i]).in_objects, x)
                    &&& !name_in(c.transformer[i].out_objects, x)
                }
        }),
{
    let c = spec_cleanup_module(m, r);
    assert forall|i: int|
        0 <= i < c.group.len() implies {
        &&& !name_in((#[trigger] c.group[i]).ref_measurement, x)
        &&& !name_in(c.group[i].ref_characteristic, x)
        &&& !name_in(c.group[i].ref_axis_pts, x)
        &&& !name_in(c.group[i].ref_blob, x)
    } by {
        let g = m.group[i];
        lemma_prune_no_banned(g.ref_measurement, r.measurement, r.instance, x);
        lemma_prune_no_banned(g.ref_characteristic, r.characteristic, r.instance, x);
        lemma_prune_no_banned(g.ref_axis_pts, r.axis_pts, r.instance, x);
        lemma_prune_no_banned(g.ref_blob, r.blob, r.instance, x);
    }
    assert forall|i: int|
        0 <= i < c.function.len() implies {
        &&& !name_in((#[trigger] c.function[i]).def_characteristic, x)
        &&& !name_in(c.function[i].ref_characteristic, x)
        &&& !name_in(c.function[i].in_measurement, x)
        &&& !name_in(c.function[i].out_measurement, x)
        &&& !name_in(c.function[i].loc_measurement, x)
    } by {
        let f = m.function[i];
        lemma_prune_no_banned(f.def_characteristic, r.characteristic, r.instance, x);
        lemma_prune_no_banned(f.ref_characteristic, r.characteristic, r.instance, x);
        lemma_prune_no_banned(f.in_measurement, r.measurement, r.instance, x);
        lemma_prune_no_banned(f.out_measurement, r.measurement, r.instance, x);
        lemma_prune_no_banned(f.loc_measurement, r.measurement, r.instance, x);
    }
    lemma_prune_axis_no_banned(m.axis_ref, r.axis_pts, r.instance, x);
    assert forall|i: int|
        0 <= i < c.transformer.len() implies {
        &&& !name_in((#[trigger] c.transformer[i]).in_objects, x)
        &&& !name_in(c.transformer[i].out_objects, x)
    } by {
        let t = m.transformer[i];
        lemma_prune_no_banned(t.in_objects, r.blob, r.instance, x);
        lemma_prune_no_banned(t.out_objects, r.blob, r.instance, x);
    }
}

} // verus!

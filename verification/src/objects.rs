//! Calibration objects and the module that holds them, with their
//! mathematical models.

use vstd::prelude::*;
use crate::typegraph::AddrClass;

verus! {

/// The five calibration-object kinds.
#[derive(Clone, Copy, PartialEq, Eq, Structural, Debug)]
pub enum ObjectKind {
    Measurement,
    Characteristic,
    AxisPts,
    Blob,
    Instance,
}

/// A symbol claim carried by an embedded transport-metadata block: it asserts
/// that `symbol` lives at `address`.
pub struct SymHint {
    pub symbol: String,
    pub address: u64,
}

#[verifier::ext_equal]
pub ghost struct HintModel {
    pub symbol: Seq<char>,
    pub address: u64,
}

impl View for SymHint {
    type V = HintModel;

    open spec fn view(&self) -> HintModel {
        HintModel { symbol: self.symbol@, address: self.address }
    }
}

/// An embedded transport-metadata block whose address sub-field must track
/// the owning object's primary address.
pub struct MetadataBlock {
    pub address: u32,
    pub hint: Option<SymHint>,
}

#[verifier::ext_equal]
pub ghost struct BlockModel {
    pub address: u32,
    pub hint: Option<HintModel>,
}

impl View for MetadataBlock {
    type V = BlockModel;

    open spec fn view(&self) -> BlockModel {
        BlockModel {
            address: self.address,
            hint: match self.hint {
                Some(h) => Some(h@),
                None => None,
            },
        }
    }
}

/// A calibration object: a named entity whose runtime location must match the
/// compiled program. `symbol_link` is an explicit override for the symbol
/// lookup; `type_ref` names the bound type template (instance kind only,
/// empty otherwise); `line` is the object's source position, for diagnostics.
pub struct CalObject {
    pub name: String,
    pub symbol_link: Option<String>,
    pub address: u32,
    pub address_class: Option<AddrClass>,
    pub dimensions: Option<Vec<u16>>,
    pub if_data: Vec<MetadataBlock>,
    pub type_ref: String,
    pub line: u32,
}

#[verifier::ext_equal]
pub ghost struct ObjModel {
    pub name: Seq<char>,
    pub symbol_link: Option<Seq<char>>,
    pub address: u32,
    pub address_class: Option<AddrClass>,
    pub dimensions: Option<Seq<u16>>,
    pub if_data: Seq<BlockModel>,
    pub type_ref: Seq<char>,
    pub line: u32,
}

impl View for CalObject {
    type V = ObjModel;

    open spec fn view(&self) -> ObjModel {
        ObjModel {
            name: self.name@,
            symbol_link: link_model(self.symbol_link),
            address: self.address,
            address_class: self.address_class,
            dimensions: match self.dimensions {
                Some(d) => Some(d@),
                None => None,
            },
            if_data: blocks_model(self.if_data@),
            type_ref: self.type_ref@,
            line: self.line,
        }
    }
}

/// The models of a sequence of objects.
pub open spec fn objs_model(s: Seq<CalObject>) -> Seq<ObjModel> {
    s.map_values(|o: CalObject| o@)
}

/// The model of an optional link override.
pub open spec fn link_model(link: Option<String>) -> Option<Seq<char>> {
    match link {
        Some(l) => Some(l@),
        None => None,
    }
}

/// The models of a sequence of metadata blocks.
pub open spec fn blocks_model(blocks: Seq<MetadataBlock>) -> Seq<BlockModel> {
    blocks.map_values(|b: MetadataBlock| b@)
}

/// The views of a sequence of names.
pub open spec fn names_model(s: Seq<String>) -> Seq<Seq<char>> {
    s.map_values(|n: String| n@)
}

/// Whether a name occurs in a list of names.
pub open spec fn name_in(s: Seq<Seq<char>>, n: Seq<char>) -> bool {
    exists|i: int| 0 <= i < s.len() && s[i] == n
}

/// Membership test for a list of names.
pub fn contains_name(list: &Vec<String>, name: &String) -> (r: bool)
    ensures
        r == name_in(names_model(list@), name@),
{
    let mut i: usize = 0;
    while i < list.len()
        invariant
            i <= list@.len(),
            forall|j: int| 0 <= j < i ==> names_model(list@)[j] != name@,
        decreases list@.len() - i,
    {
        if list[i] == *name {
            assert(names_model(list@)[i as int] == name@);
            return true;
        }
        i += 1;
    }
    false
}

/// A grouping: it collects objects of the four structural domains by name.
pub struct Group {
    pub name: String,
    pub ref_measurement: Vec<String>,
    pub ref_characteristic: Vec<String>,
    pub ref_axis_pts: Vec<String>,
    pub ref_blob: Vec<String>,
}

#[verifier::ext_equal]
pub ghost struct GroupModel {
    pub name: Seq<char>,
    pub ref_measurement: Seq<Seq<char>>,
    pub ref_characteristic: Seq<Seq<char>>,
    pub ref_axis_pts: Seq<Seq<char>>,
    pub ref_blob: Seq<Seq<char>>,
}

impl View for Group {
    type V = GroupModel;

    open spec fn view(&self) -> GroupModel {
        GroupModel {
            name: self.name@,
            ref_measurement: names_model(self.ref_measurement@),
            ref_characteristic: names_model(self.ref_characteristic@),
            ref_axis_pts: names_model(self.ref_axis_pts@),
            ref_blob: names_model(self.ref_blob@),
        }
    }
}

/// A function description: it references measurements and characteristics by
/// name.
pub struct FunctionDesc {
    pub name: String,
    pub def_characteristic: Vec<String>,
    pub ref_characteristic: Vec<String>,
    pub in_measurement: Vec<String>,
    pub out_measurement: Vec<String>,
    pub loc_measurement: Vec<String>,
}

#[verifier::ext_equal]
pub ghost struct FunctionModel {
    pub name: Seq<char>,
    pub def_characteristic: Seq<Seq<char>>,
    pub ref_characteristic: Seq<Seq<char>>,
    pub in_measurement: Seq<Seq<char>>,
    pub out_measurement: Seq<Seq<char>>,
    pub loc_measurement: Seq<Seq<char>>,
}

impl View for FunctionDesc {
    type V = FunctionModel;

    open spec fn view(&self) -> FunctionModel {
        FunctionModel {
            name: self.name@,
            def_characteristic: names_model(self.def_characteristic@),
            ref_characteristic: names_model(self.ref_characteristic@),
            in_measurement: names_model(self.in_measurement@),
            out_measurement: names_model(self.out_measurement@),
            loc_measurement: names_model(self.loc_measurement@),
        }
    }
}

/// A cross-reference in the axis-points domain: `owner` uses the axis points
/// object named `axis_pts` as one of its axes.
pub struct AxisRef {
    pub owner: String,
    pub axis_pts: String,
}

#[verifier::ext_equal]
pub ghost struct AxisRefModel {
    pub owner: Seq<char>,
    pub axis_pts: Seq<char>,
}

impl View for AxisRef {
    type V = AxisRefModel;

    open spec fn view(&self) -> AxisRefModel {
        AxisRefModel { owner: self.owner@, axis_pts: self.axis_pts@ }
    }
}

/// A transformer: it references blob-domain objects by name.
pub struct Transformer {
    pub name: String,
    pub in_objects: Vec<String>,
    pub out_objects: Vec<String>,
}

#[verifier::ext_equal]
pub ghost struct TransformerModel {
    pub name: Seq<char>,
    pub in_objects: Seq<Seq<char>>,
    pub out_objects: Seq<Seq<char>>,
}

impl View for Transformer {
    type V = TransformerModel;

    open spec fn view(&self) -> TransformerModel {
        TransformerModel {
            name: self.name@,
            in_objects: names_model(self.in_objects@),
            out_objects: names_model(self.out_objects@),
        }
    }
}

/// A module: an ordered collection of calibration objects per kind, plus the
/// ancillary collections that may reference calibration objects by name, and
/// the set of known type-template names that instance objects may bind to.
pub struct Module {
    pub measurement: Vec<CalObject>,
    pub characteristic: Vec<CalObject>,
    pub axis_pts: Vec<CalObject>,
    pub blob: Vec<CalObject>,
    pub instance: Vec<CalObject>,
    pub group: Vec<Group>,
    pub function: Vec<FunctionDesc>,
    pub axis_ref: Vec<AxisRef>,
    pub transformer: Vec<Transformer>,
    pub typedef_names: Vec<String>,
}

#[verifier::ext_equal]
pub ghost struct ModuleModel {
    pub measurement: Seq<ObjModel>,
    pub characteristic: Seq<ObjModel>,
    pub axis_pts: Seq<ObjModel>,
    pub blob: Seq<ObjModel>,
    pub instance: Seq<ObjModel>,
    pub group: Seq<GroupModel>,
    pub function: Seq<FunctionModel>,
    pub axis_ref: Seq<AxisRefModel>,
    pub transformer: Seq<TransformerModel>,
    pub typedef_names: Seq<Seq<char>>,
}

impl View for Module {
    type V = ModuleModel;

    open spec fn view(&self) -> ModuleModel {
        ModuleModel {
            measurement: objs_model(self.measurement@),
            characteristic: objs_model(self.characteristic@),
            axis_pts: objs_model(self.axis_pts@),
            blob: objs_model(self.blob@),
            instance: objs_model(self.instance@),
            group: self.group@.map_values(|g: Group| g@),
            function: self.function@.map_values(|f: FunctionDesc| f@),
            axis_ref: self.axis_ref@.map_values(|a: AxisRef| a@),
            transformer: self.transformer@.map_values(|t: Transformer| t@),
            typedef_names: names_model(self.typedef_names@),
        }
    }
}

} // verus!

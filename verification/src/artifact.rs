//! What the generator produces for one pallet: a payload struct and an
//! identity for each call, and one accessor for each call on the pallet's
//! transaction API.

use crate::schema::views;
use vstd::prelude::*;

verus! {

/// A named field of a payload struct, and the accessor parameter that fills it.
#[derive(Clone, Debug, PartialEq, Eq)]
pub struct NamedField {
    /// The field's name, as the metadata spells it.
    pub name: String,
    /// The path of the field's type, without any box around it. The accessor
    /// takes a parameter of this type.
    pub type_path: String,
    /// Whether the struct holds the field behind a `Box`. The accessor then
    /// boxes its argument before it stores it.
    pub boxed: bool,
}

/// The view of a [`NamedField`].
pub struct NamedFieldModel {
    pub name: Seq<char>,
    pub type_path: Seq<char>,
    pub boxed: bool,
}

impl View for NamedField {
    type V = NamedFieldModel;

    open spec fn view(&self) -> NamedFieldModel {
        NamedFieldModel { name: self.name@, type_path: self.type_path@, boxed: self.boxed }
    }
}

/// A positional field of a payload struct.
#[derive(Clone, Debug, PartialEq, Eq)]
pub struct UnnamedField {
    /// The path of the field's type, without any box around it.
    pub type_path: String,
    /// Whether the struct holds the field behind a `Box`.
    pub boxed: bool,
}

/// The view of an [`UnnamedField`].
pub struct UnnamedFieldModel {
    pub type_path: Seq<char>,
    pub boxed: bool,
}

impl View for UnnamedField {
    type V = UnnamedFieldModel;

    open spec fn view(&self) -> UnnamedFieldModel {
        UnnamedFieldModel { type_path: self.type_path@, boxed: self.boxed }
    }
}

/// The shape of a struct's fields.
#[derive(Clone, Debug, PartialEq, Eq)]
pub enum FieldShape {
    /// The struct has no fields.
    NoFields,
    /// Every field has a name.
    Named(Vec<NamedField>),
    /// The fields are positional.
    Unnamed(Vec<UnnamedField>),
}

/// The view of a [`FieldShape`].
pub enum FieldShapeModel {
    NoFields,
    Named(Seq<NamedFieldModel>),
    Unnamed(Seq<UnnamedFieldModel>),
}

impl View for FieldShape {
    type V = FieldShapeModel;

    open spec fn view(&self) -> FieldShapeModel {
        match self {
            FieldShape::NoFields => FieldShapeModel::NoFields,
            FieldShape::Named(fields) => FieldShapeModel::Named(views(fields@)),
            FieldShape::Unnamed(fields) => FieldShapeModel::Unnamed(views(fields@)),
        }
    }
}

/// A struct definition derived from one call variant.
#[derive(Clone, Debug, PartialEq, Eq)]
pub struct GeneratedStruct {
    /// The struct's name.
    pub name: String,
    /// The struct's fields.
    pub fields: FieldShape,
    /// The documentation attached to the struct, line by line.
    pub docs: Vec<String>,
}

/// The view of a [`GeneratedStruct`].
pub struct GeneratedStructModel {
    pub name: Seq<char>,
    pub fields: FieldShapeModel,
    pub docs: Seq<Seq<char>>,
}

impl View for GeneratedStruct {
    type V = GeneratedStructModel;

    open spec fn view(&self) -> GeneratedStructModel {
        GeneratedStructModel { name: self.name@, fields: self.fields@, docs: views(self.docs@) }
    }
}

/// The pallet and the call that a payload struct stands for.
#[derive(Clone, Debug, PartialEq, Eq)]
pub struct CallIdentity {
    /// The name of the pallet that declares the call.
    pub pallet: String,
    /// The name of the call within its pallet.
    pub call: String,
}

/// The view of a [`CallIdentity`].
pub struct CallIdentityModel {
    pub pallet: Seq<char>,
    pub call: Seq<char>,
}

impl View for CallIdentity {
    type V = CallIdentityModel;

    open spec fn view(&self) -> CallIdentityModel {
        CallIdentityModel { pallet: self.pallet@, call: self.call@ }
    }
}

/// A payload struct together with the identity it is bound to.
#[derive(Clone, Debug, PartialEq, Eq)]
pub struct CallStruct {
    pub def: GeneratedStruct,
    pub identity: CallIdentity,
}

/// The view of a [`CallStruct`].
pub struct CallStructModel {
    pub def: GeneratedStructModel,
    pub identity: CallIdentityModel,
}

impl View for CallStruct {
    type V = CallStructModel;

    open spec fn view(&self) -> CallStructModel {
        CallStructModel { def: self.def@, identity: self.identity@ }
    }
}

/// Whether generated accessors compare call hashes before they build a payload.
#[derive(Clone, Copy, Debug, PartialEq, Eq)]
pub enum CheckMode {
    /// The accessor compares the embedded hash with the live one.
    Checked,
    /// The accessor builds the payload without looking at the live metadata.
    Unchecked,
}

/// The hash of one call's shape.
#[derive(Clone, Debug, PartialEq, Eq)]
pub struct CallHash {
    pub bytes: Vec<u8>,
}

impl View for CallHash {
    type V = Seq<u8>;

    open spec fn view(&self) -> Seq<u8> {
        self.bytes@
    }
}

/// One method of a pallet's transaction API.
#[derive(Clone, Debug, PartialEq, Eq)]
pub struct Accessor {
    /// The method's name.
    pub name: String,
    /// The documentation attached to the method, line by line.
    pub docs: Vec<String>,
    /// The method's parameters, which are the payload's fields, in order.
    pub params: Vec<NamedField>,
    /// The name of the payload struct that the method builds.
    pub payload_type: String,
    /// The hash of the call as the metadata described it at generation time.
    pub embedded_hash: CallHash,
    /// Whether the method compares hashes before it builds the payload.
    pub mode: CheckMode,
}

/// The view of an [`Accessor`].
pub struct AccessorModel {
    pub name: Seq<char>,
    pub docs: Seq<Seq<char>>,
    pub params: Seq<NamedFieldModel>,
    pub payload_type: Seq<char>,
    pub embedded_hash: Seq<u8>,
    pub mode: CheckMode,
}

impl View for Accessor {
    type V = AccessorModel;

    open spec fn view(&self) -> AccessorModel {
        AccessorModel {
            name: self.name@,
            docs: views(self.docs@),
            params: views(self.params@),
            payload_type: self.payload_type@,
            embedded_hash: self.embedded_hash@,
            mode: self.mode,
        }
    }
}

/// What is generated for one call.
#[derive(Clone, Debug, PartialEq, Eq)]
pub struct GeneratedCall {
    pub payload: CallStruct,
    pub accessor: Accessor,
}

/// The view of a [`GeneratedCall`].
pub struct GeneratedCallModel {
    pub payload: CallStructModel,
    pub accessor: AccessorModel,
}

impl View for GeneratedCall {
    type V = GeneratedCallModel;

    open spec fn view(&self) -> GeneratedCallModel {
        GeneratedCallModel { payload: self.payload@, accessor: self.accessor@ }
    }
}

/// The `calls` module generated for one pallet.
#[derive(Clone, Debug, PartialEq, Eq)]
pub struct CallsModule {
    /// The documentation attached to the module, line by line.
    pub docs: Vec<String>,
    /// The name of the module that holds the generated runtime types.
    pub types_mod: String,
    /// The payload structs, one for each call, in declaration order.
    pub structs: Vec<CallStruct>,
    /// The methods of the transaction API, one for each call, in the same order.
    pub accessors: Vec<Accessor>,
}

/// The view of a [`CallsModule`].
pub struct CallsModuleModel {
    pub docs: Seq<Seq<char>>,
    pub types_mod: Seq<char>,
    pub structs: Seq<CallStructModel>,
    pub accessors: Seq<AccessorModel>,
}

impl View for CallsModule {
    type V = CallsModuleModel;

    open spec fn view(&self) -> CallsModuleModel {
        CallsModuleModel {
            docs: views(self.docs@),
            types_mod: self.types_mod@,
            structs: views(self.structs@),
            accessors: views(self.accessors@),
        }
    }
}

/// Why nothing can be generated for a pallet.
#[derive(Clone, Debug, PartialEq, Eq)]
pub enum GenerationError {
    /// A call has a field without a name.
    UnnamedFields { pallet: String, call: String },
    /// The metadata holds no hash for a call.
    MissingCallHash { pallet: String, call: String },
}

/// The view of a [`GenerationError`].
pub enum GenerationErrorModel {
    UnnamedFields { pallet: Seq<char>, call: Seq<char> },
    MissingCallHash { pallet: Seq<char>, call: Seq<char> },
}

impl View for GenerationError {
    type V = GenerationErrorModel;

    open spec fn view(&self) -> GenerationErrorModel {
        match self {
            GenerationError::UnnamedFields { pallet, call } => GenerationErrorModel::UnnamedFields {
                pallet: pallet@,
                call: call@,
            },
            GenerationError::MissingCallHash { pallet, call } => {
                GenerationErrorModel::MissingCallHash { pallet: pallet@, call: call@ }
            },
        }
    }
}

} // verus!

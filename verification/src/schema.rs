//! What the generator reads of one pallet: its name and, where it has calls,
//! the variants of its call type with their fields and documentation.

use vstd::prelude::*;

verus! {

/// The views of the items of a sequence, in the same order.
pub open spec fn views<T: View>(items: Seq<T>) -> Seq<T::V> {
    Seq::new(items.len(), |i: int| items[i]@)
}

/// One field of a call variant.
#[derive(Clone, Debug, PartialEq, Eq)]
pub struct FieldDef {
    /// The field's name; `None` for a positional field.
    pub name: Option<String>,
    /// The path of the field's type, without any box around it.
    pub type_path: String,
    /// Whether the field is held behind a `Box`.
    pub boxed: bool,
}

/// The view of a [`FieldDef`].
pub struct FieldModel {
    pub name: Option<Seq<char>>,
    pub type_path: Seq<char>,
    pub boxed: bool,
}

impl View for FieldDef {
    type V = FieldModel;

    open spec fn view(&self) -> FieldModel {
        FieldModel {
            name: match self.name {
                Some(name) => Some(name@),
                None => None,
            },
            type_path: self.type_path@,
            boxed: self.boxed,
        }
    }
}

/// One variant of a pallet's call type.
#[derive(Clone, Debug, PartialEq, Eq)]
pub struct CallDef {
    /// The variant's name, as the metadata spells it.
    pub name: String,
    /// The variant's fields, in declaration order.
    pub fields: Vec<FieldDef>,
    /// The variant's documentation, line by line.
    pub docs: Vec<String>,
}

/// The view of a [`CallDef`].
pub struct CallModel {
    pub name: Seq<char>,
    pub fields: Seq<FieldModel>,
    pub docs: Seq<Seq<char>>,
}

impl View for CallDef {
    type V = CallModel;

    open spec fn view(&self) -> CallModel {
        CallModel {
            name: self.name@,
            fields: views(self.fields@),
            docs: views(self.docs@),
        }
    }
}

/// The call type of a pallet.
#[derive(Clone, Debug, PartialEq, Eq)]
pub struct CallGroup {
    /// The documentation of the call type, line by line.
    pub docs: Vec<String>,
    /// The variants of the call type, in declaration order.
    pub calls: Vec<CallDef>,
}

/// The view of a [`CallGroup`].
pub struct CallGroupModel {
    pub docs: Seq<Seq<char>>,
    pub calls: Seq<CallModel>,
}

impl View for CallGroup {
    type V = CallGroupModel;

    open spec fn view(&self) -> CallGroupModel {
        CallGroupModel { docs: views(self.docs@), calls: views(self.calls@) }
    }
}

/// One pallet.
#[derive(Clone, Debug, PartialEq, Eq)]
pub struct PalletDef {
    /// The pallet's name, as the metadata spells it.
    pub name: String,
    /// The pallet's call type; `None` where the pallet declares no calls.
    pub calls: Option<CallGroup>,
}

/// The view of a [`PalletDef`].
pub struct PalletModel {
    pub name: Seq<char>,
    pub calls: Option<CallGroupModel>,
}

impl View for PalletDef {
    type V = PalletModel;

    open spec fn view(&self) -> PalletModel {
        PalletModel {
            name: self.name@,
            calls: match self.calls {
                Some(group) => Some(group@),
                None => None,
            },
        }
    }
}

/// A copy of `lines`.
pub fn copy_lines(lines: &Vec<String>) -> (out: Vec<String>)
    ensures
        views(out@) == views(lines@),
{
    let mut out: Vec<String> = Vec::new();
    let mut i: usize = 0;
    while i < lines.len()
        invariant
            i <= lines.len(),
            out.len() == i,
            forall|k: int| 0 <= k < i ==> out[k]@ == lines[k]@,
        decreases lines.len() - i,
    {
        out.push(lines[i].clone());
        i = i + 1;
    }
    assert(views(out@) =~= views(lines@));
    out
}

} // verus!

//! What a generated accessor does when it is called: it checks that the live
//! runtime still describes the call as the accessor knows it, and then builds
//! the payload from its arguments.

use crate::artifact::{Accessor, AccessorModel, CallHash, CheckMode, NamedField, NamedFieldModel};
use crate::schema::views;
use vstd::prelude::*;

verus! {

/// Why an accessor hands out no payload.
#[derive(Clone, Copy, Debug, PartialEq, Eq)]
pub enum CallError {
    /// The live metadata holds no hash for the call.
    MetadataResolution,
    /// The live metadata describes the call otherwise than the accessor does.
    IncompatibleMetadata,
}

/// The value of one payload field.
#[derive(Clone, Debug, PartialEq, Eq)]
pub enum PayloadValue<T> {
    /// The argument as it was passed.
    Direct(T),
    /// The argument behind one `Box`.
    Boxed(Box<T>),
}

/// One field of a payload.
#[derive(Clone, Debug, PartialEq, Eq)]
pub struct PayloadField<T> {
    pub name: String,
    pub value: PayloadValue<T>,
}

/// The view of a [`PayloadField`].
pub struct PayloadFieldModel<T> {
    pub name: Seq<char>,
    pub value: PayloadValue<T>,
}

impl<T> View for PayloadField<T> {
    type V = PayloadFieldModel<T>;

    open spec fn view(&self) -> PayloadFieldModel<T> {
        PayloadFieldModel { name: self.name@, value: self.value }
    }
}

/// A payload that is ready to be submitted.
#[derive(Clone, Debug, PartialEq, Eq)]
pub struct DispatchHandle<T> {
    /// The name of the payload struct.
    pub payload_type: String,
    /// The fields of the payload, in declaration order.
    pub fields: Vec<PayloadField<T>>,
}

/// The view of a [`DispatchHandle`].
pub struct DispatchHandleModel<T> {
    pub payload_type: Seq<char>,
    pub fields: Seq<PayloadFieldModel<T>>,
}

impl<T> View for DispatchHandle<T> {
    type V = DispatchHandleModel<T>;

    open spec fn view(&self) -> DispatchHandleModel<T> {
        DispatchHandleModel { payload_type: self.payload_type@, fields: views(self.fields@) }
    }
}

/// The payload field that an accessor makes of the argument passed for
/// `param`: a boxed field holds the argument behind one `Box`, any other field
/// holds the argument itself.
pub open spec fn stored<T>(param: NamedFieldModel, arg: T) -> PayloadFieldModel<T> {
    PayloadFieldModel {
        name: param.name,
        value: if param.boxed {
            PayloadValue::Boxed(Box::new(arg))
        } else {
            PayloadValue::Direct(arg)
        },
    }
}

/// The payload that `accessor` builds from `args`: one field for each
/// parameter, in order, filled with the argument at the same position.
pub open spec fn payload_of<T>(accessor: AccessorModel, args: Seq<T>) -> DispatchHandleModel<T> {
    DispatchHandleModel {
        payload_type: accessor.payload_type,
        fields: Seq::new(accessor.params.len(), |i: int| stored(accessor.params[i], args[i])),
    }
}

/// Whether `accessor` may build a payload, given the hash that the live
/// metadata reports for its call (`None` where it reports none). An unchecked
/// accessor always may. A checked one may only where the live hash is the one
/// it embeds.
pub open spec fn compatibility(accessor: AccessorModel, live: Option<Seq<u8>>) -> Result<
    (),
    CallError,
> {
    match accessor.mode {
        CheckMode::Unchecked => Ok(()),
        CheckMode::Checked => match live {
            None => Err(CallError::MetadataResolution),
            Some(hash) => if hash == accessor.embedded_hash {
                Ok(())
            } else {
                Err(CallError::IncompatibleMetadata)
            },
        },
    }
}

/// What a call of `accessor` returns: the payload where the accessor may build
/// one, and else the error.
pub open spec fn dispatched<T>(accessor: AccessorModel, live: Option<Seq<u8>>, args: Seq<T>)
    -> Result<DispatchHandleModel<T>, CallError> {
    match compatibility(accessor, live) {
        Ok(_) => Ok(payload_of(accessor, args)),
        Err(error) => Err(error),
    }
}

/// The view of a live hash that may be missing.
pub open spec fn live_view(live: Option<&CallHash>) -> Option<Seq<u8>> {
    match live {
        Some(hash) => Some(hash@),
        None => None,
    }
}

/// The view of what a call of an accessor returns.
pub open spec fn dispatch_view<T>(outcome: Result<DispatchHandle<T>, CallError>) -> Result<
    DispatchHandleModel<T>,
    CallError,
> {
    match outcome {
        Ok(handle) => Ok(handle@),
        Err(error) => Err(error),
    }
}

impl CallHash {
    /// Whether two hashes hold the same bytes.
    pub fn matches(&self, other: &CallHash) -> (same: bool)
        ensures
            same == (self@ == other@),
    {
        if self.bytes.len() != other.bytes.len() {
            return false;
        }
        let mut i: usize = 0;
        while i < self.bytes.len()
            invariant
                i <= self.bytes.len(),
                self.bytes.len() == other.bytes.len(),
                forall|k: int| 0 <= k < i ==> self.bytes[k] == other.bytes[k],
            decreases self.bytes.len() - i,
        {
            if self.bytes[i] != other.bytes[i] {
                return false;
            }
            i = i + 1;
        }
        assert(self@ =~= other@);
        true
    }
}

impl Accessor {
    /// Decides whether the accessor may build a payload, given the hash that
    /// the live metadata reports for its call.
    pub fn check_compatibility(&self, live: Option<&CallHash>) -> (verdict: Result<(), CallError>)
        ensures
            verdict == compatibility(self@, live_view(live)),
    {
        match self.mode {
            CheckMode::Unchecked => Ok(()),
            CheckMode::Checked => match live {
                None => Err(CallError::MetadataResolution),
                Some(hash) => if hash.matches(&self.embedded_hash) {
                    Ok(())
                } else {
                    Err(CallError::IncompatibleMetadata)
                },
            },
        }
    }

    /// Builds the payload from one argument for each parameter.
    pub fn build_payload<T>(&self, args: Vec<T>) -> (handle: DispatchHandle<T>)
        requires
            args.len() == self.params.len(),
        ensures
            handle@ == payload_of(self@, args@),
    {
        let ghost all = args@;
        let mut fields: Vec<PayloadField<T>> = Vec::new();
        for arg in it: args.into_iter()
            invariant
                it.seq() == all,
                all.len() == self.params.len(),
                fields.len() == it.index(),
                forall|k: int|
                    0 <= k < it.index() ==> (#[trigger] fields[k])@ == stored(
                        self.params[k]@,
                        all[k],
                    ),
        {
            let param: &NamedField = &self.params[fields.len()];
            let value: PayloadValue<T> = if param.boxed {
                PayloadValue::Boxed(Box::new(arg))
            } else {
                PayloadValue::Direct(arg)
            };
            fields.push(PayloadField { name: param.name.clone(), value });
        }
        assert(views(fields@) =~= payload_of(self@, all).fields);
        DispatchHandle { payload_type: self.payload_type.clone(), fields }
    }

    /// Calls the accessor: checks the live hash as the accessor's mode asks,
    /// and builds the payload where the check allows it.
    pub fn dispatch<T>(&self, live: Option<&CallHash>, args: Vec<T>) -> (outcome: Result<
        DispatchHandle<T>,
        CallError,
    >)
        requires
            args.len() == self.params.len(),
        ensures
            dispatch_view(outcome) == dispatched(self@, live_view(live), args@),
    {
        match self.check_compatibility(live) {
            Ok(_) => Ok(self.build_payload(args)),
            Err(error) => Err(error),
        }
    }
}

} // verus!

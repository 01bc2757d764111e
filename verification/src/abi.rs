//! The typed values and parameter types of a contract interface, their
//! mathematical models, and the rule that decides whether a value may be
//! passed for a parameter.

use vstd::prelude::*;

verus! {

/// The declared type of one parameter of a constructor or function.
#[derive(Debug, PartialEq, Eq)]
pub enum AbiType {
    /// A 20-byte account address.
    Address,
    /// A byte string of any length.
    Bytes,
    /// A signed integer of the given width in bits.
    Int(usize),
    /// An unsigned integer of the given width in bits.
    Uint(usize),
    /// A boolean.
    Bool,
    /// A UTF-8 string.
    String,
    /// An array of any length.
    Array(Box<AbiType>),
    /// A byte string of at most the given length.
    FixedBytes(usize),
    /// An array of exactly the given length.
    FixedArray(Box<AbiType>, usize),
    /// A tuple whose members have the given types, in order.
    Tuple(Vec<AbiType>),
}

/// Mathematical model of a [`AbiType`].
pub enum SpecType {
    Address,
    Bytes,
    Int(nat),
    Uint(nat),
    Bool,
    String,
    Array(Box<SpecType>),
    FixedBytes(nat),
    FixedArray(Box<SpecType>, nat),
    Tuple(Seq<SpecType>),
}

/// The model of a parameter type: widths and lengths become naturals, the
/// members of a tuple a sequence of models.
pub open spec fn type_model(ty: AbiType) -> SpecType
    decreases ty,
{
    match ty {
        AbiType::Address => SpecType::Address,
        AbiType::Bytes => SpecType::Bytes,
        AbiType::Int(bits) => SpecType::Int(bits as nat),
        AbiType::Uint(bits) => SpecType::Uint(bits as nat),
        AbiType::Bool => SpecType::Bool,
        AbiType::String => SpecType::String,
        AbiType::Array(inner) => SpecType::Array(Box::new(type_model(*inner))),
        AbiType::FixedBytes(len) => SpecType::FixedBytes(len as nat),
        AbiType::FixedArray(inner, len) => SpecType::FixedArray(
            Box::new(type_model(*inner)),
            len as nat,
        ),
        AbiType::Tuple(members) => SpecType::Tuple(
            Seq::new(
                members@.len(),
                |i: int|
                    if 0 <= i < members@.len() {
                        type_model(members@[i])
                    } else {
                        arbitrary()
                    },
            ),
        ),
    }
}

impl View for AbiType {
    type V = SpecType;

    open spec fn view(&self) -> SpecType {
        type_model(*self)
    }
}

/// The models of a list of parameter types, in order.
pub open spec fn type_models(types: Seq<AbiType>) -> Seq<SpecType> {
    Seq::new(types.len(), |i: int| types[i]@)
}

/// One typed value passed to a constructor or function.
#[derive(Debug, PartialEq, Eq)]
pub enum AbiValue {
    /// A 20-byte account address.
    Address([u8; 20]),
    /// A byte string for a parameter of bounded length.
    FixedBytes(Vec<u8>),
    /// A byte string of any length.
    Bytes(Vec<u8>),
    /// A signed 256-bit integer, as its big-endian two's complement word.
    Int([u8; 32]),
    /// An unsigned 256-bit integer, as its big-endian word.
    Uint([u8; 32]),
    /// A boolean.
    Bool(bool),
    /// A UTF-8 string.
    String(String),
    /// The members of an array of fixed length.
    FixedArray(Vec<AbiValue>),
    /// The members of an array of any length.
    Array(Vec<AbiValue>),
    /// The members of a tuple, in order.
    Tuple(Vec<AbiValue>),
}

/// Mathematical model of a [`AbiValue`].
pub enum SpecValue {
    Address(Seq<u8>),
    FixedBytes(Seq<u8>),
    Bytes(Seq<u8>),
    Int(Seq<u8>),
    Uint(Seq<u8>),
    Bool(bool),
    String(Seq<char>),
    FixedArray(Seq<SpecValue>),
    Array(Seq<SpecValue>),
    Tuple(Seq<SpecValue>),
}

/// The model of a value: bytes and characters become sequences, the members
/// of a composite value a sequence of models.
pub open spec fn value_model(value: AbiValue) -> SpecValue
    decreases value,
{
    match value {
        AbiValue::Address(bytes) => SpecValue::Address(bytes@),
        AbiValue::FixedBytes(bytes) => SpecValue::FixedBytes(bytes@),
        AbiValue::Bytes(bytes) => SpecValue::Bytes(bytes@),
        AbiValue::Int(word) => SpecValue::Int(word@),
        AbiValue::Uint(word) => SpecValue::Uint(word@),
        AbiValue::Bool(b) => SpecValue::Bool(b),
        AbiValue::String(s) => SpecValue::String(s@),
        AbiValue::FixedArray(items) => SpecValue::FixedArray(
            Seq::new(
                items@.len(),
                |i: int| if 0 <= i < items@.len() { value_model(items@[i]) } else { arbitrary() },
            ),
        ),
        AbiValue::Array(items) => SpecValue::Array(
            Seq::new(
                items@.len(),
                |i: int| if 0 <= i < items@.len() { value_model(items@[i]) } else { arbitrary() },
            ),
        ),
        AbiValue::Tuple(items) => SpecValue::Tuple(
            Seq::new(
                items@.len(),
                |i: int| if 0 <= i < items@.len() { value_model(items@[i]) } else { arbitrary() },
            ),
        ),
    }
}

impl View for AbiValue {
    type V = SpecValue;

    open spec fn view(&self) -> SpecValue {
        value_model(*self)
    }
}

/// The models of a list of values, in order.
pub open spec fn value_models(values: Seq<AbiValue>) -> Seq<SpecValue> {
    Seq::new(values.len(), |i: int| values[i]@)
}

/// Whether a value may be passed for a parameter of the given type.
///
/// A scalar conforms to the type of its own kind, an integer to every width.
/// A bounded byte string conforms when it is no longer than the bound. An
/// array conforms when each member conforms to the element type, and a fixed
/// array must also have the declared length. A tuple may carry fewer members
/// than its type declares, never more, and each must conform to the type at
/// its position.
pub open spec fn conforms(value: SpecValue, ty: SpecType) -> bool
    decreases value,
{
    match value {
        SpecValue::Address(_) => ty is Address,
        SpecValue::Bytes(_) => ty is Bytes,
        SpecValue::Int(_) => ty is Int,
        SpecValue::Uint(_) => ty is Uint,
        SpecValue::Bool(_) => ty is Bool,
        SpecValue::String(_) => ty is String,
        SpecValue::FixedBytes(bytes) => {
            &&& ty matches SpecType::FixedBytes(bound)
            &&& bytes.len() <= bound
        },
        SpecValue::Array(items) => {
            &&& ty matches SpecType::Array(element)
            &&& forall|i: int| 0 <= i < items.len() ==> conforms(#[trigger] items[i], *element)
        },
        SpecValue::FixedArray(items) => {
            &&& ty matches SpecType::FixedArray(element, len)
            &&& items.len() == len
            &&& forall|i: int| 0 <= i < items.len() ==> conforms(#[trigger] items[i], *element)
        },
        SpecValue::Tuple(items) => {
            &&& ty matches SpecType::Tuple(members)
            &&& items.len() <= members.len()
            &&& forall|i: int| 0 <= i < items.len() ==> conforms(#[trigger] items[i], members[i])
        },
    }
}

/// Whether the first `count` values conform to the types at their positions.
pub open spec fn prefix_conforms(
    values: Seq<SpecValue>,
    types: Seq<SpecType>,
    count: int,
) -> bool {
    forall|i: int| 0 <= i < count ==> conforms(#[trigger] values[i], types[i])
}

/// Whether every value conforms to one and the same type.
pub open spec fn each_conforms(values: Seq<SpecValue>, ty: SpecType) -> bool {
    forall|i: int| 0 <= i < values.len() ==> conforms(#[trigger] values[i], ty)
}

/// Whether `index` is the position of the first value that does not conform
/// to the type at its position.
pub open spec fn is_first_mismatch(
    values: Seq<SpecValue>,
    types: Seq<SpecType>,
    index: int,
) -> bool {
    &&& 0 <= index < values.len()
    &&& !conforms(values[index], types[index])
    &&& prefix_conforms(values, types, index)
}

/// The model of a composite value holds the models of its members.
pub proof fn lemma_member_models(value: AbiValue)
    ensures
        value matches AbiValue::Array(items) ==> value@ == SpecValue::Array(value_models(items@)),
        value matches AbiValue::FixedArray(items) ==> value@ == SpecValue::FixedArray(
            value_models(items@),
        ),
        value matches AbiValue::Tuple(items) ==> value@ == SpecValue::Tuple(value_models(items@)),
{
    match value {
        AbiValue::Array(items) => {
            assert(value@->Array_0 =~= value_models(items@));
        },
        AbiValue::FixedArray(items) => {
            assert(value@->FixedArray_0 =~= value_models(items@));
        },
        AbiValue::Tuple(items) => {
            assert(value@->Tuple_0 =~= value_models(items@));
        },
        _ => {},
    }
}

/// The model of a tuple type holds the models of its member types.
pub proof fn lemma_member_type_models(ty: AbiType)
    ensures
        ty matches AbiType::Tuple(members) ==> ty@ == SpecType::Tuple(
            type_models(members@),
        ),
{
    match ty {
        AbiType::Tuple(members) => {
            assert(ty@->Tuple_0 =~= type_models(members@));
        },
        _ => {},
    }
}

/// What the rule says of a composite value, stated over its members.
pub proof fn lemma_conforms_members(items: Seq<SpecValue>, ty: SpecType)
    ensures
        conforms(SpecValue::Array(items), ty) <==> ty is Array && each_conforms(
            items,
            *ty->Array_0,
        ),
        conforms(SpecValue::FixedArray(items), ty) <==> ty is FixedArray && items.len()
            == ty->FixedArray_1 && each_conforms(items, *ty->FixedArray_0),
        conforms(SpecValue::Tuple(items), ty) <==> ty is Tuple && items.len()
            <= ty->Tuple_0.len() && prefix_conforms(items, ty->Tuple_0, items.len() as int),
{
    assert(SpecValue::Array(items)->Array_0 == items);
    assert(SpecValue::FixedArray(items)->FixedArray_0 == items);
    assert(SpecValue::Tuple(items)->Tuple_0 == items);
}

impl AbiValue {
    /// Decides whether this value may be passed for a parameter of type `ty`.
    pub fn conforms_to(&self, ty: &AbiType) -> (ok: bool)
        ensures
            ok == conforms(self@, ty@),
        decreases self,
    {
        proof {
            lemma_member_models(*self);
            lemma_member_type_models(*ty);
        }
        match self {
            AbiValue::Address(_) => match ty {
                AbiType::Address => true,
                _ => false,
            },
            AbiValue::Bytes(_) => match ty {
                AbiType::Bytes => true,
                _ => false,
            },
            AbiValue::Int(_) => match ty {
                AbiType::Int(_) => true,
                _ => false,
            },
            AbiValue::Uint(_) => match ty {
                AbiType::Uint(_) => true,
                _ => false,
            },
            AbiValue::Bool(_) => match ty {
                AbiType::Bool => true,
                _ => false,
            },
            AbiValue::String(_) => match ty {
                AbiType::String => true,
                _ => false,
            },
            AbiValue::FixedBytes(bytes) => match ty {
                AbiType::FixedBytes(bound) => bytes.len() <= *bound,
                _ => false,
            },
            AbiValue::Array(items) => {
                proof {
                    lemma_conforms_members(value_models(items@), ty@);
                }
                match ty {
                    AbiType::Array(element) => all_conform_to(items, element),
                    _ => false,
                }
            },
            AbiValue::FixedArray(items) => {
                proof {
                    lemma_conforms_members(value_models(items@), ty@);
                }
                match ty {
                    AbiType::FixedArray(element, len) => items.len() == *len && all_conform_to(
                        items,
                        element,
                    ),
                    _ => false,
                }
            },
            AbiValue::Tuple(items) => {
                proof {
                    lemma_conforms_members(value_models(items@), ty@);
                }
                match ty {
                    AbiType::Tuple(members) => items.len() <= members.len()
                        && first_nonconforming(items, members).is_none(),
                    _ => false,
                }
            },
        }
    }
}

/// Decides whether every value of `items` conforms to `element`.
fn all_conform_to(items: &Vec<AbiValue>, element: &AbiType) -> (ok: bool)
    ensures
        ok == each_conforms(value_models(items@), element@),
    decreases items,
{
    let mut i: usize = 0;
    while i < items.len()
        invariant
            i <= items.len(),
            forall|j: int|
                0 <= j < i ==> conforms(#[trigger] value_models(items@)[j], element@),
        decreases items.len() - i,
    {
        if !items[i].conforms_to(element) {
            assert(!conforms(value_models(items@)[i as int], element@));
            return false;
        }
        i += 1;
    }
    true
}

/// Finds the first value of `values` that does not conform to the type at
/// its position in `types`.
pub(crate) fn first_nonconforming(values: &Vec<AbiValue>, types: &Vec<AbiType>) -> (found: Option<
    usize,
>)
    requires
        values.len() <= types.len(),
    ensures
        match found {
            Some(index) => is_first_mismatch(
                value_models(values@),
                type_models(types@),
                index as int,
            ),
            None => prefix_conforms(
                value_models(values@),
                type_models(types@),
                values.len() as int,
            ),
        },
    decreases values,
{
    let mut i: usize = 0;
    while i < values.len()
        invariant
            i <= values.len() <= types.len(),
            prefix_conforms(value_models(values@), type_models(types@), i as int),
        decreases values.len() - i,
    {
        if !values[i].conforms_to(&types[i]) {
            return Some(i);
        }
        i += 1;
    }
    None
}

} // verus!

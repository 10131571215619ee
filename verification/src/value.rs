use vstd::prelude::*;

verus! {

/// A 64-bit floating-point number carried as its IEEE 754 bit pattern, so
/// that the dynamically typed value model stays within what can be reasoned
/// about exactly. The shell around this crate converts to and from `f64`.
#[derive(Clone, Copy, PartialEq, Eq, Debug)]
pub struct FloatBits(pub u64);

impl View for FloatBits {
    type V = u64;

    open spec fn view(&self) -> u64 {
        self.0
    }
}

impl DeepView for FloatBits {
    type V = u64;

    open spec fn deep_view(&self) -> u64 {
        self.0
    }
}

/// A dynamically typed value produced by the engine: a closed tagged union.
#[derive(Debug, PartialEq)]
pub enum Value {
    /// Binary data.
    Blob(Vec<u8>),
    /// A floating-point number, as its bit pattern.
    Float(FloatBits),
    /// A 64-bit signed integer.
    Integer(i64),
    /// The absence of a value.
    Null,
    /// Text data.
    Text(String),
}

/// The mathematical model of a [`Value`]: the same tags over abstract
/// sequences instead of owned buffers.
pub enum ValueModel {
    Blob(Seq<u8>),
    Float(u64),
    Integer(i64),
    Null,
    Text(Seq<char>),
}

impl View for Value {
    type V = ValueModel;

    open spec fn view(&self) -> ValueModel {
        match self {
            Value::Blob(bytes) => ValueModel::Blob(bytes@),
            Value::Float(bits) => ValueModel::Float(bits.0),
            Value::Integer(value) => ValueModel::Integer(*value),
            Value::Null => ValueModel::Null,
            Value::Text(text) => ValueModel::Text(text@),
        }
    }
}

impl DeepView for Value {
    type V = ValueModel;

    open spec fn deep_view(&self) -> ValueModel {
        self.view()
    }
}

/// An owned copy of a byte buffer, equal to the original element by element.
fn clone_bytes(bytes: &Vec<u8>) -> (result: Vec<u8>)
    ensures
        result@ == bytes@,
{
    let mut out: Vec<u8> = Vec::new();
    let n = bytes.len();
    let mut i: usize = 0;
    while i < n
        invariant
            i <= n,
            n == bytes@.len(),
            out@ == bytes@.take(i as int),
        decreases n - i,
    {
        out.push(bytes[i]);
        proof {
            assert(out@ =~= bytes@.take(i + 1));
        }
        i = i + 1;
    }
    proof {
        assert(out@ =~= bytes@);
    }
    out
}

impl Clone for Value {
    /// A deep copy whose model is the original's.
    fn clone(&self) -> (result: Self)
        ensures
            result@ == self@,
    {
        match self {
            Value::Blob(bytes) => Value::Blob(clone_bytes(bytes)),
            Value::Float(bits) => Value::Float(*bits),
            Value::Integer(value) => Value::Integer(*value),
            Value::Null => Value::Null,
            Value::Text(text) => Value::Text(text.clone()),
        }
    }
}

/// The typed extraction contract: for every supported static type, a pure,
/// total map from a dynamically typed value to an optional `Self`. A tag the
/// type does not accept yields `None`, never a silently substituted default.
pub trait ValueInto: Sized + DeepView {
    /// The conversion table entry for `Self`: which value models convert,
    /// and to what.
    spec fn spec_convert(value: ValueModel) -> Option<Self::V>;

    /// Extract a `Self` from a dynamically typed value; `None` exactly when
    /// the value's tag is not accepted by `Self`.
    fn try_convert_value_into(value: &Value) -> (result: Option<Self>)
        ensures
            result.deep_view() == Self::spec_convert(value@),
    ;
}

impl ValueInto for Value {
    /// Identity: every value converts to itself.
    open spec fn spec_convert(value: ValueModel) -> Option<ValueModel> {
        Some(value)
    }

    fn try_convert_value_into(value: &Value) -> (result: Option<Self>) {
        Some(value.clone())
    }
}

impl ValueInto for i64 {
    /// Accepted from the `Integer` tag only.
    open spec fn spec_convert(value: ValueModel) -> Option<i64> {
        match value {
            ValueModel::Integer(i) => Some(i),
            _ => None,
        }
    }

    fn try_convert_value_into(value: &Value) -> (result: Option<Self>) {
        match value {
            Value::Integer(i) => Some(*i),
            _ => None,
        }
    }
}

impl ValueInto for FloatBits {
    /// Accepted from the `Float` tag only.
    open spec fn spec_convert(value: ValueModel) -> Option<u64> {
        match value {
            ValueModel::Float(bits) => Some(bits),
            _ => None,
        }
    }

    fn try_convert_value_into(value: &Value) -> (result: Option<Self>) {
        match value {
            Value::Float(bits) => Some(*bits),
            _ => None,
        }
    }
}

impl ValueInto for String {
    /// Accepted from the `Text` tag only, as an owned copy.
    open spec fn spec_convert(value: ValueModel) -> Option<Seq<char>> {
        match value {
            ValueModel::Text(text) => Some(text),
            _ => None,
        }
    }

    fn try_convert_value_into(value: &Value) -> (result: Option<Self>) {
        match value {
            Value::Text(text) => Some(text.clone()),
            _ => None,
        }
    }
}

impl ValueInto for Vec<u8> {
    /// Accepted from the `Blob` tag only, as an owned copy.
    open spec fn spec_convert(value: ValueModel) -> Option<Seq<u8>> {
        match value {
            ValueModel::Blob(bytes) => Some(bytes),
            _ => None,
        }
    }

    fn try_convert_value_into(value: &Value) -> (result: Option<Self>) {
        match value {
            Value::Blob(bytes) => Some(clone_bytes(bytes)),
            _ => None,
        }
    }
}

impl<T: ValueInto> ValueInto for Option<T> {
    /// `Null` always converts to the empty case; any other value delegates
    /// to `T` and is wrapped.
    open spec fn spec_convert(value: ValueModel) -> Option<Option<T::V>> {
        match value {
            ValueModel::Null => Some(None),
            _ => match T::spec_convert(value) {
                Some(inner) => Some(Some(inner)),
                None => None,
            },
        }
    }

    fn try_convert_value_into(value: &Value) -> (result: Option<Self>) {
        match value {
            Value::Null => Some(None),
            _ => match T::try_convert_value_into(value) {
                Some(inner) => Some(Some(inner)),
                None => None,
            },
        }
    }
}

/// A value converts to `i64` exactly when it carries the `Integer` tag, and
/// the integer is preserved.
pub proof fn lemma_integer_extraction(value: ValueModel)
    ensures
        <i64 as ValueInto>::spec_convert(value) is Some <==> value is Integer,
        value matches ValueModel::Integer(i) ==> <i64 as ValueInto>::spec_convert(value) == Some(i),
{
}

/// A value converts to a float's bit pattern exactly when it carries the
/// `Float` tag, and the bits are preserved.
pub proof fn lemma_float_extraction(value: ValueModel)
    ensures
        <FloatBits as ValueInto>::spec_convert(value) is Some <==> value is Float,
        value matches ValueModel::Float(bits) ==> <FloatBits as ValueInto>::spec_convert(value)
            == Some(bits),
{
}

/// A value converts to text exactly when it carries the `Text` tag, and the
/// characters are preserved.
pub proof fn lemma_text_extraction(value: ValueModel)
    ensures
        <String as ValueInto>::spec_convert(value) is Some <==> value is Text,
        value matches ValueModel::Text(text) ==> <String as ValueInto>::spec_convert(value)
            == Some(text),
{
}

/// A value converts to a byte buffer exactly when it carries the `Blob` tag,
/// and the bytes are preserved.
pub proof fn lemma_blob_extraction(value: ValueModel)
    ensures
        <Vec<u8> as ValueInto>::spec_convert(value) is Some <==> value is Blob,
        value matches ValueModel::Blob(bytes) ==> <Vec<u8> as ValueInto>::spec_convert(value)
            == Some(bytes),
{
}

/// Every value converts to `Value` itself, unchanged.
pub proof fn lemma_identity_extraction(value: ValueModel)
    ensures
        <Value as ValueInto>::spec_convert(value) == Some(value),
{
}

/// `Null` converts to the empty case of `Option<T>` for every supported `T`;
/// any other value converts under `Option<T>` exactly as it converts under
/// `T`, wrapped in the present case.
pub proof fn lemma_optional_extraction<T: ValueInto>(value: ValueModel)
    ensures
        <Option<T> as ValueInto>::spec_convert(ValueModel::Null) == Some(None::<T::V>),
        !(value is Null) ==> <Option<T> as ValueInto>::spec_convert(value) == (match T::spec_convert(
            value,
        ) {
            Some(inner) => Some(Some(inner)),
            None => None,
        }),
{
}

} // verus!

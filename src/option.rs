use vstd::prelude::*;
use crate::data::PressioData;
use crate::dtype::Dtype;
use crate::error::PressioError;
use crate::text::{has_interior_nul, native_text, to_native_text};

verus! {

/// A configuration value of the native option system. Each kind is either
/// present (`Some`) or declared without a value (`None`), which fixes the
/// option's type only. Floating-point values travel as their IEEE-754 bit
/// patterns and user pointers as addresses.
#[derive(Debug)]
pub enum PressioOption {
    int8(Option<i8>),
    int16(Option<i16>),
    int32(Option<i32>),
    int64(Option<i64>),
    uint8(Option<u8>),
    uint16(Option<u16>),
    uint32(Option<u32>),
    uint64(Option<u64>),
    float32(Option<u32>),
    float64(Option<u64>),
    string(Option<String>),
    vec_string(Option<Vec<String>>),
    data(Option<PressioData>),
    user_ptr(Option<usize>),
    unset,
}

/// The native setter that a value is handed to, with its marshaled argument.
#[derive(Debug)]
pub enum SetterCall {
    Int8(i8),
    Int16(i16),
    Int32(i32),
    Int64(i64),
    UInt8(u8),
    UInt16(u16),
    UInt32(u32),
    UInt64(u64),
    Float(u32),
    Double(u64),
    Text(Vec<u8>),
    Texts(Vec<Vec<u8>>),
    Data(PressioData),
    UserPtr(usize),
    DeclareType(Dtype),
    NoCall,
}

/// The element type that a value declared without a value is tagged with.
pub open spec fn declared_type(o: PressioOption) -> Dtype {
    match o {
        PressioOption::int8(_) => Dtype::Int8,
        PressioOption::int16(_) => Dtype::Int16,
        PressioOption::int32(_) => Dtype::Int32,
        PressioOption::int64(_) => Dtype::Int64,
        PressioOption::uint8(_) => Dtype::UInt8,
        PressioOption::uint16(_) => Dtype::UInt16,
        PressioOption::uint32(_) => Dtype::UInt32,
        PressioOption::uint64(_) => Dtype::UInt64,
        PressioOption::float32(_) => Dtype::Float,
        PressioOption::float64(_) => Dtype::Double,
        _ => Dtype::UInt64,
    }
}

/// Every text that the value carries can be marshaled.
pub open spec fn option_marshals(o: PressioOption) -> bool {
    match o {
        PressioOption::string(Some(s)) => !has_interior_nul(s@),
        PressioOption::vec_string(Some(v)) => forall|i: int|
            0 <= i < v@.len() ==> !has_interior_nul(#[trigger] v@[i]@),
        _ => true,
    }
}

/// `c` is the native call that stores `o`.
pub open spec fn is_setter_call(o: PressioOption, c: SetterCall) -> bool {
    match o {
        PressioOption::int8(Some(x)) => c == SetterCall::Int8(x),
        PressioOption::int16(Some(x)) => c == SetterCall::Int16(x),
        PressioOption::int32(Some(x)) => c == SetterCall::Int32(x),
        PressioOption::int64(Some(x)) => c == SetterCall::Int64(x),
        PressioOption::uint8(Some(x)) => c == SetterCall::UInt8(x),
        PressioOption::uint16(Some(x)) => c == SetterCall::UInt16(x),
        PressioOption::uint32(Some(x)) => c == SetterCall::UInt32(x),
        PressioOption::uint64(Some(x)) => c == SetterCall::UInt64(x),
        PressioOption::float32(Some(x)) => c == SetterCall::Float(x),
        PressioOption::float64(Some(x)) => c == SetterCall::Double(x),
        PressioOption::string(Some(s)) => c matches SetterCall::Text(b) && b@ == native_text(s@),
        PressioOption::vec_string(Some(v)) => c matches SetterCall::Texts(bs) && bs@.len()
            == v@.len() && forall|i: int|
            0 <= i < v@.len() ==> (#[trigger] bs@[i])@ == native_text(v@[i]@),
        PressioOption::data(Some(d)) => c == SetterCall::Data(d),
        PressioOption::user_ptr(Some(p)) => c == SetterCall::UserPtr(p),
        PressioOption::unset => c == SetterCall::NoCall,
        _ => c == SetterCall::DeclareType(declared_type(o)),
    }
}

/// Marshals every text in `v`; the first one with an interior NUL fails the whole list.
fn marshal_texts(v: &Vec<String>) -> (r: Result<Vec<Vec<u8>>, PressioError>)
    ensures
        match r {
            Ok(bs) => bs@.len() == v@.len() && (forall|i: int|
                0 <= i < v@.len() ==> !has_interior_nul(#[trigger] v@[i]@)) && forall|i: int|
                0 <= i < v@.len() ==> (#[trigger] bs@[i])@ == native_text(v@[i]@),
            Err(e) => e.is_nul_error() && exists|i: int|
                0 <= i < v@.len() && has_interior_nul(#[trigger] v@[i]@),
        },
{
    let mut out: Vec<Vec<u8>> = Vec::new();
    let mut i: usize = 0;
    while i < v.len()
        invariant
            i <= v@.len(),
            out@.len() == i,
            forall|k: int| 0 <= k < i ==> !has_interior_nul(#[trigger] v@[k]@),
            forall|k: int| 0 <= k < i ==> (#[trigger] out@[k])@ == native_text(v@[k]@),
        decreases v@.len() - i,
    {
        match to_native_text(v[i].as_str()) {
            Ok(b) => {
                out.push(b);
            },
            Err(e) => {
                return Err(e);
            },
        }
        i = i + 1;
    }
    Ok(out)
}

/// Chooses the native setter for `option` and marshals its argument. Fails,
/// with the NUL error, exactly when a text that it carries holds a NUL.
pub fn setter_call(option: PressioOption) -> (r: Result<SetterCall, PressioError>)
    ensures
        r is Ok <==> option_marshals(option),
        match r {
            Ok(c) => is_setter_call(option, c),
            Err(e) => e.is_nul_error(),
        },
{
    match option {
        PressioOption::int8(Some(x)) => Ok(SetterCall::Int8(x)),
        PressioOption::int16(Some(x)) => Ok(SetterCall::Int16(x)),
        PressioOption::int32(Some(x)) => Ok(SetterCall::Int32(x)),
        PressioOption::int64(Some(x)) => Ok(SetterCall::Int64(x)),
        PressioOption::uint8(Some(x)) => Ok(SetterCall::UInt8(x)),
        PressioOption::uint16(Some(x)) => Ok(SetterCall::UInt16(x)),
        PressioOption::uint32(Some(x)) => Ok(SetterCall::UInt32(x)),
        PressioOption::uint64(Some(x)) => Ok(SetterCall::UInt64(x)),
        PressioOption::float32(Some(x)) => Ok(SetterCall::Float(x)),
        PressioOption::float64(Some(x)) => Ok(SetterCall::Double(x)),
        PressioOption::string(Some(s)) => match to_native_text(s.as_str()) {
            Ok(b) => Ok(SetterCall::Text(b)),
            Err(e) => Err(e),
        },
        PressioOption::vec_string(Some(v)) => match marshal_texts(&v) {
            Ok(bs) => Ok(SetterCall::Texts(bs)),
            Err(e) => Err(e),
        },
        PressioOption::data(Some(d)) => Ok(SetterCall::Data(d)),
        PressioOption::user_ptr(Some(p)) => Ok(SetterCall::UserPtr(p)),
        PressioOption::unset => Ok(SetterCall::NoCall),
        PressioOption::int8(None) => Ok(SetterCall::DeclareType(Dtype::Int8)),
        PressioOption::int16(None) => Ok(SetterCall::DeclareType(Dtype::Int16)),
        PressioOption::int32(None) => Ok(SetterCall::DeclareType(Dtype::Int32)),
        PressioOption::int64(None) => Ok(SetterCall::DeclareType(Dtype::Int64)),
        PressioOption::uint8(None) => Ok(SetterCall::DeclareType(Dtype::UInt8)),
        PressioOption::uint16(None) => Ok(SetterCall::DeclareType(Dtype::UInt16)),
        PressioOption::uint32(None) => Ok(SetterCall::DeclareType(Dtype::UInt32)),
        PressioOption::uint64(None) => Ok(SetterCall::DeclareType(Dtype::UInt64)),
        PressioOption::float32(None) => Ok(SetterCall::DeclareType(Dtype::Float)),
        PressioOption::float64(None) => Ok(SetterCall::DeclareType(Dtype::Double)),
        PressioOption::string(None) => Ok(SetterCall::DeclareType(Dtype::UInt64)),
        PressioOption::vec_string(None) => Ok(SetterCall::DeclareType(Dtype::UInt64)),
        PressioOption::data(None) => Ok(SetterCall::DeclareType(Dtype::UInt64)),
        PressioOption::user_ptr(None) => Ok(SetterCall::DeclareType(Dtype::UInt64)),
    }
}

} // verus!

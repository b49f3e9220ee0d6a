//! The SQL type of a parameter, told from its value where that is safe.

use crate::error::Error;
use crate::messages::{Kind, Value};
use crate::sql::{Type, TypeKind, TypeView};
use vstd::prelude::*;

verus! {

/// Why no type is told from a null.
pub const NULL_HAS_NO_TYPE: &'static str = "Cannot infer type of Null/None value. Please specify the explicit schema mapping manually using .with_type(...)";

/// Why no type is told from a float.
pub const FLOAT_PRECISION_OPEN: &'static str = "Cannot infer type of float. Please declare precision (either FLOAT32 or FLOAT64) manually using .with_type(...)";

/// Why no type is told from a container.
pub const CONTAINER_SCHEMA_OPEN: &'static str = "Cannot infer type of ARRAY/STRUCT/MAP parameters. Please declare schema manually using .with_type(...)";

/// The type told from what a value holds, or why none is: nulls have none, the
/// precision of a float is ambiguous, and the schema of a container is open.
pub open spec fn inferred(kind: Option<Kind>) -> Result<TypeView, Seq<char>> {
    match kind {
        None => Err(NULL_HAS_NO_TYPE@),
        Some(Kind::FloatValue(_)) => Err(FLOAT_PRECISION_OPEN@),
        Some(Kind::ArrayValue(_)) => Err(CONTAINER_SCHEMA_OPEN@),
        Some(Kind::BytesValue(_)) | Some(Kind::RawValue(_)) => Ok(TypeView::Bytes),
        Some(Kind::StringValue(_)) => Ok(TypeView::String),
        Some(Kind::IntValue(_)) | Some(Kind::RawTimestampMicros(_)) => Ok(TypeView::Int64),
        Some(Kind::BoolValue(_)) => Ok(TypeView::Bool),
        Some(Kind::TimestampValue(_)) => Ok(TypeView::Timestamp),
        Some(Kind::DateValue(_)) => Ok(TypeView::Date),
    }
}

/// The type under which a parameter is compiled: the declared one, else the one
/// told from the value.
pub open spec fn param_type(value: Value) -> Result<TypeView, Seq<char>> {
    match value.declared_type {
        Some(ty) => Ok(ty@),
        None => inferred(value.kind),
    }
}

/// `error` says that the type of the parameter `name` cannot be told, because of `why`.
pub open spec fn is_inference_failure(error: Error, name: Seq<char>, why: Seq<char>) -> bool {
    error matches Error::ParameterTypeInferenceFailed(field, detail) && field@ == name && detail@
        == why
}

/// Tells the SQL type of a value from what it holds. The error names no parameter:
/// the value alone does not know its name.
pub fn infer_type_from_value(value: &Value) -> (ty: Result<Type, Error>)
    ensures
        match inferred(value.kind) {
            Ok(view) => ty matches Ok(t) && t@ == view,
            Err(why) => ty matches Err(e) && is_inference_failure(e, Seq::empty(), why),
        },
{
    proof {
        reveal_with_fuel(Type::model, 2);
        reveal_with_fuel(TypeKind::model, 2);
    }
    match &value.kind {
        None => Err(
            Error::ParameterTypeInferenceFailed(String::new(), NULL_HAS_NO_TYPE.to_owned()),
        ),
        Some(Kind::FloatValue(_)) => Err(
            Error::ParameterTypeInferenceFailed(String::new(), FLOAT_PRECISION_OPEN.to_owned()),
        ),
        Some(Kind::ArrayValue(_)) => Err(
            Error::ParameterTypeInferenceFailed(String::new(), CONTAINER_SCHEMA_OPEN.to_owned()),
        ),
        Some(Kind::BytesValue(_)) | Some(Kind::RawValue(_)) => Ok(Type::of(TypeKind::BytesType)),
        Some(Kind::StringValue(_)) => Ok(Type::of(TypeKind::StringType)),
        Some(Kind::IntValue(_)) | Some(Kind::RawTimestampMicros(_)) => Ok(
            Type::of(TypeKind::Int64Type),
        ),
        Some(Kind::BoolValue(_)) => Ok(Type::of(TypeKind::BoolType)),
        Some(Kind::TimestampValue(_)) => Ok(Type::of(TypeKind::TimestampType)),
        Some(Kind::DateValue(_)) => Ok(Type::of(TypeKind::DateType)),
    }
}

/// The type of every parameter can be told.
pub open spec fn all_typed(params: Seq<(String, Value)>) -> bool {
    forall|k: int| 0 <= k < params.len() ==> param_type((#[trigger] params[k]).1) is Ok
}

/// The first parameter, in the order given, whose type cannot be told.
pub open spec fn first_untyped(params: Seq<(String, Value)>, at: int) -> bool {
    &&& 0 <= at < params.len()
    &&& param_type(params[at].1) is Err
    &&& forall|k: int| 0 <= k < at ==> param_type((#[trigger] params[k]).1) is Ok
}

/// Every parameter of `params` stands in `types` under its name and type, in order.
pub open spec fn types_of(types: Seq<(String, Type)>, params: Seq<(String, Value)>) -> bool {
    &&& types.len() == params.len()
    &&& forall|k: int|
        0 <= k < params.len() ==> (#[trigger] types[k]).0@ == params[k].0@ && Ok::<
            TypeView,
            Seq<char>,
        >(types[k].1@) == param_type(params[k].1)
}

/// The types of all parameters. Where the type of one cannot be told, the error names
/// the first such parameter.
pub fn infer_param_types(params: &Vec<(String, Value)>) -> (types: Result<
    Vec<(String, Type)>,
    Error,
>)
    ensures
        types is Ok <==> all_typed(params@),
        types matches Ok(ts) ==> types_of(ts@, params@),
        types matches Err(e) ==> exists|at: int|
            #[trigger] first_untyped(params@, at) && is_inference_failure(
                e,
                params@[at].0@,
                param_type(params@[at].1)->Err_0,
            ),
{
    let mut types: Vec<(String, Type)> = Vec::new();
    let mut i: usize = 0;
    while i < params.len()
        invariant
            i <= params@.len(),
            types_of(types@, params@.take(i as int)),
        decreases params@.len() - i,
    {
        let name = &params[i].0;
        let value = &params[i].1;
        let ghost before = types@;
        let ty = match &value.declared_type {
            Some(ty) => ty.duplicate(),
            None => match infer_type_from_value(value) {
                Ok(ty) => ty,
                Err(e) => {
                    proof {
                        assert forall|k: int| 0 <= k < i implies param_type(
                            (#[trigger] params@[k]).1,
                        ) is Ok by {
                            assert(before[k].0@ == params@.take(i as int)[k].0@);
                        }
                        assert(first_untyped(params@, i as int));
                    }
                    return Err(named(e, name));
                },
            },
        };
        types.push((name.clone(), ty));
        i += 1;
        proof {
            assert forall|k: int| 0 <= k < i implies (#[trigger] types@[k]).0@ == params@.take(
                i as int,
            )[k].0@ && Ok::<TypeView, Seq<char>>(types@[k].1@) == param_type(
                params@.take(i as int)[k].1,
            ) by {
                if k < i - 1 {
                    assert(types@[k] == before[k]);
                    assert(params@.take(i as int)[k] == params@.take(i - 1)[k]);
                }
            }
        }
    }
    proof {
        assert(params@.take(i as int) =~= params@);
        assert forall|k: int| 0 <= k < params@.len() implies param_type((#[trigger] params@[k]).1)
            is Ok by {
            assert(types@[k].0@ == params@[k].0@);
        }
    }
    Ok(types)
}

/// The same failure, with the name of the parameter that it is about.
fn named(error: Error, name: &String) -> (e: Error)
    ensures
        error matches Error::ParameterTypeInferenceFailed(_, detail)
            ==> is_inference_failure(e, name@, detail@),
        !(error is ParameterTypeInferenceFailed) ==> e == error,
{
    match error {
        Error::ParameterTypeInferenceFailed(_, detail) => {
            Error::ParameterTypeInferenceFailed(name.clone(), detail)
        },
        other => other,
    }
}

} // verus!

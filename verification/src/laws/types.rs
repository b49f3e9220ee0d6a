//! What types and values mean, told from the data itself.

use crate::client::{declared, is_made_for, BigTable};
use crate::error::Error;
use crate::inference::{
    all_typed, first_untyped, infer_param_types, infer_type_from_value, is_inference_failure,
    param_type, types_of,
};
use crate::messages::{
    duplicate_params, named_values, ExecuteQueryRequest, Kind, PrepareQueryRequest, Value,
};
use crate::prepare::{asks_to_compile, carries_types};
use crate::sql::{boxed_model, sql_of, sql_of_injective, SqlType, Type, TypeKind, TypeView};
use crate::statement::{typed_names, PreparedStatement};
use vstd::prelude::*;

verus! {

/// The schema type has the kind of the same name as the SQL type, and so have all its parts.
pub open spec fn same_kind(sql: SqlType, ty: Type) -> bool
    decreases sql,
{
    match (sql, ty.kind) {
        (SqlType::String, Some(TypeKind::StringType)) => true,
        (SqlType::Bytes, Some(TypeKind::BytesType)) => true,
        (SqlType::Int64, Some(TypeKind::Int64Type)) => true,
        (SqlType::Float32, Some(TypeKind::Float32Type)) => true,
        (SqlType::Float64, Some(TypeKind::Float64Type)) => true,
        (SqlType::Bool, Some(TypeKind::BoolType)) => true,
        (SqlType::Timestamp, Some(TypeKind::TimestampType)) => true,
        (SqlType::Date, Some(TypeKind::DateType)) => true,
        (SqlType::Array(element), Some(TypeKind::ArrayType(Some(of)))) => same_kind(*element, *of),
        (SqlType::Struct(fields), Some(TypeKind::StructType(of))) => {
            &&& fields@.len() == of@.len()
            &&& forall|i: int|
                0 <= i < fields@.len() ==> (#[trigger] of@[i]).field_name@ == fields@[i].0@
                    && of@[i].field_type is Some && same_kind(fields@[i].1, of@[i].field_type->0)
        },
        (
            SqlType::MapOf { key_type, value_type },
            Some(TypeKind::MapType(Some(key), Some(value))),
        ) => same_kind(*key_type, *key) && same_kind(*value_type, *value),
        _ => false,
    }
}

/// The boxed type is there and has a SQL type.
pub open spec fn boxed_has_sql_type(ty: Option<Box<Type>>) -> bool
    decreases ty,
{
    match ty {
        Some(inner) => has_sql_type(*inner),
        None => false,
    }
}

/// There is a SQL type of the schema type's kind: for a scalar, and for a container all of whose
/// parts are given and have one.
pub open spec fn has_sql_type(ty: Type) -> bool
    decreases ty,
{
    match ty.kind {
        Some(TypeKind::StructType(fields)) => forall|i: int|
            0 <= i < fields@.len() ==> (#[trigger] fields@[i]).field_type is Some && has_sql_type(
                fields@[i].field_type->0,
            ),
        Some(TypeKind::ArrayType(element)) => boxed_has_sql_type(element),
        Some(TypeKind::MapType(key, value)) => boxed_has_sql_type(key) && boxed_has_sql_type(value),
        Some(kind) => !(kind is AggregateType || kind is ProtoType || kind is EnumType),
        None => false,
    }
}

/// Just the schema types that have a SQL type denote one.
proof fn denotes_iff_has_sql_type(ty: Type)
    ensures
        has_sql_type(ty) <==> sql_of(ty@) is Some,
    decreases ty,
{
    reveal_with_fuel(Type::model, 3);
    reveal_with_fuel(TypeKind::model, 3);
    reveal_with_fuel(boxed_model, 3);
    reveal_with_fuel(sql_of, 3);
    reveal_with_fuel(boxed_has_sql_type, 2);
    reveal_with_fuel(has_sql_type, 3);
    match ty.kind {
        Some(TypeKind::StructType(fields)) => {
            let view = ty@->Struct_0;
            assert(view.len() == fields@.len());
            assert forall|i: int| 0 <= i < fields@.len() implies (view[i].1 is Some
                <==> fields@[i].field_type is Some) && (fields@[i].field_type is Some ==> (
            has_sql_type(fields@[i].field_type->0) <==> sql_of(view[i].1->0) is Some)) by {
                if let Some(inner) = fields@[i].field_type {
                    denotes_iff_has_sql_type(inner);
                }
            }
            if has_sql_type(ty) {
                assert forall|i: int| 0 <= i < view.len() implies (#[trigger] view[i]).1 is Some
                    && sql_of(view[i].1->0) is Some by {
                    assert(fields@[i].field_type is Some);
                }
            }
            if sql_of(ty@) is Some {
                assert forall|i: int| 0 <= i < fields@.len() implies (
                #[trigger] fields@[i]).field_type is Some && has_sql_type(
                    fields@[i].field_type->0,
                ) by {
                    assert(view[i].1 is Some);
                }
            }
        },
        Some(TypeKind::ArrayType(Some(element))) => {
            denotes_iff_has_sql_type(*element);
        },
        Some(TypeKind::MapType(Some(key), Some(value))) => {
            denotes_iff_has_sql_type(*key);
            denotes_iff_has_sql_type(*value);
        },
        _ => {},
    }
}

/// A schema type that denotes a SQL type is of its kind.
pub proof fn denoting_is_same_kind(sql: SqlType, ty: Type)
    requires
        sql_of(ty@) == Some(sql@),
    ensures
        same_kind(sql, ty),
    decreases sql,
{
    reveal_with_fuel(Type::model, 3);
    reveal_with_fuel(TypeKind::model, 3);
    reveal_with_fuel(boxed_model, 3);
    reveal_with_fuel(SqlType::model, 3);
    reveal_with_fuel(sql_of, 3);
    match (sql, ty.kind) {
        (SqlType::Array(element), Some(TypeKind::ArrayType(Some(of)))) => {
            denoting_is_same_kind(*element, *of);
        },
        (SqlType::Struct(fields), Some(TypeKind::StructType(of))) => {
            let told = sql_of(ty@)->0->Struct_0;
            let view = ty@->Struct_0;
            assert(told.len() == of@.len());
            assert(told.len() == fields@.len());
            assert forall|i: int| 0 <= i < fields@.len() implies (#[trigger] of@[i]).field_name@
                == fields@[i].0@ && of@[i].field_type is Some && same_kind(
                fields@[i].1,
                of@[i].field_type->0,
            ) by {
                assert(view[i].1 is Some);
                assert(told[i] == (fields@[i].0@, fields@[i].1@));
                denoting_is_same_kind(fields@[i].1, of@[i].field_type->0);
            }
        },
        (
            SqlType::MapOf { key_type, value_type },
            Some(TypeKind::MapType(Some(key), Some(value))),
        ) => {
            denoting_is_same_kind(*key_type, *key);
            denoting_is_same_kind(*value_type, *value);
        },
        _ => {},
    }
}

/// A schema type denotes the SQL type of its kind.
proof fn same_kind_denotes(sql: SqlType, ty: Type)
    requires
        same_kind(sql, ty),
    ensures
        sql_of(ty@) == Some(sql@),
    decreases sql,
{
    reveal_with_fuel(Type::model, 3);
    reveal_with_fuel(TypeKind::model, 3);
    reveal_with_fuel(boxed_model, 3);
    reveal_with_fuel(SqlType::model, 3);
    reveal_with_fuel(sql_of, 3);
    match (sql, ty.kind) {
        (SqlType::Array(element), Some(TypeKind::ArrayType(Some(of)))) => {
            same_kind_denotes(*element, *of);
        },
        (SqlType::Struct(fields), Some(TypeKind::StructType(of))) => {
            let view = ty@->Struct_0;
            assert forall|i: int| 0 <= i < view.len() implies (#[trigger] view[i]).1 is Some
                && sql_of(view[i].1->0) == Some(fields@[i].1@) && view[i].0 == fields@[i].0@ by {
                assert(of@[i].field_type is Some);
                same_kind_denotes(fields@[i].1, of@[i].field_type->0);
            }
            assert(sql_of(ty@) is Some);
            assert(sql_of(ty@)->0->Struct_0 =~= sql@->Struct_0);
        },
        (
            SqlType::MapOf { key_type, value_type },
            Some(TypeKind::MapType(Some(key), Some(value))),
        ) => {
            same_kind_denotes(*key_type, *key);
            same_kind_denotes(*value_type, *value);
        },
        _ => {},
    }
}

/// A SQL type is sent as the schema type of the same name: strings as strings, timestamps as
/// timestamps, and containers as containers of the types of their parts.
pub proof fn sql_types_are_sent_under_their_names(sql: SqlType, ty: Type)
    requires
        call_ensures(SqlType::to_pb, (&sql,), ty),
    ensures
        same_kind(sql, ty),
        sql is String ==> ty.kind == Some(TypeKind::StringType),
        sql is Bytes ==> ty.kind == Some(TypeKind::BytesType),
        sql is Int64 ==> ty.kind == Some(TypeKind::Int64Type),
        sql is Float32 ==> ty.kind == Some(TypeKind::Float32Type),
        sql is Float64 ==> ty.kind == Some(TypeKind::Float64Type),
        sql is Bool ==> ty.kind == Some(TypeKind::BoolType),
        sql is Timestamp ==> ty.kind == Some(TypeKind::TimestampType),
        sql is Date ==> ty.kind == Some(TypeKind::DateType),
        sql matches SqlType::Array(element) ==> (ty.kind matches Some(TypeKind::ArrayType(Some(of)))
            && same_kind(*element, *of)),
{
    denoting_is_same_kind(sql, ty);
}

/// A schema type is read as the SQL type of the same name, and as none only where there is no
/// such SQL type.
pub proof fn schema_types_are_read_under_their_names(ty: Type, sql: Option<SqlType>)
    requires
        call_ensures(SqlType::from_pb, (&ty,), sql),
    ensures
        match sql {
            Some(s) => same_kind(s, ty),
            None => !has_sql_type(ty),
        },
{
    match sql {
        Some(s) => {
            denoting_is_same_kind(s, ty);
        },
        None => {
            denotes_iff_has_sql_type(ty);
        },
    }
}

/// A value whose type is declared keeps what it holds and carries the schema type of that name.
pub proof fn declared_values_carry_their_type(value: Value, sql: SqlType, declared: Value)
    requires
        call_ensures(Value::with_type, (value, sql), declared),
    ensures
        declared.kind == value.kind,
        declared.declared_type matches Some(ty) && same_kind(sql, ty),
{
    denoting_is_same_kind(sql, declared.declared_type->0);
}

/// Two optional boxed types are the same.
pub open spec fn same_boxed(a: Option<Box<Type>>, b: Option<Box<Type>>) -> bool
    decreases a,
{
    match (a, b) {
        (Some(x), Some(y)) => same_type(*x, *y),
        (None, None) => true,
        _ => false,
    }
}

/// Two schema types are the same, part by part.
pub open spec fn same_type(a: Type, b: Type) -> bool
    decreases a,
{
    match (a.kind, b.kind) {
        (Some(TypeKind::StructType(x)), Some(TypeKind::StructType(y))) => {
            &&& x@.len() == y@.len()
            &&& forall|i: int|
                0 <= i < x@.len() ==> (#[trigger] x@[i]).field_name@ == y@[i].field_name@ && match (
                    x@[i].field_type,
                    y@[i].field_type,
                ) {
                    (Some(s), Some(t)) => same_type(s, t),
                    (None, None) => true,
                    _ => false,
                }
        },
        (Some(TypeKind::ArrayType(x)), Some(TypeKind::ArrayType(y))) => same_boxed(x, y),
        (Some(TypeKind::MapType(k, v)), Some(TypeKind::MapType(l, w))) => same_boxed(k, l)
            && same_boxed(v, w),
        (x, y) => x == y,
    }
}

/// Boxed types with one view are the same.
proof fn boxed_with_one_view_are_the_same(a: Option<Box<Type>>, b: Option<Box<Type>>)
    requires
        boxed_model(a) == boxed_model(b),
    ensures
        same_boxed(a, b),
    decreases a,
{
    match (a, b) {
        (Some(x), Some(y)) => {
            types_with_one_view_are_the_same(*x, *y);
        },
        _ => {},
    }
}

/// The view of a schema type tells all of it: types with one view are the same, part by part.
pub proof fn types_with_one_view_are_the_same(a: Type, b: Type)
    requires
        a@ == b@,
    ensures
        same_type(a, b),
    decreases a,
{
    reveal_with_fuel(Type::model, 2);
    reveal_with_fuel(TypeKind::model, 2);
    match (a.kind, b.kind) {
        (Some(TypeKind::StructType(x)), Some(TypeKind::StructType(y))) => {
            let va = a@->Struct_0;
            let vb = b@->Struct_0;
            assert(va.len() == x@.len() && vb.len() == y@.len());
            assert forall|i: int| 0 <= i < x@.len() implies (#[trigger] x@[i]).field_name@
                == y@[i].field_name@ && match (x@[i].field_type, y@[i].field_type) {
                (Some(s), Some(t)) => same_type(s, t),
                (None, None) => true,
                _ => false,
            } by {
                assert(va[i] == vb[i]);
                match (x@[i].field_type, y@[i].field_type) {
                    (Some(s), Some(t)) => {
                        types_with_one_view_are_the_same(s, t);
                    },
                    _ => {},
                }
            }
        },
        (Some(TypeKind::ArrayType(x)), Some(TypeKind::ArrayType(y))) => {
            boxed_with_one_view_are_the_same(x, y);
        },
        (Some(TypeKind::MapType(k, v)), Some(TypeKind::MapType(l, w))) => {
            boxed_with_one_view_are_the_same(k, l);
            boxed_with_one_view_are_the_same(v, w);
        },
        _ => {},
    }
}

/// Two parameter values are the same, part by part, with the types declared for them.
pub open spec fn same_value(a: Value, b: Value) -> bool
    decreases a,
{
    &&& match (a.declared_type, b.declared_type) {
        (Some(s), Some(t)) => same_type(s, t),
        (None, None) => true,
        _ => false,
    }
    &&& match (a.kind, b.kind) {
        (Some(Kind::RawValue(x)), Some(Kind::RawValue(y))) => x@ == y@,
        (Some(Kind::BytesValue(x)), Some(Kind::BytesValue(y))) => x@ == y@,
        (Some(Kind::StringValue(x)), Some(Kind::StringValue(y))) => x@ == y@,
        (Some(Kind::ArrayValue(x)), Some(Kind::ArrayValue(y))) => {
            &&& x@.len() == y@.len()
            &&& forall|i: int| 0 <= i < x@.len() ==> same_value(#[trigger] x@[i], y@[i])
        },
        (x, y) => x == y,
    }
}

/// The view of a value tells all of it: values with one view are the same, part by part.
pub proof fn values_with_one_view_are_the_same(a: Value, b: Value)
    requires
        a@ == b@,
    ensures
        same_value(a, b),
    decreases a,
{
    reveal_with_fuel(Value::model, 2);
    reveal_with_fuel(Kind::model, 2);
    match (a.declared_type, b.declared_type) {
        (Some(s), Some(t)) => {
            types_with_one_view_are_the_same(s, t);
        },
        _ => {},
    }
    match (a.kind, b.kind) {
        (Some(Kind::ArrayValue(x)), Some(Kind::ArrayValue(y))) => {
            let va = a@.kind->0->ArrayValue_0;
            let vb = b@.kind->0->ArrayValue_0;
            assert(va.len() == x@.len() && vb.len() == y@.len());
            assert forall|i: int| 0 <= i < x@.len() implies same_value(
                #[trigger] x@[i],
                y@[i],
            ) by {
                assert(va[i] == vb[i]);
                values_with_one_view_are_the_same(x@[i], y@[i]);
            }
        },
        _ => {},
    }
}

/// Two lists of parameters give the same values under the same names, in the same order.
pub open spec fn same_params(a: Seq<(String, Value)>, b: Seq<(String, Value)>) -> bool {
    &&& a.len() == b.len()
    &&& forall|i: int|
        0 <= i < a.len() ==> (#[trigger] a[i]).0@ == b[i].0@ && same_value(a[i].1, b[i].1)
}

/// The view of parameters tells all of them.
pub proof fn params_with_one_view_are_the_same(a: Seq<(String, Value)>, b: Seq<(String, Value)>)
    requires
        named_values(a) == named_values(b),
    ensures
        same_params(a, b),
{
    assert(named_values(a).len() == a.len() && named_values(b).len() == b.len());
    assert forall|i: int| 0 <= i < a.len() implies (#[trigger] a[i]).0@ == b[i].0@ && same_value(
        a[i].1,
        b[i].1,
    ) by {
        assert(named_values(a)[i] == named_values(b)[i]);
        values_with_one_view_are_the_same(a[i].1, b[i].1);
    }
}

/// Two requests to run a query ask for the same, field by field.
pub open spec fn same_request(a: ExecuteQueryRequest, b: ExecuteQueryRequest) -> bool {
    &&& a.instance_name@ == b.instance_name@
    &&& a.app_profile_id@ == b.app_profile_id@
    &&& a.query@ == b.query@
    &&& a.prepared_query@ == b.prepared_query@
    &&& a.resume_token@ == b.resume_token@
    &&& same_params(a.params@, b.params@)
    &&& a.data_format == b.data_format
}

/// The view of a request tells all of it.
pub proof fn requests_with_one_view_are_the_same(a: ExecuteQueryRequest, b: ExecuteQueryRequest)
    requires
        a@ == b@,
    ensures
        same_request(a, b),
{
    params_with_one_view_are_the_same(a.params@, b.params@);
}

/// Copies are the same as what they are copies of.
pub proof fn copies_are_the_same(
    ty: Type,
    ty_copy: Type,
    value: Value,
    value_copy: Value,
    params: Vec<(String, Value)>,
    params_copy: Vec<(String, Value)>,
    request: ExecuteQueryRequest,
    request_copy: ExecuteQueryRequest,
)
    requires
        call_ensures(Type::duplicate, (&ty,), ty_copy),
        call_ensures(Value::duplicate, (&value,), value_copy),
        call_ensures(duplicate_params, (&params,), params_copy),
        call_ensures(ExecuteQueryRequest::duplicate, (&request,), request_copy),
    ensures
        same_type(ty, ty_copy),
        same_value(value, value_copy),
        same_params(params@, params_copy@),
        same_request(request, request_copy),
{
    types_with_one_view_are_the_same(ty, ty_copy);
    values_with_one_view_are_the_same(value, value_copy);
    params_with_one_view_are_the_same(params@, params_copy@);
    requests_with_one_view_are_the_same(request, request_copy);
}

/// No type can be told from what a value holds: it is null, a float or a container.
pub open spec fn open_to_doubt(kind: Option<Kind>) -> bool {
    kind is None || kind->0 is FloatValue || kind->0 is ArrayValue
}

/// The schema type is the one that a scalar is of.
pub open spec fn is_type_of(ty: Type, kind: Kind) -> bool {
    &&& kind is BytesValue || kind is RawValue ==> ty.kind == Some(TypeKind::BytesType)
    &&& kind is StringValue ==> ty.kind == Some(TypeKind::StringType)
    &&& kind is IntValue || kind is RawTimestampMicros ==> ty.kind == Some(TypeKind::Int64Type)
    &&& kind is BoolValue ==> ty.kind == Some(TypeKind::BoolType)
    &&& kind is TimestampValue ==> ty.kind == Some(TypeKind::TimestampType)
    &&& kind is DateValue ==> ty.kind == Some(TypeKind::DateType)
}

/// Why no type is told from a value, in the words that the caller reads.
pub open spec fn says_why(detail: Seq<char>, kind: Option<Kind>) -> bool {
    match kind {
        None => detail
            == "Cannot infer type of Null/None value. Please specify the explicit schema mapping manually using .with_type(...)"@,
        Some(Kind::FloatValue(_)) => detail
            == "Cannot infer type of float. Please declare precision (either FLOAT32 or FLOAT64) manually using .with_type(...)"@,
        _ => detail
            == "Cannot infer type of ARRAY/STRUCT/MAP parameters. Please declare schema manually using .with_type(...)"@,
    }
}

/// The type of every scalar is told from the value, and only nulls, floats and containers are
/// turned down, each with its reason.
pub proof fn scalars_have_their_types(value: Value, ty: Result<Type, Error>)
    requires
        call_ensures(infer_type_from_value, (&value,), ty),
    ensures
        ty is Err <==> open_to_doubt(value.kind),
        ty matches Ok(t) ==> is_type_of(t, value.kind->0),
        ty matches Err(e) ==> (e matches Error::ParameterTypeInferenceFailed(field, detail)
            && field@.len() == 0 && says_why(detail@, value.kind)),
{
    reveal_with_fuel(Type::model, 2);
    reveal_with_fuel(TypeKind::model, 2);
}

/// A parameter's type is neither declared nor told from its value.
pub open spec fn lacks_type(value: Value) -> bool {
    value.declared_type is None && open_to_doubt(value.kind)
}

/// The types of parameters are told exactly where each has one: the declared type, else that of
/// the scalar, under the parameter's name. The error names the first parameter that has none.
pub proof fn parameters_have_their_types(
    params: Vec<(String, Value)>,
    types: Result<Vec<(String, Type)>, Error>,
)
    requires
        call_ensures(infer_param_types, (&params,), types),
    ensures
        types is Err <==> exists|i: int| 0 <= i < params@.len() && lacks_type(
            (#[trigger] params@[i]).1,
        ),
        types matches Ok(ts) ==> {
            &&& ts@.len() == params@.len()
            &&& forall|i: int|
                0 <= i < params@.len() ==> (#[trigger] ts@[i]).0@ == params@[i].0@ && match params@[
                i].1.declared_type {
                    Some(declared) => same_type(ts@[i].1, declared),
                    None => is_type_of(ts@[i].1, params@[i].1.kind->0),
                }
        },
        types matches Err(e) ==> exists|i: int|
            {
                &&& 0 <= i < params@.len()
                &&& lacks_type((#[trigger] params@[i]).1)
                &&& forall|j: int| 0 <= j < i ==> !lacks_type((#[trigger] params@[j]).1)
                &&& e matches Error::ParameterTypeInferenceFailed(field, detail) && field@
                    == params@[i].0@ && says_why(detail@, params@[i].1.kind)
            },
{
    typed_unless_lacking(params@);
    match types {
        Ok(ts) => {
            types_are_those_of(ts@, params@);
        },
        Err(e) => {
            failures_name_the_first(params@, e);
        },
    }
}

/// All parameters have types just where none lacks one.
pub proof fn typed_unless_lacking(params: Seq<(String, Value)>)
    ensures
        all_typed(params) <==> !exists|i: int| 0 <= i < params.len() && lacks_type(
            (#[trigger] params[i]).1,
        ),
{
    assert forall|i: int| 0 <= i < params.len() implies (param_type((#[trigger] params[i]).1) is Err
        <==> lacks_type(params[i].1)) by {
    }
}

/// The types of parameters are the declared ones, else those of the scalars.
pub proof fn types_are_those_of(types: Seq<(String, Type)>, params: Seq<(String, Value)>)
    requires
        types_of(types, params),
    ensures
        types.len() == params.len(),
        forall|i: int|
            0 <= i < params.len() ==> (#[trigger] types[i]).0@ == params[i].0@ && match params[
            i].1.declared_type {
                Some(declared) => same_type(types[i].1, declared),
                None => is_type_of(types[i].1, params[i].1.kind->0),
            },
{
    reveal_with_fuel(Type::model, 2);
    reveal_with_fuel(TypeKind::model, 2);
    assert forall|i: int| 0 <= i < params.len() implies (#[trigger] types[i]).0@ == params[i].0@
        && match params[i].1.declared_type {
        Some(declared) => same_type(types[i].1, declared),
        None => is_type_of(types[i].1, params[i].1.kind->0),
    } by {
        assert(Ok::<TypeView, Seq<char>>(types[i].1@) == param_type(params[i].1));
        if let Some(declared) = params[i].1.declared_type {
            types_with_one_view_are_the_same(types[i].1, declared);
        }
    }
}

/// A failure to tell the types names the first parameter that lacks one, and says why.
pub proof fn failures_name_the_first(params: Seq<(String, Value)>, e: Error)
    requires
        exists|at: int|
            #[trigger] first_untyped(params, at) && is_inference_failure(
                e,
                params[at].0@,
                param_type(params[at].1)->Err_0,
            ),
    ensures
        exists|i: int|
            {
                &&& 0 <= i < params.len()
                &&& lacks_type((#[trigger] params[i]).1)
                &&& forall|j: int| 0 <= j < i ==> !lacks_type((#[trigger] params[j]).1)
                &&& e matches Error::ParameterTypeInferenceFailed(field, detail) && field@
                    == params[i].0@ && says_why(detail@, params[i].1.kind)
            },
{
    let at = choose|at: int|
        #[trigger] first_untyped(params, at) && is_inference_failure(
            e,
            params[at].0@,
            param_type(params[at].1)->Err_0,
        );
    assert(lacks_type(params[at].1));
    assert forall|j: int| 0 <= j < at implies !lacks_type((#[trigger] params[j]).1) by {
        assert(param_type(params[j].1) is Ok);
    }
}

/// What a statement declares for a parameter: the SQL type of the schema type's name, or bytes
/// where there is none.
pub open spec fn is_declared_for(sql: SqlType, ty: Type) -> bool {
    if has_sql_type(ty) {
        same_kind(sql, ty)
    } else {
        sql is Bytes
    }
}

/// The statement made for a request to compile a query has its text, profile and parameters; each
/// parameter is declared under its name, as the SQL type of the schema type's name.
pub proof fn statements_declare_what_was_asked(
    request: PrepareQueryRequest,
    now: u64,
    statement: PreparedStatement,
)
    requires
        call_ensures(BigTable::statement_for, (&request, now), statement),
    ensures
        statement.inner.query@ == request.query@,
        statement.inner.app_profile_id@ == request.app_profile_id@,
        statement.inner.base_instant == now,
        statement.inner.last_executed_seconds == 0,
        statement.inner.param_types@.len() == request.param_types@.len(),
        forall|i: int|
            0 <= i < request.param_types@.len() ==> (#[trigger] statement.inner.param_types@[i]).0@
                == request.param_types@[i].0@ && is_declared_for(
                statement.inner.param_types@[i].1,
                request.param_types@[i].1,
            ),
{
    made_statements_declare_what_was_asked(request, now, statement);
}

/// The same of every statement that counts as made for the request.
pub proof fn made_statements_declare_what_was_asked(
    request: PrepareQueryRequest,
    now: u64,
    statement: PreparedStatement,
)
    requires
        is_made_for(statement, request, now),
    ensures
        statement.inner.query@ == request.query@,
        statement.inner.app_profile_id@ == request.app_profile_id@,
        statement.inner.plan_state@ is None,
        statement.inner.base_instant == now,
        statement.inner.last_executed_seconds == 0,
        statement.inner.param_types@.len() == request.param_types@.len(),
        forall|i: int|
            0 <= i < request.param_types@.len() ==> (#[trigger] statement.inner.param_types@[i]).0@
                == request.param_types@[i].0@ && is_declared_for(
                statement.inner.param_types@[i].1,
                request.param_types@[i].1,
            ),
{
    let made = statement.inner.param_types@;
    let asked = request.param_types@;
    assert(typed_names(made).len() == made.len());
    assert(declared(asked).len() == asked.len());
    assert forall|i: int| 0 <= i < asked.len() implies (#[trigger] made[i]).0@ == asked[i].0@
        && is_declared_for(made[i].1, asked[i].1) by {
        assert(typed_names(made)[i] == declared(asked)[i]);
        denotes_iff_has_sql_type(asked[i].1);
        if has_sql_type(asked[i].1) {
            denoting_is_same_kind(made[i].1, asked[i].1);
        } else {
            reveal_with_fuel(SqlType::model, 2);
        }
    }
}

/// The request that compiles a statement names the instance and carries the statement's text,
/// profile and parameters, each under its name and as the schema type of its SQL type's name.
pub proof fn compile_requests_say_what_is_declared(
    statement: PreparedStatement,
    instance_prefix: &str,
    request: PrepareQueryRequest,
)
    requires
        call_ensures(PreparedStatement::prepare_request, (&statement, instance_prefix), request),
    ensures
        compiles(request, statement, instance_prefix@),
{
    asking_compiles(request, statement, instance_prefix@);
}

/// `request` compiles `statement`, field by field.
pub open spec fn compiles(
    request: PrepareQueryRequest,
    statement: PreparedStatement,
    instance_prefix: Seq<char>,
) -> bool {
    &&& request.instance_name@ == instance_prefix
    &&& request.app_profile_id@ == statement.inner.app_profile_id@
    &&& request.query@ == statement.inner.query@
    &&& request.data_format is None
    &&& request.param_types@.len() == statement.inner.param_types@.len()
    &&& forall|i: int|
        0 <= i < request.param_types@.len() ==> (#[trigger] request.param_types@[i]).0@
            == statement.inner.param_types@[i].0@ && same_kind(
            statement.inner.param_types@[i].1,
            request.param_types@[i].1,
        )
}

/// A request that asks to compile a statement compiles it, field by field.
pub proof fn asking_compiles(
    request: PrepareQueryRequest,
    statement: PreparedStatement,
    instance_prefix: Seq<char>,
)
    requires
        asks_to_compile(request, statement@, instance_prefix),
    ensures
        compiles(request, statement, instance_prefix),
{
    let sent = request.param_types@;
    let held = statement.inner.param_types@;
    assert(typed_names(held).len() == held.len());
    assert(carries_types(sent, typed_names(held)));
    assert forall|i: int| 0 <= i < sent.len() implies (#[trigger] sent[i]).0@ == held[i].0@
        && same_kind(held[i].1, sent[i].1) by {
        assert(typed_names(held)[i] == (held[i].0@, held[i].1@));
        denoting_is_same_kind(held[i].1, sent[i].1);
    }
}

/// A query is compiled under the very types that it was asked to be compiled under: what the
/// statement's own request carries for a parameter is the schema type of the request that the
/// statement was made for, or bytes where that names no SQL type.
pub proof fn queries_are_compiled_under_the_types_asked_for(
    asked: PrepareQueryRequest,
    now: u64,
    statement: PreparedStatement,
    instance_prefix: &str,
    sent: PrepareQueryRequest,
)
    requires
        call_ensures(BigTable::statement_for, (&asked, now), statement),
        call_ensures(PreparedStatement::prepare_request, (&statement, instance_prefix), sent),
    ensures
        sent.query@ == asked.query@,
        sent.app_profile_id@ == asked.app_profile_id@,
        sent.param_types@.len() == asked.param_types@.len(),
        forall|i: int|
            0 <= i < asked.param_types@.len() ==> (#[trigger] sent.param_types@[i]).0@
                == asked.param_types@[i].0@ && if has_sql_type(asked.param_types@[i].1) {
                same_type(sent.param_types@[i].1, asked.param_types@[i].1)
            } else {
                sent.param_types@[i].1.kind == Some(TypeKind::BytesType)
            },
{
    statements_declare_what_was_asked(asked, now, statement);
    compile_requests_say_what_is_declared(statement, instance_prefix, sent);
    assert forall|i: int| 0 <= i < asked.param_types@.len() implies (
    #[trigger] sent.param_types@[i]).0@ == asked.param_types@[i].0@ && if has_sql_type(
        asked.param_types@[i].1,
    ) {
        same_type(sent.param_types@[i].1, asked.param_types@[i].1)
    } else {
        sent.param_types@[i].1.kind == Some(TypeKind::BytesType)
    } by {
        let sql = statement.inner.param_types@[i].1;
        let from = asked.param_types@[i].1;
        let to = sent.param_types@[i].1;
        assert(is_declared_for(sql, from));
        assert(same_kind(sql, to));
        if has_sql_type(from) {
            same_kind_denotes(sql, from);
            same_kind_denotes(sql, to);
            sql_of_injective(to@, from@);
            types_with_one_view_are_the_same(to, from);
        }
    }
}

} // verus!

//! SQL types of query parameters, and the schema types that stand for them in
//! requests.

use vstd::prelude::*;

verus! {

/// A schema type as requests carry it.
#[derive(Debug)]
pub struct Type {
    pub kind: Option<TypeKind>,
}

/// The kinds of schema types. Encodings are left out: a compiled query does not
/// depend on them.
#[derive(Debug)]
pub enum TypeKind {
    BytesType,
    StringType,
    Int64Type,
    Float32Type,
    Float64Type,
    BoolType,
    TimestampType,
    DateType,
    AggregateType,
    StructType(Vec<StructField>),
    ArrayType(Option<Box<Type>>),
    MapType(Option<Box<Type>>, Option<Box<Type>>),
    ProtoType,
    EnumType,
}

/// A field of a struct type.
#[derive(Debug)]
pub struct StructField {
    pub field_name: String,
    pub field_type: Option<Type>,
}

/// A schema type as a mathematical value.
pub enum TypeView {
    Unset,
    Bytes,
    String,
    Int64,
    Float32,
    Float64,
    Bool,
    Timestamp,
    Date,
    Aggregate,
    Struct(Seq<(Seq<char>, Option<TypeView>)>),
    Array(Option<Box<TypeView>>),
    MapOf(Option<Box<TypeView>>, Option<Box<TypeView>>),
    Proto,
    Enum,
}

/// The SQL type of a query parameter.
#[derive(Debug)]
pub enum SqlType {
    String,
    Bytes,
    Int64,
    Float32,
    Float64,
    Bool,
    Timestamp,
    Date,
    Array(Box<SqlType>),
    Struct(Vec<(String, SqlType)>),
    MapOf { key_type: Box<SqlType>, value_type: Box<SqlType> },
}

/// A SQL type as a mathematical value.
pub enum SqlTypeView {
    String,
    Bytes,
    Int64,
    Float32,
    Float64,
    Bool,
    Timestamp,
    Date,
    Array(Box<SqlTypeView>),
    Struct(Seq<(Seq<char>, SqlTypeView)>),
    MapOf(Box<SqlTypeView>, Box<SqlTypeView>),
}

impl SqlType {
    pub open spec fn model(self) -> SqlTypeView
        decreases self,
    {
        match self {
            SqlType::String => SqlTypeView::String,
            SqlType::Bytes => SqlTypeView::Bytes,
            SqlType::Int64 => SqlTypeView::Int64,
            SqlType::Float32 => SqlTypeView::Float32,
            SqlType::Float64 => SqlTypeView::Float64,
            SqlType::Bool => SqlTypeView::Bool,
            SqlType::Timestamp => SqlTypeView::Timestamp,
            SqlType::Date => SqlTypeView::Date,
            SqlType::Array(element) => SqlTypeView::Array(Box::new(element.model())),
            SqlType::Struct(fields) => SqlTypeView::Struct(
                Seq::new(
                    fields@.len(),
                    |i: int|
                        if 0 <= i < fields@.len() {
                            (fields@[i].0@, fields@[i].1.model())
                        } else {
                            arbitrary()
                        },
                ),
            ),
            SqlType::MapOf { key_type, value_type } => SqlTypeView::MapOf(
                Box::new(key_type.model()),
                Box::new(value_type.model()),
            ),
        }
    }
}

/// The view of an optional boxed type.
pub open spec fn boxed_model(ty: Option<Box<Type>>) -> Option<Box<TypeView>>
    decreases ty,
{
    match ty {
        Some(inner) => Some(Box::new((*inner).model())),
        None => None,
    }
}

impl Type {
    pub open spec fn model(self) -> TypeView
        decreases self,
    {
        match self.kind {
            None => TypeView::Unset,
            Some(kind) => kind.model(),
        }
    }
}

impl TypeKind {
    pub open spec fn model(self) -> TypeView
        decreases self,
    {
        match self {
            TypeKind::BytesType => TypeView::Bytes,
            TypeKind::StringType => TypeView::String,
            TypeKind::Int64Type => TypeView::Int64,
            TypeKind::Float32Type => TypeView::Float32,
            TypeKind::Float64Type => TypeView::Float64,
            TypeKind::BoolType => TypeView::Bool,
            TypeKind::TimestampType => TypeView::Timestamp,
            TypeKind::DateType => TypeView::Date,
            TypeKind::AggregateType => TypeView::Aggregate,
            TypeKind::StructType(fields) => TypeView::Struct(
                Seq::new(
                    fields@.len(),
                    |i: int|
                        if 0 <= i < fields@.len() {
                            (
                                fields@[i].field_name@,
                                match fields@[i].field_type {
                                    Some(ty) => Some(ty.model()),
                                    None => None,
                                },
                            )
                        } else {
                            arbitrary()
                        },
                ),
            ),
            TypeKind::ArrayType(element) => TypeView::Array(boxed_model(element)),
            TypeKind::MapType(key, value) => TypeView::MapOf(boxed_model(key), boxed_model(value)),
            TypeKind::ProtoType => TypeView::Proto,
            TypeKind::EnumType => TypeView::Enum,
        }
    }
}

impl View for Type {
    type V = TypeView;

    open spec fn view(&self) -> TypeView {
        self.model()
    }
}

impl View for SqlType {
    type V = SqlTypeView;

    open spec fn view(&self) -> SqlTypeView {
        self.model()
    }
}

/// The SQL type that a schema type denotes, where it denotes one: a container does
/// where all that it contains does.
pub open spec fn sql_of(ty: TypeView) -> Option<SqlTypeView>
    decreases ty,
{
    match ty {
        TypeView::Bytes => Some(SqlTypeView::Bytes),
        TypeView::String => Some(SqlTypeView::String),
        TypeView::Int64 => Some(SqlTypeView::Int64),
        TypeView::Float32 => Some(SqlTypeView::Float32),
        TypeView::Float64 => Some(SqlTypeView::Float64),
        TypeView::Bool => Some(SqlTypeView::Bool),
        TypeView::Timestamp => Some(SqlTypeView::Timestamp),
        TypeView::Date => Some(SqlTypeView::Date),
        TypeView::Struct(fields) => if forall|i: int|
            0 <= i < fields.len() ==> (#[trigger] fields[i]).1 is Some && sql_of(
                fields[i].1->0,
            ) is Some {
            Some(
                SqlTypeView::Struct(
                    Seq::new(
                        fields.len(),
                        |i: int|
                            if 0 <= i < fields.len() && fields[i].1 is Some {
                                (fields[i].0, sql_of(fields[i].1->0)->0)
                            } else {
                                arbitrary()
                            },
                    ),
                ),
            )
        } else {
            None
        },
        TypeView::Array(Some(element)) => match sql_of(*element) {
            Some(inner) => Some(SqlTypeView::Array(Box::new(inner))),
            None => None,
        },
        TypeView::MapOf(Some(key), Some(value)) => match (sql_of(*key), sql_of(*value)) {
            (Some(k), Some(v)) => Some(SqlTypeView::MapOf(Box::new(k), Box::new(v))),
            _ => None,
        },
        _ => None,
    }
}

/// A copy of an optional boxed type.
fn duplicate_boxed(ty: &Option<Box<Type>>) -> (copy: Option<Box<Type>>)
    ensures
        boxed_model(copy) == boxed_model(*ty),
    decreases ty,
{
    match ty {
        Some(inner) => Some(Box::new(inner.duplicate())),
        None => None,
    }
}

impl Type {
    /// A type of the given kind.
    pub fn of(kind: TypeKind) -> (ty: Type)
        ensures
            ty.kind == Some(kind),
    {
        Type { kind: Some(kind) }
    }

    /// A copy that denotes the same type.
    pub fn duplicate(&self) -> (copy: Type)
        ensures
            copy@ == self@,
        decreases self,
    {
        match &self.kind {
            None => Type { kind: None },
            Some(kind) => Type { kind: Some(kind.duplicate()) },
        }
    }
}

impl TypeKind {
    /// A copy that denotes the same type.
    pub fn duplicate(&self) -> (copy: TypeKind)
        ensures
            copy.model() == self.model(),
        decreases self,
    {
        match self {
            TypeKind::BytesType => TypeKind::BytesType,
            TypeKind::StringType => TypeKind::StringType,
            TypeKind::Int64Type => TypeKind::Int64Type,
            TypeKind::Float32Type => TypeKind::Float32Type,
            TypeKind::Float64Type => TypeKind::Float64Type,
            TypeKind::BoolType => TypeKind::BoolType,
            TypeKind::TimestampType => TypeKind::TimestampType,
            TypeKind::DateType => TypeKind::DateType,
            TypeKind::AggregateType => TypeKind::AggregateType,
            TypeKind::StructType(fields) => {
                let mut copies: Vec<StructField> = Vec::new();
                let mut i: usize = 0;
                while i < fields.len()
                    invariant
                        i <= fields@.len(),
                        copies@.len() == i,
                        decreases_to!(self => fields@),
                        forall|k: int|
                            0 <= k < i ==> (#[trigger] copies@[k]).field_name@
                                == fields@[k].field_name@ && copies@[k].field_type is Some
                                == fields@[k].field_type is Some && (copies@[k].field_type is Some
                                ==> copies@[k].field_type->0@ == fields@[k].field_type->0@),
                    decreases fields@.len() - i,
                {
                    let field = &fields[i];
                    assert(decreases_to!(fields@ => fields@[i as int]));
                    let field_type = match &field.field_type {
                        Some(ty) => Some(ty.duplicate()),
                        None => None,
                    };
                    copies.push(StructField { field_name: field.field_name.clone(), field_type });
                    i += 1;
                }
                let copy = TypeKind::StructType(copies);
                assert(copy.model()->Struct_0 =~= self.model()->Struct_0);
                copy
            },
            TypeKind::ArrayType(element) => TypeKind::ArrayType(duplicate_boxed(element)),
            TypeKind::MapType(key, value) => TypeKind::MapType(
                duplicate_boxed(key),
                duplicate_boxed(value),
            ),
            TypeKind::ProtoType => TypeKind::ProtoType,
            TypeKind::EnumType => TypeKind::EnumType,
        }
    }
}

impl SqlType {
    /// The schema type that stands for this SQL type in a request.
    pub fn to_pb(&self) -> (ty: Type)
        ensures
            sql_of(ty@) == Some(self@),
        decreases self,
    {
        proof {
            reveal_with_fuel(Type::model, 3);
            reveal_with_fuel(TypeKind::model, 3);
            reveal_with_fuel(boxed_model, 3);
        }
        match self {
            SqlType::String => Type::of(TypeKind::StringType),
            SqlType::Bytes => Type::of(TypeKind::BytesType),
            SqlType::Int64 => Type::of(TypeKind::Int64Type),
            SqlType::Float32 => Type::of(TypeKind::Float32Type),
            SqlType::Float64 => Type::of(TypeKind::Float64Type),
            SqlType::Bool => Type::of(TypeKind::BoolType),
            SqlType::Timestamp => Type::of(TypeKind::TimestampType),
            SqlType::Date => Type::of(TypeKind::DateType),
            SqlType::Array(element) => {
                Type::of(TypeKind::ArrayType(Some(Box::new(element.to_pb()))))
            },
            SqlType::Struct(fields) => {
                let mut out: Vec<StructField> = Vec::new();
                let mut i: usize = 0;
                while i < fields.len()
                    invariant
                        i <= fields@.len(),
                        out@.len() == i,
                        decreases_to!(self => fields@),
                        forall|k: int|
                            0 <= k < i ==> (#[trigger] out@[k]).field_name@ == fields@[k].0@
                                && out@[k].field_type is Some && sql_of(
                                out@[k].field_type->0@,
                            ) == Some(fields@[k].1@),
                    decreases fields@.len() - i,
                {
                    let field = &fields[i];
                    assert(decreases_to!(fields@ => fields@[i as int]));
                    out.push(
                        StructField {
                            field_name: field.0.clone(),
                            field_type: Some(field.1.to_pb()),
                        },
                    );
                    i += 1;
                }
                let ty = Type::of(TypeKind::StructType(out));
                proof {
                    let model = ty@->Struct_0;
                    assert forall|k: int| 0 <= k < model.len() implies (#[trigger] model[k]).1
                        is Some && sql_of(model[k].1->0) is Some by {
                        assert(out@[k].field_type is Some);
                    }
                    assert(sql_of(ty@) is Some);
                    assert(sql_of(ty@)->0->Struct_0 =~= self@->Struct_0);
                }
                ty
            },
            SqlType::MapOf { key_type, value_type } => Type::of(
                TypeKind::MapType(Some(Box::new(key_type.to_pb())), Some(Box::new(value_type.to_pb()))),
            ),
        }
    }

    /// The SQL type that a schema type stands for; `None` where there is none.
    pub fn from_pb(ty: &Type) -> (sql: Option<SqlType>)
        ensures
            sql is Some <==> sql_of(ty@) is Some,
            sql matches Some(s) ==> sql_of(ty@) == Some(s@),
        decreases ty,
    {
        proof {
            reveal_with_fuel(Type::model, 3);
            reveal_with_fuel(TypeKind::model, 3);
            reveal_with_fuel(boxed_model, 3);
        }
        match &ty.kind {
            None => None,
            Some(kind) => match kind {
                TypeKind::BytesType => Some(SqlType::Bytes),
                TypeKind::StringType => Some(SqlType::String),
                TypeKind::Int64Type => Some(SqlType::Int64),
                TypeKind::Float32Type => Some(SqlType::Float32),
                TypeKind::Float64Type => Some(SqlType::Float64),
                TypeKind::BoolType => Some(SqlType::Bool),
                TypeKind::TimestampType => Some(SqlType::Timestamp),
                TypeKind::DateType => Some(SqlType::Date),
                TypeKind::StructType(fields) => {
                    let mut out: Vec<(String, SqlType)> = Vec::new();
                    let mut i: usize = 0;
                    let ghost model = ty@->Struct_0;
                    while i < fields.len()
                        invariant
                            i <= fields@.len(),
                            out@.len() == i,
                            ty@ == TypeView::Struct(model),
                            model.len() == fields@.len(),
                            forall|k: int|
                                0 <= k < fields@.len() ==> (#[trigger] model[k]).0
                                    == fields@[k].field_name@ && (model[k].1 is Some
                                    == fields@[k].field_type is Some) && (model[k].1 is Some
                                    ==> model[k].1->0 == fields@[k].field_type->0@),
                            decreases_to!(ty => fields@),
                            forall|k: int|
                                0 <= k < i ==> (#[trigger] out@[k]).0@ == model[k].0 && model[k].1
                                    is Some && sql_of(model[k].1->0) == Some(out@[k].1@),
                        decreases fields@.len() - i,
                    {
                        let field = &fields[i];
                        assert(decreases_to!(fields@ => fields@[i as int]));
                        let ghost at = model[i as int];
                        match &field.field_type {
                            None => {
                                return None;
                            },
                            Some(field_type) => {
                                match SqlType::from_pb(field_type) {
                                    None => {
                                        return None;
                                    },
                                    Some(inner) => {
                                        out.push((field.field_name.clone(), inner));
                                    },
                                }
                            },
                        }
                        i += 1;
                    }
                    let sql = SqlType::Struct(out);
                    proof {
                        assert forall|k: int| 0 <= k < model.len() implies (#[trigger] model[k]).1
                            is Some && sql_of(model[k].1->0) is Some by {
                            assert(out@[k].0@ == model[k].0);
                        }
                        assert(sql_of(ty@)->0->Struct_0 =~= sql@->Struct_0);
                    }
                    Some(sql)
                },
                TypeKind::ArrayType(element) => match element {
                    None => None,
                    Some(inner) => match SqlType::from_pb(inner) {
                        None => None,
                        Some(sql) => Some(SqlType::Array(Box::new(sql))),
                    },
                },
                TypeKind::MapType(key, value) => match (key, value) {
                    (Some(k), Some(v)) => match (SqlType::from_pb(k), SqlType::from_pb(v)) {
                        (Some(key_type), Some(value_type)) => Some(
                            SqlType::MapOf {
                                key_type: Box::new(key_type),
                                value_type: Box::new(value_type),
                            },
                        ),
                        _ => None,
                    },
                    _ => None,
                },
                TypeKind::AggregateType => None,
                TypeKind::ProtoType => None,
                TypeKind::EnumType => None,
            },
        }
    }
}

/// Two schema types that denote the same SQL type are the same, so the types of a
/// request can be read back from the SQL types of its parameters.
pub proof fn sql_of_injective(a: TypeView, b: TypeView)
    requires
        sql_of(a) is Some,
        sql_of(a) == sql_of(b),
    ensures
        a == b,
    decreases a,
{
    match (a, b) {
        (TypeView::Struct(fa), TypeView::Struct(fb)) => {
            let sa = sql_of(a)->0->Struct_0;
            let sb = sql_of(b)->0->Struct_0;
            assert(sa.len() == fa.len() && sb.len() == fb.len());
            assert forall|i: int| 0 <= i < fa.len() implies fa[i] == fb[i] by {
                assert(sa[i] == sb[i]);
                assert(fa[i].1 is Some && fb[i].1 is Some);
                sql_of_injective(fa[i].1->0, fb[i].1->0);
            }
            assert(fa =~= fb);
        },
        (TypeView::Array(Some(ea)), TypeView::Array(Some(eb))) => {
            sql_of_injective(*ea, *eb);
        },
        (TypeView::MapOf(Some(ka), Some(va)), TypeView::MapOf(Some(kb), Some(vb))) => {
            sql_of_injective(*ka, *kb);
            sql_of_injective(*va, *vb);
        },
        _ => {},
    }
}

} // verus!

//! The messages of the query service, as plain values.

use crate::sql::{sql_of, SqlType, Type, TypeView};
use vstd::prelude::*;

verus! {

/// A point in time: seconds since the Unix epoch, and nanoseconds past them.
#[derive(Debug, Clone, Copy, PartialEq, Eq, Structural)]
pub struct Timestamp {
    pub seconds: i64,
    pub nanos: i32,
}

/// A calendar date.
#[derive(Debug, Clone, Copy, PartialEq, Eq, Structural)]
pub struct Date {
    pub year: i32,
    pub month: i32,
    pub day: i32,
}

/// What a parameter value holds.
#[derive(Debug)]
pub enum Kind {
    RawValue(Vec<u8>),
    RawTimestampMicros(i64),
    BytesValue(Vec<u8>),
    StringValue(String),
    IntValue(i64),
    BoolValue(bool),
    /// A double, by its IEEE 754 bits.
    FloatValue(u64),
    TimestampValue(Timestamp),
    DateValue(Date),
    ArrayValue(Vec<Value>),
}

/// A parameter value, with the type that its sender declared for it.
#[derive(Debug)]
pub struct Value {
    pub kind: Option<Kind>,
    pub declared_type: Option<Type>,
}

/// A parameter value as a mathematical value.
pub struct ValueView {
    pub kind: Option<KindView>,
    pub declared_type: Option<TypeView>,
}

/// What a parameter value holds, as a mathematical value.
pub enum KindView {
    RawValue(Seq<u8>),
    RawTimestampMicros(i64),
    BytesValue(Seq<u8>),
    StringValue(Seq<char>),
    IntValue(i64),
    BoolValue(bool),
    FloatValue(u64),
    TimestampValue(Timestamp),
    DateValue(Date),
    ArrayValue(Seq<ValueView>),
}

impl Value {
    pub open spec fn model(self) -> ValueView
        decreases self,
    {
        ValueView {
            kind: match self.kind {
                Some(kind) => Some(kind.model()),
                None => None,
            },
            declared_type: match self.declared_type {
                Some(ty) => Some(ty@),
                None => None,
            },
        }
    }
}

impl Kind {
    pub open spec fn model(self) -> KindView
        decreases self,
    {
        match self {
            Kind::RawValue(bytes) => KindView::RawValue(bytes@),
            Kind::RawTimestampMicros(micros) => KindView::RawTimestampMicros(micros),
            Kind::BytesValue(bytes) => KindView::BytesValue(bytes@),
            Kind::StringValue(text) => KindView::StringValue(text@),
            Kind::IntValue(number) => KindView::IntValue(number),
            Kind::BoolValue(truth) => KindView::BoolValue(truth),
            Kind::FloatValue(bits) => KindView::FloatValue(bits),
            Kind::TimestampValue(at) => KindView::TimestampValue(at),
            Kind::DateValue(date) => KindView::DateValue(date),
            Kind::ArrayValue(values) => KindView::ArrayValue(
                Seq::new(
                    values@.len(),
                    |i: int|
                        if 0 <= i < values@.len() {
                            values@[i].model()
                        } else {
                            arbitrary()
                        },
                ),
            ),
        }
    }

    /// A copy that holds the same.
    pub fn duplicate(&self) -> (copy: Kind)
        ensures
            copy.model() == self.model(),
        decreases self,
    {
        match self {
            Kind::RawValue(bytes) => Kind::RawValue(bytes.clone()),
            Kind::RawTimestampMicros(micros) => Kind::RawTimestampMicros(*micros),
            Kind::BytesValue(bytes) => Kind::BytesValue(bytes.clone()),
            Kind::StringValue(text) => Kind::StringValue(text.clone()),
            Kind::IntValue(number) => Kind::IntValue(*number),
            Kind::BoolValue(truth) => Kind::BoolValue(*truth),
            Kind::FloatValue(bits) => Kind::FloatValue(*bits),
            Kind::TimestampValue(at) => Kind::TimestampValue(*at),
            Kind::DateValue(date) => Kind::DateValue(*date),
            Kind::ArrayValue(values) => {
                let mut copies: Vec<Value> = Vec::new();
                let mut i: usize = 0;
                while i < values.len()
                    invariant
                        i <= values@.len(),
                        copies@.len() == i,
                        decreases_to!(self => values@),
                        forall|k: int| 0 <= k < i ==> (#[trigger] copies@[k])@ == values@[k]@,
                    decreases values@.len() - i,
                {
                    assert(decreases_to!(values@ => values@[i as int]));
                    copies.push(values[i].duplicate());
                    i += 1;
                }
                let copy = Kind::ArrayValue(copies);
                assert(copy.model()->ArrayValue_0 =~= self.model()->ArrayValue_0) by {
                    assert forall|k: int| 0 <= k < values@.len() implies (
                    #[trigger] copies@[k]).model() == values@[k].model() by {
                        assert(copies@[k]@ == values@[k]@);
                    }
                }
                copy
            },
        }
    }
}

impl View for Value {
    type V = ValueView;

    open spec fn view(&self) -> ValueView {
        self.model()
    }
}

impl Value {
    /// A copy that holds the same.
    pub fn duplicate(&self) -> (copy: Value)
        ensures
            copy@ == self@,
        decreases self,
    {
        let kind = match &self.kind {
            Some(kind) => Some(kind.duplicate()),
            None => None,
        };
        let declared_type = match &self.declared_type {
            Some(ty) => Some(ty.duplicate()),
            None => None,
        };
        Value { kind, declared_type }
    }

    /// The same value with its SQL type declared.
    pub fn with_type(self, sql_type: SqlType) -> (value: Value)
        ensures
            value.kind == self.kind,
            value.declared_type matches Some(ty) && sql_of(ty@) == Some(sql_type@),
    {
        Value { kind: self.kind, declared_type: Some(sql_type.to_pb()) }
    }
}

/// The format in which a query's result may be asked for.
#[derive(Debug, Clone, Copy, PartialEq, Eq, Structural)]
pub enum DataFormat {
    ProtoFormat,
}

/// No name stands twice in a list of named things.
pub open spec fn distinct_names<T>(named: Seq<(String, T)>) -> bool {
    forall|i: int, j: int|
        0 <= i < j < named.len() ==> (#[trigger] named[i]).0@ != (#[trigger] named[j]).0@
}

/// Asks the server to compile a query.
#[derive(Debug)]
pub struct PrepareQueryRequest {
    pub instance_name: String,
    pub app_profile_id: String,
    pub query: String,
    pub param_types: Vec<(String, Type)>,
    pub data_format: Option<DataFormat>,
}

impl PrepareQueryRequest {
    /// No parameter is declared twice.
    pub open spec fn wf(self) -> bool {
        distinct_names(self.param_types@)
    }
}

/// A compiled query: its token, and until when the server keeps it.
#[derive(Debug)]
pub struct PrepareQueryResponse {
    pub prepared_query: Vec<u8>,
    pub valid_until: Option<Timestamp>,
}

/// Asks the server to run a query, given as SQL text or by the token of its compiled form.
#[derive(Debug)]
pub struct ExecuteQueryRequest {
    pub instance_name: String,
    pub app_profile_id: String,
    pub query: String,
    pub prepared_query: Vec<u8>,
    pub resume_token: Vec<u8>,
    pub params: Vec<(String, Value)>,
    pub data_format: Option<DataFormat>,
}

/// The names and values of parameters as mathematical values.
pub open spec fn named_values(params: Seq<(String, Value)>) -> Seq<(Seq<char>, ValueView)> {
    params.map_values(|p: (String, Value)| (p.0@, p.1@))
}

/// A request to run a query as a mathematical value.
#[verifier::ext_equal]
pub struct ExecuteView {
    pub instance_name: Seq<char>,
    pub app_profile_id: Seq<char>,
    pub query: Seq<char>,
    pub prepared_query: Seq<u8>,
    pub resume_token: Seq<u8>,
    pub params: Seq<(Seq<char>, ValueView)>,
    pub data_format: Option<DataFormat>,
}

impl View for ExecuteQueryRequest {
    type V = ExecuteView;

    open spec fn view(&self) -> ExecuteView {
        ExecuteView {
            instance_name: self.instance_name@,
            app_profile_id: self.app_profile_id@,
            query: self.query@,
            prepared_query: self.prepared_query@,
            resume_token: self.resume_token@,
            params: named_values(self.params@),
            data_format: self.data_format,
        }
    }
}

/// A copy of named parameter values.
pub fn duplicate_params(params: &Vec<(String, Value)>) -> (copies: Vec<(String, Value)>)
    ensures
        named_values(copies@) == named_values(params@),
        distinct_names(copies@) == distinct_names(params@),
{
    let mut copies: Vec<(String, Value)> = Vec::new();
    let mut i: usize = 0;
    while i < params.len()
        invariant
            i <= params@.len(),
            copies@.len() == i,
            forall|k: int|
                0 <= k < i ==> (#[trigger] copies@[k]).0@ == params@[k].0@ && copies@[k].1@
                    == params@[k].1@,
        decreases params@.len() - i,
    {
        copies.push((params[i].0.clone(), params[i].1.duplicate()));
        i += 1;
    }
    assert(named_values(copies@) =~= named_values(params@));
    assert forall|k: int| 0 <= k < params@.len() implies (#[trigger] params@[k]).0@
        == copies@[k].0@ by {
    }
    copies
}

impl ExecuteQueryRequest {
    /// No parameter is given twice.
    pub open spec fn wf(self) -> bool {
        distinct_names(self.params@)
    }

    /// A copy that asks for the same.
    pub fn duplicate(&self) -> (copy: ExecuteQueryRequest)
        ensures
            copy@ == self@,
            copy.wf() == self.wf(),
    {
        ExecuteQueryRequest {
            instance_name: self.instance_name.clone(),
            app_profile_id: self.app_profile_id.clone(),
            query: self.query.clone(),
            prepared_query: self.prepared_query.clone(),
            resume_token: self.resume_token.clone(),
            params: duplicate_params(&self.params),
            data_format: self.data_format,
        }
    }
}

/// A data structure for returning the read content of a cell in a row.
#[derive(Debug)]
pub struct RowCell {
    pub family_name: String,
    pub qualifier: Vec<u8>,
    pub value: Vec<u8>,
    pub timestamp_micros: i64,
    pub labels: Vec<String>,
}

} // verus!

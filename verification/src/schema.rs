//! The schema entity: a closed tagged union over the primitive kinds, the
//! named kinds (record, enumeration, fixed, named reference), and the
//! composite kinds (union, decimal, array, mapping), together with its
//! mathematical model and exact structural equality.
use vstd::prelude::*;

verus! {

/// A record field: its name and its schema. Only the schema takes part in
/// field-wise schema comparison; the name takes part in exact structural
/// equality.
#[derive(Debug)]
pub struct RecordField {
    pub name: String,
    pub schema: Schema,
}

/// A record schema: its name and its ordered fields.
#[derive(Debug)]
pub struct RecordSchema {
    pub name: String,
    pub fields: Vec<RecordField>,
}

/// An enumeration schema: its name and its ordered symbols.
#[derive(Debug)]
pub struct EnumSchema {
    pub name: String,
    pub symbols: Vec<String>,
}

/// A fixed-length byte schema: its name and its declared byte size.
#[derive(Debug)]
pub struct FixedSchema {
    pub name: String,
    pub size: usize,
}

/// A union schema: its ordered branches.
#[derive(Debug)]
pub struct UnionSchema {
    pub schemas: Vec<Schema>,
}

/// A decimal logical schema: precision, scale, and the physical schema
/// carrying the digits.
#[derive(Debug)]
pub struct DecimalSchema {
    pub precision: usize,
    pub scale: usize,
    pub inner: Box<Schema>,
}

/// An array schema: the schema of its items.
#[derive(Debug)]
pub struct ArraySchema {
    pub items: Box<Schema>,
}

/// A mapping schema: the schema of its values.
#[derive(Debug)]
pub struct MapSchema {
    pub types: Box<Schema>,
}

/// A schema definition. Primitive kinds carry nothing; named and composite
/// kinds carry their own schema structs. Cyclic schema graphs go through
/// named references, never through pointers.
#[derive(Debug)]
pub enum Schema {
    Null,
    Boolean,
    Int,
    Long,
    Float,
    Double,
    Bytes,
    String,
    Uuid,
    BigDecimal,
    Date,
    Duration,
    TimeMicros,
    TimeMillis,
    TimestampMicros,
    TimestampMillis,
    TimestampNanos,
    LocalTimestampMicros,
    LocalTimestampMillis,
    LocalTimestampNanos,
    Record(RecordSchema),
    Enum(EnumSchema),
    Fixed(FixedSchema),
    Union(UnionSchema),
    Decimal(DecimalSchema),
    Array(ArraySchema),
    Mapping(MapSchema),
    Ref { name: String },
}

/// The mathematical model of a [`Schema`].
pub enum SchModel {
    Null,
    Boolean,
    Int,
    Long,
    Float,
    Double,
    Bytes,
    String,
    Uuid,
    BigDecimal,
    Date,
    Duration,
    TimeMicros,
    TimeMillis,
    TimestampMicros,
    TimestampMillis,
    TimestampNanos,
    LocalTimestampMicros,
    LocalTimestampMillis,
    LocalTimestampNanos,
    /// Record: its name and its fields, each a field name with its schema.
    Record(Seq<char>, Seq<(Seq<char>, SchModel)>),
    /// Enumeration: its name and its symbols.
    Enum(Seq<char>, Seq<Seq<char>>),
    /// Fixed: its name and its byte size.
    Fixed(Seq<char>, nat),
    /// Union: its ordered branches.
    Union(Seq<SchModel>),
    /// Decimal: precision, scale, and the physical schema.
    Decimal(nat, nat, Box<SchModel>),
    /// Array: the item schema.
    Array(Box<SchModel>),
    /// Mapping: the value schema.
    Mapping(Box<SchModel>),
    /// Named reference: the referenced name.
    Ref(Seq<char>),
}

/// The model of one schema.
pub open spec fn schema_model(s: Schema) -> SchModel
    decreases s,
{
    match s {
        Schema::Null => SchModel::Null,
        Schema::Boolean => SchModel::Boolean,
        Schema::Int => SchModel::Int,
        Schema::Long => SchModel::Long,
        Schema::Float => SchModel::Float,
        Schema::Double => SchModel::Double,
        Schema::Bytes => SchModel::Bytes,
        Schema::String => SchModel::String,
        Schema::Uuid => SchModel::Uuid,
        Schema::BigDecimal => SchModel::BigDecimal,
        Schema::Date => SchModel::Date,
        Schema::Duration => SchModel::Duration,
        Schema::TimeMicros => SchModel::TimeMicros,
        Schema::TimeMillis => SchModel::TimeMillis,
        Schema::TimestampMicros => SchModel::TimestampMicros,
        Schema::TimestampMillis => SchModel::TimestampMillis,
        Schema::TimestampNanos => SchModel::TimestampNanos,
        Schema::LocalTimestampMicros => SchModel::LocalTimestampMicros,
        Schema::LocalTimestampMillis => SchModel::LocalTimestampMillis,
        Schema::LocalTimestampNanos => SchModel::LocalTimestampNanos,
        Schema::Record(rs) => SchModel::Record(rs.name@, field_models(rs.fields@)),
        Schema::Enum(es) => SchModel::Enum(es.name@, symbol_models(es.symbols@)),
        Schema::Fixed(fs) => SchModel::Fixed(fs.name@, fs.size as nat),
        Schema::Union(us) => SchModel::Union(schema_models(us.schemas@)),
        Schema::Decimal(ds) => SchModel::Decimal(
            ds.precision as nat,
            ds.scale as nat,
            Box::new(schema_model(*ds.inner)),
        ),
        Schema::Array(ar) => SchModel::Array(Box::new(schema_model(*ar.items))),
        Schema::Mapping(ms) => SchModel::Mapping(Box::new(schema_model(*ms.types))),
        Schema::Ref { name } => SchModel::Ref(name@),
    }
}

/// The models of a field list: each field name with its schema's model.
pub open spec fn field_models(s: Seq<RecordField>) -> Seq<(Seq<char>, SchModel)>
    decreases s,
{
    Seq::new(
        s.len(),
        |i: int|
            if 0 <= i < s.len() {
                (s[i].name@, schema_model(s[i].schema))
            } else {
                (Seq::empty(), SchModel::Null)
            },
    )
}

/// The models of a sequence of schemas, element by element.
pub open spec fn schema_models(s: Seq<Schema>) -> Seq<SchModel>
    decreases s,
{
    Seq::new(
        s.len(),
        |i: int|
            if 0 <= i < s.len() {
                schema_model(s[i])
            } else {
                SchModel::Null
            },
    )
}

/// The character sequences of a symbol list.
pub open spec fn symbol_models(s: Seq<String>) -> Seq<Seq<char>> {
    Seq::new(s.len(), |i: int| s[i]@)
}

impl View for Schema {
    type V = SchModel;

    open spec fn view(&self) -> SchModel {
        schema_model(*self)
    }
}

/// The name a schema model carries: named kinds carry one, every other kind
/// carries none.
pub open spec fn name_model(m: SchModel) -> Option<Seq<char>> {
    match m {
        SchModel::Record(name, _) => Option::Some(name),
        SchModel::Enum(name, _) => Option::Some(name),
        SchModel::Fixed(name, _) => Option::Some(name),
        SchModel::Ref(name) => Option::Some(name),
        _ => Option::None,
    }
}

impl Schema {
    /// The name this schema carries, if its kind is a named one.
    pub fn name(&self) -> (r: Option<&String>)
        ensures
            r matches Some(n) ==> name_model(self@) == Option::Some(n@),
            r is None ==> name_model(self@) is None,
    {
        match self {
            Schema::Record(rs) => Option::Some(&rs.name),
            Schema::Enum(es) => Option::Some(&es.name),
            Schema::Fixed(fs) => Option::Some(&fs.name),
            Schema::Ref { name } => Option::Some(name),
            _ => Option::None,
        }
    }

    /// Exact structural equality: same kind, same names, and the same
    /// payload, recursively. This is the equality the field-wise comparator
    /// applies to array item schemas.
    #[verifier::rlimit(60)]
    pub fn exact_eq(&self, other: &Schema) -> (r: bool)
        ensures
            r ==> self@ == other@,
            !r ==> self@ != other@,
        decreases self,
    {
        match (self, other) {
            (Schema::Null, Schema::Null) => true,
            (Schema::Boolean, Schema::Boolean) => true,
            (Schema::Int, Schema::Int) => true,
            (Schema::Long, Schema::Long) => true,
            (Schema::Float, Schema::Float) => true,
            (Schema::Double, Schema::Double) => true,
            (Schema::Bytes, Schema::Bytes) => true,
            (Schema::String, Schema::String) => true,
            (Schema::Uuid, Schema::Uuid) => true,
            (Schema::BigDecimal, Schema::BigDecimal) => true,
            (Schema::Date, Schema::Date) => true,
            (Schema::Duration, Schema::Duration) => true,
            (Schema::TimeMicros, Schema::TimeMicros) => true,
            (Schema::TimeMillis, Schema::TimeMillis) => true,
            (Schema::TimestampMicros, Schema::TimestampMicros) => true,
            (Schema::TimestampMillis, Schema::TimestampMillis) => true,
            (Schema::TimestampNanos, Schema::TimestampNanos) => true,
            (Schema::LocalTimestampMicros, Schema::LocalTimestampMicros) => true,
            (Schema::LocalTimestampMillis, Schema::LocalTimestampMillis) => true,
            (Schema::LocalTimestampNanos, Schema::LocalTimestampNanos) => true,
            (Schema::Record(rs1), Schema::Record(rs2)) => {
                rs1.name == rs2.name && record_fields_exact_eq(&rs1.fields, &rs2.fields)
            },
            (Schema::Enum(es1), Schema::Enum(es2)) => {
                es1.name == es2.name && symbols_eq(&es1.symbols, &es2.symbols)
            },
            (Schema::Fixed(fs1), Schema::Fixed(fs2)) => {
                fs1.name == fs2.name && fs1.size == fs2.size
            },
            (Schema::Union(us1), Schema::Union(us2)) => {
                schemas_exact_eq(&us1.schemas, &us2.schemas)
            },
            (Schema::Decimal(ds1), Schema::Decimal(ds2)) => {
                ds1.precision == ds2.precision && ds1.scale == ds2.scale && ds1.inner.exact_eq(
                    &ds2.inner,
                )
            },
            (Schema::Array(ar1), Schema::Array(ar2)) => ar1.items.exact_eq(&ar2.items),
            (Schema::Mapping(ms1), Schema::Mapping(ms2)) => ms1.types.exact_eq(&ms2.types),
            (Schema::Ref { name: n1 }, Schema::Ref { name: n2 }) => *n1 == *n2,
            _ => false,
        }
    }
}

/// Whether two field lists are exactly equal: same length, and each
/// position's field name and field schema equal.
fn record_fields_exact_eq(a: &Vec<RecordField>, b: &Vec<RecordField>) -> (r: bool)
    ensures
        r == (field_models(a@) == field_models(b@)),
    decreases a,
{
    if a.len() != b.len() {
        assert(field_models(a@).len() != field_models(b@).len());
        return false;
    }
    let n = a.len();
    let mut i: usize = 0;
    while i < n
        invariant
            i <= n,
            n == a@.len() && n == b@.len(),
            forall|j: int| 0 <= j < i ==> field_models(a@)[j] == field_models(b@)[j],
        decreases n - i,
    {
        proof {
            assert(decreases_to!(a => a@[i as int]));
            assert(decreases_to!(a@[i as int] => a@[i as int].schema));
        }
        if !(a[i].name == b[i].name) {
            assert(field_models(a@)[i as int] != field_models(b@)[i as int]);
            return false;
        }
        if !a[i].schema.exact_eq(&b[i].schema) {
            assert(field_models(a@)[i as int] != field_models(b@)[i as int]);
            return false;
        }
        i = i + 1;
    }
    assert(field_models(a@) =~= field_models(b@));
    true
}

/// Whether two symbol lists are equal, in order.
pub fn symbols_eq(a: &Vec<String>, b: &Vec<String>) -> (r: bool)
    ensures
        r == (symbol_models(a@) == symbol_models(b@)),
{
    if a.len() != b.len() {
        assert(symbol_models(a@).len() != symbol_models(b@).len());
        return false;
    }
    let n = a.len();
    let mut i: usize = 0;
    while i < n
        invariant
            i <= n,
            n == a@.len() && n == b@.len(),
            forall|j: int| 0 <= j < i ==> symbol_models(a@)[j] == symbol_models(b@)[j],
        decreases n - i,
    {
        if !(a[i] == b[i]) {
            assert(symbol_models(a@)[i as int] != symbol_models(b@)[i as int]);
            return false;
        }
        i = i + 1;
    }
    assert(symbol_models(a@) =~= symbol_models(b@));
    true
}

/// Whether two schema lists are exactly equal, position by position.
fn schemas_exact_eq(a: &Vec<Schema>, b: &Vec<Schema>) -> (r: bool)
    ensures
        r == (schema_models(a@) == schema_models(b@)),
    decreases a,
{
    if a.len() != b.len() {
        assert(schema_models(a@).len() != schema_models(b@).len());
        return false;
    }
    let n = a.len();
    let mut i: usize = 0;
    while i < n
        invariant
            i <= n,
            n == a@.len() && n == b@.len(),
            forall|j: int| 0 <= j < i ==> schema_models(a@)[j] == schema_models(b@)[j],
        decreases n - i,
    {
        proof {
            assert(decreases_to!(a => a@[i as int]));
        }
        if !a[i].exact_eq(&b[i]) {
            assert(schema_models(a@)[i as int] != schema_models(b@)[i as int]);
            return false;
        }
        i = i + 1;
    }
    assert(schema_models(a@) =~= schema_models(b@));
    true
}

impl PartialEq for Schema {
    /// Equality of schemas is exact structural equality.
    fn eq(&self, other: &Schema) -> (r: bool) {
        self.exact_eq(other)
    }
}

impl vstd::std_specs::cmp::PartialEqSpecImpl for Schema {
    open spec fn obeys_eq_spec() -> bool {
        true
    }

    open spec fn eq_spec(&self, other: &Schema) -> bool {
        self@ == other@
    }
}

} // verus!

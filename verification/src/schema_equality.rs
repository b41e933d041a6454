//! Schema equality with a replaceable comparison strategy.
//!
//! The built-in strategy compares two schemas field by field, using only
//! what their canonical forms would retain: kinds, names, field schemas,
//! symbols, sizes, branches, precision and scale. A process may install a
//! strategy of its own, once, in a registry slot; the first comparison
//! installs the field-wise strategy when nothing was registered.
use crate::schema::RecordField;
use crate::schema::SchModel;
use crate::schema::Schema;
use crate::schema::field_models;
use crate::schema::name_model;
use crate::schema::schema_model;
use crate::schema::schema_models;
use vstd::prelude::*;

verus! {

/// A strategy that decides when two schemas count as equal.
///
/// An implementation states its own meaning of equality as a spec function
/// and must return exactly that.
pub trait SchemataEq: Send + Sync {
    /// The equality this strategy decides, over schema models.
    spec fn equiv(&self, a: SchModel, b: SchModel) -> bool;

    /// Compares two schemas for equality.
    fn compare(&self, schema_one: &Schema, schema_two: &Schema) -> (r: bool)
        ensures
            r == self.equiv(schema_one@, schema_two@),
    ;
}

/// The equality the field-wise strategy decides: the top-level names must
/// agree, and then, by kind: primitives agree by kind alone; records by
/// pointwise field schemas (field names do not count); enumerations by
/// their symbols in order; fixed by size; unions branch by branch, in
/// order; decimals by precision and scale; arrays by exact structural
/// equality of the item schema; mappings by this same equality of the
/// value schema; named references by name. Any other pairing is unequal.
pub open spec fn struct_field_equiv(a: SchModel, b: SchModel) -> bool
    decreases a,
{
    if name_model(a) != name_model(b) {
        false
    } else {
        match (a, b) {
            (SchModel::Null, SchModel::Null) => true,
            (SchModel::Boolean, SchModel::Boolean) => true,
            (SchModel::Int, SchModel::Int) => true,
            (SchModel::Long, SchModel::Long) => true,
            (SchModel::Float, SchModel::Float) => true,
            (SchModel::Double, SchModel::Double) => true,
            (SchModel::Bytes, SchModel::Bytes) => true,
            (SchModel::String, SchModel::String) => true,
            (SchModel::Uuid, SchModel::Uuid) => true,
            (SchModel::BigDecimal, SchModel::BigDecimal) => true,
            (SchModel::Date, SchModel::Date) => true,
            (SchModel::Duration, SchModel::Duration) => true,
            (SchModel::TimeMicros, SchModel::TimeMicros) => true,
            (SchModel::TimeMillis, SchModel::TimeMillis) => true,
            (SchModel::TimestampMicros, SchModel::TimestampMicros) => true,
            (SchModel::TimestampMillis, SchModel::TimestampMillis) => true,
            (SchModel::TimestampNanos, SchModel::TimestampNanos) => true,
            (SchModel::LocalTimestampMicros, SchModel::LocalTimestampMicros) => true,
            (SchModel::LocalTimestampMillis, SchModel::LocalTimestampMillis) => true,
            (SchModel::LocalTimestampNanos, SchModel::LocalTimestampNanos) => true,
            (SchModel::Record(_, f1), SchModel::Record(_, f2)) => f1.len() == f2.len() && (
            forall|i: int|
                0 <= i < f1.len() ==> struct_field_equiv((#[trigger] f1[i]).1, f2[i].1)),
            (SchModel::Enum(_, sy1), SchModel::Enum(_, sy2)) => sy1 == sy2,
            (SchModel::Fixed(_, n1), SchModel::Fixed(_, n2)) => n1 == n2,
            (SchModel::Union(b1), SchModel::Union(b2)) => b1.len() == b2.len() && (forall|i: int|
                0 <= i < b1.len() ==> struct_field_equiv(#[trigger] b1[i], b2[i])),
            (SchModel::Decimal(p1, c1, _), SchModel::Decimal(p2, c2, _)) => p1 == p2 && c1 == c2,
            (SchModel::Array(i1), SchModel::Array(i2)) => *i1 == *i2,
            (SchModel::Mapping(t1), SchModel::Mapping(t2)) => struct_field_equiv(*t1, *t2),
            (SchModel::Ref(_), SchModel::Ref(_)) => true,
            _ => false,
        }
    }
}

/// The field-wise comparison strategy.
pub struct StructFieldEq;

/// Whether both schemas carry the same top-level name (primitive and other
/// unnamed kinds trivially agree).
fn names_agree(schema_one: &Schema, schema_two: &Schema) -> (r: bool)
    ensures
        r == (name_model(schema_one@) == name_model(schema_two@)),
{
    match (schema_one.name(), schema_two.name()) {
        (Option::Some(n1), Option::Some(n2)) => *n1 == *n2,
        (Option::None, Option::None) => true,
        _ => false,
    }
}

impl StructFieldEq {
    /// Whether each position of two field lists carries field schemas this
    /// strategy finds equal; field names and counts beyond position do not
    /// take part.
    #[verifier::loop_isolation(false)]
    pub fn compare_fields(&self, fields_one: &Vec<RecordField>, fields_two: &Vec<RecordField>) -> (r:
        bool)
        ensures
            r == (field_models(fields_one@).len() == field_models(fields_two@).len() && (forall|i: int|
                0 <= i < field_models(fields_one@).len() ==> struct_field_equiv(
                    (#[trigger] field_models(fields_one@)[i]).1,
                    field_models(fields_two@)[i].1,
                ))),
        decreases fields_one,
    {
        if fields_one.len() != fields_two.len() {
            proof {
                assert(field_models(fields_one@).len() == fields_one@.len());
                assert(field_models(fields_two@).len() == fields_two@.len());
            }
            return false;
        }
        let n = fields_one.len();
        let mut i: usize = 0;
        while i < n
            invariant
                i <= n,
                n == fields_one@.len() && n == fields_two@.len(),
                forall|j: int|
                    0 <= j < i ==> struct_field_equiv(
                        (#[trigger] field_models(fields_one@)[j]).1,
                        field_models(fields_two@)[j].1,
                    ),
            decreases n - i,
        {
            proof {
                assert(decreases_to!(fields_one => fields_one@[i as int]));
                assert(decreases_to!(fields_one@[i as int] => fields_one@[i as int].schema));
            }
            if !self.compare(&fields_one[i].schema, &fields_two[i].schema) {
                proof {
                    assert(field_models(fields_one@)[i as int].1 == schema_model(
                        fields_one@[i as int].schema,
                    ));
                    assert(field_models(fields_two@)[i as int].1 == schema_model(
                        fields_two@[i as int].schema,
                    ));
                }
                return false;
            }
            i = i + 1;
        }
        true
    }
}

impl SchemataEq for StructFieldEq {
    open spec fn equiv(&self, a: SchModel, b: SchModel) -> bool {
        struct_field_equiv(a, b)
    }

    #[verifier::loop_isolation(false)]
    fn compare(&self, schema_one: &Schema, schema_two: &Schema) -> (r: bool)
        decreases schema_one,
    {
        if !names_agree(schema_one, schema_two) {
            return false;
        }
        match (schema_one, schema_two) {
            (Schema::Null, Schema::Null) => true,
            (Schema::Boolean, Schema::Boolean) => true,
            (Schema::Int, Schema::Int) => true,
            (Schema::Long, Schema::Long) => true,
            (Schema::Float, Schema::Float) => true,
            (Schema::Double, Schema::Double) => true,
            (Schema::Bytes, Schema::Bytes) => true,
            (Schema::String, Schema::String) => true,
            (Schema::Uuid, Schema::Uuid) => true,
            (Schema::BigDecimal, Schema::BigDecimal) => true,
            (Schema::Date, Schema::Date) => true,
            (Schema::Duration, Schema::Duration) => true,
            (Schema::TimeMicros, Schema::TimeMicros) => true,
            (Schema::TimeMillis, Schema::TimeMillis) => true,
            (Schema::TimestampMicros, Schema::TimestampMicros) => true,
            (Schema::TimestampMillis, Schema::TimestampMillis) => true,
            (Schema::TimestampNanos, Schema::TimestampNanos) => true,
            (Schema::LocalTimestampMicros, Schema::LocalTimestampMicros) => true,
            (Schema::LocalTimestampMillis, Schema::LocalTimestampMillis) => true,
            (Schema::LocalTimestampNanos, Schema::LocalTimestampNanos) => true,
            (Schema::Record(rs1), Schema::Record(rs2)) => {
                proof {
                    assert(decreases_to!(schema_one => rs1.fields));
                }
                self.compare_fields(&rs1.fields, &rs2.fields)
            },
            (Schema::Enum(es1), Schema::Enum(es2)) => {
                crate::schema::symbols_eq(&es1.symbols, &es2.symbols)
            },
            (Schema::Fixed(fs1), Schema::Fixed(fs2)) => fs1.size == fs2.size,
            (Schema::Union(us1), Schema::Union(us2)) => {
                proof {
                    assert(decreases_to!(schema_one => us1.schemas));
                }
                if us1.schemas.len() != us2.schemas.len() {
                    proof {
                        assert(schema_models(us1.schemas@).len() == us1.schemas@.len());
                        assert(schema_models(us2.schemas@).len() == us2.schemas@.len());
                        assert(!struct_field_equiv(schema_one@, schema_two@));
                    }
                    return false;
                }
                let n = us1.schemas.len();
                let mut i: usize = 0;
                while i < n
                    invariant
                        i <= n,
                        n == us1.schemas@.len() && n == us2.schemas@.len(),
                        forall|j: int|
                            0 <= j < i ==> struct_field_equiv(
                                #[trigger] schema_models(us1.schemas@)[j],
                                schema_models(us2.schemas@)[j],
                            ),
                    decreases n - i,
                {
                    proof {
                        assert(decreases_to!(us1.schemas => us1.schemas@[i as int]));
                    }
                    if !self.compare(&us1.schemas[i], &us2.schemas[i]) {
                        proof {
                            assert(schema_models(us1.schemas@)[i as int] == schema_model(
                                us1.schemas@[i as int],
                            ));
                            assert(schema_models(us2.schemas@)[i as int] == schema_model(
                                us2.schemas@[i as int],
                            ));
                            assert(!struct_field_equiv(schema_one@, schema_two@));
                        }
                        return false;
                    }
                    i = i + 1;
                }
                true
            },
            (Schema::Decimal(ds1), Schema::Decimal(ds2)) => {
                ds1.precision == ds2.precision && ds1.scale == ds2.scale
            },
            (Schema::Array(ar1), Schema::Array(ar2)) => ar1.items.exact_eq(&ar2.items),
            (Schema::Mapping(ms1), Schema::Mapping(ms2)) => self.compare(&ms1.types, &ms2.types),
            (Schema::Ref { name: _ }, Schema::Ref { name: _ }) => true,
            _ => false,
        }
    }
}

/// The registry slot for the process-wide strategy: empty until either an
/// explicit registration or the first comparison fills it, and then set for
/// good.
pub struct ComparatorRegistry {
    pub slot: Option<Box<dyn SchemataEq>>,
}

impl ComparatorRegistry {
    /// A registry with nothing registered.
    pub fn new() -> (r: ComparatorRegistry)
        ensures
            r.slot is None,
    {
        ComparatorRegistry { slot: Option::None }
    }
}

/// Registers a comparison strategy, once. Registration succeeds only while
/// the slot is empty; a later attempt hands the rejected strategy back and
/// leaves the registered one active.
pub fn set_schemata_equality_comparator(
    registry: &mut ComparatorRegistry,
    comparator: Box<dyn SchemataEq>,
) -> (r: Result<(), Box<dyn SchemataEq>>)
    ensures
        old(registry).slot is None ==> r == Ok::<(), Box<dyn SchemataEq>>(())
            && final(registry).slot == Some(comparator),
        old(registry).slot is Some ==> r == Err::<(), Box<dyn SchemataEq>>(comparator) && *final(registry) == *old(registry),
{
    if registry.slot.is_none() {
        let filled = Option::Some(comparator);
        registry.slot = filled;
        Ok(())
    } else {
        Err(comparator)
    }
}

/// Compares two schemas with the registered strategy, installing the
/// field-wise strategy first if nothing was registered.
pub fn compare_schemata(
    registry: &mut ComparatorRegistry,
    schema_one: &Schema,
    schema_two: &Schema,
) -> (r: bool)
    ensures
        old(registry).slot matches Some(c) ==> (*final(registry) == *old(registry) && r == c.equiv(
            schema_one@,
            schema_two@,
        )),
        old(registry).slot is None ==> (r == struct_field_equiv(schema_one@, schema_two@) && (
        final(registry).slot matches Some(c) && forall|a: SchModel, b: SchModel|
            c.equiv(a, b) == struct_field_equiv(a, b))),
{
    if registry.slot.is_none() {
        let r = StructFieldEq.compare(schema_one, schema_two);
        registry.slot = Option::Some(Box::new(StructFieldEq));
        r
    } else {
        match &registry.slot {
            Option::Some(c) => c.compare(schema_one, schema_two),
            Option::None => {
                proof {
                    assert(false);
                }
                false
            },
        }
    }
}

/// Every schema equals itself under the field-wise strategy, whatever its
/// kind.
pub proof fn lemma_struct_field_equiv_reflexive(s: SchModel)
    ensures
        struct_field_equiv(s, s),
    decreases s,
{
    match s {
        SchModel::Record(_, fields) => {
            assert forall|i: int| 0 <= i < fields.len() implies struct_field_equiv(
                (#[trigger] fields[i]).1,
                fields[i].1,
            ) by {
                lemma_struct_field_equiv_reflexive(fields[i].1);
            }
        },
        SchModel::Union(branches) => {
            assert forall|i: int| 0 <= i < branches.len() implies struct_field_equiv(
                #[trigger] branches[i],
                branches[i],
            ) by {
                lemma_struct_field_equiv_reflexive(branches[i]);
            }
        },
        SchModel::Mapping(t) => {
            lemma_struct_field_equiv_reflexive(*t);
        },
        _ => {},
    }
}

/// Field names play no part in the field-wise comparison of two records:
/// records with the same name and pointwise-equal field schemas are equal,
/// whatever their field names.
pub proof fn lemma_record_field_names_irrelevant(
    name: Seq<char>,
    f1: Seq<(Seq<char>, SchModel)>,
    f2: Seq<(Seq<char>, SchModel)>,
)
    requires
        f1.len() == f2.len(),
        forall|i: int| 0 <= i < f1.len() ==> struct_field_equiv((#[trigger] f1[i]).1, f2[i].1),
    ensures
        struct_field_equiv(SchModel::Record(name, f1), SchModel::Record(name, f2)),
{
}

} // verus!

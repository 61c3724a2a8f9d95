use vstd::prelude::*;

use crate::logical_type::LogicalTypeId;

verus! {


/// The contents of a native value handle, as the engine hands it over.
///
/// Floating-point payloads are held by their IEEE-754 bit patterns.
#[derive(Debug)]
pub enum Datum {
    /// A null that still carries the type it was declared with.
    Null(LogicalTypeId),
    Boolean(bool),
    Tinyint(i8),
    Smallint(i16),
    Integer(i32),
    Bigint(i64),
    UTinyint(u8),
    USmallint(u16),
    UInteger(u32),
    UBigint(u64),
    /// A 32-bit float, by its bit pattern.
    Float(u32),
    /// A 64-bit float, by its bit pattern.
    Double(u64),
    Varchar(String),
    List(Vec<Datum>),
}

/// The mathematical model of a [`Datum`].
pub enum Model {
    Null(LogicalTypeId),
    Boolean(bool),
    Tinyint(i8),
    Smallint(i16),
    Integer(i32),
    Bigint(i64),
    UTinyint(u8),
    USmallint(u16),
    UInteger(u32),
    UBigint(u64),
    Float(u32),
    Double(u64),
    Varchar(Seq<char>),
    List(Seq<Model>),
}

/// The model of a datum.
pub open spec fn model_of(d: Datum) -> Model
    decreases d, 1nat, 0nat,
{
    match d {
        Datum::Null(t) => Model::Null(t),
        Datum::Boolean(b) => Model::Boolean(b),
        Datum::Tinyint(x) => Model::Tinyint(x),
        Datum::Smallint(x) => Model::Smallint(x),
        Datum::Integer(x) => Model::Integer(x),
        Datum::Bigint(x) => Model::Bigint(x),
        Datum::UTinyint(x) => Model::UTinyint(x),
        Datum::USmallint(x) => Model::USmallint(x),
        Datum::UInteger(x) => Model::UInteger(x),
        Datum::UBigint(x) => Model::UBigint(x),
        Datum::Float(x) => Model::Float(x),
        Datum::Double(x) => Model::Double(x),
        Datum::Varchar(s) => Model::Varchar(s@),
        Datum::List(items) => Model::List(item_models(d, items@.len())),
    }
}

/// The models of the first `n` elements of the list datum `d`.
pub open spec fn item_models(d: Datum, n: nat) -> Seq<Model>
    decreases d, 0nat, n,
{
    if d is List && 0 < n <= d->List_0@.len() {
        item_models(d, (n - 1) as nat).push(model_of(d->List_0@[n - 1]))
    } else {
        Seq::empty()
    }
}

impl Model {
    /// The kind tag that a value of this model reports. A null reports the
    /// type it was declared with.
    pub open spec fn type_id(self) -> LogicalTypeId {
        match self {
            Model::Null(t) => t,
            Model::Boolean(_) => LogicalTypeId::Boolean,
            Model::Tinyint(_) => LogicalTypeId::Tinyint,
            Model::Smallint(_) => LogicalTypeId::Smallint,
            Model::Integer(_) => LogicalTypeId::Integer,
            Model::Bigint(_) => LogicalTypeId::Bigint,
            Model::UTinyint(_) => LogicalTypeId::UTinyint,
            Model::USmallint(_) => LogicalTypeId::USmallint,
            Model::UInteger(_) => LogicalTypeId::UInteger,
            Model::UBigint(_) => LogicalTypeId::UBigint,
            Model::Float(_) => LogicalTypeId::Float,
            Model::Double(_) => LogicalTypeId::Double,
            Model::Varchar(_) => LogicalTypeId::Varchar,
            Model::List(_) => LogicalTypeId::List,
        }
    }

    /// Whether no float or double occurs in this model, at any depth.
    pub open spec fn float_free(self) -> bool
        decreases self,
    {
        match self {
            Model::Float(_) | Model::Double(_) => false,
            Model::List(items) => forall|i: int|
                0 <= i < items.len() ==> (#[trigger] items[i]).float_free(),
            _ => true,
        }
    }
}

impl View for Datum {
    type V = Model;

    open spec fn view(&self) -> Model {
        model_of(*self)
    }
}

pub proof fn lemma_item_models(d: Datum, n: nat)
    requires
        d is List,
        n <= d->List_0@.len(),
    ensures
        item_models(d, n).len() == n,
        forall|j: int| 0 <= j < n ==> #[trigger] item_models(d, n)[j] == model_of(d->List_0@[j]),
    decreases n,
{
    if n > 0 {
        lemma_item_models(d, (n - 1) as nat);
    }
}

/// Each element of a list is smaller than the list, for termination.
pub(crate) proof fn lemma_element_decreases(d: Datum, i: int)
    requires
        d is List,
        0 <= i < d->List_0@.len(),
    ensures
        decreases_to!(d => d->List_0[i]),
{
    vstd::std_specs::vec::axiom_vec_index_decreases(d->List_0, i);
    assert(decreases_to!(d => d->List_0));
}

/// A list built from data decomposes into their models, as many as there
/// were and in the order they were given.
pub proof fn lemma_list_round_trip(items: Vec<Datum>)
    ensures
        Datum::List(items)@ is List,
        Datum::List(items)@->List_0.len() == items@.len(),
        forall|i: int|
            0 <= i < items@.len() ==> #[trigger] Datum::List(items)@->List_0[i] == items@[i]@,
{
    lemma_item_models(Datum::List(items), items@.len());
}

/// A scalar of each kind keeps its kind and its payload, bit for bit: what
/// the accessor of that kind reads back is what the value was built with.
pub proof fn lemma_scalar_round_trip(
    b: bool,
    i8v: i8,
    u8v: u8,
    i16v: i16,
    u16v: u16,
    i32v: i32,
    u32v: u32,
    i64v: i64,
    u64v: u64,
    float_bits: u32,
    double_bits: u64,
)
    ensures
        Datum::Boolean(b)@ == Model::Boolean(b),
        Datum::Tinyint(i8v)@ == Model::Tinyint(i8v),
        Datum::UTinyint(u8v)@ == Model::UTinyint(u8v),
        Datum::Smallint(i16v)@ == Model::Smallint(i16v),
        Datum::USmallint(u16v)@ == Model::USmallint(u16v),
        Datum::Integer(i32v)@ == Model::Integer(i32v),
        Datum::UInteger(u32v)@ == Model::UInteger(u32v),
        Datum::Bigint(i64v)@ == Model::Bigint(i64v),
        Datum::UBigint(u64v)@ == Model::UBigint(u64v),
        Datum::Float(float_bits)@ == Model::Float(float_bits),
        Datum::Double(double_bits)@ == Model::Double(double_bits),
{
}

/// A null is null whatever type it was declared with, and it still reports
/// that type.
pub proof fn lemma_null_of_any_type(t: LogicalTypeId)
    ensures
        Datum::Null(t)@ is Null,
        Datum::Null(t)@.type_id() == t,
{
}

impl Datum {
    /// Whether no float or double occurs in this datum, at any depth.
    pub fn is_float_free(&self) -> (r: bool)
        ensures
            r == self@.float_free(),
        decreases self,
    {
        match self {
            Datum::Float(_) | Datum::Double(_) => false,
            Datum::List(items) => {
                proof {
                    lemma_item_models(*self, items@.len());
                }
                let mut i: usize = 0;
                while i < items.len()
                    invariant
                        *self == Datum::List(*items),
                        self@->List_0.len() == items@.len(),
                        forall|j: int| 0 <= j < items@.len() ==> #[trigger] self@->List_0[j] == items@[j]@,
                        i <= items@.len(),
                        forall|j: int| 0 <= j < i ==> (#[trigger] self@->List_0[j]).float_free(),
                    decreases items@.len() - i,
                {
                    proof {
                        lemma_element_decreases(*self, i as int);
                    }
                    if !items[i].is_float_free() {
                        assert(!self@->List_0[i as int].float_free());
                        return false;
                    }
                    i += 1;
                }
                true
            },
            _ => true,
        }
    }

    /// A fresh, independently owned copy of this value: what the engine
    /// hands out for each element of a list.
    pub fn duplicate(&self) -> (r: Datum)
        ensures
            r@ == self@,
        decreases self,
    {
        match self {
            Datum::Null(t) => Datum::Null(*t),
            Datum::Boolean(b) => Datum::Boolean(*b),
            Datum::Tinyint(x) => Datum::Tinyint(*x),
            Datum::Smallint(x) => Datum::Smallint(*x),
            Datum::Integer(x) => Datum::Integer(*x),
            Datum::Bigint(x) => Datum::Bigint(*x),
            Datum::UTinyint(x) => Datum::UTinyint(*x),
            Datum::USmallint(x) => Datum::USmallint(*x),
            Datum::UInteger(x) => Datum::UInteger(*x),
            Datum::UBigint(x) => Datum::UBigint(*x),
            Datum::Float(x) => Datum::Float(*x),
            Datum::Double(x) => Datum::Double(*x),
            Datum::Varchar(s) => Datum::Varchar(s.clone()),
            Datum::List(items) => {
                let mut out: Vec<Datum> = Vec::new();
                let mut i: usize = 0;
                while i < items.len()
                    invariant
                        *self == Datum::List(*items),
                        i <= items@.len(),
                        out@.len() == i,
                        forall|j: int| 0 <= j < i ==> (#[trigger] out@[j])@ == items@[j]@,
                    decreases items@.len() - i,
                {
                    proof {
                        lemma_element_decreases(*self, i as int);
                    }
                    let child = items[i].duplicate();
                    out.push(child);
                    i += 1;
                }
                let ghost copied = out@;
                let r = Datum::List(out);
                proof {
                    lemma_item_models(*self, items@.len());
                    lemma_item_models(r, copied.len());
                    assert(r@->List_0 =~= self@->List_0);
                }
                r
            },
        }
    }
}

} // verus!

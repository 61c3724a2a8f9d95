use vstd::prelude::*;

use crate::datum::{lemma_item_models, Datum, Model};
use crate::logical_type::LogicalTypeId;
use crate::render::{append_text, text_of};

verus! {

/// The Value object holds a single arbitrary value of any type that can be
/// stored in the database.
///
/// It is the sole owner of its handle. Once released, the handle is gone and
/// a further release does nothing.
#[derive(Debug)]
pub struct Value {
    handle: Option<Datum>,
}

/// What releasing does to a handle: the handle afterwards, and whether
/// something was freed.
pub open spec fn release_step(h: Option<Model>) -> (Option<Model>, bool) {
    (None, h is Some)
}

/// Releasing is idempotent: a released or never populated value frees
/// nothing and stays empty, so no handle is freed twice.
pub proof fn lemma_release_idempotent(h: Option<Model>)
    ensures
        release_step(release_step(h).0) == (release_step(h).0, false),
        release_step(None) == (None::<Model>, false),
{
}

impl View for Value {
    /// The model of the value behind the handle; `None` once released.
    type V = Option<Model>;

    closed spec fn view(&self) -> Option<Model> {
        match self.handle {
            Some(d) => Some(d@),
            None => None,
        }
    }
}

impl From<Datum> for Value {
    /// Takes ownership of a handle.
    fn from(d: Datum) -> (r: Value)
        ensures
            r@ == Some(d@),
    {
        Value { handle: Some(d) }
    }
}

impl vstd::std_specs::convert::FromSpecImpl<Datum> for Value {
    open spec fn obeys_from_spec() -> bool {
        true
    }

    closed spec fn from_spec(d: Datum) -> Value {
        Value { handle: Some(d) }
    }
}

impl Default for Value {
    /// A value that holds no handle.
    fn default() -> (r: Value)
        ensures
            r@ is None,
    {
        Value { handle: None }
    }
}

impl Value {
    /// Whether this value still holds its handle.
    pub fn is_live(&self) -> (r: bool)
        ensures
            r == self@ is Some,
    {
        self.handle.is_some()
    }

    /// Reads the value as whether the value is true; the value must be of that kind.
    pub fn to_bool(&self) -> (r: bool)
        requires
            self@ matches Some(Model::Boolean(_)),
        ensures
            self@ == Some(Model::Boolean(r)),
    {
        match &self.handle {
            Some(Datum::Boolean(x)) => *x,
            _ => unreached(),
        }
    }

    /// Reads the value as a signed 8-bit integer; the value must be of that kind.
    pub fn to_int8(&self) -> (r: i8)
        requires
            self@ matches Some(Model::Tinyint(_)),
        ensures
            self@ == Some(Model::Tinyint(r)),
    {
        match &self.handle {
            Some(Datum::Tinyint(x)) => *x,
            _ => unreached(),
        }
    }

    /// Reads the value as an unsigned 8-bit integer; the value must be of that kind.
    pub fn to_uint8(&self) -> (r: u8)
        requires
            self@ matches Some(Model::UTinyint(_)),
        ensures
            self@ == Some(Model::UTinyint(r)),
    {
        match &self.handle {
            Some(Datum::UTinyint(x)) => *x,
            _ => unreached(),
        }
    }

    /// Reads the value as a signed 16-bit integer; the value must be of that kind.
    pub fn to_int16(&self) -> (r: i16)
        requires
            self@ matches Some(Model::Smallint(_)),
        ensures
            self@ == Some(Model::Smallint(r)),
    {
        match &self.handle {
            Some(Datum::Smallint(x)) => *x,
            _ => unreached(),
        }
    }

    /// Reads the value as an unsigned 16-bit integer; the value must be of that kind.
    pub fn to_uint16(&self) -> (r: u16)
        requires
            self@ matches Some(Model::USmallint(_)),
        ensures
            self@ == Some(Model::USmallint(r)),
    {
        match &self.handle {
            Some(Datum::USmallint(x)) => *x,
            _ => unreached(),
        }
    }

    /// Reads the value as a signed 32-bit integer; the value must be of that kind.
    pub fn to_int32(&self) -> (r: i32)
        requires
            self@ matches Some(Model::Integer(_)),
        ensures
            self@ == Some(Model::Integer(r)),
    {
        match &self.handle {
            Some(Datum::Integer(x)) => *x,
            _ => unreached(),
        }
    }

    /// Reads the value as an unsigned 32-bit integer; the value must be of that kind.
    pub fn to_uint32(&self) -> (r: u32)
        requires
            self@ matches Some(Model::UInteger(_)),
        ensures
            self@ == Some(Model::UInteger(r)),
    {
        match &self.handle {
            Some(Datum::UInteger(x)) => *x,
            _ => unreached(),
        }
    }

    /// Reads the value as a signed 64-bit integer; the value must be of that kind.
    pub fn to_int64(&self) -> (r: i64)
        requires
            self@ matches Some(Model::Bigint(_)),
        ensures
            self@ == Some(Model::Bigint(r)),
    {
        match &self.handle {
            Some(Datum::Bigint(x)) => *x,
            _ => unreached(),
        }
    }

    /// Reads the value as an unsigned 64-bit integer; the value must be of that kind.
    pub fn to_uint64(&self) -> (r: u64)
        requires
            self@ matches Some(Model::UBigint(_)),
        ensures
            self@ == Some(Model::UBigint(r)),
    {
        match &self.handle {
            Some(Datum::UBigint(x)) => *x,
            _ => unreached(),
        }
    }

    /// Reads the value as the bit pattern of a 32-bit float; the value must be of that kind.
    pub fn to_float_bits(&self) -> (r: u32)
        requires
            self@ matches Some(Model::Float(_)),
        ensures
            self@ == Some(Model::Float(r)),
    {
        match &self.handle {
            Some(Datum::Float(x)) => *x,
            _ => unreached(),
        }
    }

    /// Reads the value as the bit pattern of a 64-bit float; the value must be of that kind.
    pub fn to_double_bits(&self) -> (r: u64)
        requires
            self@ matches Some(Model::Double(_)),
        ensures
            self@ == Some(Model::Double(r)),
    {
        match &self.handle {
            Some(Datum::Double(x)) => *x,
            _ => unreached(),
        }
    }

    /// Decomposes a list value into its elements, in order. Each element is
    /// a value of its own, independent of this one.
    pub fn to_vec(&self) -> (r: Vec<Value>)
        requires
            self@ matches Some(Model::List(_)),
        ensures
            r@.len() == self@->Some_0->List_0.len(),
            forall|i: int|
                0 <= i < r@.len() ==> (#[trigger] r@[i])@ == Some(self@->Some_0->List_0[i]),
    {
        match &self.handle {
            Some(Datum::List(items)) => {
                let ghost parent = self.handle->Some_0;
                proof {
                    lemma_item_models(parent, items@.len());
                }
                let mut out: Vec<Value> = Vec::with_capacity(items.len());
                let mut i: usize = 0;
                while i < items.len()
                    invariant
                        parent == Datum::List(*items),
                        self@ == Some(parent@),
                        parent@->List_0.len() == items@.len(),
                        forall|j: int|
                            0 <= j < items@.len() ==> #[trigger] parent@->List_0[j] == items@[j]@,
                        i <= items@.len(),
                        out@.len() == i,
                        forall|j: int|
                            0 <= j < i ==> (#[trigger] out@[j])@ == Some(parent@->List_0[j]),
                    decreases items@.len() - i,
                {
                    let child = Value::from(items[i].duplicate());
                    out.push(child);
                    i += 1;
                }
                out
            },
            _ => unreached(),
        }
    }

    /// Whether the value is the database null, whatever type it was
    /// declared with.
    pub fn is_null(&self) -> (r: bool)
        requires
            self@ is Some,
        ensures
            r == self@->Some_0 is Null,
    {
        match &self.handle {
            Some(Datum::Null(_)) => true,
            Some(_) => false,
            None => unreached(),
        }
    }

    /// The kind tag of the value; a null reports its declared type.
    pub fn logical_type_id(&self) -> (r: LogicalTypeId)
        requires
            self@ is Some,
        ensures
            r == self@->Some_0.type_id(),
    {
        match &self.handle {
            Some(d) => match d {
                Datum::Null(t) => *t,
                Datum::Boolean(_) => LogicalTypeId::Boolean,
                Datum::Tinyint(_) => LogicalTypeId::Tinyint,
                Datum::Smallint(_) => LogicalTypeId::Smallint,
                Datum::Integer(_) => LogicalTypeId::Integer,
                Datum::Bigint(_) => LogicalTypeId::Bigint,
                Datum::UTinyint(_) => LogicalTypeId::UTinyint,
                Datum::USmallint(_) => LogicalTypeId::USmallint,
                Datum::UInteger(_) => LogicalTypeId::UInteger,
                Datum::UBigint(_) => LogicalTypeId::UBigint,
                Datum::Float(_) => LogicalTypeId::Float,
                Datum::Double(_) => LogicalTypeId::Double,
                Datum::Varchar(_) => LogicalTypeId::Varchar,
                Datum::List(_) => LogicalTypeId::List,
            },
            None => unreached(),
        }
    }

    /// Whether no float or double occurs in the value, at any depth: the
    /// values that [`Value::to_string`] renders.
    pub fn is_float_free(&self) -> (r: bool)
        requires
            self@ is Some,
        ensures
            r == self@->Some_0.float_free(),
    {
        match &self.handle {
            Some(d) => d.is_float_free(),
            None => unreached(),
        }
    }

    /// Renders the value as text. The value must hold no float: their
    /// decimal text is floating-point formatting, which is done outside.
    pub fn to_string(&self) -> (r: String)
        requires
            self@ matches Some(m) && m.float_free(),
        ensures
            r@ == text_of(self@->Some_0),
    {
        let mut out = String::new();
        match &self.handle {
            Some(d) => append_text(&mut out, d),
            None => unreached(),
        }
        assert(out@ =~= text_of(self@->Some_0));
        out
    }

    /// Releases the handle, if one is still held, and reports whether it did.
    /// A released value holds nothing, so a second release frees nothing.
    pub fn release(&mut self) -> (freed: bool)
        ensures
            (final(self)@, freed) == release_step(old(self)@),
    {
        let freed = self.handle.is_some();
        self.handle = None;
        freed
    }
}

} // verus!

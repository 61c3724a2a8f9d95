use vstd::prelude::*;

verus! {

/// The kind tag of a value: the runtime type identifier that a value reports.
#[derive(Clone, Copy, Debug, PartialEq, Eq, Structural)]
pub enum LogicalTypeId {
    /// The type of an untyped null.
    SqlNull,
    Boolean,
    Tinyint,
    Smallint,
    Integer,
    Bigint,
    UTinyint,
    USmallint,
    UInteger,
    UBigint,
    Float,
    Double,
    Varchar,
    List,
}

} // verus!

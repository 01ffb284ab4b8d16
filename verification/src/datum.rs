//! Raw values and the nullable wrapper around them.
use std::marker::PhantomData;
use vstd::prelude::*;

verus! {

/// An untyped machine word; what it means depends on the type that the
/// caller expects at that position.
pub type Datum = usize;

/// An object identifier of the host's catalog.
pub type Oid = u32;

/// The identifier that names no object.
pub const INVALID_OID: Oid = 0;

/// One argument or result as it travels through a call frame: the raw value
/// and, beside it, whether the value is null. A null slot still has a raw
/// value, which readers are expected to ignore.
#[derive(Clone, Copy, Debug, PartialEq, Eq, Structural)]
pub struct NullableDatum {
    pub value: Datum,
    pub isnull: bool,
}

impl Default for NullableDatum {
    /// The zero value, not null.
    fn default() -> (r: Self)
        ensures
            r == (NullableDatum { value: 0, isnull: false }),
    {
        NullableDatum { value: 0, isnull: false }
    }
}

/// A raw value together with its null flag, labelled with the type `T` that
/// the raw value is meant to be read as. Nothing checks that label: as at the
/// host's own boundary, reading the value as the right type is up to the
/// caller.
#[derive(Debug, PartialEq, Eq)]
pub struct PgDatum<T> {
    datum: Datum,
    null: bool,
    marker: PhantomData<T>,
}

impl<T> Clone for PgDatum<T> {
    fn clone(&self) -> (r: Self)
        ensures
            r == *self,
    {
        PgDatum { datum: self.datum, null: self.null, marker: PhantomData }
    }
}

impl<T> Copy for PgDatum<T> {

}

impl<T> View for PgDatum<T> {
    type V = NullableDatum;

    closed spec fn view(&self) -> NullableDatum {
        NullableDatum { value: self.datum, isnull: self.null }
    }
}

impl<T> PgDatum<T> {
    /// Wraps `datum`; `is_null` says whether it stands for null.
    pub fn new(datum: Datum, is_null: bool) -> (r: Self)
        ensures
            r@ == (NullableDatum { value: datum, isnull: is_null }),
    {
        PgDatum { datum, null: is_null, marker: PhantomData }
    }

    /// The null value; its raw value is zero.
    pub fn null() -> (r: Self)
        ensures
            r@ == (NullableDatum { value: 0, isnull: true }),
    {
        PgDatum { datum: 0, null: true, marker: PhantomData }
    }

    /// Whether this value is null.
    pub fn is_null(&self) -> (r: bool)
        ensures
            r == self@.isnull,
    {
        self.null
    }

    /// The raw value, whether or not it is null.
    pub fn into_datum(self) -> (r: Datum)
        ensures
            r == self@.value,
    {
        self.datum
    }
}

} // verus!

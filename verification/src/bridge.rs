//! The type bridge between SQLite storage classes and PostgreSQL wire types.
//!
//! SQLite values carry one of five storage classes. Each storage class is
//! shown to PostgreSQL clients as a fixed wire type with a fixed field
//! format, and each wire type maps back to the storage class it stands for.

use vstd::prelude::*;

verus! {

/// SQLite's dynamic type label for a value.
#[derive(Clone, Copy, Debug, PartialEq, Eq, Structural)]
pub enum StorageClass {
    Null,
    Integer,
    Real,
    Text,
    Blob,
}

/// The PostgreSQL type under which a column is announced to clients.
#[derive(Clone, Copy, Debug, PartialEq, Eq, Structural)]
pub enum WireType {
    Int8,
    Float8,
    Text,
    Bytea,
    Varchar,
}

/// The encoding of a field on the wire.
#[derive(Clone, Copy, Debug, PartialEq, Eq, Structural)]
pub enum WireFormat {
    Text,
    Binary,
}

/// The wire type that a storage class is announced as.
pub open spec fn spec_wire_type_for(sc: StorageClass) -> WireType {
    match sc {
        StorageClass::Integer => WireType::Int8,
        StorageClass::Real => WireType::Float8,
        StorageClass::Text => WireType::Text,
        StorageClass::Blob => WireType::Bytea,
        StorageClass::Null => WireType::Varchar,
    }
}

/// The storage class that a wire type stands for.
pub open spec fn spec_storage_for_wire(w: WireType) -> StorageClass {
    match w {
        WireType::Int8 => StorageClass::Integer,
        WireType::Float8 => StorageClass::Real,
        WireType::Text => StorageClass::Text,
        WireType::Bytea => StorageClass::Blob,
        WireType::Varchar => StorageClass::Null,
    }
}

/// The PostgreSQL object identifier of a wire type.
pub open spec fn spec_wire_oid(w: WireType) -> u32 {
    match w {
        WireType::Int8 => 20u32,
        WireType::Float8 => 701u32,
        WireType::Text => 25u32,
        WireType::Bytea => 17u32,
        WireType::Varchar => 1043u32,
    }
}

/// The field format of a storage class on the wire: blobs are sent in
/// binary, everything else as text.
pub open spec fn spec_wire_format_for(sc: StorageClass) -> WireFormat {
    match sc {
        StorageClass::Blob => WireFormat::Binary,
        _ => WireFormat::Text,
    }
}

#[verifier::when_used_as_spec(spec_wire_type_for)]
pub fn wire_type_for(sc: StorageClass) -> (w: WireType)
    ensures
        w == spec_wire_type_for(sc),
{
    match sc {
        StorageClass::Integer => WireType::Int8,
        StorageClass::Real => WireType::Float8,
        StorageClass::Text => WireType::Text,
        StorageClass::Blob => WireType::Bytea,
        StorageClass::Null => WireType::Varchar,
    }
}

#[verifier::when_used_as_spec(spec_storage_for_wire)]
pub fn storage_for_wire(w: WireType) -> (sc: StorageClass)
    ensures
        sc == spec_storage_for_wire(w),
{
    match w {
        WireType::Int8 => StorageClass::Integer,
        WireType::Float8 => StorageClass::Real,
        WireType::Text => StorageClass::Text,
        WireType::Bytea => StorageClass::Blob,
        WireType::Varchar => StorageClass::Null,
    }
}

#[verifier::when_used_as_spec(spec_wire_oid)]
pub fn wire_oid(w: WireType) -> (oid: u32)
    ensures
        oid == spec_wire_oid(w),
{
    match w {
        WireType::Int8 => 20,
        WireType::Float8 => 701,
        WireType::Text => 25,
        WireType::Bytea => 17,
        WireType::Varchar => 1043,
    }
}

#[verifier::when_used_as_spec(spec_wire_format_for)]
pub fn wire_format_for(sc: StorageClass) -> (f: WireFormat)
    ensures
        f == spec_wire_format_for(sc),
{
    match sc {
        StorageClass::Blob => WireFormat::Binary,
        _ => WireFormat::Text,
    }
}

/// Every storage class survives the trip to its wire type and back.
/// A null column is announced as `Varchar`, which maps back to null, so the
/// round trip is exact on all five storage classes.
pub proof fn lemma_wire_round_trip(sc: StorageClass)
    ensures
        spec_storage_for_wire(spec_wire_type_for(sc)) == sc,
{
}

/// Wire types are told apart by their object identifiers, so the announced
/// type determines the storage class it stands for.
pub proof fn lemma_wire_oid_injective(w1: WireType, w2: WireType)
    ensures
        spec_wire_oid(w1) == spec_wire_oid(w2) ==> w1 == w2,
{
}

} // verus!

//! Encoding result sets into PostgreSQL wire structures.
//!
//! The schema becomes a list of field descriptions carrying the bridge's
//! wire type and field format; each record becomes one encoded data row.
//! The encoding itself is the wire library's; its results are named, and
//! the translation around it is verified: every column is announced under
//! the type and format the bridge assigns, and every row is the encoding
//! of exactly its record's values under that schema.

use vstd::prelude::*;

use crate::backend::{
    spec_value_view, Field, PgLiteDBResponse, Record, SqlValue, SqlValueView,
};
use crate::bridge::{
    spec_wire_format_for, spec_wire_oid, spec_wire_type_for, wire_format_for, wire_oid,
    wire_type_for, WireFormat,
};
use crate::errors::PgError;

verus! {

/// A field description on the wire.
#[verifier::external_type_specification]
#[verifier::external_body]
pub struct ExFieldInfo(pgwire::api::results::FieldInfo);

/// One encoded data row on the wire.
#[verifier::external_type_specification]
#[verifier::external_body]
pub struct ExDataRow(pgwire::messages::data::DataRow);

/// The row encoder: a schema and the cells encoded so far.
#[verifier::external_type_specification]
#[verifier::external_body]
pub struct ExDataRowEncoder(pgwire::api::results::DataRowEncoder);

/// The field description built from a column name, a type OID and a
/// format; `FieldInfo::new` is deterministic in them.
pub uninterp spec fn field_info_of(name: Seq<char>, oid: u32, binary: bool) -> pgwire::api::results::FieldInfo;

/// The schema a row encoder was built over.
pub uninterp spec fn enc_fields(e: pgwire::api::results::DataRowEncoder) -> Seq<pgwire::api::results::FieldInfo>;

/// The cells encoded into a row encoder so far, as value views. This
/// models the encoder's history, which is finer than its stored bytes:
/// two different cells can encode to the same bytes. Nothing compares
/// encoder values, so no fact about the bytes is claimed beyond what
/// [`encoded_row`] states.
pub uninterp spec fn enc_cells(e: pgwire::api::results::DataRowEncoder) -> Seq<SqlValueView>;

/// The data row that encoding the given cells under the given schema
/// produces; the encoding is deterministic in them.
pub uninterp spec fn encoded_row(
    fields: Seq<pgwire::api::results::FieldInfo>,
    cells: Seq<SqlValueView>,
) -> pgwire::messages::data::DataRow;

/// Relies on `pgwire::api::Type::from_oid` and `FieldInfo::new`: builds
/// the field description for a column name, type OID and format. The OIDs
/// the bridge emits are all known to the wire library.
#[verifier::external_body]
fn field_info_new(name: &String, oid: u32, binary: bool) -> (r: Option<
    pgwire::api::results::FieldInfo,
>)
    ensures
        r matches Some(f) ==> f == field_info_of(name@, oid, binary),
        oid == 20 || oid == 701 || oid == 25 || oid == 17 || oid == 1043 ==> r is Some,
{
    let datatype = pgwire::api::Type::from_oid(oid)?;
    let format = if binary {
        pgwire::api::results::FieldFormat::Binary
    } else {
        pgwire::api::results::FieldFormat::Text
    };
    Some(pgwire::api::results::FieldInfo::new(name.clone(), None, None, datatype, format))
}

/// Relies on `DataRowEncoder::new`: a fresh encoder over the schema, with
/// no cells yet.
#[verifier::external_body]
fn encoder_new(fields: &Vec<pgwire::api::results::FieldInfo>) -> (e:
    pgwire::api::results::DataRowEncoder)
    ensures
        enc_fields(e) == fields@,
        enc_cells(e) == Seq::<SqlValueView>::empty(),
{
    pgwire::api::results::DataRowEncoder::new(std::sync::Arc::new(fields.clone()))
}

/// Relies on `DataRowEncoder::encode_field`: appends a null cell. The
/// encoder panics past the schema's width, so a free column is required.
/// An absent value encodes as the null marker in both field formats
/// without touching the value encoders, so the call cannot fail.
#[verifier::external_body]
fn enc_put_null(e: &mut pgwire::api::results::DataRowEncoder) -> (r: Result<(), String>)
    requires
        enc_cells(*old(e)).len() < enc_fields(*old(e)).len(),
    ensures
        r is Ok,
        enc_fields(*final(e)) == enc_fields(*old(e)),
        enc_cells(*final(e)) == enc_cells(*old(e)).push(SqlValueView::Null),
{
    e.encode_field(&None::<i8>).map_err(|err| err.to_string())
}

/// Relies on `DataRowEncoder::encode_field`: appends a 64-bit integer
/// cell. The encoder panics past the schema's width, so a free column is
/// required. The integer encoders write digits or raw bytes into the
/// growable row buffer and return no error, so the call cannot fail.
#[verifier::external_body]
fn enc_put_i64(e: &mut pgwire::api::results::DataRowEncoder, i: i64) -> (r: Result<(), String>)
    requires
        enc_cells(*old(e)).len() < enc_fields(*old(e)).len(),
    ensures
        r is Ok,
        enc_fields(*final(e)) == enc_fields(*old(e)),
        enc_cells(*final(e)) == enc_cells(*old(e)).push(SqlValueView::Integer(i)),
{
    e.encode_field(&i).map_err(|err| err.to_string())
}

/// Relies on `DataRowEncoder::encode_field`: appends a 64-bit real cell
/// given by its bit pattern. The encoder panics past the schema's width,
/// so a free column is required. The real encoders format or copy the
/// value infallibly, so the call cannot fail.
#[verifier::external_body]
fn enc_put_real_bits(e: &mut pgwire::api::results::DataRowEncoder, b: u64) -> (r: Result<
    (),
    String,
>)
    requires
        enc_cells(*old(e)).len() < enc_fields(*old(e)).len(),
    ensures
        r is Ok,
        enc_fields(*final(e)) == enc_fields(*old(e)),
        enc_cells(*final(e)) == enc_cells(*old(e)).push(SqlValueView::Real(b)),
{
    let wide = bytes::Buf::get_f64(&mut &b.to_be_bytes()[..]);
    e.encode_field(&wide).map_err(|err| err.to_string())
}

/// Relies on `DataRowEncoder::encode_field`: appends a text cell. The
/// encoder panics past the schema's width, so a free column is required.
/// The text encoders copy the bytes infallibly, so the call cannot fail.
#[verifier::external_body]
fn enc_put_text(e: &mut pgwire::api::results::DataRowEncoder, t: &String) -> (r: Result<
    (),
    String,
>)
    requires
        enc_cells(*old(e)).len() < enc_fields(*old(e)).len(),
    ensures
        r is Ok,
        enc_fields(*final(e)) == enc_fields(*old(e)),
        enc_cells(*final(e)) == enc_cells(*old(e)).push(SqlValueView::Text(t@)),
{
    e.encode_field(t).map_err(|err| err.to_string())
}

/// Relies on `DataRowEncoder::encode_field`: appends a blob cell. The
/// encoder panics past the schema's width, so a free column is required.
/// Bytes copy raw in binary format and hex-escape under the constant
/// default text options, both infallibly, so the call cannot fail.
#[verifier::external_body]
fn enc_put_blob(e: &mut pgwire::api::results::DataRowEncoder, v: &Vec<u8>) -> (r: Result<
    (),
    String,
>)
    requires
        enc_cells(*old(e)).len() < enc_fields(*old(e)).len(),
    ensures
        r is Ok,
        enc_fields(*final(e)) == enc_fields(*old(e)),
        enc_cells(*final(e)) == enc_cells(*old(e)).push(SqlValueView::Blob(v@)),
{
    e.encode_field(v).map_err(|err| err.to_string())
}

/// Relies on `DataRowEncoder::take_row`: takes the encoded row out and
/// resets the encoder for the next row.
#[verifier::external_body]
fn enc_take_row(e: &mut pgwire::api::results::DataRowEncoder) -> (row:
    pgwire::messages::data::DataRow)
    ensures
        row == encoded_row(enc_fields(*old(e)), enc_cells(*old(e))),
        enc_fields(*final(e)) == enc_fields(*old(e)),
        enc_cells(*final(e)) == Seq::<SqlValueView>::empty(),
{
    e.take_row()
}

/// The field description a schema column is announced as: its name, the
/// OID of the wire type the bridge assigns to its storage class, and the
/// bridge's field format.
pub open spec fn spec_field_info_for(f: &Field) -> pgwire::api::results::FieldInfo {
    field_info_of(
        f.name@,
        spec_wire_oid(spec_wire_type_for(f.field_type)),
        spec_wire_format_for(f.field_type) == WireFormat::Binary,
    )
}

/// The value views of a record's cells.
pub open spec fn spec_cells_view(values: Seq<SqlValue>) -> Seq<SqlValueView> {
    values.map_values(|v: SqlValue| spec_value_view(&v))
}

/// Whether a wire schema announces exactly the given fields, column by
/// column.
pub open spec fn spec_schema_announced(
    fields: Seq<Field>,
    schema: Seq<pgwire::api::results::FieldInfo>,
) -> bool {
    schema.len() == fields.len() && forall|i: int|
        0 <= i < fields.len() ==> schema[i] == spec_field_info_for(&fields[i])
}

/// Whether the wire rows are exactly the encodings of the records under
/// the schema, row by row and in order.
pub open spec fn spec_rows_encoded(
    schema: Seq<pgwire::api::results::FieldInfo>,
    records: Seq<Record>,
    rows: Seq<pgwire::messages::data::DataRow>,
) -> bool {
    rows.len() == records.len() && forall|i: int|
        0 <= i < records.len() ==> rows[i] == encoded_row(
            schema,
            spec_cells_view(records[i].values@),
        )
}

/// A translated result: the announced schema and the encoded rows.
#[derive(Debug)]
pub struct WireQueryResponse {
    pub schema: Vec<pgwire::api::results::FieldInfo>,
    pub rows: Vec<pgwire::messages::data::DataRow>,
}

/// Announce a schema: each column under the wire type and field format
/// the bridge assigns to its storage class.
pub fn translate_schema_to_pgwire(fields: &Vec<Field>) -> (r: Vec<
    pgwire::api::results::FieldInfo,
>)
    ensures
        spec_schema_announced(fields@, r@),
{
    let mut infos: Vec<pgwire::api::results::FieldInfo> = Vec::new();
    let mut i: usize = 0;
    while i < fields.len()
        invariant
            0 <= i <= fields@.len(),
            infos@.len() == i,
            forall|j: int| 0 <= j < i ==> infos@[j] == spec_field_info_for(&fields@[j]),
        decreases fields.len() - i,
    {
        let f = &fields[i];
        let wire_type = wire_type_for(f.field_type);
        let oid: u32 = wire_oid(wire_type);
        let binary = matches!(wire_format_for(f.field_type), WireFormat::Binary);
        match field_info_new(&f.name, oid, binary) {
            Some(info) => {
                infos.push(info);
            },
            None => {
                proof {
                    assert(oid == 20 || oid == 701 || oid == 25 || oid == 17 || oid == 1043);
                    assert(false);
                }
            },
        }
        i = i + 1;
    }
    infos
}

/// Encode one cell by its storage class: integers, reals, text and blobs
/// by their native representation, nulls as the absent field.
fn encode_cell(e: &mut pgwire::api::results::DataRowEncoder, v: &SqlValue)
    requires
        enc_cells(*old(e)).len() < enc_fields(*old(e)).len(),
    ensures
        enc_fields(*final(e)) == enc_fields(*old(e)),
        enc_cells(*final(e)) == enc_cells(*old(e)).push(spec_value_view(v)),
{
    let out = match v {
        SqlValue::Null => enc_put_null(e),
        SqlValue::Integer(i) => enc_put_i64(e, *i),
        SqlValue::Real(b) => enc_put_real_bits(e, *b),
        SqlValue::Text(t) => enc_put_text(e, t),
        SqlValue::Blob(bytes_val) => enc_put_blob(e, bytes_val),
    };
    match out {
        Ok(()) => {},
        Err(_) => {},
    }
}

/// Encode every record into a data row under the announced schema: row
/// `i` is the encoding of record `i`'s values, and the translation
/// succeeds exactly when every record is as wide as the schema. A record
/// wider or narrower than the schema is the unexpected-failure error.
pub fn translate_records_to_pgwire(
    schema: &Vec<pgwire::api::results::FieldInfo>,
    records: &Vec<Record>,
) -> (r: Result<Vec<pgwire::messages::data::DataRow>, PgError>)
    ensures
        r matches Ok(rows) ==> spec_rows_encoded(schema@, records@, rows@),
        r is Ok <==> forall|i: int|
            0 <= i < records@.len() ==> (#[trigger] records@[i].values@.len()) == schema@.len(),
        r matches Err(e) ==> e == PgError::UnexpectedFailure,
{
    let mut rows: Vec<pgwire::messages::data::DataRow> = Vec::new();
    let mut encoder = encoder_new(schema);
    let mut i: usize = 0;
    while i < records.len()
        invariant
            0 <= i <= records@.len(),
            rows@.len() == i,
            enc_fields(encoder) == schema@,
            enc_cells(encoder) == Seq::<SqlValueView>::empty(),
            forall|j: int|
                0 <= j < i ==> (#[trigger] records@[j].values@.len()) == schema@.len(),
            forall|j: int|
                0 <= j < i ==> rows@[j] == encoded_row(
                    schema@,
                    spec_cells_view(records@[j].values@),
                ),
        decreases records.len() - i,
    {
        let record = &records[i];
        if record.values.len() != schema.len() {
            proof {
                assert(records@[i as int].values@.len() != schema@.len());
            }
            return Err(PgError::UnexpectedFailure);
        }
        let mut k: usize = 0;
        while k < record.values.len()
            invariant
                0 <= k <= record.values@.len(),
                record.values@.len() == schema@.len(),
                enc_fields(encoder) == schema@,
                enc_cells(encoder) =~= spec_cells_view(record.values@).take(k as int),
            decreases record.values.len() - k,
        {
            proof {
                assert(enc_cells(encoder).len() == k);
            }
            encode_cell(&mut encoder, &record.values[k]);
            proof {
                assert(enc_cells(encoder) =~= spec_cells_view(record.values@).take(k + 1));
            }
            k = k + 1;
        }
        proof {
            assert(enc_cells(encoder) =~= spec_cells_view(record.values@));
        }
        let row = enc_take_row(&mut encoder);
        rows.push(row);
        i = i + 1;
    }
    Ok(rows)
}

/// Translate a worker response into the wire structures, exactly: a
/// response carrying an error surfaces that error verbatim; one carrying
/// rows and their schema is announced and encoded, succeeding whenever
/// every row is as wide as the schema; one carrying neither is the
/// unexpected failure.
pub fn translate_dbresponse_to_pgwire(resp: PgLiteDBResponse) -> (r: Result<
    WireQueryResponse,
    PgError,
>)
    ensures
        resp.error matches Some(e) ==> r == Err::<WireQueryResponse, PgError>(e),
        resp.error is None && (resp.result_schema is None || resp.result is None) ==> r == Err::<
            WireQueryResponse,
            PgError,
        >(PgError::UnexpectedFailure),
        resp.error is None ==> (resp.result_schema matches Some(fields) ==> (
        resp.result matches Some(records) ==> {
            &&& (forall|i: int|
                0 <= i < records@.len() ==> (#[trigger] records@[i].values@.len())
                    == fields@.len()) ==> r is Ok
            &&& r matches Ok(out) ==> spec_schema_announced(fields@, out.schema@)
                && spec_rows_encoded(out.schema@, records@, out.rows@)
            &&& r matches Err(e) ==> e == PgError::UnexpectedFailure
        })),
{
    let fields = match resp.result_schema {
        Some(fields) => fields,
        None => {
            return Err(
                match resp.error {
                    Some(e) => e,
                    None => PgError::UnexpectedFailure,
                },
            );
        },
    };
    let records = match resp.result {
        Some(records) => records,
        None => {
            return Err(
                match resp.error {
                    Some(e) => e,
                    None => PgError::UnexpectedFailure,
                },
            );
        },
    };
    match resp.error {
        Some(e) => Err(e),
        None => {
            let schema = translate_schema_to_pgwire(&fields);
            match translate_records_to_pgwire(&schema, &records) {
                Ok(rows) => Ok(WireQueryResponse { schema, rows }),
                Err(e) => Err(e),
            }
        },
    }
}

} // verus!

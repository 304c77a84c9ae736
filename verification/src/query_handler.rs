//! The simple and extended query sub-protocols.
//!
//! Parse stores raw SQL text under a statement name; Bind coerces the
//! client's parameters by their declared type OIDs and snapshots the
//! statement text into a portal; Execute sends the portal's text and
//! parameters to the backend worker and waits, bounded by the response
//! deadline; Describe asks the worker for a schema alone. All semantic
//! work happens in the worker — the store holds only text and values.

use vstd::prelude::*;

use crate::backend::channel::{channel_bounded_one, channel_recv_timeout, channel_send, RecvOutcome};
use crate::backend::{
    spec_value_view, BackendConnection, MessageType, PgLiteDBMessage, PgLiteDBParam,
    PgLiteDBResponse, SqlValue, SqlValueView,
};
use crate::errors::PgError;

verus! {

/// How many seconds a connection waits for a backend response.
pub const BACKEND_RESPONSE_TIMEOUT_SECS: u64 = 10;

/// A decoded parameter as the client bound it: the statement's declared
/// type OID for this ordinal, and the decoded value, absent when the
/// client bound null. A 32-bit real arrives already widened to the 64-bit
/// bit pattern.
pub struct BoundParam {
    pub oid: Option<u32>,
    pub value: Option<ParamValue>,
}

/// The decoded forms a client parameter can take.
pub enum ParamValue {
    Bool(bool),
    Int16(i16),
    Int32(i32),
    Int64(i64),
    /// The IEEE 754 bit pattern of a 64-bit real.
    RealBits(u64),
    Text(String),
    Blob(Vec<u8>),
}

/// The declared type OIDs the gateway accepts for bound parameters:
/// BOOL, INT2, INT4, INT8, FLOAT4, FLOAT8, TEXT, VARCHAR and BYTEA.
pub open spec fn spec_supported_param_oid(oid: u32) -> bool {
    oid == 16 || oid == 21 || oid == 23 || oid == 20 || oid == 700 || oid == 701 || oid == 25
        || oid == 1043 || oid == 17
}

/// How a decoded value coerces under a declared type OID: booleans become
/// the integers zero and one, integers widen to 64 bits, reals keep their
/// 64-bit pattern, text stays text, bytes stay a blob. `None` means the
/// value does not fit the declared type.
pub open spec fn spec_coerce_value(oid: u32, v: &ParamValue) -> Option<SqlValueView> {
    match v {
        ParamValue::Bool(b) => if oid == 16 {
            Some(SqlValueView::Integer(if *b { 1int as i64 } else { 0int as i64 }))
        } else {
            None
        },
        ParamValue::Int16(n) => if oid == 21 {
            Some(SqlValueView::Integer(*n as i64))
        } else {
            None
        },
        ParamValue::Int32(n) => if oid == 23 {
            Some(SqlValueView::Integer(*n as i64))
        } else {
            None
        },
        ParamValue::Int64(n) => if oid == 20 {
            Some(SqlValueView::Integer(*n))
        } else {
            None
        },
        ParamValue::RealBits(b) => if oid == 700 || oid == 701 {
            Some(SqlValueView::Real(*b))
        } else {
            None
        },
        ParamValue::Text(t) => if oid == 25 || oid == 1043 {
            Some(SqlValueView::Text(t@))
        } else {
            None
        },
        ParamValue::Blob(b) => if oid == 17 {
            Some(SqlValueView::Blob(b@))
        } else {
            None
        },
    }
}

/// What one bound parameter coerces to: no declared type or no value
/// coerces to null; an unsupported declared type or a value that does not
/// fit it is rejected.
pub open spec fn spec_coerce_param(idx: int, p: &BoundParam) -> Result<SqlValueView, PgError> {
    match p.oid {
        None => Ok(SqlValueView::Null),
        Some(oid) => if !spec_supported_param_oid(oid) {
            Err(PgError::UnsupportedParameterType { oid })
        } else {
            match p.value {
                None => Ok(SqlValueView::Null),
                Some(ref v) => match spec_coerce_value(oid, v) {
                    Some(sv) => Ok(sv),
                    None => Err(PgError::MalformedParameter { ordinal: idx as usize }),
                },
            }
        },
    }
}

/// Coerce one bound parameter.
fn coerce_param(idx: usize, p: &BoundParam) -> (r: Result<SqlValue, PgError>)
    ensures
        r matches Ok(sv) ==> spec_coerce_param(idx as int, p) == Ok::<SqlValueView, PgError>(
            spec_value_view(&sv),
        ),
        r matches Err(e) ==> spec_coerce_param(idx as int, p) == Err::<SqlValueView, PgError>(e),
        r is Ok <==> spec_coerce_param(idx as int, p) is Ok,
{
    let oid: u32 = match p.oid {
        None => {
            return Ok(SqlValue::Null);
        },
        Some(oid) => oid,
    };
    if !(oid == 16 || oid == 21 || oid == 23 || oid == 20 || oid == 700 || oid == 701 || oid == 25
        || oid == 1043 || oid == 17) {
        return Err(PgError::UnsupportedParameterType { oid });
    }
    let v = match &p.value {
        None => {
            return Ok(SqlValue::Null);
        },
        Some(v) => v,
    };
    let coerced = match v {
        ParamValue::Bool(b) => if oid == 16 {
            Some(SqlValue::Integer(if *b { 1 } else { 0 }))
        } else {
            None
        },
        ParamValue::Int16(n) => if oid == 21 {
            Some(SqlValue::Integer(*n as i64))
        } else {
            None
        },
        ParamValue::Int32(n) => if oid == 23 {
            Some(SqlValue::Integer(*n as i64))
        } else {
            None
        },
        ParamValue::Int64(n) => if oid == 20 {
            Some(SqlValue::Integer(*n))
        } else {
            None
        },
        ParamValue::RealBits(b) => if oid == 700 || oid == 701 {
            Some(SqlValue::Real(*b))
        } else {
            None
        },
        ParamValue::Text(t) => if oid == 25 || oid == 1043 {
            Some(SqlValue::Text(t.clone()))
        } else {
            None
        },
        ParamValue::Blob(b) => if oid == 17 {
            Some(SqlValue::Blob(b.clone()))
        } else {
            None
        },
    };
    match coerced {
        Some(sv) => Ok(sv),
        None => Err(PgError::MalformedParameter { ordinal: idx }),
    }
}

/// Coerce a whole parameter vector, ordinal by ordinal. Every parameter
/// must coerce for the bind to be accepted; the first offending parameter
/// rejects it and nothing else is touched.
pub fn parse_params(params: &Vec<BoundParam>) -> (r: Result<Vec<PgLiteDBParam>, PgError>)
    ensures
        r matches Ok(ps) ==> {
            &&& ps.len() == params.len()
            &&& forall|i: int|
                0 <= i < params.len() ==> Ok::<SqlValueView, PgError>(
                    spec_value_view(&#[trigger] ps[i].value),
                ) == spec_coerce_param(i, &params[i])
            &&& forall|i: int| 0 <= i < params.len() ==> (#[trigger] ps[i].ordinal) == Some(
                i as usize,
            )
            &&& forall|i: int| 0 <= i < params.len() ==> (#[trigger] ps[i].name) is None
            &&& forall|i: int| 0 <= i < params.len() ==> (#[trigger] ps[i].param_type) is None
        },
        r is Ok <==> forall|i: int|
            0 <= i < params.len() ==> (#[trigger] spec_coerce_param(i, &params[i])) is Ok,
        r matches Err(e) ==> exists|i: int|
            0 <= i < params.len() && #[trigger] spec_coerce_param(i, &params[i]) == Err::<
                SqlValueView,
                PgError,
            >(e),
{
    let mut ps: Vec<PgLiteDBParam> = Vec::new();
    let mut i: usize = 0;
    while i < params.len()
        invariant
            0 <= i <= params.len(),
            ps.len() == i,
            forall|j: int|
                0 <= j < i ==> Ok::<SqlValueView, PgError>(
                    spec_value_view(&#[trigger] ps[j].value),
                ) == spec_coerce_param(j, &params[j]),
            forall|j: int| 0 <= j < i ==> (#[trigger] ps[j].ordinal) == Some(j as usize),
            forall|j: int| 0 <= j < i ==> (#[trigger] ps[j].name) is None,
            forall|j: int| 0 <= j < i ==> (#[trigger] ps[j].param_type) is None,
        decreases params.len() - i,
    {
        match coerce_param(i, &params[i]) {
            Ok(value) => {
                ps.push(PgLiteDBParam { name: None, ordinal: Some(i), param_type: None, value });
            },
            Err(e) => {
                assert(spec_coerce_param(i as int, &params[i as int]) == Err::<
                    SqlValueView,
                    PgError,
                >(e));
                return Err(e);
            },
        }
        i = i + 1;
    }
    assert forall|i2: int| 0 <= i2 < params.len() implies (#[trigger] spec_coerce_param(
        i2,
        &params[i2],
    )) is Ok by {
        assert(Ok::<SqlValueView, PgError>(spec_value_view(&ps[i2].value)) == spec_coerce_param(
            i2,
            &params[i2],
        ));
    }
    Ok(ps)
}

/// A parsed statement: the raw SQL text and the declared parameter type
/// OIDs, stored under the statement's name. Parsing is deferred to the
/// backend; the text is kept verbatim.
pub struct StoredStatement {
    pub name: String,
    pub sql: Vec<u8>,
    pub param_oids: Vec<u32>,
}

/// A bound portal: the name it was bound under, the statement it came
/// from, a snapshot of that statement's SQL text, and the parameters as
/// the client bound them. The bind validated that every parameter
/// coerces; the coercion itself is redone at execute time.
pub struct Portal {
    pub name: String,
    pub statement_name: String,
    pub sql: Vec<u8>,
    pub params: Vec<BoundParam>,
}

/// The per-connection store of parsed statements and bound portals.
pub struct MemPortalStore {
    statements: Vec<StoredStatement>,
    portals: Vec<Portal>,
}

/// The statement stored under a name, if any.
pub open spec fn spec_statement(store: &MemPortalStore, name: Seq<char>) -> Option<StoredStatement> {
    if exists|i: int|
        0 <= i < store.spec_statements().len() && (#[trigger] store.spec_statements()[i].name@)
            == name {
        let i = choose|i: int|
            0 <= i < store.spec_statements().len() && (#[trigger] store.spec_statements()[i].name@)
                == name;
        Some(store.spec_statements()[i])
    } else {
        None
    }
}

/// The SQL text stored under a statement name, if any.
pub open spec fn spec_statement_sql(store: &MemPortalStore, name: Seq<char>) -> Option<Seq<u8>> {
    match spec_statement(store, name) {
        Some(s) => Some(s.sql@),
        None => None,
    }
}

/// The portal stored under a portal name, if any.
pub open spec fn spec_portal(store: &MemPortalStore, name: Seq<char>) -> Option<Portal> {
    if exists|i: int|
        0 <= i < store.spec_portals().len() && (#[trigger] store.spec_portals()[i].name@) == name {
        let i = choose|i: int|
            0 <= i < store.spec_portals().len() && (#[trigger] store.spec_portals()[i].name@)
                == name;
        Some(store.spec_portals()[i])
    } else {
        None
    }
}

impl MemPortalStore {
    pub closed spec fn spec_statements(&self) -> Seq<StoredStatement> {
        self.statements@
    }

    pub closed spec fn spec_portals(&self) -> Seq<Portal> {
        self.portals@
    }

    /// Names are unique within each of the two stores.
    pub closed spec fn spec_wf(&self) -> bool {
        &&& forall|i: int, j: int|
            0 <= i < j < self.statements@.len() ==> (#[trigger] self.statements@[i].name@)
                != (#[trigger] self.statements@[j].name@)
        &&& forall|i: int, j: int|
            0 <= i < j < self.portals@.len() ==> (#[trigger] self.portals@[i].name@)
                != (#[trigger] self.portals@[j].name@)
    }

    /// An empty store.
    pub fn new() -> (s: Self)
        ensures
            s.spec_wf(),
            forall|n: Seq<char>| spec_statement(&s, n) is None,
            forall|n: Seq<char>| spec_portal(&s, n) is None,
    {
        let s = MemPortalStore { statements: Vec::new(), portals: Vec::new() };
        proof {
            assert forall|n: Seq<char>| spec_statement(&s, n) is None by {
                assert(s.spec_statements().len() == 0);
            }
            assert forall|n: Seq<char>| spec_portal(&s, n) is None by {
                assert(s.spec_portals().len() == 0);
            }
        }
        s
    }

    /// With unique names, the statement at an index is the one its name
    /// looks up.
    proof fn lemma_statement_at(&self, i: int)
        requires
            self.spec_wf(),
            0 <= i < self.spec_statements().len(),
        ensures
            spec_statement(self, self.spec_statements()[i].name@) == Some(
                self.spec_statements()[i],
            ),
    {
        let n = self.spec_statements()[i].name@;
        assert(exists|j: int|
            0 <= j < self.spec_statements().len() && (#[trigger] self.spec_statements()[j].name@)
                == n);
        let j = choose|j: int|
            0 <= j < self.spec_statements().len() && (#[trigger] self.spec_statements()[j].name@)
                == n;
        if i != j {
            assert(self.spec_statements()[i].name@ != self.spec_statements()[j].name@);
        }
    }

    /// With unique names, the portal at an index is the one its name looks
    /// up.
    proof fn lemma_portal_at(&self, i: int)
        requires
            self.spec_wf(),
            0 <= i < self.spec_portals().len(),
        ensures
            spec_portal(self, self.spec_portals()[i].name@) == Some(self.spec_portals()[i]),
    {
        let n = self.spec_portals()[i].name@;
        assert(exists|j: int|
            0 <= j < self.spec_portals().len() && (#[trigger] self.spec_portals()[j].name@) == n);
        let j = choose|j: int|
            0 <= j < self.spec_portals().len() && (#[trigger] self.spec_portals()[j].name@) == n;
        if i != j {
            assert(self.spec_portals()[i].name@ != self.spec_portals()[j].name@);
        }
    }

    /// Store SQL text under a statement name, replacing what the name held
    /// before. Portals are untouched.
    pub fn put_statement(&mut self, stmt: StoredStatement)
        requires
            old(self).spec_wf(),
        ensures
            final(self).spec_wf(),
            spec_statement(final(self), stmt.name@) == Some(stmt),
            forall|n: Seq<char>|
                n != stmt.name@ ==> #[trigger] spec_statement(final(self), n) == spec_statement(
                    old(self),
                    n,
                ),
            final(self).spec_portals() == old(self).spec_portals(),
    {
        let ghost stmt_snapshot = stmt;
        let mut i: usize = 0;
        let n: usize = self.statements.len();
        let mut found: Option<usize> = None;
        while i < n
            invariant
                0 <= i <= n,
                n == self.statements@.len(),
                stmt_snapshot == stmt,
                found matches Some(fi) ==> fi < n && self.statements@[fi as int].name@
                    == stmt_snapshot.name@,
                found is None ==> forall|j: int|
                    0 <= j < i ==> (#[trigger] self.statements@[j].name@) != stmt_snapshot.name@,
            decreases n - i,
        {
            if found.is_none() && self.statements[i].name == stmt.name {
                found = Some(i);
            }
            i = i + 1;
        }
        let ghost prev = *old(self);
        match found {
            Some(fi) => {
                self.statements[fi] = stmt;
                proof {
                    Self::lemma_put_update(prev, *self, fi as int, stmt_snapshot);
                }
            },
            None => {
                self.statements.push(stmt);
                proof {
                    Self::lemma_put_push(prev, *self, stmt_snapshot);
                }
            },
        }
    }

    /// Replacing the statement at the index of its own name keeps the
    /// store well-formed and changes only that name's lookup.
    proof fn lemma_put_update(prev: Self, cur: Self, fi: int, stmt: StoredStatement)
        requires
            prev.spec_wf(),
            0 <= fi < prev.spec_statements().len(),
            prev.spec_statements()[fi].name@ == stmt.name@,
            cur.spec_statements() == prev.spec_statements().update(fi, stmt),
            cur.spec_portals() == prev.spec_portals(),
        ensures
            cur.spec_wf(),
            spec_statement(&cur, stmt.name@) == Some(stmt),
            forall|n: Seq<char>|
                n != stmt.name@ ==> #[trigger] spec_statement(&cur, n) == spec_statement(&prev, n),
    {
        assert forall|i: int, j: int|
            0 <= i < j < cur.spec_statements().len() implies (
        #[trigger] cur.spec_statements()[i].name@) != (#[trigger] cur.spec_statements()[j].name@)
            by {
            assert(prev.spec_statements()[i].name@ != prev.spec_statements()[j].name@);
        }
        cur.lemma_statement_at(fi);
        assert forall|n: Seq<char>| n != stmt.name@ implies #[trigger] spec_statement(&cur, n)
            == spec_statement(&prev, n) by {
            if exists|j: int|
                0 <= j < prev.spec_statements().len() && (
                #[trigger] prev.spec_statements()[j].name@) == n {
                let j = choose|j: int|
                    0 <= j < prev.spec_statements().len() && (
                    #[trigger] prev.spec_statements()[j].name@) == n;
                prev.lemma_statement_at(j);
                assert(cur.spec_statements()[j].name@ == n);
                cur.lemma_statement_at(j);
            } else {
                assert forall|j: int|
                    0 <= j < cur.spec_statements().len() implies (
                #[trigger] cur.spec_statements()[j].name@) != n by {
                    assert(prev.spec_statements()[j].name@ != n || j == fi);
                }
            }
        }
    }

    /// Pushing a statement under a fresh name keeps the store well-formed
    /// and changes only that name's lookup.
    proof fn lemma_put_push(prev: Self, cur: Self, stmt: StoredStatement)
        requires
            prev.spec_wf(),
            forall|j: int|
                0 <= j < prev.spec_statements().len() ==> (
                #[trigger] prev.spec_statements()[j].name@) != stmt.name@,
            cur.spec_statements() == prev.spec_statements().push(stmt),
            cur.spec_portals() == prev.spec_portals(),
        ensures
            cur.spec_wf(),
            spec_statement(&cur, stmt.name@) == Some(stmt),
            forall|n: Seq<char>|
                n != stmt.name@ ==> #[trigger] spec_statement(&cur, n) == spec_statement(&prev, n),
    {
        let len: int = prev.spec_statements().len() as int;
        assert forall|i: int, j: int|
            0 <= i < j < cur.spec_statements().len() implies (
        #[trigger] cur.spec_statements()[i].name@) != (#[trigger] cur.spec_statements()[j].name@)
            by {
            if j < len {
                assert(prev.spec_statements()[i].name@ != prev.spec_statements()[j].name@);
            } else {
                assert(cur.spec_statements()[j] == stmt);
                assert(prev.spec_statements()[i].name@ != stmt.name@);
            }
        }
        assert(cur.spec_statements()[len] == stmt);
        cur.lemma_statement_at(len);
        assert forall|n: Seq<char>| n != stmt.name@ implies #[trigger] spec_statement(&cur, n)
            == spec_statement(&prev, n) by {
            if exists|j: int|
                0 <= j < prev.spec_statements().len() && (
                #[trigger] prev.spec_statements()[j].name@) == n {
                let j = choose|j: int|
                    0 <= j < prev.spec_statements().len() && (
                    #[trigger] prev.spec_statements()[j].name@) == n;
                prev.lemma_statement_at(j);
                assert(cur.spec_statements()[j].name@ == n);
                cur.lemma_statement_at(j);
            } else {
                assert forall|j: int|
                    0 <= j < cur.spec_statements().len() implies (
                #[trigger] cur.spec_statements()[j].name@) != n by {
                    if j < len {
                        assert(prev.spec_statements()[j].name@ != n);
                    } else {
                        assert(cur.spec_statements()[j] == stmt);
                    }
                }
            }
        }
    }

    /// The SQL text stored under a statement name.
    pub fn get_statement(&self, name: &String) -> (r: Option<&StoredStatement>)
        requires
            self.spec_wf(),
        ensures
            r matches Some(stmt) ==> spec_statement(self, name@) == Some(*stmt) && stmt.name@
                == name@,
            r is None ==> spec_statement(self, name@) is None,
    {
        let mut i: usize = 0;
        let n: usize = self.statements.len();
        while i < n
            invariant
                0 <= i <= n,
                n == self.statements@.len(),
                self.spec_wf(),
                forall|j: int| 0 <= j < i ==> (#[trigger] self.statements@[j].name@) != name@,
            decreases n - i,
        {
            if self.statements[i].name == *name {
                proof {
                    self.lemma_statement_at(i as int);
                }
                return Some(&self.statements[i]);
            }
            i = i + 1;
        }
        None
    }

    /// The portal stored under a portal name.
    pub fn get_portal(&self, name: &String) -> (r: Option<&Portal>)
        requires
            self.spec_wf(),
        ensures
            r matches Some(p) ==> spec_portal(self, name@) == Some(*p) && p.name@ == name@,
            r is None ==> spec_portal(self, name@) is None,
    {
        let mut i: usize = 0;
        let n: usize = self.portals.len();
        while i < n
            invariant
                0 <= i <= n,
                n == self.portals@.len(),
                self.spec_wf(),
                forall|j: int| 0 <= j < i ==> (#[trigger] self.portals@[j].name@) != name@,
            decreases n - i,
        {
            if self.portals[i].name == *name {
                proof {
                    self.lemma_portal_at(i as int);
                }
                return Some(&self.portals[i]);
            }
            i = i + 1;
        }
        None
    }

    /// Store a portal under its name, replacing what the name held before.
    /// Statements are untouched.
    pub fn put_portal(&mut self, portal: Portal)
        requires
            old(self).spec_wf(),
        ensures
            final(self).spec_wf(),
            spec_portal(final(self), portal.name@) == Some(portal),
            forall|n: Seq<char>|
                n != portal.name@ ==> #[trigger] spec_portal(final(self), n) == spec_portal(
                    old(self),
                    n,
                ),
            final(self).spec_statements() == old(self).spec_statements(),
    {
        let ghost portal_snapshot = portal;
        let mut i: usize = 0;
        let n: usize = self.portals.len();
        let mut found: Option<usize> = None;
        while i < n
            invariant
                0 <= i <= n,
                n == self.portals@.len(),
                portal_snapshot == portal,
                found matches Some(fi) ==> fi < n && self.portals@[fi as int].name@
                    == portal_snapshot.name@,
                found is None ==> forall|j: int|
                    0 <= j < i ==> (#[trigger] self.portals@[j].name@) != portal_snapshot.name@,
            decreases n - i,
        {
            if found.is_none() && self.portals[i].name == portal.name {
                found = Some(i);
            }
            i = i + 1;
        }
        let ghost prev = *old(self);
        match found {
            Some(fi) => {
                self.portals[fi] = portal;
                proof {
                    Self::lemma_portal_update(prev, *self, fi as int, portal_snapshot);
                }
            },
            None => {
                self.portals.push(portal);
                proof {
                    Self::lemma_portal_push(prev, *self, portal_snapshot);
                }
            },
        }
    }

    /// Replacing the portal at the index of its own name keeps the store
    /// well-formed and changes only that name's lookup.
    proof fn lemma_portal_update(prev: Self, cur: Self, fi: int, portal: Portal)
        requires
            prev.spec_wf(),
            0 <= fi < prev.spec_portals().len(),
            prev.spec_portals()[fi].name@ == portal.name@,
            cur.spec_portals() == prev.spec_portals().update(fi, portal),
            cur.spec_statements() == prev.spec_statements(),
        ensures
            cur.spec_wf(),
            spec_portal(&cur, portal.name@) == Some(portal),
            forall|n: Seq<char>|
                n != portal.name@ ==> #[trigger] spec_portal(&cur, n) == spec_portal(&prev, n),
    {
        assert forall|i: int, j: int|
            0 <= i < j < cur.spec_portals().len() implies (#[trigger] cur.spec_portals()[i].name@)
            != (#[trigger] cur.spec_portals()[j].name@) by {
            assert(prev.spec_portals()[i].name@ != prev.spec_portals()[j].name@);
        }
        cur.lemma_portal_at(fi);
        assert forall|n: Seq<char>| n != portal.name@ implies #[trigger] spec_portal(&cur, n)
            == spec_portal(&prev, n) by {
            if exists|j: int|
                0 <= j < prev.spec_portals().len() && (#[trigger] prev.spec_portals()[j].name@)
                    == n {
                let j = choose|j: int|
                    0 <= j < prev.spec_portals().len() && (#[trigger] prev.spec_portals()[j].name@)
                        == n;
                prev.lemma_portal_at(j);
                assert(cur.spec_portals()[j].name@ == n);
                cur.lemma_portal_at(j);
            } else {
                assert forall|j: int|
                    0 <= j < cur.spec_portals().len() implies (
                #[trigger] cur.spec_portals()[j].name@) != n by {
                    assert(prev.spec_portals()[j].name@ != n || j == fi);
                }
            }
        }
    }

    /// Pushing a portal under a fresh name keeps the store well-formed and
    /// changes only that name's lookup.
    proof fn lemma_portal_push(prev: Self, cur: Self, portal: Portal)
        requires
            prev.spec_wf(),
            forall|j: int|
                0 <= j < prev.spec_portals().len() ==> (#[trigger] prev.spec_portals()[j].name@)
                    != portal.name@,
            cur.spec_portals() == prev.spec_portals().push(portal),
            cur.spec_statements() == prev.spec_statements(),
        ensures
            cur.spec_wf(),
            spec_portal(&cur, portal.name@) == Some(portal),
            forall|n: Seq<char>|
                n != portal.name@ ==> #[trigger] spec_portal(&cur, n) == spec_portal(&prev, n),
    {
        let len: int = prev.spec_portals().len() as int;
        assert forall|i: int, j: int|
            0 <= i < j < cur.spec_portals().len() implies (#[trigger] cur.spec_portals()[i].name@)
            != (#[trigger] cur.spec_portals()[j].name@) by {
            if j < len {
                assert(prev.spec_portals()[i].name@ != prev.spec_portals()[j].name@);
            } else {
                assert(cur.spec_portals()[j] == portal);
                assert(prev.spec_portals()[i].name@ != portal.name@);
            }
        }
        assert(cur.spec_portals()[len] == portal);
        cur.lemma_portal_at(len);
        assert forall|n: Seq<char>| n != portal.name@ implies #[trigger] spec_portal(&cur, n)
            == spec_portal(&prev, n) by {
            if exists|j: int|
                0 <= j < prev.spec_portals().len() && (#[trigger] prev.spec_portals()[j].name@)
                    == n {
                let j = choose|j: int|
                    0 <= j < prev.spec_portals().len() && (#[trigger] prev.spec_portals()[j].name@)
                        == n;
                prev.lemma_portal_at(j);
                assert(cur.spec_portals()[j].name@ == n);
                cur.lemma_portal_at(j);
            } else {
                assert forall|j: int|
                    0 <= j < cur.spec_portals().len() implies (
                #[trigger] cur.spec_portals()[j].name@) != n by {
                    if j < len {
                        assert(prev.spec_portals()[j].name@ != n);
                    } else {
                        assert(cur.spec_portals()[j] == portal);
                    }
                }
            }
        }
    }
}

impl MemPortalStore {
    /// Remove the statement stored under a name, if any. Portals are
    /// untouched.
    pub fn close_statement(&mut self, name: &String)
        requires
            old(self).spec_wf(),
        ensures
            final(self).spec_wf(),
            spec_statement(final(self), name@) is None,
            forall|n: Seq<char>|
                n != name@ ==> #[trigger] spec_statement(final(self), n) == spec_statement(
                    old(self),
                    n,
                ),
            final(self).spec_portals() == old(self).spec_portals(),
    {
        let mut i: usize = 0;
        let n: usize = self.statements.len();
        let mut found: Option<usize> = None;
        while i < n
            invariant
                0 <= i <= n,
                n == self.statements@.len(),
                found matches Some(fi) ==> fi < n && self.statements@[fi as int].name@ == name@,
                found is None ==> forall|j: int|
                    0 <= j < i ==> (#[trigger] self.statements@[j].name@) != name@,
            decreases n - i,
        {
            if found.is_none() && self.statements[i].name == *name {
                found = Some(i);
            }
            i = i + 1;
        }
        let ghost prev = *old(self);
        match found {
            Some(fi) => {
                self.statements.remove(fi);
                proof {
                    Self::lemma_statement_removed(prev, *self, fi as int, name@);
                }
            },
            None => {
                proof {
                    assert forall|j: int|
                        0 <= j < self.statements@.len() implies (
                    #[trigger] self.statements@[j].name@) != name@ by {}
                }
            },
        }
    }

    /// Removing the statement at the index of a name keeps the store
    /// well-formed, empties that name's lookup, and changes no other.
    proof fn lemma_statement_removed(prev: Self, cur: Self, fi: int, name: Seq<char>)
        requires
            prev.spec_wf(),
            0 <= fi < prev.spec_statements().len(),
            prev.spec_statements()[fi].name@ == name,
            cur.spec_statements() == prev.spec_statements().remove(fi),
            cur.spec_portals() == prev.spec_portals(),
        ensures
            cur.spec_wf(),
            spec_statement(&cur, name) is None,
            forall|n: Seq<char>|
                n != name ==> #[trigger] spec_statement(&cur, n) == spec_statement(&prev, n),
    {
        let olds = prev.spec_statements();
        let news = cur.spec_statements();
        assert forall|a: int, b: int|
            0 <= a < b < news.len() implies (#[trigger] news[a].name@) != (#[trigger] news[b].name@)
            by {
            let a0 = if a < fi { a } else { a + 1 };
            let b0 = if b < fi { b } else { b + 1 };
            assert(news[a] == olds[a0]);
            assert(news[b] == olds[b0]);
            assert(olds[a0].name@ != olds[b0].name@);
        }
        assert forall|j: int| 0 <= j < news.len() implies (#[trigger] news[j].name@) != name by {
            let j0 = if j < fi { j } else { j + 1 };
            assert(news[j] == olds[j0]);
            assert(olds[j0].name@ != olds[fi].name@ || j0 == fi);
        }
        assert forall|n: Seq<char>| n != name implies #[trigger] spec_statement(&cur, n)
            == spec_statement(&prev, n) by {
            if exists|j: int| 0 <= j < olds.len() && (#[trigger] olds[j].name@) == n {
                let j = choose|j: int| 0 <= j < olds.len() && (#[trigger] olds[j].name@) == n;
                prev.lemma_statement_at(j);
                let jn = if j < fi { j } else { j - 1 };
                assert(news[jn] == olds[j]);
                cur.lemma_statement_at(jn);
            } else {
                assert forall|j: int|
                    0 <= j < news.len() implies (#[trigger] news[j].name@) != n by {
                    let j0 = if j < fi { j } else { j + 1 };
                    assert(news[j] == olds[j0]);
                }
            }
        }
    }

    /// Remove the portal stored under a name, if any. Statements are
    /// untouched.
    pub fn close_portal(&mut self, name: &String)
        requires
            old(self).spec_wf(),
        ensures
            final(self).spec_wf(),
            spec_portal(final(self), name@) is None,
            forall|n: Seq<char>|
                n != name@ ==> #[trigger] spec_portal(final(self), n) == spec_portal(old(self), n),
            final(self).spec_statements() == old(self).spec_statements(),
    {
        let mut i: usize = 0;
        let n: usize = self.portals.len();
        let mut found: Option<usize> = None;
        while i < n
            invariant
                0 <= i <= n,
                n == self.portals@.len(),
                found matches Some(fi) ==> fi < n && self.portals@[fi as int].name@ == name@,
                found is None ==> forall|j: int|
                    0 <= j < i ==> (#[trigger] self.portals@[j].name@) != name@,
            decreases n - i,
        {
            if found.is_none() && self.portals[i].name == *name {
                found = Some(i);
            }
            i = i + 1;
        }
        let ghost prev = *old(self);
        match found {
            Some(fi) => {
                self.portals.remove(fi);
                proof {
                    Self::lemma_portal_removed(prev, *self, fi as int, name@);
                }
            },
            None => {
                proof {
                    assert forall|j: int|
                        0 <= j < self.portals@.len() implies (#[trigger] self.portals@[j].name@)
                        != name@ by {}
                }
            },
        }
    }

    /// Removing the portal at the index of a name keeps the store
    /// well-formed, empties that name's lookup, and changes no other.
    proof fn lemma_portal_removed(prev: Self, cur: Self, fi: int, name: Seq<char>)
        requires
            prev.spec_wf(),
            0 <= fi < prev.spec_portals().len(),
            prev.spec_portals()[fi].name@ == name,
            cur.spec_portals() == prev.spec_portals().remove(fi),
            cur.spec_statements() == prev.spec_statements(),
        ensures
            cur.spec_wf(),
            spec_portal(&cur, name) is None,
            forall|n: Seq<char>|
                n != name ==> #[trigger] spec_portal(&cur, n) == spec_portal(&prev, n),
    {
        let olds = prev.spec_portals();
        let news = cur.spec_portals();
        assert forall|a: int, b: int|
            0 <= a < b < news.len() implies (#[trigger] news[a].name@) != (#[trigger] news[b].name@)
            by {
            let a0 = if a < fi { a } else { a + 1 };
            let b0 = if b < fi { b } else { b + 1 };
            assert(news[a] == olds[a0]);
            assert(news[b] == olds[b0]);
            assert(olds[a0].name@ != olds[b0].name@);
        }
        assert forall|j: int| 0 <= j < news.len() implies (#[trigger] news[j].name@) != name by {
            let j0 = if j < fi { j } else { j + 1 };
            assert(news[j] == olds[j0]);
            assert(olds[j0].name@ != olds[fi].name@ || j0 == fi);
        }
        assert forall|n: Seq<char>| n != name implies #[trigger] spec_portal(&cur, n)
            == spec_portal(&prev, n) by {
            if exists|j: int| 0 <= j < olds.len() && (#[trigger] olds[j].name@) == n {
                let j = choose|j: int| 0 <= j < olds.len() && (#[trigger] olds[j].name@) == n;
                prev.lemma_portal_at(j);
                let jn = if j < fi { j } else { j - 1 };
                assert(news[jn] == olds[j]);
                cur.lemma_portal_at(jn);
            } else {
                assert forall|j: int|
                    0 <= j < news.len() implies (#[trigger] news[j].name@) != n by {
                    let j0 = if j < fi { j } else { j + 1 };
                    assert(news[j] == olds[j0]);
                }
            }
        }
    }
}

/// Whether a bind step relates two stores: the portal now stored under the
/// portal name snapshots the named statement's text as the first store
/// held it.
pub open spec fn spec_bind_step(
    before: &MemPortalStore,
    after: &MemPortalStore,
    statement_name: Seq<char>,
    portal_name: Seq<char>,
) -> bool {
    &&& after.spec_statements() == before.spec_statements()
    &&& spec_portal(after, portal_name) matches Some(p) && p.statement_name@ == statement_name
        && Some(p.sql@) == spec_statement_sql(before, statement_name)
}

/// The SQL text an execute on a portal sends to the backend: the portal's
/// snapshot.
pub open spec fn spec_execute_text(store: &MemPortalStore, portal_name: Seq<char>) -> Option<
    Seq<u8>,
> {
    match spec_portal(store, portal_name) {
        Some(p) => Some(p.sql@),
        None => None,
    }
}

/// For every parse, bind, execute: the SQL text that executing the portal
/// sends to the backend equals the text the statement was parsed with.
/// Parsing stores the text under the statement name, binding snapshots the
/// stored text into the portal, and executing sends the snapshot.
pub proof fn lemma_execute_text_equals_parsed(
    after_parse: &MemPortalStore,
    after_bind: &MemPortalStore,
    statement_name: Seq<char>,
    portal_name: Seq<char>,
    sql: Seq<u8>,
)
    requires
        spec_statement_sql(after_parse, statement_name) == Some(sql),
        spec_bind_step(after_parse, after_bind, statement_name, portal_name),
    ensures
        spec_execute_text(after_bind, portal_name) == Some(sql),
{
}

/// The target of a describe or close: a named statement or a named portal.
pub enum StatementOrPortal {
    Statement(String),
    Portal(String),
}

/// Classify the outcome of the bounded wait on the response channel,
/// exactly: an arrived response is handed on unchanged; the deadline
/// passing is the backend-timeout error; a closed response queue is the
/// backend-disconnected error. The two failure causes are distinct.
pub fn classify_recv_outcome(outcome: RecvOutcome<PgLiteDBResponse>) -> (r: Result<
    PgLiteDBResponse,
    PgError,
>)
    ensures
        outcome matches RecvOutcome::Received(resp) ==> r == Ok::<PgLiteDBResponse, PgError>(
            resp,
        ),
        outcome is TimedOut ==> r == Err::<PgLiteDBResponse, PgError>(PgError::BackendTimeout),
        outcome is Disconnected ==> r == Err::<PgLiteDBResponse, PgError>(
            PgError::BackendDisconnected,
        ),
{
    match outcome {
        RecvOutcome::Received(resp) => Ok(resp),
        RecvOutcome::TimedOut => Err(PgError::BackendTimeout),
        RecvOutcome::Disconnected => Err(PgError::BackendDisconnected),
    }
}

/// One query processor instance: a handle on the backend worker serving
/// the connection's database. The per-connection portal store is handed to
/// each call.
pub struct PgQueryProcessor {
    pub db: BackendConnection,
}

impl PgQueryProcessor {
    /// A processor over a backend worker handle.
    pub fn create(db: BackendConnection) -> Self {
        PgQueryProcessor { db }
    }

    /// One request/response round trip to the backend worker, bounded by
    /// the response deadline. The two ways the wait can fail are told
    /// apart: the deadline passing, and the worker's queue being gone.
    fn roundtrip(
        &self,
        message_type: MessageType,
        query: Vec<u8>,
        params: Option<Vec<PgLiteDBParam>>,
    ) -> (r: Result<PgLiteDBResponse, PgError>)
        ensures
            r matches Err(e) ==> e == PgError::BackendTimeout || e
                == PgError::BackendDisconnected,
    {
        let (respond, waiter) = channel_bounded_one::<PgLiteDBResponse>();
        let msg = PgLiteDBMessage { message_type, query, params, respond };
        let _sent = channel_send(&self.db.sender, msg);
        classify_recv_outcome(channel_recv_timeout(&waiter, BACKEND_RESPONSE_TIMEOUT_SECS))
    }

    /// Turn a worker response into rows-or-error, exactly: a response
    /// carrying an error surfaces that error verbatim; one carrying rows
    /// and their schema is handed on unchanged; anything else is the
    /// unexpected-failure error.
    pub fn accept_rows(resp: PgLiteDBResponse) -> (r: Result<PgLiteDBResponse, PgError>)
        ensures
            resp.error matches Some(e) ==> r == Err::<PgLiteDBResponse, PgError>(e),
            resp.error is None && resp.result_schema is Some && resp.result is Some ==> (
            r matches Ok(out) && out.result_schema == resp.result_schema && out.result
                == resp.result && out.error is None),
            resp.error is None && (resp.result_schema is None || resp.result is None) ==> r
                == Err::<PgLiteDBResponse, PgError>(PgError::UnexpectedFailure),
    {
        if resp.error.is_some() {
            match resp.error {
                Some(e) => Err(e),
                None => Err(PgError::UnexpectedFailure),
            }
        } else if resp.result_schema.is_some() && resp.result.is_some() {
            Ok(PgLiteDBResponse {
                result_schema: resp.result_schema,
                result: resp.result,
                error: None,
            })
        } else {
            Err(PgError::UnexpectedFailure)
        }
    }

    /// Turn a worker response into schema-or-error, exactly: a response
    /// carrying a schema yields that schema; one without a schema
    /// surfaces its error, or the fatal schema-unavailable error when it
    /// carries none.
    pub fn accept_schema(resp: PgLiteDBResponse) -> (r: Result<Vec<crate::backend::Field>, PgError>)
        ensures
            resp.result_schema matches Some(fields) ==> r == Ok::<Vec<crate::backend::Field>,
                PgError,
            >(fields),
            resp.result_schema is None ==> (resp.error matches Some(e) ==> r == Err::<
                Vec<crate::backend::Field>,
                PgError,
            >(e)),
            resp.result_schema is None && resp.error is None ==> r == Err::<
                Vec<crate::backend::Field>,
                PgError,
            >(PgError::SchemaUnavailable),
    {
        match resp.result_schema {
            Some(fields) => Ok(fields),
            None => match resp.error {
                Some(e) => Err(e),
                None => Err(PgError::SchemaUnavailable),
            },
        }
    }

    /// Answer a simple query: one round trip carrying the raw SQL text,
    /// then rows-or-error.
    pub fn do_query(&self, query: Vec<u8>) -> (r: Result<PgLiteDBResponse, PgError>)
        ensures
            r matches Ok(out) ==> out.result_schema is Some && out.result is Some && out.error
                is None,
    {
        match self.roundtrip(MessageType::SimpleQuery, query, None) {
            Ok(resp) => Self::accept_rows(resp),
            Err(e) => Err(e),
        }
    }

    /// Store the SQL text of a parsed statement under its name. Parsing is
    /// deferred to the backend; the reply is `ParseComplete`.
    pub fn on_parse(
        &self,
        store: &mut MemPortalStore,
        name: String,
        sql: Vec<u8>,
        param_oids: Vec<u32>,
    )
        requires
            old(store).spec_wf(),
        ensures
            final(store).spec_wf(),
            spec_statement(final(store), name@) == Some(
                (StoredStatement { name, sql, param_oids }),
            ),
            forall|n: Seq<char>|
                n != name@ ==> #[trigger] spec_statement(final(store), n) == spec_statement(
                    old(store),
                    n,
                ),
            final(store).spec_portals() == old(store).spec_portals(),
    {
        store.put_statement(StoredStatement { name, sql, param_oids });
    }

    /// Bind a portal: coerce every parameter under its declared type OID
    /// and snapshot the named statement's text into the portal. A missing
    /// statement, an unsupported declared type, or a value that does not
    /// fit rejects the bind and leaves the store untouched.
    pub fn on_bind(
        &self,
        store: &mut MemPortalStore,
        portal_name: String,
        statement_name: String,
        params: Vec<BoundParam>,
    ) -> (r: Result<(), PgError>)
        requires
            old(store).spec_wf(),
        ensures
            final(store).spec_wf(),
            r is Ok <==> spec_statement_sql(old(store), statement_name@) is Some && (forall|i: int|
                0 <= i < params.len() ==> (#[trigger] spec_coerce_param(i, &params[i])) is Ok),
            r is Ok ==> spec_bind_step(old(store), final(store), statement_name@, portal_name@),
            r is Ok ==> forall|n: Seq<char>|
                n != portal_name@ ==> #[trigger] spec_portal(final(store), n) == spec_portal(
                    old(store),
                    n,
                ),
            r is Err ==> *final(store) == *old(store),
            spec_statement_sql(old(store), statement_name@) is None ==> r == Err::<(), PgError>(
                PgError::UnknownPortal,
            ),
            spec_statement_sql(old(store), statement_name@) is Some ==> (r matches Err(e)
                ==> exists|i: int|
                0 <= i < params.len() && #[trigger] spec_coerce_param(i, &params[i]) == Err::<
                    SqlValueView,
                    PgError,
                >(e)),
    {
        let sql = match store.get_statement(&statement_name) {
            Some(stmt) => {
                let mut sql: Vec<u8> = Vec::new();
                let mut i: usize = 0;
                let n: usize = stmt.sql.len();
                while i < n
                    invariant
                        0 <= i <= n,
                        n == stmt.sql@.len(),
                        sql@ =~= stmt.sql@.take(i as int),
                    decreases n - i,
                {
                    sql.push(stmt.sql[i]);
                    i = i + 1;
                }
                proof {
                    assert(sql@ =~= stmt.sql@);
                }
                sql
            },
            None => {
                return Err(PgError::UnknownPortal);
            },
        };
        match parse_params(&params) {
            Ok(_) => {},
            Err(e) => {
                return Err(e);
            },
        }
        store.put_portal(Portal { name: portal_name, statement_name, sql, params });
        Ok(())
    }

    /// Execute a bound portal: coerce its snapshot parameters, send its
    /// snapshot SQL text with them in one round trip, then rows-or-error.
    /// The row limit of the protocol's Execute message is accepted but not
    /// enforced: the whole result is delivered.
    pub fn do_execute(
        &self,
        store: &MemPortalStore,
        portal_name: &String,
        _max_rows: usize,
    ) -> (r: Result<PgLiteDBResponse, PgError>)
        requires
            store.spec_wf(),
        ensures
            r matches Ok(out) ==> out.result_schema is Some && out.result is Some && out.error
                is None,
            spec_portal(store, portal_name@) is None ==> r == Err::<PgLiteDBResponse, PgError>(
                PgError::UnknownPortal,
            ),
            spec_portal(store, portal_name@) matches Some(p) ==> ({
                let coercible = forall|i: int|
                    0 <= i < p.params.len() ==> (#[trigger] spec_coerce_param(
                        i,
                        &p.params[i],
                    )) is Ok;
                &&& !coercible ==> (r matches Err(e) && (exists|i: int|
                    0 <= i < p.params.len() && #[trigger] spec_coerce_param(i, &p.params[i])
                        == Err::<SqlValueView, PgError>(e)))
                &&& r is Ok ==> coercible
            }),
    {
        let portal = match store.get_portal(portal_name) {
            Some(p) => p,
            None => {
                return Err(PgError::UnknownPortal);
            },
        };
        let db_params = match parse_params(&portal.params) {
            Ok(ps) => ps,
            Err(e) => {
                return Err(e);
            },
        };
        let mut sql: Vec<u8> = Vec::new();
        let mut i: usize = 0;
        let n: usize = portal.sql.len();
        while i < n
            invariant
                0 <= i <= n,
                n == portal.sql@.len(),
                sql@ =~= portal.sql@.take(i as int),
            decreases n - i,
        {
            sql.push(portal.sql[i]);
            i = i + 1;
        }
        match self.roundtrip(MessageType::QueryWithParams, sql, Some(db_params)) {
            Ok(resp) => Self::accept_rows(resp),
            Err(e) => Err(e),
        }
    }

    /// Describe a statement or portal: one describe round trip on its SQL
    /// text, yielding the schema alone. A response without a schema is the
    /// fatal schema-unavailable error.
    pub fn do_describe(
        &self,
        store: &MemPortalStore,
        target: &StatementOrPortal,
    ) -> (r: Result<Vec<crate::backend::Field>, PgError>)
        requires
            store.spec_wf(),
        ensures
            target matches StatementOrPortal::Statement(name) && spec_statement_sql(store, name@)
                is None ==> r == Err::<Vec<crate::backend::Field>, PgError>(PgError::UnknownPortal),
            target matches StatementOrPortal::Portal(name) && spec_portal(store, name@) is None
                ==> r == Err::<Vec<crate::backend::Field>, PgError>(PgError::UnknownPortal),
    {
        let sql_src: &Vec<u8> = match target {
            StatementOrPortal::Statement(name) => {
                match store.get_statement(name) {
                    Some(stmt) => &stmt.sql,
                    None => {
                        return Err(PgError::UnknownPortal);
                    },
                }
            },
            StatementOrPortal::Portal(name) => {
                match store.get_portal(name) {
                    Some(p) => &p.sql,
                    None => {
                        return Err(PgError::UnknownPortal);
                    },
                }
            },
        };
        let mut sql: Vec<u8> = Vec::new();
        let mut i: usize = 0;
        let n: usize = sql_src.len();
        while i < n
            invariant
                0 <= i <= n,
                n == sql_src@.len(),
                sql@ =~= sql_src@.take(i as int),
            decreases n - i,
        {
            sql.push(sql_src[i]);
            i = i + 1;
        }
        match self.roundtrip(MessageType::Describe, sql, None) {
            Ok(resp) => Self::accept_schema(resp),
            Err(e) => Err(e),
        }
    }

    /// Close a named statement or portal, releasing it from the store.
    /// Closing an unknown name is a no-op, as the protocol asks.
    pub fn on_close(&self, store: &mut MemPortalStore, target: &StatementOrPortal)
        requires
            old(store).spec_wf(),
        ensures
            final(store).spec_wf(),
            target matches StatementOrPortal::Statement(name) ==> spec_statement_sql(
                final(store),
                name@,
            ) is None && final(store).spec_portals() == old(store).spec_portals(),
            target matches StatementOrPortal::Portal(name) ==> spec_portal(final(store), name@)
                is None && final(store).spec_statements() == old(store).spec_statements(),
    {
        match target {
            StatementOrPortal::Statement(name) => store.close_statement(name),
            StatementOrPortal::Portal(name) => store.close_portal(name),
        }
    }
}

} // verus!

//! Parsing of declared column types and classification of SQL text.
//!
//! SQLite is loosely typed: the declared column type (`decltype`) is a free
//! text hint such as `varchar(64)` or `int NOT NULL`. The gateway uppercases
//! the text, strips everything from the first space or `(` on, and maps the
//! remaining keyword to a storage class; anything else is an unsupported
//! declared type. SQL text is classified as a row-returning query when its
//! uppercased form begins with `SELECT`.

use vstd::prelude::*;

use crate::bridge::StorageClass;

verus! {

/// The ASCII uppercasing of one byte.
pub open spec fn spec_upper_byte(b: u8) -> u8 {
    if 97 <= b && b <= 122 {
        (b - 32) as u8
    } else {
        b
    }
}

/// The ASCII uppercasing of a byte string.
pub open spec fn spec_upper(s: Seq<u8>) -> Seq<u8> {
    s.map_values(|b: u8| spec_upper_byte(b))
}

/// A byte that ends the type keyword: a space or an opening parenthesis.
pub open spec fn spec_is_qual_start(b: u8) -> bool {
    b == 32 || b == 40
}

/// The length of the prefix before the first space or `(`.
pub open spec fn spec_keyword_len(s: Seq<u8>) -> nat
    decreases s.len(),
{
    if s.len() == 0 {
        0
    } else if spec_is_qual_start(s[0]) {
        0
    } else {
        1 + spec_keyword_len(s.drop_first())
    }
}

/// The prefix of a byte string up to the first space or `(`: the keyword,
/// with any length or precision qualifier stripped.
pub open spec fn spec_strip_qual(s: Seq<u8>) -> Seq<u8> {
    s.take(spec_keyword_len(s) as int)
}

pub proof fn lemma_keyword_len(s: Seq<u8>)
    ensures
        spec_keyword_len(s) <= s.len(),
        forall|j: int| 0 <= j < spec_keyword_len(s) ==> !spec_is_qual_start(s[j]),
        spec_keyword_len(s) < s.len() ==> spec_is_qual_start(s[spec_keyword_len(s) as int]),
    decreases s.len(),
{
    if s.len() == 0 {
    } else if spec_is_qual_start(s[0]) {
    } else {
        lemma_keyword_len(s.drop_first());
        assert forall|j: int| 0 <= j < spec_keyword_len(s) implies !spec_is_qual_start(s[j]) by {
            if j > 0 {
                assert(s.drop_first()[j - 1] == s[j]);
            }
        }
        if spec_keyword_len(s) < s.len() {
            assert(s.drop_first()[spec_keyword_len(s.drop_first()) as int]
                == s[spec_keyword_len(s) as int]);
        }
    }
}

/// A byte string whose first `i` bytes hold no space or `(`, and whose
/// `i`-th byte (if any) is one, has keyword length exactly `i`.
pub proof fn lemma_keyword_len_is(s: Seq<u8>, i: int)
    requires
        0 <= i <= s.len(),
        forall|j: int| 0 <= j < i ==> !spec_is_qual_start(s[j]),
        i < s.len() ==> spec_is_qual_start(s[i]),
    ensures
        spec_keyword_len(s) == i,
    decreases i,
{
    if i == 0 {
    } else {
        assert(!spec_is_qual_start(s[0]));
        assert forall|j: int| 0 <= j < i - 1 implies !spec_is_qual_start(s.drop_first()[j]) by {
            assert(s.drop_first()[j] == s[j + 1]);
        }
        if i < s.len() {
            assert(s.drop_first()[i - 1] == s[i]);
        }
        lemma_keyword_len_is(s.drop_first(), i - 1);
    }
}

/// Uppercasing maps no byte to a space or `(`, and leaves both unchanged, so
/// stripping the qualifier commutes with uppercasing.
pub proof fn lemma_strip_upper_commutes(s: Seq<u8>)
    ensures
        spec_strip_qual(spec_upper(s)) =~= spec_upper(spec_strip_qual(s)),
{
    lemma_keyword_len(s);
    lemma_keyword_len(spec_upper(s));
    assert forall|j: int| 0 <= j < spec_keyword_len(s) implies !spec_is_qual_start(
        spec_upper(s)[j],
    ) by {
        assert(spec_upper(s)[j] == spec_upper_byte(s[j]));
    }
    if spec_keyword_len(s) < s.len() {
        assert(spec_upper(s)[spec_keyword_len(s) as int]
            == spec_upper_byte(s[spec_keyword_len(s) as int]));
    }
    lemma_keyword_len_is(spec_upper(s), spec_keyword_len(s) as int);
}

/// Appending a qualifier after a clean keyword does not change the stripped
/// keyword: `strip_qual` of `kw + rest` is `kw` whenever `kw` holds no space
/// or `(` and `rest` starts with one.
pub proof fn lemma_strip_qual_append(kw: Seq<u8>, rest: Seq<u8>)
    requires
        forall|j: int| 0 <= j < kw.len() ==> !spec_is_qual_start(kw[j]),
        rest.len() > 0 ==> spec_is_qual_start(rest[0]),
    ensures
        spec_strip_qual(kw + rest) =~= kw,
{
    let s = kw + rest;
    assert forall|j: int| 0 <= j < kw.len() implies !spec_is_qual_start(s[j]) by {
        assert(s[j] == kw[j]);
    }
    if rest.len() > 0 {
        assert(s[kw.len() as int] == rest[0]);
    }
    lemma_keyword_len_is(s, kw.len() as int);
}

/// ASCII-uppercase one byte.
#[verifier::when_used_as_spec(spec_upper_byte)]
pub fn upper_byte(b: u8) -> (r: u8)
    ensures
        r == spec_upper_byte(b),
{
    if 97 <= b && b <= 122 {
        b - 32
    } else {
        b
    }
}

/// The uppercased keyword of a declared type: `strip_qual(uppercase(t))`.
pub fn normalize_decl(decl: &Vec<u8>) -> (r: Vec<u8>)
    ensures
        r@ == spec_strip_qual(spec_upper(decl@)),
{
    let ghost u = spec_upper(decl@);
    let mut r: Vec<u8> = Vec::new();
    let mut i: usize = 0;
    while i < decl.len()
        invariant
            0 <= i <= decl.len(),
            u == spec_upper(decl@),
            u.len() == decl@.len(),
            r@ =~= u.take(i as int),
            forall|j: int| 0 <= j < i ==> !spec_is_qual_start(u[j]),
        decreases decl.len() - i,
    {
        let b = upper_byte(decl[i]);
        assert(b == u[i as int]);
        if b == 32 || b == 40 {
            proof {
                lemma_keyword_len_is(u, i as int);
            }
            assert(r@ =~= spec_strip_qual(u));
            return r;
        }
        r.push(b);
        assert(r@ =~= u.take(i + 1));
        i = i + 1;
    }
    proof {
        lemma_keyword_len_is(u, u.len() as int);
        assert(r@ =~= u.take(u.len() as int));
        assert(u.take(u.len() as int) =~= u);
    }
    r
}

pub open spec fn kw_int() -> Seq<u8> {
    seq![73, 78, 84]
}

pub open spec fn kw_serial() -> Seq<u8> {
    seq![83, 69, 82, 73, 65, 76]
}

pub open spec fn kw_varchar() -> Seq<u8> {
    seq![86, 65, 82, 67, 72, 65, 82]
}

pub open spec fn kw_text() -> Seq<u8> {
    seq![84, 69, 88, 84]
}

pub open spec fn kw_date() -> Seq<u8> {
    seq![68, 65, 84, 69]
}

pub open spec fn kw_time() -> Seq<u8> {
    seq![84, 73, 77, 69]
}

pub open spec fn kw_timestamp() -> Seq<u8> {
    seq![84, 73, 77, 69, 83, 84, 65, 77, 80]
}

pub open spec fn kw_float() -> Seq<u8> {
    seq![70, 76, 79, 65, 84]
}

pub open spec fn kw_binary() -> Seq<u8> {
    seq![66, 73, 78, 65, 82, 89]
}

pub open spec fn kw_select() -> Seq<u8> {
    seq![83, 69, 76, 69, 67, 84]
}

/// The keyword table: which storage class a normalized declared type
/// keyword maps to. Keywords outside the table are unsupported.
pub open spec fn spec_storage_for_keyword(kw: Seq<u8>) -> Option<StorageClass> {
    if kw =~= kw_int() || kw =~= kw_serial() {
        Some(StorageClass::Integer)
    } else if kw =~= kw_varchar() || kw =~= kw_text() {
        Some(StorageClass::Text)
    } else if kw =~= kw_date() || kw =~= kw_time() || kw =~= kw_timestamp() || kw =~= kw_float() {
        Some(StorageClass::Real)
    } else if kw =~= kw_binary() {
        Some(StorageClass::Blob)
    } else {
        None
    }
}

/// The storage class of a declared column type: uppercase the text, strip
/// the qualifier, and look the keyword up in the table.
pub open spec fn spec_storage_for_decl(decl: Seq<u8>) -> Option<StorageClass> {
    spec_storage_for_keyword(spec_strip_qual(spec_upper(decl)))
}

/// Whether two byte vectors hold the same bytes.
pub fn bytes_match(a: &Vec<u8>, b: &Vec<u8>) -> (r: bool)
    ensures
        r == (a@ =~= b@),
{
    if a.len() != b.len() {
        return false;
    }
    let mut i: usize = 0;
    while i < a.len()
        invariant
            0 <= i <= a.len(),
            a.len() == b.len(),
            forall|j: int| 0 <= j < i ==> a@[j] == b@[j],
        decreases a.len() - i,
    {
        if a[i] != b[i] {
            return false;
        }
        i = i + 1;
    }
    true
}

/// Map a declared column type to a storage class, or `None` for an
/// unsupported declared type.
pub fn storage_for_decl(decl: &Vec<u8>) -> (r: Option<StorageClass>)
    ensures
        r == spec_storage_for_decl(decl@),
{
    let n = normalize_decl(decl);
    if bytes_match(&n, &vec![73, 78, 84]) {
        Some(StorageClass::Integer)
    } else if bytes_match(&n, &vec![83, 69, 82, 73, 65, 76]) {
        Some(StorageClass::Integer)
    } else if bytes_match(&n, &vec![86, 65, 82, 67, 72, 65, 82]) {
        Some(StorageClass::Text)
    } else if bytes_match(&n, &vec![84, 69, 88, 84]) {
        Some(StorageClass::Text)
    } else if bytes_match(&n, &vec![68, 65, 84, 69]) {
        Some(StorageClass::Real)
    } else if bytes_match(&n, &vec![84, 73, 77, 69]) {
        Some(StorageClass::Real)
    } else if bytes_match(&n, &vec![84, 73, 77, 69, 83, 84, 65, 77, 80]) {
        Some(StorageClass::Real)
    } else if bytes_match(&n, &vec![70, 76, 79, 65, 84]) {
        Some(StorageClass::Real)
    } else if bytes_match(&n, &vec![66, 73, 78, 65, 82, 89]) {
        Some(StorageClass::Blob)
    } else {
        None
    }
}

/// Whether SQL text begins with `SELECT`, compared without case.
pub open spec fn spec_is_select(sql: Seq<u8>) -> bool {
    sql.len() >= 6 && spec_upper(sql).take(6) =~= kw_select()
}

/// Classify SQL text: row-returning queries begin with `SELECT` in any
/// case; everything else runs as a statement with an affected-row count.
pub fn is_select(sql: &Vec<u8>) -> (r: bool)
    ensures
        r == spec_is_select(sql@),
{
    if sql.len() < 6 {
        return false;
    }
    let r = upper_byte(sql[0]) == 83 && upper_byte(sql[1]) == 69 && upper_byte(sql[2]) == 76
        && upper_byte(sql[3]) == 69 && upper_byte(sql[4]) == 67 && upper_byte(sql[5]) == 84;
    proof {
        let u = spec_upper(sql@);
        if r {
            assert(u.take(6) =~= kw_select());
        } else {
            if u.take(6) =~= kw_select() {
                assert(u[0] == 83 && u[1] == 69 && u[2] == 76 && u[3] == 69 && u[4] == 67
                    && u[5] == 84);
            }
        }
    }
    r
}

} // verus!

//! The byte-level side of the C-callable entry point.
//!
//! A foreign caller hands in NUL-terminated buffers and gets one back. Here
//! the incoming bytes are cut at their terminator and checked to be UTF-8,
//! the table name is resolved, and the rendered text is laid out as a fresh
//! NUL-terminated buffer. Who frees that buffer is the caller's concern.

use vstd::prelude::*;
use vstd::utf8::*;
use vstd::string::*;
use crate::render::Error;
use crate::table::{TableKind, table_kind, table_of};

verus! {

broadcast use encode_utf8_decode_utf8, encode_utf8_valid_utf8;

/// No byte of `b` is NUL.
pub open spec fn nul_free(b: Seq<u8>) -> bool {
    forall|i: int| 0 <= i < b.len() ==> b[i] != 0
}

/// The text of a buffer ends at index `n`: at its first NUL, or at its end
/// if it holds none.
pub open spec fn ends_text(b: Seq<u8>, n: int) -> bool {
    &&& 0 <= n <= b.len()
    &&& nul_free(b.take(n))
    &&& n == b.len() || b[n] == 0
}

/// The bytes of a buffer before its first NUL.
pub open spec fn text_bytes(b: Seq<u8>) -> Seq<u8> {
    b.take(choose|n: int| ends_text(b, n))
}

/// The text a buffer holds, where its bytes before the first NUL are UTF-8.
pub open spec fn decoded(b: Seq<u8>) -> Option<Seq<char>> {
    if valid_utf8(text_bytes(b)) {
        Some(decode_utf8(text_bytes(b)))
    } else {
        None
    }
}

/// The NUL-terminated buffer that carries `s`.
pub open spec fn buffer_of(s: Seq<char>) -> Seq<u8> {
    encode_utf8(s).push(0)
}

/// A buffer's text ends at one place only.
pub proof fn lemma_text_end_unique(b: Seq<u8>, n: int)
    requires
        ends_text(b, n),
    ensures
        text_bytes(b) == b.take(n),
{
    let m = choose|m: int| ends_text(b, m);
    assert(ends_text(b, m));
    if m < n {
        assert(b.take(n)[m] == b[m]);
    } else if n < m {
        assert(b.take(m)[n] == b[n]);
    }
}

/// Where the text of a buffer ends.
fn text_end(b: &[u8]) -> (n: usize)
    ensures
        ends_text(b@, n as int),
{
    let mut i: usize = 0;
    while i < b.len()
        invariant
            0 <= i <= b@.len(),
            nul_free(b@.take(i as int)),
        decreases b@.len() - i,
    {
        if b[i] == 0 {
            return i;
        }
        assert(b@.take(i as int + 1) =~= b@.take(i as int).push(b@[i as int]));
        i = i + 1;
    }
    i
}

/// Relies on std::str::from_utf8: it accepts exactly the UTF-8 byte
/// sequences, and the text it gives has those bytes as its encoding.
#[verifier::external_body]
fn utf8_text(b: &[u8]) -> (r: Option<String>)
    ensures
        r is Some <==> valid_utf8(b@),
        r matches Some(s) ==> encode_utf8(s@) == b@,
{
    match std::str::from_utf8(b) {
        Ok(s) => Some(s.to_string()),
        Err(_) => None,
    }
}

/// Reads the text of a NUL-terminated buffer: its bytes before the first
/// NUL, which must be UTF-8.
pub fn foreign_text(b: &[u8]) -> (r: Option<String>)
    ensures
        r is Some <==> decoded(b@) is Some,
        r matches Some(s) ==> decoded(b@) == Some(s@),
{
    let n = text_end(b);
    proof {
        lemma_text_end_unique(b@, n as int);
    }
    let (head, _) = b.split_at(n);
    utf8_text(head)
}

/// Lays out `s` as a NUL-terminated buffer, unless its encoding holds a NUL
/// of its own, which would cut it short.
pub fn foreign_buffer(s: &str) -> (r: Option<Vec<u8>>)
    ensures
        r is Some <==> nul_free(encode_utf8(s@)),
        r matches Some(v) ==> v@ == buffer_of(s@),
{
    let b = s.as_bytes();
    let mut v: Vec<u8> = Vec::new();
    let mut i: usize = 0;
    while i < b.len()
        invariant
            b@ == encode_utf8(s@),
            0 <= i <= b@.len(),
            v@ == b@.take(i as int),
            nul_free(v@),
        decreases b@.len() - i,
    {
        if b[i] == 0 {
            return None;
        }
        v.push(b[i]);
        assert(b@.take(i as int + 1) =~= b@.take(i as int).push(b@[i as int]));
        i = i + 1;
    }
    assert(b@.take(i as int) =~= b@);
    v.push(0);
    Some(v)
}

/// The buffer laid out for a text reads back as that text, and nothing else.
pub proof fn lemma_buffer_round_trip(s: Seq<char>)
    requires
        nul_free(encode_utf8(s)),
    ensures
        decoded(buffer_of(s)) == Some(s),
{
    let b = buffer_of(s);
    let n = encode_utf8(s).len() as int;
    assert(b.take(n) =~= encode_utf8(s));
    lemma_text_end_unique(b, n);
}

/// Different texts are laid out as different buffers: what one call hands
/// back never stands for another call's text.
pub proof fn lemma_buffers_distinct(s1: Seq<char>, s2: Seq<char>)
    requires
        s1 != s2,
    ensures
        buffer_of(s1) != buffer_of(s2),
{
    if buffer_of(s1) == buffer_of(s2) {
        let n1 = encode_utf8(s1).len() as int;
        assert(buffer_of(s1).take(n1) =~= encode_utf8(s1));
        assert(buffer_of(s1).len() == buffer_of(s2).len());
        assert(encode_utf8(s2).len() == n1);
        assert(buffer_of(s2).take(n1) =~= encode_utf8(s2));
        crate::text::lemma_encoding_injective(s1, s2);
    }
}

/// Which argument of the entry point a fault is about.
#[derive(Clone, Copy, Debug, PartialEq, Eq, Structural)]
pub enum Arg {
    Table,
    Content,
    Name,
}

/// Why a call through the entry point cannot give a result.
#[derive(Clone, Debug, PartialEq, Eq)]
pub enum BoundaryError {
    /// The argument's bytes before its terminator are not UTF-8.
    BadText(Arg),
    /// The table name is not a known one.
    UnknownTable(String),
    /// The render failed.
    Render(Error),
    /// The rendered text holds a NUL, so no NUL-terminated buffer can carry it.
    InteriorNul,
}

/// A render asked for through the entry point.
#[derive(Clone, Debug, PartialEq, Eq)]
pub struct RenderRequest {
    pub table: TableKind,
    pub content: String,
    pub name: String,
}

/// Decodes the three buffers handed to the entry point, in order, and
/// resolves the table name.
pub fn prepare_call(table: &[u8], content: &[u8], name: &[u8]) -> (r: Result<
    RenderRequest,
    BoundaryError,
>)
    ensures
        match r {
            Ok(req) => {
                &&& decoded(table@) matches Some(t) && table_of(t) == Some(req.table)
                &&& decoded(content@) == Some(req.content@)
                &&& decoded(name@) == Some(req.name@)
            },
            Err(BoundaryError::BadText(Arg::Table)) => decoded(table@) is None,
            Err(BoundaryError::BadText(Arg::Content)) => {
                &&& decoded(table@) is Some
                &&& decoded(content@) is None
            },
            Err(BoundaryError::BadText(Arg::Name)) => {
                &&& decoded(table@) is Some
                &&& decoded(content@) is Some
                &&& decoded(name@) is None
            },
            Err(BoundaryError::UnknownTable(t)) => {
                &&& decoded(table@) == Some(t@)
                &&& decoded(content@) is Some
                &&& decoded(name@) is Some
                &&& table_of(t@) is None
            },
            Err(_) => false,
        },
{
    let t = match foreign_text(table) {
        Some(t) => t,
        None => return Err(BoundaryError::BadText(Arg::Table)),
    };
    let c = match foreign_text(content) {
        Some(c) => c,
        None => return Err(BoundaryError::BadText(Arg::Content)),
    };
    let n = match foreign_text(name) {
        Some(n) => n,
        None => return Err(BoundaryError::BadText(Arg::Name)),
    };
    match table_kind(t.as_str()) {
        Some(kind) => Ok(RenderRequest { table: kind, content: c, name: n }),
        None => Err(BoundaryError::UnknownTable(t)),
    }
}

/// Turns the outcome of a render into the buffer handed back to the caller.
pub fn finish_call(rendered: Result<String, Error>) -> (r: Result<Vec<u8>, BoundaryError>)
    ensures
        match rendered {
            Ok(s) => match r {
                Ok(v) => nul_free(encode_utf8(s@)) && v@ == buffer_of(s@),
                Err(e) => !nul_free(encode_utf8(s@)) && e == BoundaryError::InteriorNul,
            },
            Err(e) => r == Err::<Vec<u8>, BoundaryError>(BoundaryError::Render(e)),
        },
{
    match rendered {
        Ok(s) => match foreign_buffer(s.as_str()) {
            Some(v) => Ok(v),
            None => Err(BoundaryError::InteriorNul),
        },
        Err(e) => Err(BoundaryError::Render(e)),
    }
}

} // verus!

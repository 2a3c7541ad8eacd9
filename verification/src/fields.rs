//! The fields of a stored row: how a number, a time, a text that may be
//! absent, and a list of hashes are written as bytes and read back.

use vstd::prelude::*;
use vstd::utf8::*;
use crate::codec::{be64, be64_value, copy_range, frame, frame_fields, framable, fields_view, lemma_be64_round_trip, lemma_unframe_frame, read_be64, u64_to_be, unframe, unframe_bytes};
use crate::access::time_model;
use crate::text::{lemma_text_round_trip, text_from_bytes, text_to_bytes};
use crate::types::TimestampMills;

verus! {

/// A time as an unsigned number that keeps the order of times.
pub open spec fn time_code(t: i64) -> u64 {
    (t + 0x8000_0000_0000_0000) as u64
}

/// The time that an unsigned number stands for.
pub open spec fn time_of_code(c: u64) -> i64 {
    (c - 0x8000_0000_0000_0000) as i64
}

/// The field of a counter: its eight big-endian bytes.
pub open spec fn count_field(n: u64) -> Seq<u8> {
    be64(n)
}

/// The counter that a field holds, if it has eight bytes.
pub open spec fn count_of_field(b: Seq<u8>) -> Option<u64> {
    if b.len() == 8 {
        Some(be64_value(b))
    } else {
        None
    }
}

/// The field of a time that may be absent: no byte, or the eight bytes of
/// its code.
pub open spec fn opt_time_field(t: Option<i64>) -> Seq<u8> {
    match t {
        Some(t) => be64(time_code(t)),
        None => Seq::empty(),
    }
}

/// The time that a field holds, if the field is well formed.
pub open spec fn opt_time_of_field(b: Seq<u8>) -> Option<Option<i64>> {
    if b.len() == 0 {
        Some(None)
    } else if b.len() == 8 {
        Some(Some(time_of_code(be64_value(b))))
    } else {
        None
    }
}

/// The field of a text: its UTF-8 bytes.
pub open spec fn text_field(s: Seq<char>) -> Seq<u8> {
    encode_utf8(s)
}

/// The text that a field holds, if the field is valid UTF-8.
pub open spec fn text_of_field(b: Seq<u8>) -> Option<Seq<char>> {
    if valid_utf8(b) {
        Some(decode_utf8(b))
    } else {
        None
    }
}

/// The field of a text that may be absent: the byte 0, or the byte 1 and
/// the text's UTF-8 bytes.
pub open spec fn opt_text_field(s: Option<Seq<char>>) -> Seq<u8> {
    match s {
        Some(s) => seq![1u8] + encode_utf8(s),
        None => seq![0u8],
    }
}

/// The text that a field holds, if the field is well formed.
pub open spec fn opt_text_of_field(b: Seq<u8>) -> Option<Option<Seq<char>>> {
    if b.len() == 1 && b[0] == 0 {
        Some(None)
    } else if b.len() >= 1 && b[0] == 1 && valid_utf8(b.skip(1)) {
        Some(Some(decode_utf8(b.skip(1))))
    } else {
        None
    }
}

/// The field of a list of hashes: the list, framed.
pub open spec fn list_field(list: Seq<Seq<u8>>) -> Seq<u8> {
    frame(list)
}

/// The list that a field holds, if the field is well formed.
pub open spec fn list_of_field(b: Seq<u8>) -> Option<Seq<Seq<u8>>> {
    unframe(b)
}

/// The field of a counter reads back as the counter.
pub proof fn lemma_count_round_trip(n: u64)
    ensures
        count_of_field(count_field(n)) == Some(n),
{
    lemma_be64_round_trip(n);
}

/// The field of a time that may be absent reads back as what was written.
pub proof fn lemma_opt_time_round_trip(t: Option<i64>)
    ensures
        opt_time_of_field(opt_time_field(t)) == Some(t),
{
    if let Some(t) = t {
        lemma_be64_round_trip(time_code(t));
    }
}

/// The field of a text reads back as the text.
pub proof fn lemma_text_field_round_trip(s: Seq<char>)
    ensures
        text_of_field(text_field(s)) == Some(s),
{
    lemma_text_round_trip(s);
}

/// The field of a text that may be absent reads back as what was written.
pub proof fn lemma_opt_text_round_trip(o: Option<Seq<char>>)
    ensures
        opt_text_of_field(opt_text_field(o)) == Some(o),
{
    if let Some(s) = o {
        lemma_text_round_trip(s);
        assert(opt_text_field(o).skip(1) =~= encode_utf8(s));
    }
}

/// The field of a list of hashes reads back as the list.
pub proof fn lemma_list_round_trip(list: Seq<Seq<u8>>)
    requires
        framable(list),
    ensures
        list_of_field(list_field(list)) == Some(list),
{
    lemma_unframe_frame(list);
}

/// Writes the field of a counter.
pub fn encode_count(n: u64) -> (out: Vec<u8>)
    ensures
        out@ == count_field(n),
{
    u64_to_be(n)
}

/// Reads the field of a counter.
pub fn decode_count(b: &Vec<u8>) -> (out: Option<u64>)
    ensures
        out == count_of_field(b@),
{
    if b.len() == 8 {
        let n = read_be64(b, 0);
        assert(b@.subrange(0, 8) =~= b@);
        Some(n)
    } else {
        None
    }
}

/// Writes the field of a time that may be absent.
pub fn encode_opt_time(t: &Option<TimestampMills>) -> (out: Vec<u8>)
    ensures
        out@ == opt_time_field(time_model(*t)),
{
    match t {
        Some(t) => {
            let code: u64 = if t.0 >= 0 {
                t.0 as u64 + 0x8000_0000_0000_0000
            } else {
                (t.0 + i64::MAX + 1) as u64
            };
            u64_to_be(code)
        },
        None => Vec::new(),
    }
}

/// Reads the field of a time that may be absent; the outer `None` where the
/// field is not well formed.
pub fn decode_opt_time(b: &Vec<u8>) -> (out: Option<Option<TimestampMills>>)
    ensures
        out is Some <==> opt_time_of_field(b@) is Some,
        out matches Some(t) ==> opt_time_of_field(b@) == Some(time_model(t)),
{
    if b.len() == 0 {
        Some(None)
    } else if b.len() == 8 {
        let code = read_be64(b, 0);
        assert(b@.subrange(0, 8) =~= b@);
        let t: i64 = if code >= 0x8000_0000_0000_0000 {
            (code - 0x8000_0000_0000_0000) as i64
        } else {
            (code as i64) - i64::MAX - 1
        };
        Some(Some(TimestampMills(t)))
    } else {
        None
    }
}

/// Reads the field of a text.
pub fn decode_text(b: &Vec<u8>) -> (out: Option<String>)
    ensures
        out is Some <==> text_of_field(b@) is Some,
        out matches Some(s) ==> text_of_field(b@) == Some(s@),
{
    let copy = copy_range(b, 0, b.len());
    assert(copy@ =~= b@);
    text_from_bytes(copy)
}

/// The text that may be absent, as a mathematical value.
pub open spec fn opt_text_model(s: Option<String>) -> Option<Seq<char>> {
    match s {
        Some(s) => Some(s@),
        None => None,
    }
}

/// Writes the field of a text that may be absent.
pub fn encode_opt_text(s: &Option<String>) -> (out: Vec<u8>)
    ensures
        out@ == opt_text_field(opt_text_model(*s)),
{
    let mut out: Vec<u8> = Vec::new();
    match s {
        Some(s) => {
            out.push(1u8);
            let bytes = text_to_bytes(s);
            out.extend_from_slice(bytes.as_slice());
            assert(out@ =~= seq![1u8] + encode_utf8(s@));
        },
        None => {
            out.push(0u8);
            assert(out@ =~= seq![0u8]);
        },
    }
    out
}

/// Reads the field of a text that may be absent; the outer `None` where the
/// field is not well formed.
pub fn decode_opt_text(b: &Vec<u8>) -> (out: Option<Option<String>>)
    ensures
        out is Some <==> opt_text_of_field(b@) is Some,
        out matches Some(s) ==> opt_text_of_field(b@) == Some(opt_text_model(s)),
{
    if b.len() == 0 {
        return None;
    }
    if b[0] == 0 {
        if b.len() == 1 {
            Some(None)
        } else {
            None
        }
    } else if b[0] == 1 {
        let rest = copy_range(b, 1, b.len());
        assert(rest@ =~= b@.skip(1));
        match text_from_bytes(rest) {
            Some(s) => Some(Some(s)),
            None => None,
        }
    } else {
        None
    }
}

/// Writes the field of a list of hashes; `None` where a hash is too long.
pub fn encode_list(list: &Vec<Vec<u8>>) -> (out: Option<Vec<u8>>)
    ensures
        out is Some <==> framable(fields_view(*list)),
        out matches Some(b) ==> b@ == list_field(fields_view(*list)),
{
    frame_fields(list)
}

/// Reads the field of a list of hashes.
pub fn decode_list(b: &Vec<u8>) -> (out: Option<Vec<Vec<u8>>>)
    ensures
        out is Some <==> list_of_field(b@) is Some,
        out matches Some(list) ==> list_of_field(b@) == Some(fields_view(list)),
{
    unframe_bytes(b)
}

} // verus!

//! Byte encodings shared by keys and rows: big-endian integers and framed
//! lists of byte strings.

use vstd::prelude::*;

verus! {

/// The four bytes of a `u32`, most significant first.
pub open spec fn be32(n: u32) -> Seq<u8> {
    seq![
        (n / 0x100_0000) as u8,
        (n / 0x1_0000 % 0x100) as u8,
        (n / 0x100 % 0x100) as u8,
        (n % 0x100) as u8,
    ]
}

/// The `u32` that four big-endian bytes stand for.
pub open spec fn be32_value(s: Seq<u8>) -> u32
    recommends
        s.len() == 4,
{
    (s[0] as int * 0x100_0000 + s[1] as int * 0x1_0000 + s[2] as int * 0x100 + s[3] as int) as u32
}

/// The eight bytes of a `u64`, most significant first.
pub open spec fn be64(n: u64) -> Seq<u8> {
    be32((n / 0x1_0000_0000) as u32) + be32((n % 0x1_0000_0000) as u32)
}

/// The `u64` that eight big-endian bytes stand for.
pub open spec fn be64_value(s: Seq<u8>) -> u64
    recommends
        s.len() == 8,
{
    (be32_value(s.subrange(0, 4)) as int * 0x1_0000_0000 + be32_value(s.subrange(4, 8)) as int) as u64
}

/// Reading back the bytes of a `u32` gives the number.
#[verifier::spinoff_prover]
pub proof fn lemma_be32_round_trip(n: u32)
    ensures
        be32(n).len() == 4,
        be32_value(be32(n)) == n,
{
    let b0 = n as int / 0x100_0000;
    let b1 = n as int / 0x1_0000 % 0x100;
    let b2 = n as int / 0x100 % 0x100;
    let b3 = n as int % 0x100;
    assert(0 <= b0 < 0x100 && 0 <= b1 < 0x100 && 0 <= b2 < 0x100 && 0 <= b3 < 0x100);
    assert(n as int / 0x100 == (n as int / 0x1_0000) * 0x100 + b2);
    assert(n as int / 0x1_0000 == b0 * 0x100 + b1);
    assert(n as int == (n as int / 0x100) * 0x100 + b3);
    assert(n as int == b0 * 0x100_0000 + b1 * 0x1_0000 + b2 * 0x100 + b3);
    assert(be32(n)[0] == b0 && be32(n)[1] == b1 && be32(n)[2] == b2 && be32(n)[3] == b3);
}

/// Reading back the bytes of a `u64` gives the number.
pub proof fn lemma_be64_round_trip(n: u64)
    ensures
        be64(n).len() == 8,
        be64_value(be64(n)) == n,
{
    let hi = (n / 0x1_0000_0000) as u32;
    let lo = (n % 0x1_0000_0000) as u32;
    lemma_be32_round_trip(hi);
    lemma_be32_round_trip(lo);
    assert(be64(n).subrange(0, 4) =~= be32(hi));
    assert(be64(n).subrange(4, 8) =~= be32(lo));
}

/// Appends the big-endian bytes of `n`.
pub fn push_be32(out: &mut Vec<u8>, n: u32)
    ensures
        final(out)@ == old(out)@ + be32(n),
{
    out.push((n / 0x100_0000) as u8);
    out.push((n / 0x1_0000 % 0x100) as u8);
    out.push((n / 0x100 % 0x100) as u8);
    out.push((n % 0x100) as u8);
    assert(out@ =~= old(out)@ + be32(n));
}

/// Appends the big-endian bytes of `n`.
pub fn push_be64(out: &mut Vec<u8>, n: u64)
    ensures
        final(out)@ == old(out)@ + be64(n),
{
    push_be32(out, (n / 0x1_0000_0000) as u32);
    push_be32(out, (n % 0x1_0000_0000) as u32);
    assert(out@ =~= old(out)@ + be64(n));
}

/// The big-endian bytes of `n` as a vector of their own.
pub fn u64_to_be(n: u64) -> (out: Vec<u8>)
    ensures
        out@ == be64(n),
{
    let mut out: Vec<u8> = Vec::new();
    push_be64(&mut out, n);
    assert(out@ =~= be64(n));
    out
}

/// Reads the `u32` whose big-endian bytes start at `at`.
pub fn read_be32(bytes: &Vec<u8>, at: usize) -> (n: u32)
    requires
        at + 4 <= bytes@.len(),
    ensures
        n == be32_value(bytes@.subrange(at as int, at + 4)),
{
    let len = bytes.len();
    assert(at + 4 <= len);
    let b0: u32 = bytes[at] as u32;
    let b1: u32 = bytes[at + 1] as u32;
    let b2: u32 = bytes[at + 2] as u32;
    let b3: u32 = bytes[at + 3] as u32;
    b0 * 0x100_0000 + b1 * 0x1_0000 + b2 * 0x100 + b3
}

/// Reads the `u64` whose big-endian bytes start at `at`.
pub fn read_be64(bytes: &Vec<u8>, at: usize) -> (n: u64)
    requires
        at + 8 <= bytes@.len(),
    ensures
        n == be64_value(bytes@.subrange(at as int, at + 8)),
{
    let len = bytes.len();
    assert(at + 8 <= len);
    let hi: u64 = read_be32(bytes, at) as u64;
    let lo: u64 = read_be32(bytes, at + 4) as u64;
    proof {
        let s = bytes@.subrange(at as int, at + 8);
        assert(s.subrange(0, 4) =~= bytes@.subrange(at as int, at + 4));
        assert(s.subrange(4, 8) =~= bytes@.subrange(at + 4, at + 8));
    }
    hi * 0x1_0000_0000 + lo
}

/// A copy of the bytes from `from` up to `to`.
pub fn copy_range(bytes: &Vec<u8>, from: usize, to: usize) -> (out: Vec<u8>)
    requires
        from <= to <= bytes@.len(),
    ensures
        out@ == bytes@.subrange(from as int, to as int),
{
    let mut out: Vec<u8> = Vec::new();
    let mut i: usize = from;
    while i < to
        invariant
            from <= i <= to <= bytes@.len(),
            out@ == bytes@.subrange(from as int, i as int),
        decreases to - i,
    {
        out.push(bytes[i]);
        i += 1;
        assert(out@ =~= bytes@.subrange(from as int, i as int));
    }
    out
}

/// Whether two byte strings hold the same bytes.
pub fn bytes_eq(a: &Vec<u8>, b: &Vec<u8>) -> (same: bool)
    ensures
        same == (a@ == b@),
{
    if a.len() != b.len() {
        return false;
    }
    let mut i: usize = 0;
    while i < a.len()
        invariant
            i <= a@.len(),
            a@.len() == b@.len(),
            forall|j: int| 0 <= j < i ==> a@[j] == b@[j],
        decreases a@.len() - i,
    {
        if a[i] != b[i] {
            return false;
        }
        i += 1;
    }
    assert(a@ =~= b@);
    true
}

/// The byte strings of a list, each by its view.
pub open spec fn fields_view(fields: Vec<Vec<u8>>) -> Seq<Seq<u8>> {
    fields@.map_values(|f: Vec<u8>| f@)
}

/// A list of byte strings as one byte string: each field behind its length
/// in four big-endian bytes.
pub open spec fn frame(fields: Seq<Seq<u8>>) -> Seq<u8>
    decreases fields.len(),
{
    if fields.len() == 0 {
        Seq::empty()
    } else {
        be32(fields[0].len() as u32) + fields[0] + frame(fields.skip(1))
    }
}

/// The list that a framed byte string holds, if it is well formed.
pub open spec fn unframe(bytes: Seq<u8>) -> Option<Seq<Seq<u8>>>
    decreases bytes.len(),
{
    if bytes.len() == 0 {
        Some(Seq::empty())
    } else if bytes.len() < 4 {
        None
    } else {
        let n = be32_value(bytes.subrange(0, 4)) as int;
        if bytes.len() < 4 + n {
            None
        } else {
            match unframe(bytes.skip(4 + n)) {
                Some(rest) => Some(seq![bytes.subrange(4, 4 + n)] + rest),
                None => None,
            }
        }
    }
}

/// Every field is short enough for its length to fit in four bytes.
pub open spec fn framable(fields: Seq<Seq<u8>>) -> bool {
    forall|i: int| 0 <= i < fields.len() ==> (#[trigger] fields[i]).len() <= 0xffff_ffff
}

/// Unframing what `frame` wrote gives back the list.
pub proof fn lemma_unframe_frame(fields: Seq<Seq<u8>>)
    requires
        framable(fields),
    ensures
        unframe(frame(fields)) == Some(fields),
    decreases fields.len(),
{
    if fields.len() == 0 {
        assert(fields =~= Seq::empty());
    } else {
        let head = fields[0];
        let tail = fields.skip(1);
        let bytes = frame(fields);
        let n = head.len() as u32;
        lemma_be32_round_trip(n);
        assert(framable(tail)) by {
            assert forall|i: int| 0 <= i < tail.len() implies (#[trigger] tail[i]).len() <= 0xffff_ffff by {
                assert(tail[i] == fields[i + 1]);
            }
        }
        lemma_unframe_frame(tail);
        assert(bytes.subrange(0, 4) =~= be32(n));
        assert(bytes.subrange(4, 4 + n) =~= head);
        assert(bytes.skip(4 + n) =~= frame(tail));
        assert(seq![head] + tail =~= fields);
    }
}

/// Frames a list of byte strings; `None` where a field is too long.
pub fn frame_fields(fields: &Vec<Vec<u8>>) -> (out: Option<Vec<u8>>)
    ensures
        out is Some <==> framable(fields_view(*fields)),
        out matches Some(b) ==> b@ == frame(fields_view(*fields)),
{
    let ghost fv = fields_view(*fields);
    let mut out: Vec<u8> = Vec::new();
    let mut i: usize = 0;
    assert(fv.skip(0) =~= fv);
    assert(out@ + frame(fv) =~= frame(fv));
    while i < fields.len()
        invariant
            i <= fields@.len(),
            fv == fields_view(*fields),
            forall|j: int| 0 <= j < i ==> (#[trigger] fv[j]).len() <= 0xffff_ffff,
            out@ + frame(fv.skip(i as int)) == frame(fv),
        decreases fields@.len() - i,
    {
        let field = &fields[i];
        if field.len() > 0xffff_ffff {
            assert(fv[i as int].len() > 0xffff_ffff);
            return None;
        }
        let ghost before = out@;
        push_be32(&mut out, field.len() as u32);
        out.extend_from_slice(field.as_slice());
        proof {
            let rest = fv.skip(i as int);
            assert(rest[0] == field@);
            assert(rest.skip(1) =~= fv.skip(i + 1));
            assert(out@ =~= before + (be32(field@.len() as u32) + field@));
            assert(out@ + frame(fv.skip(i + 1)) =~= before + frame(rest));
        }
        i += 1;
    }
    assert(fv.skip(i as int) =~= Seq::empty());
    assert(out@ =~= frame(fv));
    Some(out)
}

/// The list can be framed, and framed it is short enough to be the value of
/// a row.
pub open spec fn fits(fields: Seq<Seq<u8>>) -> bool {
    framable(fields) && frame(fields).len() <= 0xffff_ffff
}

/// Frames the fields of a row; `None` where a field or the row as a whole
/// is too long.
pub fn frame_row(fields: &Vec<Vec<u8>>) -> (out: Option<Vec<u8>>)
    ensures
        out is Some <==> fits(fields_view(*fields)),
        out matches Some(b) ==> b@ == frame(fields_view(*fields)),
{
    match frame_fields(fields) {
        Some(row) => if row.len() <= 0xffff_ffff {
            Some(row)
        } else {
            None
        },
        None => None,
    }
}

/// Splits a framed byte string into its fields; `None` where it is not
/// well formed.
pub fn unframe_bytes(bytes: &Vec<u8>) -> (out: Option<Vec<Vec<u8>>>)
    ensures
        out is Some <==> unframe(bytes@) is Some,
        out matches Some(fields) ==> unframe(bytes@) == Some(fields_view(fields)),
{
    let mut fields: Vec<Vec<u8>> = Vec::new();
    let mut pos: usize = 0;
    assert(bytes@.skip(0) =~= bytes@);
    assert(fields_view(fields) =~= Seq::empty());
    while pos < bytes.len()
        invariant
            pos <= bytes@.len(),
            unframe(bytes@) == match unframe(bytes@.skip(pos as int)) {
                Some(rest) => Some(fields_view(fields) + rest),
                None => None,
            },
        decreases bytes@.len() - pos,
    {
        let ghost here = bytes@.skip(pos as int);
        if bytes.len() - pos < 4 {
            return None;
        }
        let n = read_be32(bytes, pos);
        assert(here.subrange(0, 4) =~= bytes@.subrange(pos as int, pos + 4));
        if bytes.len() - pos - 4 < n as usize {
            return None;
        }
        let start: usize = pos + 4;
        let end: usize = start + n as usize;
        let field = copy_range(bytes, start, end);
        let ghost before = fields_view(fields);
        fields.push(field);
        proof {
            assert(here.subrange(4, 4 + n) =~= field@);
            assert(here.skip(4 + n) =~= bytes@.skip(end as int));
            assert(fields_view(fields) =~= before + seq![field@]);
            match unframe(bytes@.skip(end as int)) {
                Some(rest) => {
                    assert(before + (seq![field@] + rest) =~= fields_view(fields) + rest);
                },
                None => {},
            }
        }
        pos = end;
    }
    assert(bytes@.skip(pos as int) =~= Seq::empty());
    assert(fields_view(fields) + Seq::<Seq<u8>>::empty() =~= fields_view(fields));
    Some(fields)
}

} // verus!

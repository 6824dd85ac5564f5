use vstd::prelude::*;

use vstd::string::StringSliceAdditionalSpecFns;
use vstd::utf8::encode_utf8;

use crate::error::PlotError;

use rustc_serialize::Encoder as _;

verus! {

/// The `n` low-order bytes of `v`, most significant first.
pub open spec fn be_bytes(v: nat, n: nat) -> Seq<u8>
    decreases n,
{
    if n == 0 {
        Seq::empty()
    } else {
        be_bytes(v / 256, (n - 1) as nat).push((v % 256) as u8)
    }
}

/// Shortest MessagePack encoding of an unsigned integer.
pub open spec fn uint_bytes(v: u64) -> Seq<u8> {
    if v < 128 {
        seq![v as u8]
    } else if v < 0x100 {
        seq![0xccu8, v as u8]
    } else if v < 0x1_0000 {
        seq![0xcdu8] + be_bytes(v as nat, 2)
    } else if v < 0x1_0000_0000 {
        seq![0xceu8] + be_bytes(v as nat, 4)
    } else {
        seq![0xcfu8] + be_bytes(v as nat, 8)
    }
}

/// Header of a MessagePack array of `n` elements.
pub open spec fn array_header(n: nat) -> Seq<u8> {
    if n < 16 {
        seq![(0x90 + n) as u8]
    } else if n < 0x1_0000 {
        seq![0xdcu8] + be_bytes(n, 2)
    } else {
        seq![0xddu8] + be_bytes(n, 4)
    }
}

/// Header of a MessagePack string of `n` bytes.
pub open spec fn str_header(n: nat) -> Seq<u8> {
    if n < 32 {
        seq![(0xa0 + n) as u8]
    } else if n < 0x100 {
        seq![0xd9u8, n as u8]
    } else if n < 0x1_0000 {
        seq![0xdau8] + be_bytes(n, 2)
    } else {
        seq![0xdbu8] + be_bytes(n, 4)
    }
}

/// A length that a MessagePack array or string header can carry.
pub open spec fn len_fits(n: nat) -> bool {
    n <= u32::MAX
}

/// A string whose UTF-8 form a MessagePack string header can frame.
pub open spec fn str_fits(s: Seq<char>) -> bool {
    len_fits(encode_utf8(s).len())
}

/// MessagePack string: header, then the UTF-8 bytes.
pub open spec fn str_bytes(s: Seq<char>) -> Seq<u8> {
    str_header(encode_utf8(s).len()) + encode_utf8(s)
}

pub open spec fn nil_bytes() -> Seq<u8> {
    seq![0xc0u8]
}

pub open spec fn bool_bytes(b: bool) -> Seq<u8> {
    seq![if b { 0xc3u8 } else { 0xc2u8 }]
}

/// MessagePack float 64 holding the IEEE-754 binary64 value with bit pattern `bits`.
pub open spec fn f64_bytes(bits: u64) -> Seq<u8> {
    seq![0xcbu8] + be_bytes(bits as nat, 8)
}

/// Absent optional value, or the string itself.
pub open spec fn opt_str_bytes(s: Option<Seq<char>>) -> Seq<u8> {
    match s {
        None => nil_bytes(),
        Some(t) => str_bytes(t),
    }
}

pub open spec fn opt_str_fits(s: Option<Seq<char>>) -> bool {
    match s {
        None => true,
        Some(t) => str_fits(t),
    }
}

/// The elements of a float array, one after the other, without the header.
pub open spec fn f64_elems(xs: Seq<u64>) -> Seq<u8>
    decreases xs.len(),
{
    if xs.len() == 0 {
        Seq::empty()
    } else {
        f64_elems(xs.drop_last()) + f64_bytes(xs.last())
    }
}

/// A float array: header, then every element in order.
pub open spec fn f64_array_bytes(xs: Seq<u64>) -> Seq<u8> {
    array_header(xs.len()) + f64_elems(xs)
}

pub open spec fn bool_elems(xs: Seq<bool>) -> Seq<u8>
    decreases xs.len(),
{
    if xs.len() == 0 {
        Seq::empty()
    } else {
        bool_elems(xs.drop_last()) + bool_bytes(xs.last())
    }
}

pub open spec fn bool_array_bytes(xs: Seq<bool>) -> Seq<u8> {
    array_header(xs.len()) + bool_elems(xs)
}

/// A pair of floats, framed as an array of two.
pub open spec fn f64_pair_bytes(p: (u64, u64)) -> Seq<u8> {
    array_header(2) + f64_bytes(p.0) + f64_bytes(p.1)
}

pub open spec fn opt_pair_bytes(p: Option<(u64, u64)>) -> Seq<u8> {
    match p {
        None => nil_bytes(),
        Some(q) => f64_pair_bytes(q),
    }
}

/// Relies on rmp_serialize's `emit_u64`, which writes rmp's `write_uint`:
/// the shortest unsigned MessagePack form, appended to the vector. rmp writes
/// through `Write::write_all`, which does not fail on a `Vec<u8>`; the same
/// holds for the other wrappers below.
#[verifier::external_body]
pub(crate) fn emit_uint(buf: &mut Vec<u8>, v: u64) -> (r: Result<(), PlotError>)
    ensures
        r is Ok,
        final(buf)@ == old(buf)@ + uint_bytes(v),
{
    match rmp_serialize::Encoder::new(buf).emit_u64(v) {
        Ok(()) => Ok(()),
        Err(_) => Err(PlotError::EncodingFailure),
    }
}

/// Relies on rmp_serialize's `emit_str`, which writes rmp's `write_str`: the
/// header for the UTF-8 length (cast to `u32`), then the UTF-8 bytes.
#[verifier::external_body]
fn emit_str(buf: &mut Vec<u8>, s: &str) -> (r: Result<(), PlotError>)
    requires
        str_fits(s@),
    ensures
        r is Ok,
        final(buf)@ == old(buf)@ + str_bytes(s@),
{
    match rmp_serialize::Encoder::new(buf).emit_str(s) {
        Ok(()) => Ok(()),
        Err(_) => Err(PlotError::EncodingFailure),
    }
}

/// Relies on rmp_serialize's `emit_bool`: one marker byte, 0xc3 or 0xc2.
#[verifier::external_body]
pub(crate) fn emit_bool(buf: &mut Vec<u8>, b: bool) -> (r: Result<(), PlotError>)
    ensures
        r is Ok,
        final(buf)@ == old(buf)@ + bool_bytes(b),
{
    match rmp_serialize::Encoder::new(buf).emit_bool(b) {
        Ok(()) => Ok(()),
        Err(_) => Err(PlotError::EncodingFailure),
    }
}

/// Relies on rmp_serialize's `emit_nil`: the single byte 0xc0.
#[verifier::external_body]
pub(crate) fn emit_nil(buf: &mut Vec<u8>) -> (r: Result<(), PlotError>)
    ensures
        r is Ok,
        final(buf)@ == old(buf)@ + nil_bytes(),
{
    match rmp_serialize::Encoder::new(buf).emit_nil() {
        Ok(()) => Ok(()),
        Err(_) => Err(PlotError::EncodingFailure),
    }
}

/// Appends the `n` low-order bytes of `v`, most significant first.
fn push_be(buf: &mut Vec<u8>, v: u64, n: usize)
    ensures
        final(buf)@ == old(buf)@ + be_bytes(v as nat, n as nat),
    decreases n,
{
    if n > 0 {
        push_be(buf, v / 256, n - 1);
        buf.push((v % 256) as u8);
        proof {
            assert((v / 256) as nat == (v as nat) / 256);
        }
    }
}

/// Appends a MessagePack float 64 given by its IEEE-754 bit pattern.
pub fn write_f64(buf: &mut Vec<u8>, bits: u64)
    ensures
        final(buf)@ == old(buf)@ + f64_bytes(bits),
{
    buf.push(0xcb);
    push_be(buf, bits, 8);
    proof {
        assert(final(buf)@ =~= old(buf)@ + f64_bytes(bits));
    }
}

/// Appends the header of an array of `n` elements; fails when MessagePack
/// cannot frame that many.
pub fn write_array_header(buf: &mut Vec<u8>, n: usize) -> (r: Result<(), PlotError>)
    ensures
        r matches Err(e) ==> e == PlotError::EncodingFailure,
        r is Ok <==> len_fits(n as nat),
        r is Ok ==> final(buf)@ == old(buf)@ + array_header(n as nat),
{
    if n > 0xffff_ffff {
        return Err(PlotError::EncodingFailure);
    }
    let ghost start = buf@;
    if n < 16 {
        buf.push((0x90 + n) as u8);
    } else if n < 0x1_0000 {
        buf.push(0xdc);
        push_be(buf, n as u64, 2);
    } else {
        buf.push(0xdd);
        push_be(buf, n as u64, 4);
    }
    assert(buf@ =~= start + array_header(n as nat));
    Ok(())
}

/// Appends a float array: its header, then each bit pattern as a float 64.
pub fn write_f64_array(buf: &mut Vec<u8>, xs: &Vec<u64>) -> (r: Result<(), PlotError>)
    ensures
        r matches Err(e) ==> e == PlotError::EncodingFailure,
        r is Ok <==> len_fits(xs@.len()),
        r is Ok ==> final(buf)@ == old(buf)@ + f64_array_bytes(xs@),
{
    let ghost start = buf@;
    write_array_header(buf, xs.len())?;
    let ghost head = buf@;
    let mut i: usize = 0;
    while i < xs.len()
        invariant
            0 <= i <= xs@.len(),
            head == start + array_header(xs@.len()),
            buf@ == head + f64_elems(xs@.take(i as int)),
        decreases xs@.len() - i,
    {
        write_f64(buf, xs[i]);
        proof {
            let t = xs@.take(i as int + 1);
            assert(t.drop_last() =~= xs@.take(i as int));
        }
        i = i + 1;
    }
    assert(xs@.take(xs@.len() as int) =~= xs@);
    assert(buf@ =~= start + f64_array_bytes(xs@));
    Ok(())
}

/// Appends a boolean array: its header, then each flag.
pub fn write_bool_array(buf: &mut Vec<u8>, xs: &Vec<bool>) -> (r: Result<(), PlotError>)
    ensures
        r matches Err(e) ==> e == PlotError::EncodingFailure,
        r is Ok <==> len_fits(xs@.len()),
        r is Ok ==> final(buf)@ == old(buf)@ + bool_array_bytes(xs@),
{
    let ghost start = buf@;
    write_array_header(buf, xs.len())?;
    let ghost head = buf@;
    let mut i: usize = 0;
    while i < xs.len()
        invariant
            0 <= i <= xs@.len(),
            head == start + array_header(xs@.len()),
            buf@ == head + bool_elems(xs@.take(i as int)),
        decreases xs@.len() - i,
    {
        emit_bool(buf, xs[i])?;
        proof {
            let t = xs@.take(i as int + 1);
            assert(t.drop_last() =~= xs@.take(i as int));
        }
        i = i + 1;
    }
    assert(xs@.take(xs@.len() as int) =~= xs@);
    assert(buf@ =~= start + bool_array_bytes(xs@));
    Ok(())
}

/// Appends a string; fails when its UTF-8 form is too long to frame.
pub fn write_str(buf: &mut Vec<u8>, s: &str) -> (r: Result<(), PlotError>)
    ensures
        r matches Err(e) ==> e == PlotError::EncodingFailure,
        r is Ok <==> str_fits(s@),
        r is Ok ==> final(buf)@ == old(buf)@ + str_bytes(s@),
{
    let n = s.as_bytes().len();
    if n > 0xffff_ffff {
        return Err(PlotError::EncodingFailure);
    }
    emit_str(buf, s)
}

/// Appends an optional string: the absent marker, or the string.
pub fn write_opt_str(buf: &mut Vec<u8>, s: &Option<String>) -> (r: Result<(), PlotError>)
    ensures
        r matches Err(e) ==> e == PlotError::EncodingFailure,
        r is Ok <==> opt_str_fits(opt_view(s)),
        r is Ok ==> final(buf)@ == old(buf)@ + opt_str_bytes(opt_view(s)),
{
    match s {
        None => emit_nil(buf),
        Some(t) => write_str(buf, t.as_str()),
    }
}

/// Appends an optional pair of floats: the absent marker, or a two-element array.
pub fn write_opt_pair(buf: &mut Vec<u8>, p: &Option<(u64, u64)>) -> (r: Result<(), PlotError>)
    ensures
        r is Ok,
        final(buf)@ == old(buf)@ + opt_pair_bytes(*p),
{
    match p {
        None => emit_nil(buf),
        Some(q) => {
            let ghost start = buf@;
            write_array_header(buf, 2)?;
            write_f64(buf, q.0);
            write_f64(buf, q.1);
            assert(buf@ =~= start + opt_pair_bytes(*p));
            Ok(())
        },
    }
}

/// The model of an optional owned string.
pub open spec fn opt_view(s: &Option<String>) -> Option<Seq<char>> {
    match s {
        None => None,
        Some(t) => Some(t@),
    }
}

} // verus!

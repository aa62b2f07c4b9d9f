//! Little-endian field encodings of the ledger records: fixed-width
//! integers, a one-byte flag, 32-byte addresses, and length-prefixed text
//! and byte strings.
use vstd::prelude::*;

use vstd::bytes::{
    spec_u16_from_le_bytes, spec_u16_to_le_bytes, spec_u32_from_le_bytes, spec_u32_to_le_bytes,
    spec_u64_from_le_bytes, spec_u64_to_le_bytes, u16_from_le_bytes, u16_to_le_bytes,
    u32_from_le_bytes, u32_to_le_bytes, u64_from_le_bytes, u64_to_le_bytes,
};
use vstd::utf8::{decode_utf8, encode_utf8, valid_utf8};

use crate::address::Address;

verus! {

broadcast use {vstd::utf8::encode_utf8_valid_utf8, vstd::utf8::encode_utf8_decode_utf8};

pub open spec fn enc_bool(b: bool) -> Seq<u8> {
    seq![if b { 1u8 } else { 0u8 }]
}

pub open spec fn enc_u8(x: u8) -> Seq<u8> {
    seq![x]
}

pub open spec fn enc_u16(x: u16) -> Seq<u8> {
    spec_u16_to_le_bytes(x)
}

pub open spec fn enc_u32(x: u32) -> Seq<u8> {
    spec_u32_to_le_bytes(x)
}

pub open spec fn enc_u64(x: u64) -> Seq<u8> {
    spec_u64_to_le_bytes(x)
}

/// A signed integer is stored as its two's-complement bits.
pub open spec fn enc_i64(x: i64) -> Seq<u8> {
    spec_u64_to_le_bytes(x as u64)
}

/// Text is stored as its UTF-8 byte count, then the bytes.
pub open spec fn enc_string(s: Seq<char>) -> Seq<u8> {
    enc_u32(encode_utf8(s).len() as u32) + encode_utf8(s)
}

/// A byte string is stored as its length, then the bytes.
pub open spec fn enc_vec(b: Seq<u8>) -> Seq<u8> {
    enc_u32(b.len() as u32) + b
}

pub open spec fn dec_bool(s: Seq<u8>) -> Option<(bool, Seq<u8>)> {
    if s.len() >= 1 && s[0] <= 1 {
        Some((s[0] == 1, s.skip(1)))
    } else {
        None
    }
}

pub open spec fn dec_u8(s: Seq<u8>) -> Option<(u8, Seq<u8>)> {
    if s.len() >= 1 {
        Some((s[0], s.skip(1)))
    } else {
        None
    }
}

pub open spec fn dec_u16(s: Seq<u8>) -> Option<(u16, Seq<u8>)> {
    if s.len() >= 2 {
        Some((spec_u16_from_le_bytes(s.take(2)), s.skip(2)))
    } else {
        None
    }
}

pub open spec fn dec_u32(s: Seq<u8>) -> Option<(u32, Seq<u8>)> {
    if s.len() >= 4 {
        Some((spec_u32_from_le_bytes(s.take(4)), s.skip(4)))
    } else {
        None
    }
}

pub open spec fn dec_u64(s: Seq<u8>) -> Option<(u64, Seq<u8>)> {
    if s.len() >= 8 {
        Some((spec_u64_from_le_bytes(s.take(8)), s.skip(8)))
    } else {
        None
    }
}

pub open spec fn dec_i64(s: Seq<u8>) -> Option<(i64, Seq<u8>)> {
    if s.len() >= 8 {
        Some((spec_u64_from_le_bytes(s.take(8)) as i64, s.skip(8)))
    } else {
        None
    }
}

pub open spec fn dec_address(s: Seq<u8>) -> Option<(Seq<u8>, Seq<u8>)> {
    if s.len() >= 32 {
        Some((s.take(32), s.skip(32)))
    } else {
        None
    }
}

pub open spec fn dec_string(s: Seq<u8>) -> Option<(Seq<char>, Seq<u8>)> {
    match dec_u32(s) {
        Some((n, rest)) => if rest.len() >= n && valid_utf8(rest.take(n as int)) {
            Some((decode_utf8(rest.take(n as int)), rest.skip(n as int)))
        } else {
            None
        },
        None => None,
    }
}

/// A byte string of at most `cap` bytes.
pub open spec fn dec_vec(s: Seq<u8>, cap: nat) -> Option<(Seq<u8>, Seq<u8>)> {
    match dec_u32(s) {
        Some((n, rest)) => if rest.len() >= n && n <= cap {
            Some((rest.take(n as int), rest.skip(n as int)))
        } else {
            None
        },
        None => None,
    }
}

pub proof fn lemma_bool_round_trip(b: bool, rest: Seq<u8>)
    ensures
        dec_bool(enc_bool(b) + rest) == Some((b, rest)),
{
    assert((enc_bool(b) + rest).skip(1) =~= rest);
}

pub proof fn lemma_u8_round_trip(x: u8, rest: Seq<u8>)
    ensures
        dec_u8(enc_u8(x) + rest) == Some((x, rest)),
{
    assert((enc_u8(x) + rest).skip(1) =~= rest);
}

pub proof fn lemma_u16_round_trip(x: u16, rest: Seq<u8>)
    ensures
        dec_u16(enc_u16(x) + rest) == Some((x, rest)),
{
    vstd::bytes::lemma_auto_spec_u16_to_from_le_bytes();
    let s = enc_u16(x) + rest;
    assert(s.take(2) =~= enc_u16(x));
    assert(s.skip(2) =~= rest);
}

pub proof fn lemma_u32_round_trip(x: u32, rest: Seq<u8>)
    ensures
        dec_u32(enc_u32(x) + rest) == Some((x, rest)),
{
    vstd::bytes::lemma_auto_spec_u32_to_from_le_bytes();
    let s = enc_u32(x) + rest;
    assert(s.take(4) =~= enc_u32(x));
    assert(s.skip(4) =~= rest);
}

pub proof fn lemma_u64_round_trip(x: u64, rest: Seq<u8>)
    ensures
        dec_u64(enc_u64(x) + rest) == Some((x, rest)),
{
    vstd::bytes::lemma_auto_spec_u64_to_from_le_bytes();
    let s = enc_u64(x) + rest;
    assert(s.take(8) =~= enc_u64(x));
    assert(s.skip(8) =~= rest);
}

pub proof fn lemma_i64_round_trip(x: i64, rest: Seq<u8>)
    ensures
        dec_i64(enc_i64(x) + rest) == Some((x, rest)),
{
    vstd::bytes::lemma_auto_spec_u64_to_from_le_bytes();
    let s = enc_i64(x) + rest;
    assert(s.take(8) =~= enc_i64(x));
    assert(s.skip(8) =~= rest);
    assert((x as u64) as i64 == x) by (bit_vector);
}

pub proof fn lemma_address_round_trip(a: Seq<u8>, rest: Seq<u8>)
    requires
        a.len() == 32,
    ensures
        dec_address(a + rest) == Some((a, rest)),
{
    assert((a + rest).take(32) =~= a);
    assert((a + rest).skip(32) =~= rest);
}

pub proof fn lemma_string_round_trip(s: Seq<char>, rest: Seq<u8>)
    requires
        encode_utf8(s).len() <= u32::MAX,
    ensures
        dec_string(enc_string(s) + rest) == Some((s, rest)),
{
    let bytes = encode_utf8(s);
    let n = bytes.len() as u32;
    assert(enc_string(s) + rest =~= enc_u32(n) + (bytes + rest));
    lemma_u32_round_trip(n, bytes + rest);
    assert((bytes + rest).take(n as int) =~= bytes);
    assert((bytes + rest).skip(n as int) =~= rest);
}

pub proof fn lemma_vec_round_trip(b: Seq<u8>, cap: nat, rest: Seq<u8>)
    requires
        b.len() <= cap,
        b.len() <= u32::MAX,
    ensures
        dec_vec(enc_vec(b) + rest, cap) == Some((b, rest)),
{
    let n = b.len() as u32;
    assert(enc_vec(b) + rest =~= enc_u32(n) + (b + rest));
    lemma_u32_round_trip(n, b + rest);
    assert((b + rest).take(n as int) =~= b);
    assert((b + rest).skip(n as int) =~= rest);
}

/// Relies on `String::from_utf8`, which accepts exactly the valid UTF-8
/// byte strings and then holds the characters they encode.
#[verifier::external_body]
fn string_from_utf8(bytes: Vec<u8>) -> (r: Option<String>)
    ensures
        match r {
            Some(s) => valid_utf8(bytes@) && s@ == decode_utf8(bytes@),
            None => !valid_utf8(bytes@),
        },
{
    String::from_utf8(bytes).ok()
}

/// Copies `n` bytes of `data` from `pos`.
fn take_bytes(data: &[u8], pos: usize, n: usize) -> (r: Vec<u8>)
    requires
        pos + n <= data@.len(),
    ensures
        r@ == data@.subrange(pos as int, pos + n),
{
    let len = data.len();
    let mut out: Vec<u8> = Vec::new();
    let mut i: usize = 0;
    while i < n
        invariant
            i <= n,
            len == data@.len(),
            pos + n <= len,
            out@ =~= data@.subrange(pos as int, pos + i),
        decreases n - i,
    {
        out.push(data[pos + i]);
        i += 1;
    }
    out
}

/// What is left of `data` from `pos` on.
pub open spec fn tail(data: Seq<u8>, pos: int) -> Seq<u8> {
    data.subrange(pos, data.len() as int)
}

/// The reader's result: the decoded value and the position after it, or
/// `None` exactly where `decoded` is `None`.
pub open spec fn read_matches<T>(
    data: Seq<u8>,
    r: Option<(T, usize)>,
    decoded: Option<(T, Seq<u8>)>,
) -> bool {
    match decoded {
        Some((v, rest)) => r is Some && r->Some_0.0 == v && r->Some_0.1 <= data.len() && tail(
            data,
            r->Some_0.1 as int,
        ) == rest,
        None => r is None,
    }
}

pub fn read_bool(data: &[u8], pos: usize) -> (r: Option<(bool, usize)>)
    requires
        pos <= data@.len(),
    ensures
        read_matches(data@, r, dec_bool(tail(data@, pos as int))),
{
    if data.len() - pos < 1 || data[pos] > 1 {
        return None;
    }
    assert(tail(data@, pos as int).skip(1) =~= tail(data@, pos + 1));
    Some((data[pos] == 1, pos + 1))
}

pub fn read_u8(data: &[u8], pos: usize) -> (r: Option<(u8, usize)>)
    requires
        pos <= data@.len(),
    ensures
        read_matches(data@, r, dec_u8(tail(data@, pos as int))),
{
    if data.len() - pos < 1 {
        return None;
    }
    assert(tail(data@, pos as int).skip(1) =~= tail(data@, pos + 1));
    Some((data[pos], pos + 1))
}

pub fn read_u16(data: &[u8], pos: usize) -> (r: Option<(u16, usize)>)
    requires
        pos <= data@.len(),
    ensures
        read_matches(data@, r, dec_u16(tail(data@, pos as int))),
{
    if data.len() - pos < 2 {
        return None;
    }
    let buf = take_bytes(data, pos, 2);
    assert(tail(data@, pos as int).take(2) =~= buf@);
    assert(tail(data@, pos as int).skip(2) =~= tail(data@, pos + 2));
    Some((u16_from_le_bytes(buf.as_slice()), pos + 2))
}

pub fn read_u32(data: &[u8], pos: usize) -> (r: Option<(u32, usize)>)
    requires
        pos <= data@.len(),
    ensures
        read_matches(data@, r, dec_u32(tail(data@, pos as int))),
{
    if data.len() - pos < 4 {
        return None;
    }
    let buf = take_bytes(data, pos, 4);
    assert(tail(data@, pos as int).take(4) =~= buf@);
    assert(tail(data@, pos as int).skip(4) =~= tail(data@, pos + 4));
    Some((u32_from_le_bytes(buf.as_slice()), pos + 4))
}

pub fn read_u64(data: &[u8], pos: usize) -> (r: Option<(u64, usize)>)
    requires
        pos <= data@.len(),
    ensures
        read_matches(data@, r, dec_u64(tail(data@, pos as int))),
{
    if data.len() - pos < 8 {
        return None;
    }
    let buf = take_bytes(data, pos, 8);
    assert(tail(data@, pos as int).take(8) =~= buf@);
    assert(tail(data@, pos as int).skip(8) =~= tail(data@, pos + 8));
    Some((u64_from_le_bytes(buf.as_slice()), pos + 8))
}

pub fn read_i64(data: &[u8], pos: usize) -> (r: Option<(i64, usize)>)
    requires
        pos <= data@.len(),
    ensures
        read_matches(data@, r, dec_i64(tail(data@, pos as int))),
{
    match read_u64(data, pos) {
        Some((v, next)) => Some((v as i64, next)),
        None => None,
    }
}

pub fn read_address(data: &[u8], pos: usize) -> (r: Option<(Address, usize)>)
    requires
        pos <= data@.len(),
    ensures
        match dec_address(tail(data@, pos as int)) {
            Some((v, rest)) => r is Some && r->Some_0.0@ == v && r->Some_0.1 <= data@.len() && tail(
                data@,
                r->Some_0.1 as int,
            ) == rest,
            None => r is None,
        },
{
    if data.len() - pos < 32 {
        return None;
    }
    let len = data.len();
    let mut bytes = [0u8; 32];
    let mut i: usize = 0;
    while i < 32
        invariant
            i <= 32,
            len == data@.len(),
            pos + 32 <= len,
            forall|j: int| 0 <= j < i ==> bytes@[j] == data@[pos + j],
        decreases 32 - i,
    {
        bytes[i] = data[pos + i];
        i += 1;
    }
    assert(tail(data@, pos as int).take(32) =~= bytes@);
    assert(tail(data@, pos as int).skip(32) =~= tail(data@, pos + 32));
    Some((Address { bytes }, pos + 32))
}

pub fn read_string(data: &[u8], pos: usize) -> (r: Option<(String, usize)>)
    requires
        pos <= data@.len(),
    ensures
        match dec_string(tail(data@, pos as int)) {
            Some((v, rest)) => r is Some && r->Some_0.0@ == v && r->Some_0.1 <= data@.len() && tail(
                data@,
                r->Some_0.1 as int,
            ) == rest,
            None => r is None,
        },
{
    let (n, start) = match read_u32(data, pos) {
        Some(v) => v,
        None => {
            return None;
        },
    };
    let n = n as usize;
    if data.len() - start < n {
        return None;
    }
    let buf = take_bytes(data, start, n);
    assert(tail(data@, start as int).take(n as int) =~= buf@);
    assert(tail(data@, start as int).skip(n as int) =~= tail(data@, start + n));
    match string_from_utf8(buf) {
        Some(s) => Some((s, start + n)),
        None => None,
    }
}

pub fn read_vec(data: &[u8], pos: usize, cap: usize) -> (r: Option<(Vec<u8>, usize)>)
    requires
        pos <= data@.len(),
    ensures
        match dec_vec(tail(data@, pos as int), cap as nat) {
            Some((v, rest)) => r is Some && r->Some_0.0@ == v && r->Some_0.1 <= data@.len() && tail(
                data@,
                r->Some_0.1 as int,
            ) == rest,
            None => r is None,
        },
{
    let (n, start) = match read_u32(data, pos) {
        Some(v) => v,
        None => {
            return None;
        },
    };
    let n = n as usize;
    if data.len() - start < n || n > cap {
        return None;
    }
    let buf = take_bytes(data, start, n);
    assert(tail(data@, start as int).take(n as int) =~= buf@);
    assert(tail(data@, start as int).skip(n as int) =~= tail(data@, start + n));
    Some((buf, start + n))
}

fn append(out: &mut Vec<u8>, bytes: &[u8])
    ensures
        final(out)@ == old(out)@ + bytes@,
{
    let mut i: usize = 0;
    while i < bytes.len()
        invariant
            i <= bytes@.len(),
            out@ =~= old(out)@ + bytes@.subrange(0, i as int),
        decreases bytes@.len() - i,
    {
        out.push(bytes[i]);
        i += 1;
    }
    assert(bytes@.subrange(0, bytes@.len() as int) =~= bytes@);
}

pub fn write_bool(out: &mut Vec<u8>, b: bool)
    ensures
        final(out)@ == old(out)@ + enc_bool(b),
{
    out.push(if b { 1u8 } else { 0u8 });
    assert(out@ =~= old(out)@ + enc_bool(b));
}

pub fn write_u8(out: &mut Vec<u8>, x: u8)
    ensures
        final(out)@ == old(out)@ + enc_u8(x),
{
    out.push(x);
    assert(out@ =~= old(out)@ + enc_u8(x));
}

pub fn write_u16(out: &mut Vec<u8>, x: u16)
    ensures
        final(out)@ == old(out)@ + enc_u16(x),
{
    let b = u16_to_le_bytes(x);
    append(out, b.as_slice());
}

pub fn write_u32(out: &mut Vec<u8>, x: u32)
    ensures
        final(out)@ == old(out)@ + enc_u32(x),
{
    let b = u32_to_le_bytes(x);
    append(out, b.as_slice());
}

pub fn write_u64(out: &mut Vec<u8>, x: u64)
    ensures
        final(out)@ == old(out)@ + enc_u64(x),
{
    let b = u64_to_le_bytes(x);
    append(out, b.as_slice());
}

pub fn write_i64(out: &mut Vec<u8>, x: i64)
    ensures
        final(out)@ == old(out)@ + enc_i64(x),
{
    write_u64(out, x as u64);
}

pub fn write_address(out: &mut Vec<u8>, a: &Address)
    ensures
        final(out)@ == old(out)@ + a@,
{
    append(out, a.bytes.as_slice());
}

pub fn write_string(out: &mut Vec<u8>, s: &String)
    requires
        encode_utf8(s@).len() <= u32::MAX,
    ensures
        final(out)@ == old(out)@ + enc_string(s@),
{
    let bytes = s.as_str().as_bytes();
    write_u32(out, bytes.len() as u32);
    append(out, bytes);
    assert(out@ =~= old(out)@ + enc_string(s@));
}

pub fn write_vec(out: &mut Vec<u8>, b: &Vec<u8>)
    requires
        b@.len() <= u32::MAX,
    ensures
        final(out)@ == old(out)@ + enc_vec(b@),
{
    write_u32(out, b.len() as u32);
    append(out, b.as_slice());
    assert(out@ =~= old(out)@ + enc_vec(b@));
}

/// Pads `out` with zero bytes up to `len`.
pub fn pad_zeros(out: &mut Vec<u8>, len: usize)
    requires
        old(out)@.len() <= len,
    ensures
        final(out)@ == old(out)@ + Seq::new((len - old(out)@.len()) as nat, |i: int| 0u8),
{
    while out.len() < len
        invariant
            old(out)@.len() <= out@.len() <= len,
            out@ =~= old(out)@ + Seq::new((out@.len() - old(out)@.len()) as nat, |i: int| 0u8),
        decreases len - out@.len(),
    {
        out.push(0u8);
    }
}

} // verus!

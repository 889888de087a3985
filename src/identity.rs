use vstd::prelude::*;
use vstd::utf8::{encode_utf8, encode_utf8_decode_utf8};
use crate::config::{Curl, CurlModel};

verus! {

/// The BLAKE3 digest of a byte sequence, as 64 lowercase hexadecimal digits.
pub uninterp spec fn blake3_hex(data: Seq<u8>) -> Seq<char>;

/// Relies on `blake3::hash` and `blake3::Hash::to_hex`: the digest of the
/// input, written as 64 lowercase hexadecimal digits.
#[verifier::external_body]
fn blake3_hex_digest(data: &[u8]) -> (r: String)
    ensures
        r@ == blake3_hex(data@),
        r@.len() == 64,
        forall|i: int|
            0 <= i < 64 ==> ('0' <= #[trigger] r@[i] <= '9' || 'a' <= r@[i] <= 'f'),
{
    blake3::hash(data).to_hex().to_string()
}

/// The eight little-endian bytes of `n`.
pub open spec fn le8(n: u64) -> Seq<u8> {
    seq![
        (n & 0xff) as u8,
        ((n >> 8u64) & 0xff) as u8,
        ((n >> 16u64) & 0xff) as u8,
        ((n >> 24u64) & 0xff) as u8,
        ((n >> 32u64) & 0xff) as u8,
        ((n >> 40u64) & 0xff) as u8,
        ((n >> 48u64) & 0xff) as u8,
        ((n >> 56u64) & 0xff) as u8,
    ]
}

/// A field framed by its length, so that fields cannot run into each other.
pub open spec fn frame(b: Seq<u8>) -> Seq<u8> {
    le8(b.len() as u64) + b
}

/// The tag that opens every digest input of this block kind: `curl`.
pub open spec fn kind_tag() -> Seq<u8> {
    seq![99u8, 117u8, 114u8, 108u8]
}

/// The bytes that the identity digest is taken of: the kind tag, then the
/// method, URL template, headers script and body script, each framed.
pub open spec fn identity_input(c: CurlModel) -> Seq<u8> {
    kind_tag() + frame(encode_utf8(c.method)) + frame(encode_utf8(c.url)) + frame(
        encode_utf8(c.headers_code),
    ) + frame(encode_utf8(c.body_code))
}

/// The identity digest of a configuration.
pub open spec fn identity_digest(c: CurlModel) -> Seq<char> {
    blake3_hex(identity_input(c))
}

/// Each field's UTF-8 form has a length that a 64-bit count holds, as every
/// string in memory does.
pub open spec fn lengths_fit(c: CurlModel) -> bool {
    &&& encode_utf8(c.method).len() <= u64::MAX
    &&& encode_utf8(c.url).len() <= u64::MAX
    &&& encode_utf8(c.headers_code).len() <= u64::MAX
    &&& encode_utf8(c.body_code).len() <= u64::MAX
}

proof fn lemma_le8_injective(a: u64, b: u64)
    requires
        le8(a) == le8(b),
    ensures
        a == b,
{
    assert(le8(a)[0] == le8(b)[0] && le8(a)[1] == le8(b)[1] && le8(a)[2] == le8(b)[2]
        && le8(a)[3] == le8(b)[3] && le8(a)[4] == le8(b)[4] && le8(a)[5] == le8(b)[5]
        && le8(a)[6] == le8(b)[6] && le8(a)[7] == le8(b)[7]);
    assert(((a & 0xff) as u8 == (b & 0xff) as u8 && ((a >> 8u64) & 0xff) as u8 == ((b
        >> 8u64) & 0xff) as u8 && ((a >> 16u64) & 0xff) as u8 == ((b >> 16u64) & 0xff) as u8
        && ((a >> 24u64) & 0xff) as u8 == ((b >> 24u64) & 0xff) as u8 && ((a >> 32u64) & 0xff)
        as u8 == ((b >> 32u64) & 0xff) as u8 && ((a >> 40u64) & 0xff) as u8 == ((b >> 40u64)
        & 0xff) as u8 && ((a >> 48u64) & 0xff) as u8 == ((b >> 48u64) & 0xff) as u8 && ((a
        >> 56u64) & 0xff) as u8 == ((b >> 56u64) & 0xff) as u8) ==> a == b) by (bit_vector);
}

proof fn lemma_frame_split(a: Seq<u8>, x: Seq<u8>, b: Seq<u8>, y: Seq<u8>)
    requires
        frame(a) + x == frame(b) + y,
        a.len() <= u64::MAX,
        b.len() <= u64::MAX,
    ensures
        a == b,
        x == y,
{
    let l = frame(a) + x;
    let r = frame(b) + y;
    assert(l.take(8) =~= le8(a.len() as u64));
    assert(r.take(8) =~= le8(b.len() as u64));
    lemma_le8_injective(a.len() as u64, b.len() as u64);
    assert(a.len() == b.len());
    assert(l.subrange(8, 8 + a.len() as int) =~= a);
    assert(r.subrange(8, 8 + b.len() as int) =~= b);
    assert(l.skip(8 + a.len() as int) =~= x);
    assert(r.skip(8 + b.len() as int) =~= y);
}

proof fn lemma_utf8_injective(a: Seq<char>, b: Seq<char>)
    requires
        encode_utf8(a) == encode_utf8(b),
    ensures
        a == b,
{
    encode_utf8_decode_utf8(a);
    encode_utf8_decode_utf8(b);
}

/// The digest input determines the configuration: two configurations that
/// differ in method, URL template, headers script or body script never
/// share a digest input, and equal configurations share their digest.
pub proof fn lemma_identity_input_injective(a: CurlModel, b: CurlModel)
    requires
        lengths_fit(a),
        lengths_fit(b),
    ensures
        identity_input(a) == identity_input(b) <==> (a.method == b.method && a.url == b.url
            && a.headers_code == b.headers_code && a.body_code == b.body_code),
        (a.method == b.method && a.url == b.url && a.headers_code == b.headers_code
            && a.body_code == b.body_code) ==> identity_digest(a) == identity_digest(b),
{
    let (ma, ua, ha, ba) = (
        encode_utf8(a.method),
        encode_utf8(a.url),
        encode_utf8(a.headers_code),
        encode_utf8(a.body_code),
    );
    let (mb, ub, hb, bb) = (
        encode_utf8(b.method),
        encode_utf8(b.url),
        encode_utf8(b.headers_code),
        encode_utf8(b.body_code),
    );
    if identity_input(a) == identity_input(b) {
        let ia = identity_input(a);
        let ib = identity_input(b);
        assert(ia.skip(4) =~= frame(ma) + (frame(ua) + frame(ha) + frame(ba)));
        assert(ib.skip(4) =~= frame(mb) + (frame(ub) + frame(hb) + frame(bb)));
        lemma_frame_split(ma, frame(ua) + frame(ha) + frame(ba), mb, frame(ub) + frame(hb)
            + frame(bb));
        assert(frame(ua) + frame(ha) + frame(ba) =~= frame(ua) + (frame(ha) + frame(ba)));
        assert(frame(ub) + frame(hb) + frame(bb) =~= frame(ub) + (frame(hb) + frame(bb)));
        lemma_frame_split(ua, frame(ha) + frame(ba), ub, frame(hb) + frame(bb));
        lemma_frame_split(ha, frame(ba), hb, frame(bb));
        assert(frame(ba) =~= frame(ba) + Seq::<u8>::empty());
        assert(frame(bb) =~= frame(bb) + Seq::<u8>::empty());
        lemma_frame_split(ba, Seq::<u8>::empty(), bb, Seq::<u8>::empty());
        lemma_utf8_injective(a.method, b.method);
        lemma_utf8_injective(a.url, b.url);
        lemma_utf8_injective(a.headers_code, b.headers_code);
        lemma_utf8_injective(a.body_code, b.body_code);
    }
}

/// Appends `n` as eight little-endian bytes.
fn push_le8(out: &mut Vec<u8>, n: u64)
    ensures
        final(out)@ == old(out)@ + le8(n),
{
    out.push((n & 0xff) as u8);
    out.push(((n >> 8u64) & 0xff) as u8);
    out.push(((n >> 16u64) & 0xff) as u8);
    out.push(((n >> 24u64) & 0xff) as u8);
    out.push(((n >> 32u64) & 0xff) as u8);
    out.push(((n >> 40u64) & 0xff) as u8);
    out.push(((n >> 48u64) & 0xff) as u8);
    out.push(((n >> 56u64) & 0xff) as u8);
    assert(final(out)@ =~= old(out)@ + le8(n));
}

/// Appends the UTF-8 bytes of `s`, framed by their count.
fn push_framed(out: &mut Vec<u8>, s: &String)
    ensures
        final(out)@ == old(out)@ + frame(encode_utf8(s@)),
        encode_utf8(s@).len() <= u64::MAX,
{
    let bytes = s.as_str().as_bytes();
    assert(bytes@ == encode_utf8(s@));
    push_le8(out, bytes.len() as u64);
    let ghost start = out@;
    let mut i: usize = 0;
    while i < bytes.len()
        invariant
            0 <= i <= bytes@.len(),
            out@ == start + bytes@.take(i as int),
        decreases bytes@.len() - i,
    {
        out.push(bytes[i]);
        assert(bytes@.take(i + 1) =~= bytes@.take(i as int).push(bytes@[i as int]));
        i = i + 1;
    }
    assert(bytes@.take(i as int) =~= bytes@);
}

impl Curl {
    /// The bytes that the identity digest is taken of.
    pub fn identity_bytes(&self) -> (r: Vec<u8>)
        ensures
            r@ == identity_input(self@),
            lengths_fit(self@),
    {
        let mut out: Vec<u8> = Vec::new();
        out.push(99u8);
        out.push(117u8);
        out.push(114u8);
        out.push(108u8);
        assert(out@ =~= kind_tag());
        push_framed(&mut out, self.method());
        push_framed(&mut out, self.url());
        push_framed(&mut out, self.headers_code());
        push_framed(&mut out, self.body_code());
        out
    }

    /// The stable identity digest of the configuration, for cache keys.
    pub fn inner_hash(&self) -> (r: String)
        ensures
            r@ == identity_digest(self@),
            r@.len() == 64,
    {
        let input = self.identity_bytes();
        blake3_hex_digest(input.as_slice())
    }
}

} // verus!

//! The canonical input encoding.
//!
//! The proving machine does not consume a raw execution-input artifact; it
//! consumes a builder-level framing of it. A write-builder records an ordered
//! sequence of byte entries; serializing the builder yields the entry count
//! followed by each entry under a little-endian length prefix. Decoding is
//! symmetric and accepts exactly the canonical encodings, so a round trip
//! through the codec reconstructs the builder entry for entry.

use vstd::prelude::*;

verus! {

/// The eight little-endian bytes of `v`.
pub open spec fn u64_le_spec(v: u64) -> Seq<u8> {
    seq![
        (v & 0xff) as u8,
        ((v >> 8) & 0xff) as u8,
        ((v >> 16) & 0xff) as u8,
        ((v >> 24) & 0xff) as u8,
        ((v >> 32) & 0xff) as u8,
        ((v >> 40) & 0xff) as u8,
        ((v >> 48) & 0xff) as u8,
        ((v >> 56) & 0xff) as u8,
    ]
}

/// The value carried by eight little-endian bytes.
pub open spec fn le_u64_spec(b: Seq<u8>) -> u64
    recommends
        b.len() == 8,
{
    (b[0] as u64) | ((b[1] as u64) << 8) | ((b[2] as u64) << 16) | ((b[3] as u64) << 24)
        | ((b[4] as u64) << 32) | ((b[5] as u64) << 40) | ((b[6] as u64) << 48) | ((b[7]
        as u64) << 56)
}

/// Reading back the eight little-endian bytes of `v` yields `v`.
pub proof fn lemma_u64_le_roundtrip(v: u64)
    ensures
        le_u64_spec(u64_le_spec(v)) == v,
{
    assert((((v & 0xff) as u8) as u64) | (((((v >> 8) & 0xff) as u8) as u64) << 8) | (((((v
        >> 16) & 0xff) as u8) as u64) << 16) | (((((v >> 24) & 0xff) as u8) as u64) << 24)
        | (((((v >> 32) & 0xff) as u8) as u64) << 32) | (((((v >> 40) & 0xff) as u8) as u64)
        << 40) | (((((v >> 48) & 0xff) as u8) as u64) << 48) | (((((v >> 56) & 0xff) as u8)
        as u64) << 56) == v) by (bit_vector);
}

/// Appends the eight little-endian bytes of `v`.
pub fn write_u64_le(out: &mut Vec<u8>, v: u64)
    ensures
        final(out)@ == old(out)@ + u64_le_spec(v),
{
    proof {
        assert((v & 0xff) <= 0xff && ((v >> 8) & 0xff) <= 0xff && ((v >> 16) & 0xff) <= 0xff
            && ((v >> 24) & 0xff) <= 0xff && ((v >> 32) & 0xff) <= 0xff && ((v >> 40) & 0xff)
            <= 0xff && ((v >> 48) & 0xff) <= 0xff && ((v >> 56) & 0xff) <= 0xff) by (bit_vector);
    }
    out.push((v & 0xff) as u8);
    out.push(((v >> 8) & 0xff) as u8);
    out.push(((v >> 16) & 0xff) as u8);
    out.push(((v >> 24) & 0xff) as u8);
    out.push(((v >> 32) & 0xff) as u8);
    out.push(((v >> 40) & 0xff) as u8);
    out.push(((v >> 48) & 0xff) as u8);
    out.push(((v >> 56) & 0xff) as u8);
    proof {
        assert(out@ =~= old(out)@ + u64_le_spec(v));
    }
}

/// Reads the u64 carried by `bytes[offset .. offset + 8]`.
pub fn read_u64_le(bytes: &Vec<u8>, offset: usize) -> (r: u64)
    requires
        offset + 8 <= bytes@.len(),
    ensures
        r == le_u64_spec(bytes@.subrange(offset as int, offset + 8)),
{
    // the call puts the vector's length bound in scope, so the index sums
    // below are known not to overflow
    let _len: usize = bytes.len();
    let r: u64 = (bytes[offset] as u64) | ((bytes[offset + 1] as u64) << 8) | ((bytes[offset
        + 2] as u64) << 16) | ((bytes[offset + 3] as u64) << 24) | ((bytes[offset + 4] as u64)
        << 32) | ((bytes[offset + 5] as u64) << 40) | ((bytes[offset + 6] as u64) << 48) | ((
    bytes[offset + 7] as u64) << 56);
    proof {
        let sub = bytes@.subrange(offset as int, offset + 8);
        assert(sub[0] == bytes@[offset as int] && sub[1] == bytes@[offset + 1] && sub[2]
            == bytes@[offset + 2] && sub[3] == bytes@[offset + 3] && sub[4] == bytes@[offset
            + 4] && sub[5] == bytes@[offset + 5] && sub[6] == bytes@[offset + 6] && sub[7]
            == bytes@[offset + 7]);
    }
    r
}

/// Copies a byte vector.
pub fn copy_bytes(src: &Vec<u8>) -> (r: Vec<u8>)
    ensures
        r@ == src@,
{
    let mut out: Vec<u8> = Vec::new();
    let mut i: usize = 0;
    while i < src.len()
        invariant
            i <= src@.len(),
            out@ == src@.take(i as int),
        decreases src@.len() - i,
    {
        out.push(src[i]);
        proof {
            assert(src@.take(i as int).push(src@[i as int]) =~= src@.take(i + 1));
        }
        i += 1;
    }
    proof {
        assert(src@.take(src@.len() as int) =~= src@);
    }
    out
}

/// The byte sequences held by a sequence of byte vectors.
pub open spec fn entries_view(es: Seq<Vec<u8>>) -> Seq<Seq<u8>> {
    Seq::new(es.len(), |i: int| es[i]@)
}

/// One framed entry: its length, little endian, then its bytes.
pub open spec fn frame_spec(e: Seq<u8>) -> Seq<u8>
    recommends
        e.len() <= u64::MAX,
{
    u64_le_spec(e.len() as u64) + e
}

/// The framed entries, in order.
pub open spec fn encode_entries_spec(es: Seq<Seq<u8>>) -> Seq<u8>
    decreases es.len(),
{
    if es.len() == 0 {
        Seq::empty()
    } else {
        frame_spec(es.first()) + encode_entries_spec(es.drop_first())
    }
}

/// The serialized form of a builder holding `es`: the entry count, then each
/// entry framed, in write order.
pub open spec fn encode_spec(es: Seq<Seq<u8>>) -> Seq<u8>
    recommends
        es.len() <= u64::MAX,
{
    u64_le_spec(es.len() as u64) + encode_entries_spec(es)
}

/// Framing distributes over appending one entry at the back.
pub proof fn lemma_encode_entries_push(es: Seq<Seq<u8>>, e: Seq<u8>)
    ensures
        encode_entries_spec(es.push(e)) == encode_entries_spec(es) + frame_spec(e),
    decreases es.len(),
{
    if es.len() == 0 {
        assert(es.push(e).drop_first() =~= es);
        assert(encode_entries_spec(es.push(e)) =~= encode_entries_spec(es) + frame_spec(e));
    } else {
        assert(es.push(e).drop_first() =~= es.drop_first().push(e));
        lemma_encode_entries_push(es.drop_first(), e);
        assert(encode_entries_spec(es.push(e)) =~= encode_entries_spec(es) + frame_spec(e));
    }
}

/// Decodes exactly `n` framed entries from `b`, requiring `b` to be consumed
/// entirely. Yields the entries in order, or nothing if `b` is not a
/// canonical framing of `n` entries.
pub open spec fn decode_entries_spec(b: Seq<u8>, n: nat) -> Option<Seq<Seq<u8>>>
    decreases n,
{
    if n == 0 {
        if b.len() == 0 {
            Some(Seq::empty())
        } else {
            None
        }
    } else if b.len() < 8 {
        None
    } else {
        let l = le_u64_spec(b.take(8)) as nat;
        if b.len() - 8 < l {
            None
        } else {
            let e = b.subrange(8, 8 + l as int);
            match decode_entries_spec(b.skip(8 + l as int), (n - 1) as nat) {
                Some(rest) => Some(seq![e] + rest),
                None => None,
            }
        }
    }
}

/// Decodes a serialized builder: the entry count, then that many framed
/// entries, consuming the bytes exactly. Yields the builder's entries in
/// write order, or nothing if `b` is not a canonical encoding.
pub open spec fn decode_spec(b: Seq<u8>) -> Option<Seq<Seq<u8>>> {
    if b.len() < 8 {
        None
    } else {
        decode_entries_spec(b.skip(8), le_u64_spec(b.take(8)) as nat)
    }
}

/// Decoding the framed entries recovers them exactly.
proof fn lemma_decode_entries_encode(es: Seq<Seq<u8>>)
    requires
        forall|i: int| 0 <= i < es.len() ==> #[trigger] es[i].len() <= u64::MAX,
    ensures
        decode_entries_spec(encode_entries_spec(es), es.len()) == Some(es),
    decreases es.len(),
{
    if es.len() == 0 {
        assert(decode_entries_spec(encode_entries_spec(es), 0) =~= Some(Seq::<Seq<u8>>::empty()));
        assert(Seq::<Seq<u8>>::empty() =~= es);
    } else {
        let e = es.first();
        let rest = es.drop_first();
        let b = encode_entries_spec(es);
        let el: u64 = e.len() as u64;
        assert(b == u64_le_spec(el) + e + encode_entries_spec(rest));
        assert(b.len() == 8 + e.len() + encode_entries_spec(rest).len());
        assert(b.take(8) =~= u64_le_spec(el));
        lemma_u64_le_roundtrip(el);
        assert(le_u64_spec(b.take(8)) == el);
        assert(b.subrange(8, 8 + e.len() as int) =~= e);
        assert(b.skip(8 + e.len() as int) =~= encode_entries_spec(rest));
        assert(forall|i: int| 0 <= i < rest.len() ==> #[trigger] rest[i].len() <= u64::MAX);
        lemma_decode_entries_encode(rest);
        assert(decode_entries_spec(b, es.len()) == Some(seq![e] + rest));
        assert(seq![e] + rest =~= es);
    }
}

/// Round trip: decoding the serialized form of a builder holding `es`
/// reconstructs `es` exactly.
pub proof fn lemma_round_trip(es: Seq<Seq<u8>>)
    requires
        es.len() <= u64::MAX,
        forall|i: int| 0 <= i < es.len() ==> #[trigger] es[i].len() <= u64::MAX,
    ensures
        decode_spec(encode_spec(es)) == Some(es),
{
    let b = encode_spec(es);
    assert(b.take(8) =~= u64_le_spec(es.len() as u64));
    lemma_u64_le_roundtrip(es.len() as u64);
    assert(b.skip(8) =~= encode_entries_spec(es));
    lemma_decode_entries_encode(es);
}

/// Serialization is deterministic: the bytes depend on the written entries
/// alone, so encoding the same value twice produces identical bytes.
pub proof fn lemma_encode_deterministic(first: Seq<u8>, second: Seq<u8>, es: Seq<Seq<u8>>)
    requires
        first == encode_spec(es),
        second == encode_spec(es),
    ensures
        first == second,
{
}

/// One opaque execution-input artifact: everything the proving machine needs
/// to re-execute one block, carried as an indivisible byte value.
pub struct ExecutionInput {
    /// The artifact's serialized bytes.
    pub bytes: Vec<u8>,
}

impl View for ExecutionInput {
    type V = Seq<u8>;

    open spec fn view(&self) -> Seq<u8> {
        self.bytes@
    }
}

impl ExecutionInput {
    /// Wraps one artifact's bytes.
    pub fn from_bytes(bytes: Vec<u8>) -> (r: ExecutionInput)
        ensures
            r@ == bytes@,
    {
        ExecutionInput { bytes }
    }
}

/// A write-builder: an ordered record of typed writes, serialized as the
/// proving machine's loader expects. The pipeline performs exactly one write
/// per run; the builder itself supports any number, in order.
pub struct StdinBuilder {
    /// The written entries, in write order.
    pub entries: Vec<Vec<u8>>,
}

impl View for StdinBuilder {
    type V = Seq<Seq<u8>>;

    open spec fn view(&self) -> Seq<Seq<u8>> {
        entries_view(self.entries@)
    }
}

impl StdinBuilder {
    /// A fresh builder with no writes.
    pub fn new() -> (r: StdinBuilder)
        ensures
            r@ == Seq::<Seq<u8>>::empty(),
    {
        let r = StdinBuilder { entries: Vec::new() };
        proof {
            assert(r@ =~= Seq::<Seq<u8>>::empty());
        }
        r
    }

    /// Records one write. The artifact is consumed; its bytes become the next
    /// entry in order.
    pub fn write(&mut self, input: ExecutionInput)
        ensures
            final(self)@ == old(self)@.push(input@),
    {
        let ghost entry: Seq<u8> = input@;
        self.entries.push(input.bytes);
        proof {
            assert(self@ =~= old(self)@.push(entry));
        }
    }

    /// Serializes the builder: the entry count, then each entry framed, in
    /// write order. A pure transformation of the builder's contents.
    pub fn serialize(&self) -> (r: Vec<u8>)
        ensures
            r@ == encode_spec(self@),
    {
        let n: usize = self.entries.len();
        let mut out: Vec<u8> = Vec::new();
        write_u64_le(&mut out, n as u64);
        let mut i: usize = 0;
        while i < n
            invariant
                n == self.entries@.len(),
                i <= n,
                out@ == u64_le_spec(n as u64) + encode_entries_spec(self@.take(i as int)),
            decreases n - i,
        {
            let entry: &Vec<u8> = &self.entries[i];
            write_u64_le(&mut out, entry.len() as u64);
            let mut j: usize = 0;
            while j < entry.len()
                invariant
                    j <= entry@.len(),
                    out@ == u64_le_spec(n as u64) + encode_entries_spec(self@.take(i as int))
                        + u64_le_spec(entry@.len() as u64) + entry@.take(j as int),
                decreases entry@.len() - j,
            {
                out.push(entry[j]);
                proof {
                    assert(out@ =~= u64_le_spec(n as u64) + encode_entries_spec(
                        self@.take(i as int)) + u64_le_spec(entry@.len() as u64) + entry@.take(
                        j + 1));
                }
                j += 1;
            }
            proof {
                assert(entry@.take(entry@.len() as int) =~= entry@);
                lemma_encode_entries_push(self@.take(i as int), entry@);
                assert(self@.take(i as int).push(entry@) =~= self@.take(i + 1));
                assert(out@ =~= u64_le_spec(n as u64) + encode_entries_spec(self@.take(i + 1)));
            }
            i += 1;
        }
        proof {
            assert(self@.take(n as int) =~= self@);
        }
        out
    }

    /// Deserializes a builder from its canonical encoding. Succeeds exactly
    /// on the bytes that `serialize` produces for some builder, and then
    /// reconstructs that builder's entries in write order.
    pub fn deserialize(bytes: &Vec<u8>) -> (r: Option<StdinBuilder>)
        ensures
            r matches Some(b) ==> decode_spec(bytes@) == Some(b@),
            r is None ==> decode_spec(bytes@) is None,
    {
        let n_total: usize = bytes.len();
        if n_total < 8 {
            return None;
        }
        let count: u64 = read_u64_le(bytes, 0);
        proof {
            assert(bytes@.subrange(0, 8) =~= bytes@.take(8));
        }
        let mut entries: Vec<Vec<u8>> = Vec::new();
        let mut offset: usize = 8;
        let mut i: u64 = 0;
        proof {
            assert(entries_view(entries@) =~= Seq::<Seq<u8>>::empty());
            assert(bytes@.skip(8) =~= bytes@.skip(offset as int));
        }
        while i < count
            invariant
                n_total == bytes@.len(),
                8 <= offset <= n_total,
                i <= count,
                count == le_u64_spec(bytes@.take(8)),
                decode_entries_spec(bytes@.skip(8), count as nat) == (match decode_entries_spec(
                    bytes@.skip(offset as int),
                    (count - i) as nat,
                ) {
                    Some(rest) => Some(entries_view(entries@) + rest),
                    None => None::<Seq<Seq<u8>>>,
                }),
            decreases count - i,
        {
            let ghost remaining = bytes@.skip(offset as int);
            let ghost n_rem = (count - i) as nat;
            if n_total - offset < 8 {
                proof {
                    assert(remaining.len() < 8);
                    assert(decode_entries_spec(remaining, n_rem) is None);
                }
                return None;
            }
            let l: u64 = read_u64_le(bytes, offset);
            proof {
                assert(bytes@.subrange(offset as int, offset + 8) =~= remaining.take(8));
                assert(le_u64_spec(remaining.take(8)) == l);
            }
            let rem: usize = n_total - offset - 8;
            if (rem as u64) < l {
                proof {
                    assert(remaining.len() - 8 < l as nat);
                    assert(decode_entries_spec(remaining, n_rem) is None);
                }
                return None;
            }
            let l_us: usize = l as usize;
            let mut e: Vec<u8> = Vec::new();
            let mut j: usize = 0;
            proof {
                assert(e@ =~= bytes@.subrange(offset + 8, offset + 8 + j as int));
            }
            while j < l_us
                invariant
                    n_total == bytes@.len(),
                    8 <= offset,
                    offset + 8 + l_us <= n_total,
                    j <= l_us,
                    e@ == bytes@.subrange(offset + 8, offset + 8 + j as int),
                decreases l_us - j,
            {
                e.push(bytes[offset + 8 + j]);
                proof {
                    assert(e@ =~= bytes@.subrange(offset + 8, offset + 8 + (j + 1)));
                }
                j += 1;
            }
            let new_offset: usize = offset + 8 + l_us;
            proof {
                let entry = remaining.subrange(8, 8 + l as int);
                assert(entry =~= bytes@.subrange(offset + 8, new_offset as int));
                assert(e@ == entry);
                assert(remaining.skip(8 + l as int) =~= bytes@.skip(new_offset as int));
                assert(decode_entries_spec(remaining, n_rem) == (match decode_entries_spec(
                    bytes@.skip(new_offset as int),
                    (n_rem - 1) as nat,
                ) {
                    Some(rest) => Some(seq![entry] + rest),
                    None => None::<Seq<Seq<u8>>>,
                }));
            }
            let ghost old_entries = entries@;
            entries.push(e);
            proof {
                assert(entries_view(entries@) =~= entries_view(old_entries).push(e@));
                assert forall|rest: Seq<Seq<u8>>|
                    entries_view(old_entries) + (seq![e@] + rest) =~= entries_view(entries@)
                        + rest by {};
            }
            offset = new_offset;
            i += 1;
        }
        if offset != n_total {
            proof {
                assert(bytes@.skip(offset as int).len() > 0);
                assert(decode_entries_spec(bytes@.skip(offset as int), 0) is None);
            }
            return None;
        }
        proof {
            assert(bytes@.skip(offset as int).len() == 0);
            assert(decode_entries_spec(bytes@.skip(offset as int), 0) == Some(
                Seq::<Seq<u8>>::empty()));
            assert(entries_view(entries@) + Seq::<Seq<u8>>::empty() =~= entries_view(entries@));
        }
        Some(StdinBuilder { entries })
    }
}

/// Encodes one execution input canonically: a fresh builder, exactly one
/// typed write, then the builder's serialized form. A pure transformation
/// with no side effect.
pub fn encode(input: ExecutionInput) -> (r: Vec<u8>)
    ensures
        r@ == encode_spec(seq![input@]),
{
    let mut builder = StdinBuilder::new();
    builder.write(input);
    proof {
        assert(builder@ =~= seq![input@]);
    }
    builder.serialize()
}

/// Decodes one canonically encoded execution input: the bytes must
/// deserialize to a builder holding exactly one written value, which is
/// returned.
pub fn decode(bytes: &Vec<u8>) -> (r: Option<ExecutionInput>)
    ensures
        decode_spec(bytes@) is None ==> r is None,
        decode_spec(bytes@) matches Some(es) ==> {
            &&& r is Some <==> es.len() == 1
            &&& r matches Some(x) ==> x@ == es[0]
        },
{
    let builder = StdinBuilder::deserialize(bytes);
    match builder {
        Some(mut b) => {
            if b.entries.len() == 1 {
                let ghost bv = b@;
                let entry: Vec<u8> = b.entries.pop().unwrap();
                proof {
                    assert(entry@ == bv[0]);
                }
                Some(ExecutionInput { bytes: entry })
            } else {
                None
            }
        },
        None => None,
    }
}

/// Round trip at the pipeline's granularity: decoding the encoding of one
/// execution input reconstructs a builder whose single written value is the
/// original input.
pub proof fn lemma_input_round_trip(x: Seq<u8>)
    requires
        x.len() <= u64::MAX,
    ensures
        decode_spec(encode_spec(seq![x])) == Some(seq![x]),
{
    lemma_round_trip(seq![x]);
}

} // verus!

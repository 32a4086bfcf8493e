//! The instruction encoder: fills a payload buffer from a layout and the
//! values of its fields.
use vstd::prelude::*;
use crate::Address;
use crate::layout::{FieldKind, Layout, Prefix, Variant, field_width, fields_width, lemma_fields_width_take};

verus! {

/// The value of one payload field.
#[derive(Clone, Copy, Debug, PartialEq, Eq)]
pub enum FieldValue {
    /// An address field; `None` is written as 32 zero bytes.
    Address(Option<Address>),
    /// An integer field, written little-endian.
    U64(u64),
}

/// Thirty-two zero bytes: what an absent address is written as.
pub open spec fn zero_address() -> Seq<u8> {
    Seq::new(32, |i: int| 0u8)
}

/// The bytes of an optional address field.
pub open spec fn address_bytes(a: Option<Address>) -> Seq<u8> {
    match a {
        Some(a) => a@,
        None => zero_address(),
    }
}

/// The kind of field that `v` fills.
pub open spec fn value_kind(v: FieldValue) -> FieldKind {
    match v {
        FieldValue::Address(_) => FieldKind::Address,
        FieldValue::U64(_) => FieldKind::U64,
    }
}

/// The bytes that stand for `v` on the wire.
pub open spec fn value_bytes(v: FieldValue) -> Seq<u8> {
    match v {
        FieldValue::Address(a) => address_bytes(a),
        FieldValue::U64(n) => vstd::bytes::spec_u64_to_le_bytes(n),
    }
}

/// The values `vs` written back to back.
pub open spec fn values_bytes(vs: Seq<FieldValue>) -> Seq<u8>
    decreases vs.len(),
{
    if vs.len() == 0 {
        Seq::empty()
    } else {
        values_bytes(vs.drop_last()) + value_bytes(vs.last())
    }
}

/// Each value fills a field of the kind that the layout declares there.
pub open spec fn values_fit(vs: Seq<FieldValue>, ks: Seq<FieldKind>) -> bool {
    &&& vs.len() == ks.len()
    &&& forall|i: int| 0 <= i < vs.len() ==> value_kind(#[trigger] vs[i]) == ks[i]
}

/// The payload of a layout with prefix `p` whose fields hold `vs`.
pub open spec fn encoding(p: Prefix, vs: Seq<FieldValue>) -> Seq<u8> {
    p.bytes() + values_bytes(vs)
}

pub proof fn lemma_value_len(v: FieldValue)
    ensures
        value_bytes(v).len() == field_width(value_kind(v)),
{
    vstd::bytes::lemma_auto_spec_u64_to_from_le_bytes();
}

pub proof fn lemma_values_len(vs: Seq<FieldValue>, ks: Seq<FieldKind>)
    requires
        values_fit(vs, ks),
    ensures
        values_bytes(vs).len() == fields_width(ks),
    decreases vs.len(),
{
    if vs.len() > 0 {
        lemma_values_len(vs.drop_last(), ks.drop_last());
        lemma_value_len(vs.last());
    }
}

/// Copies `src` into `buffer` at `offset`, leaving the other bytes as they
/// were.
fn write_bytes(buffer: &mut [u8], offset: usize, src: &[u8])
    requires
        offset + src@.len() <= old(buffer)@.len(),
    ensures
        final(buffer)@.len() == old(buffer)@.len(),
        final(buffer)@.subrange(0, offset as int) == old(buffer)@.subrange(0, offset as int),
        final(buffer)@.subrange(offset as int, offset + src@.len()) == src@,
{
    let size = buffer.len();
    let mut j: usize = 0;
    while j < src.len()
        invariant
            offset + src@.len() <= buffer@.len(),
            size == buffer@.len(),
            buffer@.len() == old(buffer)@.len(),
            j <= src@.len(),
            forall|k: int| 0 <= k < offset ==> buffer@[k] == old(buffer)@[k],
            forall|k: int| 0 <= k < j ==> buffer@[offset + k] == src@[k],
        decreases src@.len() - j,
    {
        buffer[offset + j] = src[j];
        j = j + 1;
    }
    assert(buffer@.subrange(0, offset as int) =~= old(buffer)@.subrange(0, offset as int));
    assert(buffer@.subrange(offset as int, offset + src@.len()) =~= src@);
}

/// Writes the prefix `p` at the start of `buffer` and returns its length.
fn write_prefix(buffer: &mut [u8], p: Prefix) -> (n: usize)
    requires
        p.spec_len() <= old(buffer)@.len(),
    ensures
        n == p.spec_len(),
        final(buffer)@.len() == old(buffer)@.len(),
        final(buffer)@.subrange(0, n as int) == p.bytes(),
{
    proof {
        p.lemma_len();
    }
    match p {
        Prefix::Extension(e) => {
            buffer[0] = e;
            assert(buffer@.subrange(0, 1) =~= p.bytes());
            1
        },
        Prefix::ExtensionInstruction(e, i) => {
            buffer[0] = e;
            buffer[1] = i;
            assert(buffer@.subrange(0, 2) =~= p.bytes());
            2
        },
        Prefix::Interface(d) => {
            let bytes = vstd::bytes::u64_to_le_bytes(d);
            write_bytes(buffer, 0, bytes.as_slice());
            8
        },
    }
}

/// Writes the value `v` into `buffer` at `offset`.
fn write_value(buffer: &mut [u8], offset: usize, v: FieldValue)
    requires
        offset + field_width(value_kind(v)) <= old(buffer)@.len(),
    ensures
        final(buffer)@.len() == old(buffer)@.len(),
        final(buffer)@.subrange(0, offset as int) == old(buffer)@.subrange(0, offset as int),
        final(buffer)@.subrange(offset as int, offset + field_width(value_kind(v))) == value_bytes(
            v,
        ),
{
    proof {
        lemma_value_len(v);
    }
    match v {
        FieldValue::Address(Some(a)) => {
            write_bytes(buffer, offset, a.as_slice());
        },
        FieldValue::Address(None) => {
            let zero: Address = [0u8; 32];
            assert(zero@ =~= zero_address());
            write_bytes(buffer, offset, zero.as_slice());
        },
        FieldValue::U64(n) => {
            let bytes = vstd::bytes::u64_to_le_bytes(n);
            write_bytes(buffer, offset, bytes.as_slice());
        },
    }
}

/// Encodes `values` under `layout` into `buffer`, and returns the part of
/// `buffer` that the payload uses: the prefix at offset zero, then each field
/// at its offset, an absent address as zero bytes.
pub fn encode<'a>(layout: &Layout, values: &[FieldValue], buffer: &'a mut [u8]) -> (r: &'a [u8])
    requires
        values_fit(values@, layout.fields@),
        layout.spec_len() <= old(buffer)@.len(),
    ensures
        r@ == encoding(layout.prefix, values@),
        r@.len() == layout.spec_len(),
{
    let ghost ks = layout.fields@;
    let size = buffer.len();
    let mut offset = write_prefix(buffer, layout.prefix);
    let mut i: usize = 0;
    while i < values.len()
        invariant
            values_fit(values@, ks),
            ks == layout.fields@,
            layout.spec_len() <= buffer@.len(),
            size == buffer@.len(),
            i <= values@.len(),
            offset <= layout.spec_len(),
            offset == layout.prefix.spec_len() + fields_width(ks.take(i as int)),
            buffer@.subrange(0, offset as int) == layout.prefix.bytes() + values_bytes(
                values@.take(i as int),
            ),
        decreases values@.len() - i,
    {
        let ghost before = buffer@;
        proof {
            lemma_fields_width_take(ks, i as int);
            lemma_fields_width_take(ks, i + 1);
            assert(values@.take(i + 1).drop_last() =~= values@.take(i as int));
        }
        let v = values[i];
        write_value(buffer, offset, v);
        proof {
            let w = field_width(value_kind(v));
            assert(buffer@.subrange(0, offset as int) == before.subrange(0, offset as int));
            assert(buffer@.subrange(0, offset + w) =~= buffer@.subrange(0, offset as int)
                + buffer@.subrange(offset as int, offset + w));
        }
        offset = offset + field_width_exec(v);
        i = i + 1;
    }
    proof {
        assert(values@.take(i as int) =~= values@);
        assert(ks.take(i as int) =~= ks);
    }
    let filled: &'a [u8] = buffer;
    vstd::slice::slice_subrange(filled, 0, offset)
}

/// The width in bytes of the field that `v` fills.
fn field_width_exec(v: FieldValue) -> (r: usize)
    ensures
        r == field_width(value_kind(v)),
{
    match v {
        FieldValue::Address(_) => 32,
        FieldValue::U64(_) => 8,
    }
}

} // verus!

verus! {

pub proof fn lemma_values_bytes_one(a: FieldValue)
    ensures
        values_bytes(seq![a]) == value_bytes(a),
{
    assert(seq![a].drop_last() =~= Seq::<FieldValue>::empty());
    assert(seq![a].last() == a);
    assert(values_bytes(Seq::<FieldValue>::empty()) == Seq::<u8>::empty());
    assert(Seq::<u8>::empty() + value_bytes(a) =~= value_bytes(a));
}

pub proof fn lemma_values_bytes_two(a: FieldValue, b: FieldValue)
    ensures
        values_bytes(seq![a, b]) == value_bytes(a) + value_bytes(b),
{
    assert(seq![a, b].drop_last() =~= seq![a]);
    assert(seq![a, b].last() == b);
    lemma_values_bytes_one(a);
}

} // verus!

verus! {

/// The field values of a payload whose addresses are all absent and whose
/// integers are all zero.
pub open spec fn absent_values(ks: Seq<FieldKind>) -> Seq<FieldValue> {
    ks.map_values(
        |k: FieldKind|
            match k {
                FieldKind::Address => FieldValue::Address(None),
                FieldKind::U64 => FieldValue::U64(0),
            },
    )
}

/// `n` zero bytes.
pub open spec fn zeros(n: nat) -> Seq<u8> {
    Seq::new(n, |i: int| 0u8)
}

proof fn lemma_absent_bytes(ks: Seq<FieldKind>)
    ensures
        values_bytes(absent_values(ks)) == zeros(fields_width(ks)),
    decreases ks.len(),
{
    if ks.len() > 0 {
        lemma_absent_bytes(ks.drop_last());
        assert(absent_values(ks).drop_last() =~= absent_values(ks.drop_last()));
        let last = absent_values(ks).last();
        if ks.last() == FieldKind::U64 {
            let z: u64 = 0;
            assert(last == FieldValue::U64(z));
            vstd::bytes::spec_u64_to_le_bytes_to_open(z);
            assert({
                &&& (z & 0xff) as u8 == 0
                &&& ((z >> 8) & 0xff) as u8 == 0
                &&& ((z >> 16) & 0xff) as u8 == 0
                &&& ((z >> 24) & 0xff) as u8 == 0
                &&& ((z >> 32) & 0xff) as u8 == 0
                &&& ((z >> 40) & 0xff) as u8 == 0
                &&& ((z >> 48) & 0xff) as u8 == 0
                &&& ((z >> 56) & 0xff) as u8 == 0
            }) by (bit_vector)
                requires
                    z == 0,
            ;
            assert(value_bytes(last) =~= zeros(8));
        } else {
            assert(value_bytes(last) =~= zeros(32));
        }
        assert(values_bytes(absent_values(ks)) =~= zeros(fields_width(ks)));
    } else {
        assert(values_bytes(absent_values(ks)) =~= zeros(fields_width(ks)));
    }
}

/// With every optional field absent (and every integer field zero), the
/// payload of any variant is its prefix followed by zero bytes up to the
/// variant's length.
pub proof fn lemma_encode_absent(v: Variant)
    ensures
        encoding(v.spec_prefix(), absent_values(v.spec_fields())) == v.spec_prefix().bytes()
            + zeros((v.spec_len() - v.spec_prefix().spec_len()) as nat),
        encoding(v.spec_prefix(), absent_values(v.spec_fields())).len() == v.spec_len(),
{
    v.lemma_len();
    v.spec_prefix().lemma_len();
    lemma_absent_bytes(v.spec_fields());
}

/// The payload depends on the layout and the field values alone: two
/// encodings of the same values under the same layout are byte for byte
/// the same, whatever the buffers held before.
pub proof fn lemma_encode_deterministic(layout: Layout, vs: Seq<FieldValue>, r1: Seq<u8>, r2: Seq<u8>)
    requires
        r1 == encoding(layout.prefix, vs),
        r2 == encoding(layout.prefix, vs),
    ensures
        r1 == r2,
{
}

} // verus!

//! Alignment-aware uniform packing.
//!
//! Per-texture uniform records share one GPU buffer; the device dictates a
//! minimum byte spacing (the stride) between records bound at offsets into
//! that buffer. The packer lays record `i` down at byte offset `i × stride`
//! and zero-fills the tail of each slot, so a bind group may safely expose
//! the whole slot.

use vstd::prelude::*;

verus! {

/// A record followed by zero padding up to `stride` bytes.
pub open spec fn padded_record(record: Seq<u8>, stride: int) -> Seq<u8> {
    record + Seq::new((stride - record.len()) as nat, |k: int| 0u8)
}

/// All records packed in order, each in its own `stride`-sized slot.
pub open spec fn packed(records: Seq<Seq<u8>>, stride: int) -> Seq<u8>
    decreases records.len(),
{
    if records.len() == 0 {
        Seq::empty()
    } else {
        packed(records.drop_last(), stride) + padded_record(records.last(), stride)
    }
}

/// The byte contents of a list of records.
pub open spec fn record_views(records: Seq<Vec<u8>>) -> Seq<Seq<u8>> {
    records.map_values(|record: Vec<u8>| record@)
}

/// Law: packing `n` records at `stride` yields exactly `n × stride` bytes.
pub proof fn lemma_packed_len(records: Seq<Seq<u8>>, stride: int)
    requires
        stride >= 0,
        forall|i: int| 0 <= i < records.len() ==> (#[trigger] records[i]).len() <= stride,
    ensures
        packed(records, stride).len() == records.len() * stride,
    decreases records.len(),
{
    if records.len() > 0 {
        lemma_packed_len(records.drop_last(), stride);
        assert((records.len() - 1) * stride + stride == records.len() * stride)
            by (nonlinear_arith);
    }
}

/// Law: byte `j` of slot `i` is byte `j` of record `i` while the record
/// lasts, and zero from the record's end up to the stride.
pub proof fn lemma_packed_layout(records: Seq<Seq<u8>>, stride: int, i: int, j: int)
    requires
        stride >= 0,
        forall|t: int| 0 <= t < records.len() ==> (#[trigger] records[t]).len() <= stride,
        0 <= i < records.len(),
        0 <= j < stride,
    ensures
        packed(records, stride)[i * stride + j] == if j < records[i].len() {
            records[i][j]
        } else {
            0u8
        },
    decreases records.len(),
{
    lemma_packed_len(records.drop_last(), stride);
    if i < records.len() - 1 {
        lemma_packed_layout(records.drop_last(), stride, i, j);
        assert(0 <= i * stride + j < (records.len() - 1) * stride) by (nonlinear_arith)
            requires
                0 <= i <= records.len() - 2,
                0 <= j < stride,
        ;
    } else {
        assert(i * stride == (records.len() - 1) * stride);
    }
}

/// Packs the records into one byte buffer: record `i` at offset
/// `i × stride`, the rest of each slot zero-filled.
pub fn pack_records(records: &Vec<Vec<u8>>, stride: usize) -> (out: Vec<u8>)
    requires
        forall|i: int| 0 <= i < records@.len() ==> (#[trigger] records@[i])@.len() <= stride,
        records@.len() * stride <= usize::MAX,
    ensures
        out@ == packed(record_views(records@), stride as int),
        out@.len() == records@.len() * stride,
{
    let n = records.len();
    let mut out: Vec<u8> = Vec::new();
    let mut i: usize = 0;
    while i < n
        invariant
            n == records@.len(),
            i <= n,
            forall|t: int| 0 <= t < records@.len() ==> (#[trigger] records@[t])@.len() <= stride,
            n * stride <= usize::MAX,
            out@ == packed(record_views(records@.take(i as int)), stride as int),
            out@.len() == i * stride,
        decreases n - i,
    {
        let record = &records[i];
        let record_len = record.len();
        let mut j: usize = 0;
        while j < record_len
            invariant
                n == records@.len(),
                i < n,
                record_len == record@.len(),
                record@ == records@[i as int]@,
                j <= record_len,
                out@ == packed(record_views(records@.take(i as int)), stride as int)
                    + record@.take(j as int),
                out@.len() == i * stride + j,
            decreases record_len - j,
        {
            out.push(record[j]);
            proof {
                assert(record@.take((j + 1) as int) =~= record@.take(j as int).push(
                    record@[j as int],
                ));
            }
            j = j + 1;
        }
        proof {
            assert(record@.take(record_len as int) =~= record@);
        }
        while j < stride
            invariant
                n == records@.len(),
                i < n,
                record_len == record@.len(),
                record@ == records@[i as int]@,
                record_len <= j <= stride,
                out@ == packed(record_views(records@.take(i as int)), stride as int) + record@
                    + Seq::new((j - record_len) as nat, |k: int| 0u8),
                out@.len() == i * stride + j,
            decreases stride - j,
        {
            out.push(0u8);
            proof {
                assert(record@ + Seq::new((j + 1 - record_len) as nat, |k: int| 0u8) =~= (record@
                    + Seq::new((j - record_len) as nat, |k: int| 0u8)).push(0u8));
            }
            j = j + 1;
        }
        proof {
            let views = record_views(records@.take((i + 1) as int));
            assert(views.drop_last() =~= record_views(records@.take(i as int)));
            assert(views.last() == records@[i as int]@);
            assert(out@ =~= packed(views, stride as int));
            assert((i + 1) * stride == i * stride + stride) by (nonlinear_arith);
        }
        i = i + 1;
    }
    proof {
        assert(records@.take(n as int) =~= records@);
        lemma_packed_len(record_views(records@), stride as int);
    }
    out
}

} // verus!

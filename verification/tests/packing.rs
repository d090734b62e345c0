use spright::pack::pack_records;
use spright::pool::ensure_buffer_size;

#[test]
fn records_land_at_stride_offsets_with_zero_tails() {
    let records: Vec<Vec<u8>> = vec![vec![1u8; 16], vec![2u8; 16], vec![3u8; 16]];
    let stride: usize = 256;
    let out = pack_records(&records, stride);
    assert_eq!(out.len(), 3 * stride);
    for (i, record) in records.iter().enumerate() {
        let slot = &out[i * stride..(i + 1) * stride];
        // The record's bytes open the slot...
        assert_eq!(&slot[..record.len()], &record[..]);
        // ...and every byte from the record's end to the stride is zero.
        assert!(slot[record.len()..].iter().all(|&b| b == 0));
    }
}

#[test]
fn packing_no_records_yields_no_bytes() {
    let out = pack_records(&vec![], 64);
    assert_eq!(out.len(), 0);
}

#[test]
fn records_shorter_than_each_other_keep_their_own_slots() {
    let records: Vec<Vec<u8>> = vec![vec![9u8; 4], vec![7u8; 32]];
    let out = pack_records(&records, 32);
    assert_eq!(out.len(), 64);
    assert_eq!(&out[0..4], &[9, 9, 9, 9]);
    assert!(out[4..32].iter().all(|&b| b == 0));
    assert!(out[32..64].iter().all(|&b| b == 7));
}

#[test]
fn buffer_size_is_kept_when_large_enough() {
    assert_eq!(ensure_buffer_size(1024, 512), 1024);
    assert_eq!(ensure_buffer_size(1024, 1024), 1024);
}

#[test]
fn buffer_size_grows_to_exactly_the_requirement() {
    assert_eq!(ensure_buffer_size(1024, 4096), 4096);
    assert_eq!(ensure_buffer_size(0, 1), 1);
}

use memory_mapped::{
    fill_tail, fill_tail_with, FileAccess, MapError, MapRegion, MapRequest, MemoryMapped,
    OpenOptions, RemapRequest,
};

const PAGE: usize = 4096;
const BASE: usize = 0x7000_0000;
const MOVED: usize = 0x7100_0000;
const FILE_LEN: usize = 1 << 20;

#[test]
fn builder_flags_reach_the_file_open() {
    let mut opts = OpenOptions::<u64>::new();
    opts.read(true).write(true).create(true);
    assert_eq!(
        opts.get_fs_open_options(),
        FileAccess { read: true, write: true, create: true, create_new: false }
    );
    let fresh = MemoryMapped::<u64>::options();
    assert_eq!(
        fresh.get_fs_open_options(),
        FileAccess { read: false, write: false, create: false, create_new: false }
    );
    let mut create_new = OpenOptions::<u64>::new();
    create_new.create_new(true);
    assert!(create_new.get_fs_open_options().create_new);
}

#[test]
fn inferred_length_is_rest_of_file() {
    let mut opts = OpenOptions::<u64>::new();
    opts.read(true).byte_offset(10);
    let mut seen = None;
    let m = opts
        .open_from_file(100, PAGE, |req| {
            seen = Some(req);
            Ok(BASE)
        })
        .unwrap();
    assert_eq!(
        seen,
        Some(MapRequest { length: 100, protection: 1, flags: 2, file_offset: 0 })
    );
    assert_eq!(m.segment_byte_len(), 90);
    assert_eq!(m.segment_ptr(), BASE + 10);
}

#[test]
fn explicit_length_is_kept() {
    let mut opts = OpenOptions::<[u32]>::new();
    opts.read(true).write(true).byte_offset(512).byte_len(64);
    let mut seen = None;
    let m = opts
        .open_slice_from_file(100_000, PAGE, |req| {
            seen = Some(req);
            Ok(BASE)
        })
        .unwrap();
    assert_eq!(
        seen,
        Some(MapRequest { length: 576, protection: 3, flags: 2, file_offset: 0 })
    );
    assert_eq!(m.segment_byte_len(), 64);
    assert_eq!(m.len(), 16);
}

#[test]
fn unaligned_offset_maps_from_page_below() {
    let mut opts = OpenOptions::<u64>::new();
    opts.read(true).byte_offset(5000).byte_len(100);
    let mut seen = None;
    let m = opts
        .open_from_fd(FILE_LEN, PAGE, |req| {
            seen = Some(req);
            Ok(BASE)
        })
        .unwrap();
    let req = seen.unwrap();
    assert_eq!(req.file_offset, 4096);
    assert_eq!(req.length, 1004);
    assert_eq!(req.file_offset % PAGE, 0);
    assert_eq!(m.segment_ptr(), BASE + 904);
    assert_eq!(req.file_offset + (m.segment_ptr() - BASE), 5000);
    assert_eq!(m.segment_byte_len(), 100);
}

#[test]
fn aligned_offset_needs_no_padding() {
    let mut opts = OpenOptions::<u64>::new();
    opts.read(true).byte_offset(8192).byte_len(8);
    let mut seen = None;
    let m = opts
        .open_from_fd(FILE_LEN, PAGE, |req| {
            seen = Some(req);
            Ok(BASE)
        })
        .unwrap();
    assert_eq!(seen.unwrap().file_offset, 8192);
    assert_eq!(seen.unwrap().length, 8);
    assert_eq!(m.segment_ptr(), BASE);
}

#[test]
fn offset_past_end_is_rejected_before_mapping() {
    let mut opts = OpenOptions::<u64>::new();
    opts.read(true).byte_offset(200);
    let mut called = false;
    let r = opts.open_from_file(100, PAGE, |_req| {
        called = true;
        Ok(BASE)
    });
    assert_eq!(r.err(), Some(MapError::OffsetPastEnd));
    assert!(!called);
}

#[test]
fn os_error_is_passed_through() {
    let mut opts = OpenOptions::<u64>::new();
    opts.read(true).byte_len(8);
    let r = opts.open_from_fd(FILE_LEN, PAGE, |_req| Err(13));
    assert_eq!(r.err(), Some(MapError::Os(13)));
}

#[test]
fn shared_variants_ask_for_a_shared_mapping() {
    let mut opts = OpenOptions::<u64>::new();
    opts.read(true).write(true).byte_len(8);
    let mut seen = None;
    opts.open_shared_from_fd(FILE_LEN, PAGE, |req| {
        seen = Some(req);
        Ok(BASE)
    })
    .unwrap();
    assert_eq!(seen.unwrap().protection, 3);
    assert_eq!(seen.unwrap().flags, 1);

    let mut seen_file = None;
    opts.open_shared_from_file(64, PAGE, |req| {
        seen_file = Some(req);
        Ok(BASE)
    })
    .unwrap();
    assert_eq!(seen_file.unwrap().flags, 1);

    let mut slice_opts = OpenOptions::<[u16]>::new();
    slice_opts.read(true);
    let mut seen_slice = None;
    let m = slice_opts
        .open_shared_slice_from_file(64, PAGE, |req| {
            seen_slice = Some(req);
            Ok(BASE)
        })
        .unwrap();
    assert_eq!(seen_slice.unwrap(), MapRequest { length: 64, protection: 1, flags: 1, file_offset: 0 });
    assert_eq!(m.len(), 32);

    let mut fd_slice = OpenOptions::<[u16]>::new();
    fd_slice.len(4);
    let mut seen_fd = None;
    fd_slice
        .open_shared_slice_from_fd(FILE_LEN, PAGE, |req| {
            seen_fd = Some(req);
            Ok(BASE)
        })
        .unwrap();
    assert_eq!(seen_fd.unwrap(), MapRequest { length: 8, protection: 0, flags: 1, file_offset: 0 });
}

#[test]
fn private_read_only_protection() {
    let mut opts = OpenOptions::<u8>::new();
    opts.read(true).byte_len(1);
    let mut seen = None;
    opts.open_from_fd(FILE_LEN, PAGE, |req| {
        seen = Some(req);
        Ok(BASE)
    })
    .unwrap();
    assert_eq!(seen.unwrap().protection, 1);
    assert_eq!(seen.unwrap().flags, 2);
}

#[test]
fn element_units_are_converted_to_bytes() {
    let mut opts = OpenOptions::<[u32]>::new();
    opts.read(true).offset(3).len(16);
    let mut seen = None;
    let m = opts
        .open_slice_from_fd(FILE_LEN, PAGE, |req| {
            seen = Some(req);
            Ok(BASE)
        })
        .unwrap();
    assert_eq!(seen.unwrap(), MapRequest { length: 76, protection: 1, flags: 2, file_offset: 0 });
    assert_eq!(m.len(), 16);
    assert_eq!(m.segment_ptr(), BASE + 12);
}

#[test]
fn uneven_slice_length_is_rejected() {
    let mut opts = OpenOptions::<[u32]>::new();
    opts.read(true).byte_len(6);
    let mut called = false;
    let r = opts.open_slice_from_fd(FILE_LEN, PAGE, |_req| {
        called = true;
        Ok(BASE)
    });
    assert_eq!(r.err(), Some(MapError::UnevenLength));
    assert!(!called);

    let mut inferred = OpenOptions::<[u32]>::new();
    inferred.read(true);
    let r = inferred.open_slice_from_file(10, PAGE, |_req| Ok(BASE));
    assert_eq!(r.err(), Some(MapError::UnevenLength));
}

#[test]
fn zero_sized_elements_are_rejected() {
    let mut opts = OpenOptions::<[()]>::new();
    opts.read(true).byte_len(4);
    let r = opts.open_slice_from_fd(FILE_LEN, PAGE, |_req| Ok(BASE));
    assert_eq!(r.err(), Some(MapError::UnevenLength));
}

fn sixteen_u32s() -> MemoryMapped<[u32]> {
    let mut opts = OpenOptions::<[u32]>::new();
    opts.read(true).write(true).offset(3).len(16);
    opts.open_slice_from_fd(FILE_LEN, PAGE, |_req| Ok(BASE)).unwrap().assume_init()
}

#[test]
fn assume_init_keeps_the_mapping() {
    let m = sixteen_u32s();
    assert_eq!(m.len(), 16);
    assert_eq!(m.segment_ptr(), BASE + 12);
    assert_eq!(m.segment_byte_len(), 64);

    let mut opts = OpenOptions::<u64>::new();
    opts.read(true).byte_len(8);
    let scalar = opts.open_from_fd(FILE_LEN, PAGE, |_req| Ok(BASE)).unwrap().assume_init();
    assert_eq!(scalar.segment_byte_len(), 8);
}

#[test]
fn resize_grows_and_follows_the_move() {
    let mut m = sixteen_u32s();
    let mut seen = None;
    m.resize_assume_init(32, |req| {
        seen = Some(req);
        Ok(MOVED)
    })
    .unwrap();
    assert_eq!(seen.unwrap(), RemapRequest { addr: BASE, old_length: 76, new_length: 140 });
    assert_eq!(m.len(), 32);
    assert_eq!(m.segment_byte_len(), 128);
    assert_eq!(m.segment_ptr(), MOVED + 12);
}

#[test]
fn resize_uninit_counts_elements() {
    let mut opts = OpenOptions::<[u64]>::new();
    opts.read(true).write(true).len(2);
    let mut m = opts.open_slice_from_fd(FILE_LEN, PAGE, |_req| Ok(BASE)).unwrap();
    let mut seen = None;
    m.resize_uninit(5, |req| {
        seen = Some(req);
        Ok(BASE)
    })
    .unwrap();
    assert_eq!(seen.unwrap().new_length, 40);
    assert_eq!(m.len(), 5);
}

#[test]
fn failed_resize_changes_nothing() {
    let mut m = sixteen_u32s();
    let r = m.resize_assume_init(32, |_req| Err(12));
    assert_eq!(r, Err(MapError::Os(12)));
    assert_eq!(m.len(), 16);
    assert_eq!(m.segment_ptr(), BASE + 12);
}

#[test]
fn shrink_by_one_element() {
    let mut m = sixteen_u32s();
    let mut seen = None;
    m.shrink_to(15, |req| {
        seen = Some(req);
        Ok(BASE)
    })
    .unwrap();
    assert_eq!(seen.unwrap().new_length, 72);
    assert_eq!(m.len(), 15);
}

#[test]
fn grow_then_shrink_restores_length() {
    let mut m = sixteen_u32s();
    m.resize_assume_init(32, |_req| Ok(MOVED)).unwrap();
    m.shrink_to(16, |_req| Ok(MOVED)).unwrap();
    assert_eq!(m.len(), 16);
    assert_eq!(m.segment_byte_len(), 64);
}

#[test]
fn close_returns_the_padded_region() {
    let m = sixteen_u32s();
    assert_eq!(m.close(), MapRegion { addr: BASE, length: 76 });
}

#[test]
fn iterator_visits_each_index_once() {
    let mut opts = OpenOptions::<[u32]>::new();
    opts.read(true).len(3);
    let m = opts.open_slice_from_fd(FILE_LEN, PAGE, |_req| Ok(BASE)).unwrap().assume_init();
    let mut it = m.into_iter();
    assert_eq!(it.next_index(), Some(0));
    assert_eq!(it.next_index(), Some(1));
    assert_eq!(it.next_index(), Some(2));
    assert_eq!(it.next_index(), None);
    assert_eq!(it.next_index(), None);
    assert_eq!(it.mmap().len(), 3);
}

#[test]
fn fill_tail_overwrites_from_start() {
    let mut v = vec![1u32, 2, 3, 4, 5];
    fill_tail(&mut v, 2, 9);
    assert_eq!(v, vec![1, 2, 9, 9, 9]);
    let mut w = vec![1u32, 2];
    fill_tail(&mut w, 5, 9);
    assert_eq!(w, vec![1, 2]);
}

#[test]
fn fill_tail_with_draws_in_ascending_order() {
    let mut v = vec![1u32, 2, 3, 4, 5];
    let mut n = 10u32;
    fill_tail_with(&mut v, 2, || {
        n += 1;
        n
    });
    assert_eq!(v, vec![1, 2, 11, 12, 13]);
    assert_eq!(n, 13);
}

#[test]
fn fill_then_truncate_keeps_prefix() {
    let before = vec![4u32, 3, 2, 1];
    let mut v = before.clone();
    v.resize(8, 0);
    fill_tail(&mut v, 4, 7);
    assert_eq!(v, vec![4, 3, 2, 1, 7, 7, 7, 7]);
    v.truncate(4);
    assert_eq!(v, before);
}

#[test]
fn iterator_gives_the_mapping_back() {
    let m = sixteen_u32s();
    let mut it = m.into_iter();
    assert_eq!(it.next_index(), Some(0));
    let back = it.into_mmap();
    assert_eq!(back.len(), 16);
}

#[test]
fn options_report_offset_and_length() {
    let mut opts = OpenOptions::<[u64]>::new();
    opts.offset(2).len(3);
    assert_eq!(opts.byte_offset_value(), 16);
    assert_eq!(opts.byte_len_value(), 24);
}

#[test]
fn descriptor_open_infers_rest_of_file() {
    let mut opts = OpenOptions::<u64>::new();
    opts.read(true).byte_offset(5000);
    let mut seen = None;
    let m = opts
        .open_from_fd(6000, PAGE, |req| {
            seen = Some(req);
            Ok(BASE)
        })
        .unwrap();
    assert_eq!(seen.unwrap(), MapRequest { length: 1904, protection: 1, flags: 2, file_offset: 4096 });
    assert_eq!(m.segment_byte_len(), 1000);

    let mut slice_opts = OpenOptions::<[u32]>::new();
    slice_opts.read(true).offset(2);
    let s = slice_opts.open_shared_slice_from_fd(48, PAGE, |_req| Ok(BASE)).unwrap();
    assert_eq!(s.len(), 10);

    let mut past = OpenOptions::<[u32]>::new();
    past.byte_offset(64);
    let r = past.open_slice_from_fd(48, PAGE, |_req| Ok(BASE));
    assert_eq!(r.err(), Some(MapError::OffsetPastEnd));
}

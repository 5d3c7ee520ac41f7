use accessor::array;
use accessor::error::Error;
use accessor::mapper::RecordingMapper;
use accessor::single;
use accessor::single::BoundedStructural;
use accessor::single::BoundedStructuralMut;
use accessor::structural::RegisterPair;

#[test]
fn test_read_volatile() {
    let a = single::ReadWrite::<u32, RecordingMapper>::new(0x1000, RecordingMapper::new(), 42);

    assert_eq!(a.read_volatile(), 42);
}

#[test]
fn test_write_volatile() {
    let mut a = single::ReadWrite::<u32, RecordingMapper>::new(0x1000, RecordingMapper::new(), 0);

    a.write_volatile(42);
    assert_eq!(a.read_volatile(), 42);
}

#[test]
fn test_update_volatile() {
    let mut a = single::ReadWrite::<u32, RecordingMapper>::new(0x1000, RecordingMapper::new(), 42);

    a.update_volatile(|v: u32| v * 2);
    assert_eq!(a.read_volatile(), 84);
}

#[test]
fn test_err_not_aligned() {
    let r =
        single::ReadWrite::<u32, RecordingMapper>::try_new(0x1001, RecordingMapper::new(), 42);

    match r {
        Err(e) => assert_eq!(
            e,
            Error::NotAligned { alignment: core::mem::align_of::<u32>(), address: 0x1001 }
        ),
        Ok(_) => panic!("a misaligned address must be rejected"),
    }
}

#[test]
fn try_new_aligned_returns_ok() {
    let r = single::ReadWrite::<u32, RecordingMapper>::try_new(0x1000, RecordingMapper::new(), 7);

    match r {
        Ok(a) => assert_eq!(a.read_volatile(), 7),
        Err(_) => panic!("an aligned address must be accepted"),
    }
}

#[test]
fn update_increments_register() {
    let mut a = single::ReadWrite::<u32, RecordingMapper>::new(0x1000, RecordingMapper::new(), 42);

    a.update_volatile(|v: u32| v + 1);
    assert_eq!(a.read_volatile(), 43);
}

#[test]
fn read_alias_matches_read_volatile() {
    let a = single::ReadWrite::<u32, RecordingMapper>::new(0x1000, RecordingMapper::new(), 42);

    assert_eq!(a.read(), 42);
}

#[test]
fn write_and_update_aliases() {
    let mut a = single::ReadWrite::<u32, RecordingMapper>::new(0x1000, RecordingMapper::new(), 0);

    a.write(21);
    a.update(|v: u32| v * 2);
    assert_eq!(a.read(), 42);
}

#[test]
fn addr_is_identity_translation() {
    let a = single::ReadWrite::<u32, RecordingMapper>::new(0x1000, RecordingMapper::new(), 0);

    assert_eq!(a.addr(), 0x1000);
}

#[test]
fn addr_of_physical_zero_is_nonzero() {
    let a = single::ReadWrite::<u8, RecordingMapper>::new(0, RecordingMapper::new(), 0);

    assert_ne!(a.addr(), 0);
}

#[test]
fn is_aligned_checks_remainder() {
    assert!(accessor::is_aligned::<u32>(0x1000));
    assert!(!accessor::is_aligned::<u32>(0x1002));
    assert!(accessor::is_aligned::<u8>(0x1001));
}

#[test]
fn single_release_unmaps_once_with_map_arguments() {
    let a = single::ReadWrite::<u32, RecordingMapper>::new(0x1000, RecordingMapper::new(), 1);

    let m = a.release();
    assert_eq!(*m.map_calls(), vec![(0x1000, 4)]);
    assert_eq!(*m.unmap_calls(), vec![(0x1000, 4)]);
}

#[test]
fn read_only_accessor_reads() {
    let a = single::ReadOnly::<u32, RecordingMapper>::new(0x1000, RecordingMapper::new(), 9);

    assert_eq!(a.read_volatile(), 9);
}

#[test]
fn write_only_accessor_writes_and_releases() {
    let mut a = single::WriteOnly::<u32, RecordingMapper>::new(0x1000, RecordingMapper::new(), 0);

    a.write_volatile(5);
    let m = a.release();
    assert_eq!(*m.unmap_calls(), vec![(0x1000, 4)]);
}

#[test]
fn array_reads_and_writes_by_index() {
    let mut a = array::ReadWrite::<u32, RecordingMapper>::new(
        0x2000,
        RecordingMapper::new(),
        vec![10, 20, 30],
    );

    assert_eq!(a.len(), 3);
    assert_eq!(a.read_volatile_at(0), 10);
    a.write_volatile_at(1, 99);
    assert_eq!(a.read_volatile_at(1), 99);
    a.update_volatile_at(2, |v: u32| v + 1);
    assert_eq!(a.read_volatile_at(2), 31);
}

#[test]
fn array_views_cover_every_index() {
    let mut a = array::ReadWrite::<u32, RecordingMapper>::new(
        0x2000,
        RecordingMapper::new(),
        vec![10, 20, 30],
    );

    for i in 0..3usize {
        let expected = 10 * (i as u32 + 1);
        assert_eq!(a.at(i).read_volatile(), expected);
        assert_eq!(a.at_mut(i).read_volatile(), expected);
    }
    let mut e = a.at_mut(2);
    e.write_volatile(5);
    a.commit_at(2, e);
    assert_eq!(a.read_volatile_at(2), 5);
    assert_eq!(a.read_volatile_at(0), 10);
}

#[test]
fn array_release_unmaps_whole_region_once() {
    let a = array::ReadWrite::<u32, RecordingMapper>::new(
        0x2000,
        RecordingMapper::new(),
        vec![1, 2, 3],
    );

    let m = a.release();
    assert_eq!(*m.map_calls(), vec![(0x2000, 12)]);
    assert_eq!(*m.unmap_calls(), vec![(0x2000, 12)]);
}

#[test]
fn array_try_new_rejects_misaligned_base() {
    let r = array::ReadWrite::<u32, RecordingMapper>::try_new(
        0x2001,
        RecordingMapper::new(),
        vec![1, 2],
    );

    match r {
        Err(e) => assert_eq!(
            e,
            Error::NotAligned { alignment: core::mem::align_of::<u32>(), address: 0x2001 }
        ),
        Ok(_) => panic!("a misaligned base must be rejected"),
    }
}

#[test]
fn empty_array_maps_zero_bytes() {
    let a =
        array::ReadWrite::<u32, RecordingMapper>::new(0x3000, RecordingMapper::new(), vec![]);

    assert_eq!(a.len(), 0);
    let m = a.release();
    assert_eq!(*m.unmap_calls(), vec![(0x3000, 0)]);
}

#[test]
fn structural_reads_fields_independently() {
    let a = single::ReadWrite::<RegisterPair, RecordingMapper>::new(
        0x1000,
        RecordingMapper::new(),
        RegisterPair { x: 3, y: 9 },
    );

    let s = a.structural();
    assert_eq!(s.x.read_volatile(), 3);
    assert_eq!(s.y.read_volatile(), 9);
}

#[test]
fn structural_field_write_keeps_other_field() {
    let mut a = single::ReadWrite::<RegisterPair, RecordingMapper>::new(
        0x1000,
        RecordingMapper::new(),
        RegisterPair { x: 42, y: 0 },
    );

    let mut s = a.structural_mut();
    s.y.write_volatile(5);
    a.structural_commit(s);
    let whole = a.read_volatile();
    assert_eq!(whole.y, 5);
    assert_eq!(whole.x, 42);
}

#[test]
fn structural_write_reaches_element_at_commit() {
    let mut a = single::ReadWrite::<RegisterPair, RecordingMapper>::new(
        0x1000,
        RecordingMapper::new(),
        RegisterPair { x: 1, y: 2 },
    );

    let mut s = a.structural_mut();
    s.y.write_volatile(9);
    assert_eq!(a.read_volatile(), RegisterPair { x: 1, y: 2 });
    a.structural_commit(s);
    assert_eq!(a.read_volatile(), RegisterPair { x: 1, y: 9 });
}

#[test]
fn structural_parent_releases_single_mapping() {
    let a = single::ReadWrite::<RegisterPair, RecordingMapper>::new(
        0x1000,
        RecordingMapper::new(),
        RegisterPair { x: 1, y: 2 },
    );

    let s = a.structural();
    assert_eq!(s.x.read_volatile(), 1);
    let m = a.release();
    let bytes = core::mem::size_of::<RegisterPair>();
    assert_eq!(*m.map_calls(), vec![(0x1000, bytes)]);
    assert_eq!(*m.unmap_calls(), vec![(0x1000, bytes)]);
}

use arrayvec::ArrayVec;
use memmap::MmapMut;
use vhost_user_rpmb::rpmb::{
    capacity_units, flash_len, KeyError, RpmbBackend, RpmbMutableState, MAX_RPMB_SIZE,
    UNIT_128KB,
};

fn backend_for(file_len: u64) -> RpmbBackend {
    let image = MmapMut::map_anon(flash_len(file_len) as usize).unwrap();
    RpmbBackend::new(image, file_len).unwrap()
}

#[test]
fn image_of_one_unit_has_capacity_one() {
    let backend = backend_for(128 * 1024);
    assert_eq!(backend.get_capacity(), 1);
}

#[test]
fn image_above_limit_is_cut_to_128_units() {
    let backend = backend_for(32 * 1024 * 1024);
    assert_eq!(backend.get_capacity(), 128);
    assert_eq!(capacity_units(u64::MAX), Ok(128));
    assert_eq!(capacity_units(16 * 1024 * 1024 + 1), Ok(128));
}

#[test]
fn capacity_counts_whole_units() {
    assert_eq!(capacity_units(0), Ok(0));
    assert_eq!(capacity_units(UNIT_128KB - 1), Ok(0));
    assert_eq!(capacity_units(UNIT_128KB), Ok(1));
    assert_eq!(capacity_units(3 * UNIT_128KB + 17), Ok(3));
    assert_eq!(capacity_units(MAX_RPMB_SIZE), Ok(128));
    assert_eq!(capacity_units(MAX_RPMB_SIZE - 1), Ok(127));
}

#[test]
fn flash_len_is_file_len_up_to_limit() {
    assert_eq!(flash_len(0), 0);
    assert_eq!(flash_len(4096), 4096);
    assert_eq!(flash_len(MAX_RPMB_SIZE), 16 * 1024 * 1024);
    assert_eq!(flash_len(MAX_RPMB_SIZE + 1), 16 * 1024 * 1024);
}

#[test]
fn new_store_has_no_key() {
    let backend = backend_for(256 * 1024);
    assert_eq!(backend.get_capacity(), 2);
    assert_eq!(backend.programmed_key(), None);
}

#[test]
fn key_is_programmed_only_once() {
    let mut backend = backend_for(128 * 1024);
    assert_eq!(backend.program_key(ArrayVec::from([7u8; 32])), Ok(()));
    assert_eq!(backend.programmed_key(), Some(vec![7u8; 32]));
    assert_eq!(
        backend.program_key(ArrayVec::from([9u8; 32])),
        Err(KeyError::AlreadyProgrammed)
    );
    assert_eq!(
        backend.program_key(ArrayVec::from([7u8; 32])),
        Err(KeyError::AlreadyProgrammed)
    );
    assert_eq!(backend.programmed_key(), Some(vec![7u8; 32]));
}

#[test]
fn key_bytes_are_kept_in_order() {
    let mut backend = backend_for(128 * 1024);
    let mut key = [0u8; 32];
    for (i, b) in key.iter_mut().enumerate() {
        *b = i as u8 + 1;
    }
    assert_eq!(backend.program_key_bytes(key), Ok(()));
    assert_eq!(backend.programmed_key(), Some(key.to_vec()));
    assert_eq!(backend.program_key_bytes([0u8; 32]), Err(KeyError::AlreadyProgrammed));
    assert_eq!(backend.programmed_key(), Some(key.to_vec()));
}

#[test]
fn mutable_state_keeps_first_key() {
    let mut state = RpmbMutableState::new();
    assert_eq!(state.programmed_key(), None);
    assert_eq!(state.program_key(ArrayVec::from([1u8; 32])), Ok(()));
    assert_eq!(
        state.program_key(ArrayVec::from([2u8; 32])),
        Err(KeyError::AlreadyProgrammed)
    );
    assert_eq!(state.programmed_key(), Some(vec![1u8; 32]));
}

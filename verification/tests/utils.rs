use kjit::utils::{append, check_in, insert, replace_insn, EditError};

#[test]
fn insert_places_elements_before_the_index() {
    let mut v = vec![1u8, 2, 3];
    assert_eq!(insert(&mut v, &[9, 8], 1), Ok(()));
    assert_eq!(v, vec![1, 9, 8, 2, 3]);
    assert_eq!(insert(&mut v, &[7], 5), Ok(()));
    assert_eq!(v, vec![1, 9, 8, 2, 3, 7]);
    assert_eq!(insert(&mut v, &[7], 9), Err(EditError::OutOfRange));
    assert_eq!(insert(&mut v, &[], 9), Ok(()));
    assert_eq!(v.len(), 6);
}

#[test]
fn append_adds_at_the_end() {
    let mut v = vec![1u32];
    assert_eq!(append(&mut v, &[2, 3]), Ok(()));
    assert_eq!(v, vec![1, 2, 3]);
}

#[test]
fn replace_insn_swaps_or_removes_one_word() {
    let mut code = vec![0u8, 1, 2, 3, 4, 5, 6, 7];
    replace_insn(&mut code, &[10, 11, 12, 13, 14, 15, 16, 17], 4).unwrap();
    assert_eq!(code, vec![0, 1, 2, 3, 10, 11, 12, 13, 14, 15, 16, 17]);
    replace_insn(&mut code, &[], 0).unwrap();
    assert_eq!(code, vec![10, 11, 12, 13, 14, 15, 16, 17]);
}

#[test]
fn check_in_finds_members() {
    let v = vec![3u64, 5, 7];
    assert!(check_in(&v, &5));
    assert!(!check_in(&v, &6));
}

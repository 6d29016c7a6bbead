use punchr::bytes::{copy_bytes, copy_list, remove_bytes, same_bytes};
use punchr::text::{copy_texts, read_texts};

#[test]
fn texts_are_read() {
    let list = vec!["/ipfs/id/1.0.0".as_bytes().to_vec(), "/\u{e9}".as_bytes().to_vec()];
    let read = read_texts(&list).unwrap();
    assert_eq!(read, vec!["/ipfs/id/1.0.0", "/\u{e9}"]);
    assert_eq!(copy_texts(&read), read);
    assert!(read_texts(&vec![]).unwrap().is_empty());
}

#[test]
fn bytes_that_are_no_text_are_refused() {
    assert!(read_texts(&vec![b"/ping".to_vec(), vec![0xff]]).is_err());
    assert!(read_texts(&vec![vec![0xc3]]).is_err());
}

#[test]
fn all_equal_byte_strings_are_removed() {
    let mut list = vec![vec![1], vec![2, 3], vec![1], vec![], vec![1, 1]];
    remove_bytes(&mut list, &vec![1]);
    assert_eq!(list, vec![vec![2, 3], vec![], vec![1, 1]]);
    remove_bytes(&mut list, &vec![9]);
    assert_eq!(list, vec![vec![2, 3], vec![], vec![1, 1]]);
    remove_bytes(&mut list, &vec![]);
    assert_eq!(list, vec![vec![2, 3], vec![1, 1]]);
}

#[test]
fn byte_strings_are_compared_and_copied() {
    assert!(same_bytes(&vec![1, 2], &vec![1, 2]));
    assert!(!same_bytes(&vec![1, 2], &vec![1]));
    assert!(!same_bytes(&vec![1, 2], &vec![1, 3]));
    assert_eq!(copy_bytes(&vec![4, 5]), vec![4, 5]);
    assert_eq!(copy_list(&vec![vec![4], vec![]]), vec![vec![4], vec![]]);
}

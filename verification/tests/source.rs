use music_metadata::source::ByteSource;

#[test]
fn read_exact_moves_the_cursor() {
    let mut source = ByteSource::new(vec![1, 2, 3, 4, 5]);
    assert_eq!(source.len(), 5);
    assert_eq!(source.read_exact(2), Some(vec![1, 2]));
    assert_eq!(source.position(), 2);
    assert_eq!(source.read_exact(0), Some(vec![]));
    assert_eq!(source.read_exact(3), Some(vec![3, 4, 5]));
    assert_eq!(source.position(), 5);
    assert_eq!(source.read_exact(0), Some(vec![]));
}

#[test]
fn read_behind_the_end_fails_and_leaves_the_cursor() {
    let mut source = ByteSource::new(vec![1, 2, 3]);
    assert_eq!(source.read_exact(4), None);
    assert_eq!(source.position(), 0);
    assert_eq!(source.read_exact(usize::MAX), None);
    assert_eq!(source.read_exact(3), Some(vec![1, 2, 3]));
    assert_eq!(source.read_one(), None);
    assert_eq!(source.position(), 3);
}

#[test]
fn read_one_skip_and_seek() {
    let mut source = ByteSource::new(vec![10, 20, 30, 40]);
    assert_eq!(source.read_one(), Some(10));
    assert!(source.skip(2));
    assert_eq!(source.position(), 3);
    assert!(!source.skip(2));
    assert_eq!(source.position(), 3);
    assert!(source.skip(1));
    source.seek_to(1);
    assert_eq!(source.read_one(), Some(20));
    source.seek_to(100);
    assert_eq!(source.position(), 100);
    assert_eq!(source.read_one(), None);
    assert_eq!(source.read_exact(1), None);
    assert!(!source.skip(0));
}

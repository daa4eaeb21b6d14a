use tiledb_predicates::iterator_ext::IteratorExt;

#[test]
fn empty() {
    let empty: Vec<u64> = Vec::new();
    let mut append = IteratorExt::append(empty, 100);

    assert_eq!(1, append.len());
    assert_eq!(Some(100), append.next());

    assert_eq!(0, append.len());
    assert!(append.next().is_none());

    assert_eq!(0, append.len());
    assert!(append.next().is_none());
}

#[test]
fn nonempty() {
    let mut append = IteratorExt::append(vec![0, 1, 2], 4);

    assert_eq!(4, append.len());
    assert_eq!(Some(0), append.next());

    assert_eq!(3, append.len());
    assert_eq!(Some(1), append.next());

    assert_eq!(2, append.len());
    assert_eq!(Some(2), append.next());

    assert_eq!(1, append.len());
    assert_eq!(Some(4), append.next());

    assert_eq!(0, append.len());
    assert!(append.next().is_none());

    assert_eq!(0, append.len());
    assert!(append.next().is_none());
}

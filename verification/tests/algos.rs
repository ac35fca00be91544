use nullvec::Elemwise;
use nullvec::Indexing;
use nullvec::Sorter;

#[test]
fn indexing_test_blocs() {
    let i = vec![1, 2, 3];
    let f = vec![true, false, true];
    assert_eq!(Indexing::blocs(&i, &f).unwrap(), vec![1, 3]);

    let s: Vec<String> = vec!["a".to_string(), "b".to_string(), "c".to_string()];
    assert_eq!(
        Indexing::blocs(&s, &f).unwrap(),
        vec!["a".to_string(), "c".to_string()]
    );
}

#[test]
fn test_blocs_length_mismatch() {
    let i = vec![1, 2, 3, 4];
    let f = vec![true, false, true];
    assert!(Indexing::blocs(&i, &f).is_err());
}

#[test]
fn test_reindex() {
    let res = Indexing::reindex(&vec![1, 2, 3, 4, 5], &vec![4, 2, 3]).unwrap();
    assert_eq!(res, vec![5, 3, 4]);
}

#[test]
fn test_argsort_empty() {
    let (indexer, sorted) = Sorter::argsort(&Vec::<i64>::new());
    assert_eq!(indexer, vec![]);
    assert_eq!(sorted, vec![]);
}

#[test]
fn test_argsort_int() {
    let (indexer, sorted) = Sorter::argsort(&vec![2, 2, 2, 3, 3]);
    assert_eq!(indexer, vec![0, 1, 2, 3, 4]);
    assert_eq!(sorted, vec![2, 2, 2, 3, 3]);

    let (indexer, sorted) = Sorter::argsort(&vec![4, 2, 1, 3, 3]);
    assert_eq!(indexer, vec![2, 1, 3, 4, 0]);
    assert_eq!(sorted, vec![1, 2, 3, 3, 4]);
}

#[test]
fn test_argsort_str() {
    let (indexer, sorted) = Sorter::argsort(&vec!["b", "bb", "a", "bb"]);
    assert_eq!(indexer, vec![2, 0, 1, 3]);
    assert_eq!(sorted, vec!["a", "b", "bb", "bb"]);
}

#[test]
fn test_sort_by_int() {
    let (keys, vals) = Sorter::sort_by(&vec![5, 4, 3, 2, 1], &vec![1, 2, 3, 4, 5]);
    assert_eq!(keys, vec![1, 2, 3, 4, 5]);
    assert_eq!(vals, vec![5, 4, 3, 2, 1]);
}

#[test]
fn test_sort_by_int_dup() {
    let (keys, vals) = Sorter::sort_by(&vec![3, 3, 1, 1, 1], &vec![1, 2, 3, 4, 5]);
    assert_eq!(keys, vec![1, 1, 1, 3, 3]);
    assert_eq!(vals, vec![3, 4, 5, 1, 2]);
}

#[test]
fn test_sort_by_int_float() {
    let (keys, vals) = Sorter::sort_by(&vec![3, 2, 1, 4, 1], &vec![1.1, 2.1, 3.1, 4.1, 5.1]);
    assert_eq!(keys, vec![1, 1, 2, 3, 4]);
    assert_eq!(vals, vec![3.1, 5.1, 2.1, 1.1, 4.1]);
}

#[test]
fn test_sort() {
    let sorted = Sorter::sort(&vec![4i64, 2, 1, 3, 3]);
    assert_eq!(sorted, vec![1, 2, 3, 3, 4]);
}

#[test]
fn test_broadcast_oo() {
    let v1 = vec![1, 2, 3];
    let res = Elemwise::broadcast_oo(v1, 2, |x, y| x + y);
    assert_eq!(res, vec![3, 4, 5]);

    let v1 = vec![1, 2, 3];
    let res = Elemwise::broadcast_oo(v1, 2, |x, y| x - y);
    assert_eq!(res, vec![-1, 0, 1]);
}

#[test]
fn test_broadcast_or() {
    let v1 = vec![1, 2, 3];
    let res = Elemwise::broadcast_or(v1, &2, |x, y| x + y);
    assert_eq!(res, vec![3, 4, 5]);

    let v1 = vec![1, 2, 3];
    let res = Elemwise::broadcast_or(v1, &2, |x, y| x - y);
    assert_eq!(res, vec![-1, 0, 1]);
}

#[test]
fn test_broadcast_ro() {
    let v1 = vec![1, 2, 3];
    let res = Elemwise::broadcast_ro(&v1, 2, |x, y| x + y);
    assert_eq!(res, vec![3, 4, 5]);

    let res = Elemwise::broadcast_ro(&v1, 2, |x, y| x - y);
    assert_eq!(res, vec![-1, 0, 1]);
}

#[test]
fn test_broadcast_rr() {
    let v1 = vec![1, 2, 3];
    let res = Elemwise::broadcast_rr(&v1, &2, |x, y| x + y);
    assert_eq!(res, vec![3, 4, 5]);

    let res = Elemwise::broadcast_rr(&v1, &2, |x, y| x - y);
    assert_eq!(res, vec![-1, 0, 1]);
}

#[test]
fn test_elemwise_oo() {
    let v1 = vec![1, 2, 3];
    let v2 = vec![2, 2, 2];
    let res = Elemwise::elemwise_oo(v1, v2, |x, y| x + y);
    assert_eq!(res, vec![3, 4, 5]);

    let v1 = vec![1, 2, 3];
    let v2 = vec![2, 2, 2];
    let res = Elemwise::elemwise_oo(v1, v2, |x, y| x - y);
    assert_eq!(res, vec![-1, 0, 1]);
}

#[test]
fn test_elemwise_or() {
    let v1 = vec![1, 2, 3];
    let v2 = vec![2, 2, 2];
    let res = Elemwise::elemwise_or(v1, &v2, |x, y| x + y);
    assert_eq!(res, vec![3, 4, 5]);

    let v1 = vec![1, 2, 3];
    let res = Elemwise::elemwise_or(v1, &v2, |x, y| x - y);
    assert_eq!(res, vec![-1, 0, 1]);
}

#[test]
fn test_elemwise_ro() {
    let v1 = vec![1, 2, 3];
    let v2 = vec![2, 2, 2];
    let res = Elemwise::elemwise_ro(&v1, v2, |x, y| x + y);
    assert_eq!(res, vec![3, 4, 5]);

    let v2 = vec![2, 2, 2];
    let res = Elemwise::elemwise_ro(&v1, v2, |x, y| x - y);
    assert_eq!(res, vec![-1, 0, 1]);
}

#[test]
fn test_elemwise_rr() {
    let v1 = vec![1, 2, 3];
    let v2 = vec![2, 2, 2];
    let res = Elemwise::elemwise_rr(&v1, &v2, |x, y| x + y);
    assert_eq!(res, vec![3, 4, 5]);

    let res = Elemwise::elemwise_rr(&v1, &v2, |x, y| x - y);
    assert_eq!(res, vec![-1, 0, 1]);
}

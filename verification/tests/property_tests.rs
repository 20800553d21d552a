use cons_list::list::List;

#[test]
fn append_lengthens_by_one() {
    let l = List::from(vec![7, -3, 0]);
    assert_eq!(l.append(9).len(), 4);
    assert_eq!(List::new().append(9).len(), 1);
}

#[test]
fn push_lengthens_and_leads() {
    assert_eq!(List::from(vec![7, -3, 0]).push(42).len(), 4);
    assert_eq!(
        List::from(vec![7, -3, 0]).push(42).as_mut_vec(),
        vec![42, 7, -3, 0]
    );
}

#[test]
fn concat_length_is_sum() {
    let l1 = List::from(vec![1, 2]);
    let l2 = List::from(vec![3, 4, 5]);
    assert_eq!((l1 + l2).len(), 5);
}

#[test]
fn concat_empty_is_identity() {
    let l = List::from(vec![4, 5, 6]);
    assert_eq!(List::new() + l, List::from(vec![4, 5, 6]));
    let l = List::from(vec![4, 5, 6]);
    assert_eq!(l + List::new(), List::from(vec![4, 5, 6]));
}

#[test]
fn find_appended_value() {
    let l = List::from(vec![1, 2, 3]).append(-8);
    assert!(l.find(-8));
    assert!(List::new().append(-8).find(-8));
}

#[test]
fn linearize_round_trip() {
    assert_eq!(List::from(vec![1, 2, 3]).as_mut_vec(), vec![1, 2, 3]);
    assert_eq!(List::from(Vec::new()).as_mut_vec(), Vec::<i32>::new());
}

#[test]
fn split_then_concat_restores() {
    let l = List::from(vec![1, 2, 3, 4, 5]);
    let (a, b) = l.split(2);
    assert_eq!(a, List::from(vec![1, 2]));
    assert_eq!(b, List::from(vec![3, 4, 5]));
    assert_eq!(a + b, List::from(vec![1, 2, 3, 4, 5]));
}

#[test]
fn split_at_bounds() {
    let (a, b) = List::from(vec![1, 2]).split(0);
    assert_eq!(a, List::new());
    assert_eq!(b, List::from(vec![1, 2]));
    let (a, b) = List::from(vec![1, 2]).split(2);
    assert_eq!(a, List::from(vec![1, 2]));
    assert_eq!(b, List::new());
}

#[test]
fn equality_is_structural() {
    assert_eq!(List::new(), List::new());
    assert_ne!(List::new(), List::from(vec![1]));
    assert_ne!(List::from(vec![1]), List::new());
    assert_ne!(List::from(vec![1, 2]), List::from(vec![1, 3]));
    assert_ne!(List::from(vec![1, 2]), List::from(vec![1, 2, 3]));
    assert_eq!(List::from(vec![1, 2]), List::from(vec![1, 2]));
}

#[test]
fn render_lists() {
    assert_eq!(List::from(vec![1, 2, 3]).render(), "1,2,3,NIL");
    assert_eq!(List::new().render(), "NIL");
}

#[test]
fn render_single_values() {
    assert_eq!(List::from(vec![0]).render(), "0,NIL");
    assert_eq!(List::from(vec![-5]).render(), "-5,NIL");
    assert_eq!(List::from(vec![1000]).render(), "1000,NIL");
}

#[test]
fn render_extreme_values() {
    assert_eq!(
        List::from(vec![i32::MIN, i32::MAX]).render(),
        "-2147483648,2147483647,NIL"
    );
}

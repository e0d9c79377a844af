use mpfr::{SliceSubsetsExt, Subset};

fn collect_items(mut subset: Subset<'_, u8>) -> Vec<u8> {
    let mut items = Vec::new();
    while let Some(x) = subset.next() {
        items.push(*x);
    }
    items
}

#[test]
fn test_empty_slice_subsets() {
    let s: &[u8] = &[];

    let mut it = s.subsets();

    let mut subsets = Vec::new();
    while let Some(subset) = it.next() {
        subsets.push(subset);
    }
    assert_eq!(1, subsets.len());

    let mut first = subsets.into_iter().next().unwrap();
    let mut count = 0;
    while first.next().is_some() {
        count += 1;
    }
    assert_eq!(0, count);
}

#[test]
fn test_subsets() {
    let s: &[u8] = &[1, 2, 3];

    let mut it = s.subsets();
    let mut r: Vec<Vec<u8>> = Vec::new();
    while let Some(subset) = it.next() {
        r.push(collect_items(subset));
    }

    assert_eq!(8, r.len());

    assert_eq!(
        r,
        vec![
            vec![],
            vec![1],
            vec![2],
            vec![1, 2],
            vec![3],
            vec![1, 3],
            vec![2, 3],
            vec![1, 2, 3]
        ]
    );
}

#[test]
fn subsets_wrap_around_after_the_last_one() {
    let s: &[u8] = &[7, 8];
    let mut it = s.subsets();
    let mut n = 0;
    while it.next().is_some() {
        n += 1;
    }
    assert_eq!(4, n);
    // after the end the counter has wrapped: the next round starts at {first}
    let again = it.next().unwrap();
    assert_eq!(vec![7], collect_items(again));
}

#[test]
fn subset_of_one_item_slice() {
    let s: &[u8] = &[42];
    let mut it = s.subsets();
    assert_eq!(Vec::<u8>::new(), collect_items(it.next().unwrap()));
    assert_eq!(vec![42], collect_items(it.next().unwrap()));
    assert!(it.next().is_none());
}

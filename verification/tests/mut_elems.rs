use mut_elems::select::find_first_conflict;
use mut_elems::select::find_first_out_of_bounds;
use mut_elems::AsMutElemsExt;
use mut_elems::AsMutElemsVecExt;
use mut_elems::MutElemsError;
use mut_elems::MutElemsExt;

#[test]
fn test_mut_elems() {
    let test_array = vec![1u8, 2, 3, 4];

    let es = test_array.clone().mut_elems(&vec![0]).unwrap();
    assert_eq!(1, es.len());
    assert_eq!(&1, es.read(0));

    let es = test_array.clone().mut_elems(&vec![3]).unwrap();
    assert_eq!(1, es.len());
    assert_eq!(&4, es.read(0));

    let es = test_array.clone().mut_elems(&vec![1, 2]).unwrap();
    assert_eq!(2, es.len());
    assert_eq!(&2, es.read(0));
    assert_eq!(&3, es.read(1));

    let es = test_array.clone().mut_elems(&vec![0, 2, 3]).unwrap();
    assert_eq!(3, es.len());
    assert_eq!(&1, es.read(0));
    assert_eq!(&3, es.read(1));
    assert_eq!(&4, es.read(2));

    match test_array.clone().mut_elems(&vec![4]) {
        Err(MutElemsError::IndexBound {
            position,
            index,
            length,
        }) => {
            assert_eq!(position, 0);
            assert_eq!(index, 4);
            assert_eq!(length, 4);
        }
        _ => panic!(),
    }

    match test_array.clone().mut_elems(&vec![1, 2, 1]) {
        Err(MutElemsError::IndicesOverlap {
            first,
            second,
            index,
        }) => {
            assert_eq!(first, 0);
            assert_eq!(second, 2);
            assert_eq!(index, 1);
        }
        _ => panic!(),
    }

    let mut es = test_array.mut_elems(&vec![1, 3]).unwrap();
    es.write(0, 5);
    es.write(1, 7);
    assert_eq!(vec![1, 5, 3, 7], es.into_target());
}

#[test]
fn test_as_mut_elems() {
    let test_array = vec![1u8, 2, 3, 4];
    let mut es = test_array.as_mut_elems();
    assert_eq!(4, es.len());
    assert_eq!(&1, es.read(0));
    assert_eq!(&2, es.read(1));
    assert_eq!(&3, es.read(2));
    assert_eq!(&4, es.read(3));
    es.write(1, 5);
    es.write(3, 7);
    assert_eq!(vec![1, 5, 3, 7], es.into_target());
}

#[test]
fn test_as_mut_elems_vec() {
    let test_vec = vec![1u8, 2, 3, 4];
    let mut es = test_vec.as_mut_elems_vec();
    assert_eq!(4, es.len());
    assert_eq!(&1, es.read(0));
    assert_eq!(&2, es.read(1));
    assert_eq!(&3, es.read(2));
    assert_eq!(&4, es.read(3));
    es.write(1, 5);
    es.write(3, 7);
    assert_eq!(vec![1, 5, 3, 7], es.into_target());
}

#[test]
fn empty_indices_always_succeed() {
    let empty: Vec<u8> = Vec::new();
    let es = empty.mut_elems(&Vec::new()).unwrap();
    assert_eq!(0, es.len());
    assert!(es.is_empty());

    let es = vec![9u8, 8, 7].mut_elems(&Vec::new()).unwrap();
    assert_eq!(0, es.len());
    assert_eq!(vec![9u8, 8, 7], es.into_target());
}

#[test]
fn handles_follow_index_order() {
    let es = vec![10u32, 20, 30, 40].mut_elems(&vec![3, 0, 2]).unwrap();
    assert_eq!(3, es.len());
    assert_eq!(4, es.target_len());
    assert_eq!(3, es.position(0));
    assert_eq!(0, es.position(1));
    assert_eq!(2, es.position(2));
    assert_eq!(&40, es.read(0));
    assert_eq!(&10, es.read(1));
    assert_eq!(&30, es.read(2));
}

#[test]
fn duplicate_pair_is_reported_by_position() {
    match vec![1u8, 2, 3, 4].mut_elems(&vec![2, 2]) {
        Err(e) => assert_eq!(
            e,
            MutElemsError::IndicesOverlap {
                first: 0,
                second: 1,
                index: 2,
            }
        ),
        _ => panic!(),
    }
}

#[test]
fn first_out_of_range_is_reported() {
    match vec![1u8, 2, 3, 4].mut_elems(&vec![0, 7, 9]) {
        Err(e) => assert_eq!(
            e,
            MutElemsError::IndexBound {
                position: 1,
                index: 7,
                length: 4,
            }
        ),
        _ => panic!(),
    }
}

#[test]
fn distinctness_is_checked_before_bounds() {
    match vec![1u8, 2, 3, 4].mut_elems(&vec![9, 1, 9]) {
        Err(e) => assert_eq!(
            e,
            MutElemsError::IndicesOverlap {
                first: 0,
                second: 2,
                index: 9,
            }
        ),
        _ => panic!(),
    }
}

#[test]
fn writes_stay_exclusive() {
    let mut es = vec![0u8; 6].mut_elems(&vec![5, 1, 3]).unwrap();
    es.write(0, 50);
    es.write(1, 10);
    es.write(2, 30);
    assert_eq!(&50, es.read(0));
    assert_eq!(&10, es.read(1));
    assert_eq!(&30, es.read(2));
    assert_eq!(vec![0, 10, 0, 30, 0, 50], es.into_target());
}

#[test]
fn select_all_matches_full_selection() {
    let all = vec![1u8, 2, 3, 4].as_mut_elems();
    let picked = vec![1u8, 2, 3, 4].mut_elems(&vec![0, 1, 2, 3]).unwrap();
    assert_eq!(all.len(), picked.len());
    for i in 0..4 {
        assert_eq!(all.position(i), picked.position(i));
        assert_eq!(all.read(i), picked.read(i));
    }

    let none: Vec<u8> = Vec::new();
    let es = none.as_mut_elems();
    assert_eq!(0, es.len());

    let none: Vec<u8> = Vec::new();
    let es = none.as_mut_elems_vec();
    assert_eq!(0, es.len());
}

#[test]
fn largest_index_values() {
    match vec![1u8, 2, 3, 4].mut_elems(&vec![usize::MAX]) {
        Err(e) => assert_eq!(
            e,
            MutElemsError::IndexBound {
                position: 0,
                index: usize::MAX,
                length: 4,
            }
        ),
        _ => panic!(),
    }

    match vec![1u8, 2, 3, 4].mut_elems(&vec![usize::MAX, usize::MAX]) {
        Err(e) => assert_eq!(
            e,
            MutElemsError::IndicesOverlap {
                first: 0,
                second: 1,
                index: usize::MAX,
            }
        ),
        _ => panic!(),
    }
}

#[test]
fn validators_report_first_failures() {
    assert_eq!(Some((0, 2)), find_first_conflict(&vec![1, 2, 1]));
    assert_eq!(Some((1, 3)), find_first_conflict(&vec![0, 2, 1, 2, 0]));
    assert_eq!(None, find_first_conflict(&vec![4, 2, 7, 0]));
    assert_eq!(None, find_first_conflict(&vec![3]));
    assert_eq!(None, find_first_conflict(&Vec::new()));

    assert_eq!(Some(0), find_first_out_of_bounds(&vec![4], 4));
    assert_eq!(Some(1), find_first_out_of_bounds(&vec![0, 4, 5], 4));
    assert_eq!(None, find_first_out_of_bounds(&vec![0, 3], 4));
    assert_eq!(None, find_first_out_of_bounds(&Vec::new(), 0));
}

use choco_solver::utils::{int_array_create_call, int_array_get_calls, int_array_length_call, int_array_set_calls};
use choco_solver::{Call, Handle};

/// Runs the calls that build an integer array from `input` and read it back
/// against an in-memory stand-in for the backend's array.
fn round_trip(input: &[i32]) -> Vec<i32> {
    let array = Handle::new(4096);
    let mut store: Vec<i32> = match int_array_create_call(input.len()) {
        Call::IntArrayCreate { len } => vec![0; len as usize],
        other => panic!("unexpected call {:?}", other),
    };
    for call in int_array_set_calls(array, input) {
        match call {
            Call::IntArraySet { array: a, value, index } => {
                assert_eq!(a, array);
                store[index as usize] = value;
            }
            other => panic!("unexpected call {:?}", other),
        }
    }
    assert_eq!(int_array_length_call(array), Call::IntArrayLength { array });
    let len = store.len() as i32;
    int_array_get_calls(array, len)
        .into_iter()
        .map(|call| match call {
            Call::IntArrayGet { array: a, index } => {
                assert_eq!(a, array);
                store[index as usize]
            }
            other => panic!("unexpected call {:?}", other),
        })
        .collect()
}

#[test]
fn test_make_int_array_single_element() {
    let input = [42];
    assert_eq!(round_trip(&input), vec![42]);
}

#[test]
fn test_make_int_array_multiple_elements() {
    let input = [1, 2, 3, 4, 5];
    assert_eq!(round_trip(&input), vec![1, 2, 3, 4, 5]);
}

#[test]
fn test_make_int_array_negative_values() {
    let input = [-10, -5, 0, 5, 10];
    assert_eq!(round_trip(&input), vec![-10, -5, 0, 5, 10]);
}

#[test]
fn test_make_int_array_all_zeros() {
    let input = [0, 0, 0, 0];
    assert_eq!(round_trip(&input), vec![0, 0, 0, 0]);
}

#[test]
fn test_make_int_array_large_values() {
    let input = [i32::MAX, i32::MIN, 0, 1000000, -1000000];
    assert_eq!(round_trip(&input), vec![i32::MAX, i32::MIN, 0, 1000000, -1000000]);
}

#[test]
fn test_make_int_array_from_vec() {
    let input = vec![10, 20, 30];
    assert_eq!(round_trip(&input), vec![10, 20, 30]);
}

#[test]
fn test_make_int_array_roundtrip() {
    let original = [7, 14, 21, 28, 35, 42];
    let retrieved = round_trip(&original);
    assert_eq!(retrieved, original.to_vec());
    assert_eq!(retrieved.len(), original.len());
}

#[test]
fn test_make_int_array_duplicates() {
    let input = [5, 5, 5, 5, 5];
    assert_eq!(round_trip(&input), vec![5, 5, 5, 5, 5]);
}

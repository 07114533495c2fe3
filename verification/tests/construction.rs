use static_vector::Vec;

#[test]
fn vec_with_type_and_capacity_literal() {
    let vec = Vec::<i32, 10>::new();
    assert_eq!(vec.capacity(), 10);
    assert!(vec.is_empty());
}

#[test]
fn vec_with_type_and_capacity_constant() {
    const CAPACITY: usize = 10;
    let vec = Vec::<i32, CAPACITY>::new();
    assert_eq!(vec.capacity(), 10);
    assert!(vec.is_empty());
}

#[test]
fn vec_with_one_element() {
    let vec = {
        let mut vec = Vec::<_, { [999].len() }>::new();
        vec.extend_from_slice(&[999]).expect("length matches capacity");
        vec
    };
    assert_eq!(vec.capacity(), 1);
    assert_eq!(vec.len(), 1);
    assert_eq!(vec.as_slice(), &[999]);
}

#[test]
fn vec_with_elements() {
    let vec = {
        let mut vec = Vec::<_, { [1, 2, 3].len() }>::new();
        vec.extend_from_slice(&[1, 2, 3]).expect("length matches capacity");
        vec
    };
    assert_eq!(vec.capacity(), 3);
    assert_eq!(vec.len(), 3);
    assert_eq!(vec.as_slice(), &[1, 2, 3]);
}

#[test]
fn vec_with_capacity_literal_and_elements() {
    let vec = {
        let mut vec = Vec::<_, 10>::new();
        vec.extend_from_slice(&[1, 2, 3]).expect("length is less than or equal to capacity");
        vec
    };
    assert_eq!(vec.capacity(), 10);
    assert_eq!(vec.len(), 3);
    assert_eq!(vec.as_slice(), &[1, 2, 3]);
}

#[test]
fn vec_with_capacity_constants_and_elements() {
    const CAPACITY: usize = 10;
    let vec = {
        let mut vec = Vec::<_, CAPACITY>::new();
        vec.extend_from_slice(&[1, 2, 3]).expect("length is less than or equal to capacity");
        vec
    };
    assert_eq!(vec.capacity(), 10);
    assert_eq!(vec.len(), 3);
    assert_eq!(vec.as_slice(), &[1, 2, 3]);
}

#[test]
#[should_panic(expected = "length is less than or equal to capacity: CapacityError")]
fn vec_with_more_elements_than_capacity() {
    let _ = {
        let mut vec = Vec::<_, 2>::new();
        vec.extend_from_slice(&[1, 2, 3]).expect("length is less than or equal to capacity");
        vec
    };
}

#[test]
fn vec_with_capacity_and_length_literals() {
    let vec = {
        let mut vec = Vec::<i32, 10>::new();
        vec.set_len(3).expect("length is less than or equal to capacity");
        vec
    };
    assert_eq!(vec.capacity(), 10);
    assert_eq!(vec.len(), 3);
    assert_eq!(vec.as_slice(), &[0, 0, 0]);
}

#[test]
fn vec_with_capacity_and_length_constants() {
    const CAPACITY: usize = 10;
    const LENGTH: usize = 3;
    let vec = {
        let mut vec = Vec::<i32, CAPACITY>::new();
        vec.set_len(LENGTH).expect("length is less than or equal to capacity");
        vec
    };
    assert_eq!(vec.capacity(), 10);
    assert_eq!(vec.len(), 3);
    assert_eq!(vec.as_slice(), &[0, 0, 0]);
}

#[test]
fn vec_with_capacity_and_length_zero() {
    let vec = {
        let mut vec = Vec::<i32, 10>::new();
        vec.set_len(0).expect("length is less than or equal to capacity");
        vec
    };
    assert_eq!(vec.capacity(), 10);
    assert!(vec.is_empty());
    assert_eq!(vec.as_slice(), &[]);
}

#[test]
fn vec_with_capacity_and_length_equal_to_capacity() {
    let vec = {
        let mut vec = Vec::<i32, 3>::new();
        vec.set_len(3).expect("length is less than or equal to capacity");
        vec
    };
    assert_eq!(vec.capacity(), 3);
    assert_eq!(vec.len(), 3);
    assert_eq!(vec.as_slice(), &[0, 0, 0]);
}

#[test]
#[should_panic(expected = "length is less than or equal to capacity: CapacityError")]
fn vec_with_capacity_and_length_greater_than_capacity() {
    let _ = {
        let mut vec = Vec::<i32, 10>::new();
        vec.set_len(30).expect("length is less than or equal to capacity");
        vec
    };
}

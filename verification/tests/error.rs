use flex_array::CapacityExceededError;
use flex_array::FlexArray;

#[test]
fn error_hands_the_value_back() {
    let error = CapacityExceededError::new(String::from("kept"));
    assert_eq!(error.into_inner(), "kept");
}

#[test]
fn error_of_a_copied_value_hands_it_back() {
    let error = CapacityExceededError::new(42u64);
    assert_eq!(error.const_into_inner(), 42);
}

#[test]
fn simplified_error_carries_nothing() {
    let simple: CapacityExceededError = CapacityExceededError::new(vec![1, 2, 3]).simplify();
    assert_eq!(simple.into_inner(), ());
    let simple: CapacityExceededError<()> = CapacityExceededError::new(7u8).const_simplify();
    assert_eq!(simple.into_inner(), ());
}

#[test]
fn error_message_does_not_depend_on_the_value() {
    assert_eq!(CapacityExceededError::new(1u8).message(), "capacity exceeded");
    assert_eq!(CapacityExceededError::new("x").message(), "capacity exceeded");
    assert_eq!(CapacityExceededError::new(()).simplify().message(), "capacity exceeded");
}

#[test]
fn rejected_push_can_be_simplified() {
    let mut array: FlexArray<u8, 1> = FlexArray::new();
    assert!(array.try_push(1).is_ok());
    let result = array.try_push(2).map_err(CapacityExceededError::simplify);
    assert!(result.is_err());
    assert_eq!(array.as_slice(), &[Some(1)]);
}

#[test]
fn rejected_value_can_be_pushed_elsewhere() {
    let mut first: FlexArray<String, 1> = FlexArray::new();
    let mut second: FlexArray<String, 1> = FlexArray::new();
    first.push(String::from("a"));
    match first.try_push(String::from("b")) {
        Ok(()) => panic!("the first container is full"),
        Err(error) => second.push(error.into_inner()),
    }
    assert_eq!(first[0], "a");
    assert_eq!(second[0], "b");
}

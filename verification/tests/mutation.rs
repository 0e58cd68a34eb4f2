use flex_array::FlexArray;
use std::cell::Cell;
use std::rc::Rc;

/// An element that counts how many of its kind are alive.
struct Counted {
    live: Rc<Cell<usize>>,
    id: u32,
}

impl Counted {
    fn new(live: &Rc<Cell<usize>>, id: u32) -> Self {
        live.set(live.get() + 1);
        Counted { live: Rc::clone(live), id }
    }
}

impl Drop for Counted {
    fn drop(&mut self) {
        self.live.set(self.live.get() - 1);
    }
}

fn ids<const CAP: usize>(array: &FlexArray<Counted, CAP>) -> Vec<u32> {
    let mut ids = Vec::new();
    for i in 0..array.len() {
        ids.push(array[i].id);
    }
    ids
}

#[test]
fn push_appends_in_order() {
    let mut array: FlexArray<u8, 4> = FlexArray::new();
    array.push(3);
    array.push(1);
    array.push(2);
    assert_eq!(array.len(), 3);
    assert_eq!(array.as_slice(), &[Some(3), Some(1), Some(2)]);
    assert_eq!(array.as_ptr(), &[Some(3), Some(1), Some(2), None]);
}

#[test]
fn try_push_succeeds_while_there_is_space() {
    let mut array: FlexArray<u8, 2> = FlexArray::new();
    assert!(array.try_push(1).is_ok());
    assert!(array.try_push(2).is_ok());
    assert_eq!(array.as_slice(), &[Some(1), Some(2)]);
}

#[test]
fn try_push_on_full_hands_the_value_back_and_changes_nothing() {
    let mut array: FlexArray<String, 2> = FlexArray::new();
    array.push(String::from("a"));
    array.push(String::from("b"));

    let error = array.try_push(String::from("c")).unwrap_err();
    assert_eq!(error.into_inner(), "c");
    assert_eq!(array.len(), 2);
    assert_eq!(array[0], "a");
    assert_eq!(array[1], "b");
    assert!(array.is_full());
}

#[test]
fn try_push_on_full_does_not_drop_the_value() {
    let live = Rc::new(Cell::new(0));
    let mut array: FlexArray<Counted, 1> = FlexArray::new();
    array.push(Counted::new(&live, 1));
    let error = array.try_push(Counted::new(&live, 2)).unwrap_err();
    assert_eq!(live.get(), 2);
    let rejected = error.into_inner();
    assert_eq!(rejected.id, 2);
    assert_eq!(live.get(), 2);
    drop(rejected);
    assert_eq!(live.get(), 1);
    assert_eq!(ids(&array), vec![1]);
}

#[test]
fn push_then_pop_gives_the_value_back() {
    let mut array: FlexArray<u32, 4> = FlexArray::from_array([5, 6]);
    let before = array.len();
    array.push(77);
    assert_eq!(array.pop(), Some(77));
    assert_eq!(array.len(), before);
    assert_eq!(array.as_slice(), &[Some(5), Some(6)]);
}

#[test]
fn pop_takes_from_the_end_until_empty() {
    let mut array: FlexArray<u32, 3> = FlexArray::from_array([1, 2, 3]);
    assert_eq!(array.pop(), Some(3));
    assert_eq!(array.pop(), Some(2));
    assert_eq!(array.pop(), Some(1));
    assert_eq!(array.pop(), None);
    assert_eq!(array.pop(), None);
    assert_eq!(array.len(), 0);
    assert_eq!(array.as_ptr(), &[None, None, None]);
}

#[test]
fn pop_moves_the_element_out_without_dropping_it() {
    let live = Rc::new(Cell::new(0));
    let mut array: FlexArray<Counted, 2> = FlexArray::new();
    array.push(Counted::new(&live, 1));
    array.push(Counted::new(&live, 2));
    let popped = array.pop().unwrap();
    assert_eq!(popped.id, 2);
    assert_eq!(live.get(), 2);
    drop(array);
    assert_eq!(live.get(), 1);
    drop(popped);
    assert_eq!(live.get(), 0);
}

#[test]
fn clear_drops_every_live_element_once() {
    let live = Rc::new(Cell::new(0));
    let mut array: FlexArray<Counted, 4> = FlexArray::new();
    for id in 0..3 {
        array.push(Counted::new(&live, id));
    }
    assert_eq!(live.get(), 3);

    array.clear();
    assert_eq!(live.get(), 0);
    assert_eq!(array.len(), 0);
    assert_eq!(array.capacity(), 4);

    array.clear();
    assert_eq!(live.get(), 0);
    drop(array);
    assert_eq!(live.get(), 0);
}

#[test]
fn clear_leaves_a_usable_container() {
    let mut array: FlexArray<u8, 2> = FlexArray::from_array([1, 2]);
    array.clear();
    assert!(array.is_empty());
    assert_eq!(array.as_ptr(), &[None, None]);
    array.push(9);
    assert_eq!(array.as_slice(), &[Some(9)]);
}

#[test]
fn truncate_drops_exactly_the_tail() {
    let live = Rc::new(Cell::new(0));
    let mut array: FlexArray<Counted, 8> = FlexArray::new();
    for id in 0..5 {
        array.push(Counted::new(&live, id));
    }

    array.truncate(2);
    assert_eq!(live.get(), 2);
    assert_eq!(array.len(), 2);
    assert_eq!(ids(&array), vec![0, 1]);

    drop(array);
    assert_eq!(live.get(), 0);
}

#[test]
fn truncate_to_the_length_or_beyond_does_nothing() {
    let live = Rc::new(Cell::new(0));
    let mut array: FlexArray<Counted, 8> = FlexArray::new();
    for id in 0..3 {
        array.push(Counted::new(&live, id));
    }

    array.truncate(3);
    assert_eq!(live.get(), 3);
    assert_eq!(ids(&array), vec![0, 1, 2]);

    array.truncate(8);
    array.truncate(usize::MAX);
    assert_eq!(live.get(), 3);
    assert_eq!(ids(&array), vec![0, 1, 2]);
}

#[test]
fn truncate_to_zero_empties() {
    let mut array: FlexArray<u8, 3> = FlexArray::from_array([1, 2, 3]);
    array.truncate(0);
    assert!(array.is_empty());
    assert_eq!(array.as_ptr(), &[None, None, None]);
}

#[test]
fn truncate_leaves_the_spare_capacity_alone() {
    let mut array: FlexArray<u8, 4> = FlexArray::from_array([1, 2, 3]);
    array.spare_capacity_mut()[0] = Some(40);
    array.truncate(1);
    assert_eq!(array.as_ptr(), &[Some(1), None, None, Some(40)]);
}

#[test]
fn spare_capacity_is_what_lies_behind_the_length() {
    let mut array: FlexArray<u8, 5> = FlexArray::from_array([1, 2]);
    assert_eq!(array.spare_capacity_mut().len(), 3);
    assert_eq!(array.spare_capacity_mut(), &[None, None, None]);
    array.push(3);
    assert_eq!(array.spare_capacity_mut().len(), 2);
}

#[test]
fn spare_writes_become_live_by_set_len() {
    let mut array: FlexArray<u8, 5> = FlexArray::from_array([1, 2]);
    {
        let spare = array.spare_capacity_mut();
        spare[0] = Some(3);
        spare[1] = Some(4);
    }
    assert_eq!(array.len(), 2);
    assert_eq!(array.as_slice(), &[Some(1), Some(2)]);

    array.set_len(4);
    assert_eq!(array.len(), 4);
    assert_eq!(array.as_slice(), &[Some(1), Some(2), Some(3), Some(4)]);
    assert_eq!(array.pop(), Some(4));
}

#[test]
fn set_len_downwards_keeps_what_the_slots_hold() {
    let mut array: FlexArray<u8, 3> = FlexArray::from_array([1, 2, 3]);
    array.set_len(1);
    assert_eq!(array.len(), 1);
    assert_eq!(array.as_ptr(), &[Some(1), Some(2), Some(3)]);
    array.set_len(3);
    assert_eq!(array.as_slice(), &[Some(1), Some(2), Some(3)]);
}

#[test]
fn const_clear_sets_the_length_and_touches_no_slot() {
    let mut array: FlexArray<u8, 3> = FlexArray::from_array([7, 8]);
    array.const_clear();
    assert_eq!(array.len(), 0);
    assert!(array.is_empty());
    assert_eq!(array.as_ptr(), &[Some(7), Some(8), None]);
    array.push(1);
    assert_eq!(array.as_ptr(), &[Some(1), Some(8), None]);
}

#[test]
fn raw_mutable_slots_reach_the_whole_storage() {
    let mut array: FlexArray<u8, 3> = FlexArray::new();
    {
        let slots = array.as_mut_ptr();
        assert_eq!(slots.len(), 3);
        slots[0] = Some(5);
        slots[1] = Some(6);
    }
    array.set_len(2);
    assert_eq!(array.as_slice(), &[Some(5), Some(6)]);
}

#[test]
fn length_stays_within_bounds_over_a_mixed_run() {
    let mut array: FlexArray<u32, 3> = FlexArray::new();
    let mut expected: Vec<u32> = Vec::new();
    for step in 0..200u32 {
        match step % 7 {
            0 | 1 | 2 => {
                if array.try_push(step).is_ok() {
                    expected.push(step);
                }
            }
            3 => {
                if array.has_space() {
                    array.push(step);
                    expected.push(step);
                }
            }
            4 => {
                assert_eq!(array.pop(), expected.pop());
            }
            5 => {
                let keep = (step % 4) as usize;
                array.truncate(keep);
                expected.truncate(keep);
            }
            _ => {
                if step % 5 == 0 {
                    array.clear();
                    expected.clear();
                }
            }
        }
        assert!(array.len() <= array.capacity());
        assert_eq!(array.is_full(), array.len() == array.capacity());
        assert_eq!(array.len(), expected.len());
        for i in 0..expected.len() {
            assert_eq!(array[i], expected[i]);
        }
    }
}

use atomic_slice_pointer::OnceSlicePtrMetadata;
use std::rc::Rc;

#[test]
fn new_slot_with_metadata_is_unset() {
    let mut pointer = OnceSlicePtrMetadata::<u8, String>::new();
    assert_eq!(pointer.get(), None);
    assert_eq!(pointer.get_metadata(), None);
    assert_eq!(pointer.get_mut(), None);
    assert_eq!(pointer.get_mut_metadata(), None);
}

#[test]
fn default_slot_with_metadata_is_unset() {
    let mut pointer: OnceSlicePtrMetadata<u8, u32> = Default::default();
    assert_eq!(pointer.get(), None);
    assert_eq!(pointer.get_metadata(), None);
    assert_eq!(pointer.set((vec![5].into_boxed_slice(), 11)), Ok(()));
    assert_eq!(pointer.get(), Some(&[5][..]));
    assert_eq!(pointer.get_metadata(), Some(&11));
}

#[test]
fn pair_is_stored_by_the_first_set_only() {
    let mut pointer = OnceSlicePtrMetadata::<i32, &str>::new();
    assert_eq!(pointer.set((vec![1, 2, 3].into_boxed_slice(), "first")), Ok(()));
    assert_eq!(
        pointer.set((vec![4, 5, 6].into_boxed_slice(), "second")),
        Err((vec![4, 5, 6].into_boxed_slice(), "second"))
    );
    assert_eq!(pointer.get(), Some(&[1, 2, 3][..]));
    assert_eq!(pointer.get_metadata(), Some(&"first"));
}

#[test]
fn winning_set_shows_its_metadata() {
    let mut pointer = OnceSlicePtrMetadata::<i32, u32>::new();
    assert_eq!(pointer.get_metadata(), None);
    assert_eq!(pointer.set((vec![1, 2, 3].into_boxed_slice(), 7)), Ok(()));
    assert_eq!(pointer.get_metadata(), Some(&7));
    assert_eq!(pointer.get_mut_metadata(), Some(&mut 7));
    assert_eq!(pointer.get(), Some(&[1, 2, 3][..]));
}

#[test]
fn stored_metadata_is_shown_with_its_slice() {
    let mut pointer = OnceSlicePtrMetadata::<u8, u64>::new();
    assert_eq!(pointer.set((vec![1; 100].into_boxed_slice(), 42)), Ok(()));
    assert_eq!(pointer.get().map(|slice| slice.len()), Some(100));
    assert_eq!(pointer.get_metadata(), Some(&42));
    assert_eq!(pointer.get_mut_metadata(), Some(&mut 42));
    assert_eq!(pointer.set((vec![2].into_boxed_slice(), 43)), Err((vec![2].into_boxed_slice(), 43)));
    assert_eq!(pointer.get_metadata(), Some(&42));
}

#[test]
fn get_mut_metadata_writes_through() {
    let mut pointer = OnceSlicePtrMetadata::<u8, String>::new();
    assert_eq!(pointer.set((vec![1, 2].into_boxed_slice(), String::from("two"))), Ok(()));
    pointer.get_mut_metadata().unwrap().push_str(" bytes");
    assert_eq!(pointer.get_metadata().map(|metadata| metadata.as_str()), Some("two bytes"));
    *pointer.get_mut_metadata().unwrap() = String::from("pair");
    assert_eq!(pointer.get_metadata().map(|metadata| metadata.as_str()), Some("pair"));
    assert_eq!(pointer.get(), Some(&[1, 2][..]));
}

#[test]
fn empty_slice_with_metadata_sets_the_slot_but_is_not_shown() {
    let mut pointer = OnceSlicePtrMetadata::<u8, char>::new();
    let empty: Box<[u8]> = Vec::new().into_boxed_slice();
    assert_eq!(pointer.set((empty, 'a')), Ok(()));
    assert_eq!(pointer.get(), None);
    assert_eq!(pointer.get_mut(), None);
    assert_eq!(pointer.set((vec![1].into_boxed_slice(), 'b')), Err((vec![1].into_boxed_slice(), 'b')));
    assert_eq!(pointer.get(), None);
}

#[test]
fn metadata_beside_an_empty_slice_is_shown() {
    let mut pointer = OnceSlicePtrMetadata::<i32, u32>::new();
    let empty: Box<[i32]> = Vec::new().into_boxed_slice();
    assert_eq!(pointer.set((empty, 5)), Ok(()));
    assert_eq!(pointer.get(), None);
    assert_eq!(pointer.get_metadata(), Some(&5));
    assert_eq!(pointer.get_mut_metadata(), Some(&mut 5));
    assert_eq!(pointer.set((vec![1].into_boxed_slice(), 6)), Err((vec![1].into_boxed_slice(), 6)));
    assert_eq!(pointer.get_metadata(), Some(&5));
}

#[test]
fn exactly_one_of_many_pairs_is_stored() {
    let mut pointer = OnceSlicePtrMetadata::<usize, String>::new();
    let mut successes: usize = 0;
    for attempt in 0..16usize {
        let offered = (vec![attempt; 3].into_boxed_slice(), format!("attempt {}", attempt));
        match pointer.set(offered) {
            Ok(()) => {
                successes += 1;
                assert_eq!(attempt, 0);
            }
            Err((slice, metadata)) => {
                assert_eq!(slice, vec![attempt; 3].into_boxed_slice());
                assert_eq!(metadata, format!("attempt {}", attempt));
            }
        }
    }
    assert_eq!(successes, 1);
    assert_eq!(pointer.get(), Some(&[0usize, 0, 0][..]));
    assert_eq!(pointer.get_metadata().map(|metadata| metadata.as_str()), Some("attempt 0"));
}

#[test]
fn get_mut_with_metadata_writes_through() {
    let mut pointer = OnceSlicePtrMetadata::<i32, bool>::new();
    assert_eq!(pointer.set((vec![1, 2, 3].into_boxed_slice(), true)), Ok(()));
    let slice = pointer.get_mut().unwrap();
    slice[0] = 10;
    slice[2] = 30;
    assert_eq!(pointer.get(), Some(&[10, 2, 30][..]));
    assert_eq!(pointer.get_metadata(), Some(&true));
}

#[test]
fn dropping_a_set_slot_releases_slice_and_metadata_once() {
    let witness = Rc::new(());
    let mut pointer = OnceSlicePtrMetadata::<Rc<()>, Rc<()>>::new();
    let elements = vec![witness.clone(), witness.clone()].into_boxed_slice();
    assert!(pointer.set((elements, witness.clone())).is_ok());
    assert_eq!(Rc::strong_count(&witness), 4);
    let rejected = pointer.set((vec![witness.clone()].into_boxed_slice(), witness.clone()));
    assert_eq!(Rc::strong_count(&witness), 6);
    drop(pointer);
    assert_eq!(Rc::strong_count(&witness), 3);
    drop(rejected);
    assert_eq!(Rc::strong_count(&witness), 1);
}

#[test]
fn dropping_an_unset_slot_with_metadata_releases_nothing() {
    let witness = Rc::new(());
    let pointer = OnceSlicePtrMetadata::<Rc<()>, Rc<()>>::new();
    drop(pointer);
    assert_eq!(Rc::strong_count(&witness), 1);
}

#[test]
fn set_with_metadata_keeps_failing_once_set() {
    let mut pointer = OnceSlicePtrMetadata::<u16, u8>::new();
    assert_eq!(pointer.set((vec![10, 20].into_boxed_slice(), 1)), Ok(()));
    let mut offered = (vec![30, 40, 50].into_boxed_slice(), 2u8);
    for _ in 0..1000usize {
        offered = pointer.set(offered).unwrap_err();
        assert_eq!(offered, (vec![30, 40, 50].into_boxed_slice(), 2u8));
        assert_eq!(pointer.get(), Some(&[10, 20][..]));
        assert_eq!(pointer.get_metadata(), Some(&1));
    }
}

#[test]
fn reader_sees_the_slice_stored_beside_metadata() {
    let written: Vec<u32> = (1..=64u32).collect();
    let mut pointer = OnceSlicePtrMetadata::<u32, usize>::new();
    assert_eq!(pointer.set((written.clone().into_boxed_slice(), written.len())), Ok(()));
    let seen = pointer.get().unwrap();
    assert_eq!(seen.len(), 64);
    assert_eq!(seen, &written[..]);
    assert_eq!(seen[63], 64);
}

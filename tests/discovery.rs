use focus_core::discovery::find_new_device;

#[test]
fn finds_plugged_in_device() {
    assert_eq!(find_new_device(&vec![1, 2, 3], &vec![1, 2, 16725, 3]), Some(16725));
}

#[test]
fn finds_first_of_several_new_devices() {
    assert_eq!(find_new_device(&vec![5], &vec![5, 9, 7]), Some(9));
    assert_eq!(find_new_device(&vec![], &vec![4, 2]), Some(4));
}

#[test]
fn no_new_device() {
    assert_eq!(find_new_device(&vec![1, 2, 3], &vec![3, 1]), None);
    assert_eq!(find_new_device(&vec![1], &vec![]), None);
    assert_eq!(find_new_device(&vec![], &vec![]), None);
}

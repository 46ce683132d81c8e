use game_library::add;

#[test]
fn it_works() {
    let result = add(2, 2);
    assert_eq!(result, 4);
}

#[test]
fn add_of_five_and_ten_is_fifteen() {
    let a = 5usize;
    let b = 10usize;
    assert_eq!(add(a, b), 15);
}

#[test]
fn add_keeps_zero_neutral() {
    assert_eq!(add(0, 0), 0);
    assert_eq!(add(0, 7), 7);
    assert_eq!(add(7, 0), 7);
}

#[test]
fn add_reaches_the_largest_count() {
    assert_eq!(add(usize::MAX, 0), usize::MAX);
    assert_eq!(add(usize::MAX - 1, 1), usize::MAX);
}

#[test]
fn add_does_not_depend_on_the_order() {
    assert_eq!(add(3, 9), add(9, 3));
}

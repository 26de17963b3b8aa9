use fs_more::harness::generator;
use fs_more::harness::tree_generator;

#[test]
fn collsion_avoider_works() {
    let mut avoider = generator::NameCollisionAvoider::new_empty();

    assert_eq!(avoider.get_collision_free_name("HelloWorld"), "HelloWorld");
    assert_eq!(avoider.get_collision_free_name("HelloWorld"), "HelloWorld1");
    assert_eq!(avoider.get_collision_free_name("HelloWorld"), "HelloWorld2");
    assert_eq!(avoider.get_collision_free_name("FooBar"), "FooBar");
}

#[test]
fn collision_avoider_works() {
    let mut avoider = tree_generator::NameCollisionAvoider::new_empty();

    assert_eq!(avoider.collision_free_name("HelloWorld"), "HelloWorld");
    assert_eq!(avoider.collision_free_name("HelloWorld"), "HelloWorld2");
    assert_eq!(avoider.collision_free_name("HelloWorld"), "HelloWorld3");
    assert_eq!(avoider.collision_free_name("FooBar"), "FooBar");
}

#[test]
fn collision_free_names_use_multi_digit_suffixes() {
    let mut avoider = generator::NameCollisionAvoider::new_empty();
    let mut last = String::new();
    for _ in 0..12 {
        last = avoider.get_collision_free_name("Entry");
    }
    assert_eq!(last, "Entry11");

    let mut tree_avoider = tree_generator::NameCollisionAvoider::new_empty();
    for _ in 0..10 {
        last = tree_avoider.collision_free_name("Entry");
    }
    assert_eq!(last, "Entry10");
}

#[test]
fn names_are_counted_independently() {
    let mut avoider = tree_generator::NameCollisionAvoider::new_empty();
    assert_eq!(avoider.collision_free_name("a"), "a");
    assert_eq!(avoider.collision_free_name("b"), "b");
    assert_eq!(avoider.collision_free_name("a"), "a2");
    assert_eq!(avoider.collision_free_name("b"), "b2");
    assert_eq!(avoider.collision_free_name("a"), "a3");
}

#[test]
fn decimal_rendering_appends_digits() {
    let mut s = String::from("n");
    fs_more::harness::append_decimal(&mut s, 0);
    assert_eq!(s, "n0");
    let mut s = String::new();
    fs_more::harness::append_decimal(&mut s, 1234567890);
    assert_eq!(s, "1234567890");
}

use auto_new_builder::example::say;
use auto_new_builder::example::Hello;

#[test]
fn say_returns_the_answer() {
    assert_eq!(say(), Some(42));
}

#[test]
fn hello_new_fills_defaults() {
    let hello = Hello::new(21, 55);
    assert_eq!(hello.world, 21);
    assert_eq!(hello.universe, 34);
    assert_eq!(hello.next_next_world, "HELLO");
    assert_eq!(hello.next_world, None);
    assert_eq!(hello.next_universe, Some(55));
    assert_eq!(hello.super_next_next_world, Some(42));
    assert_eq!(hello.super_super_next_next_world, Some(46));
}

#[test]
fn hello_builder_sets_optional_field() {
    let lello = Hello::new(42, 56).with_next_world(32);
    assert_eq!(lello.world, 42);
    assert_eq!(lello.next_world, Some(32));
    assert_eq!(lello.next_universe, Some(56));
}

#[test]
fn hello_builders_chain() {
    let h = Hello::new(1, 2)
        .with_universe(3)
        .with_next_next_world("moon".to_string())
        .with_next_universe(4)
        .with_super_next_next_world(5)
        .with_super_super_next_next_world(6);
    assert_eq!(h.world, 1);
    assert_eq!(h.universe, 3);
    assert_eq!(h.next_next_world, "moon");
    assert_eq!(h.next_world, None);
    assert_eq!(h.next_universe, Some(4));
    assert_eq!(h.super_next_next_world, Some(5));
    assert_eq!(h.super_super_next_next_world, Some(6));
}

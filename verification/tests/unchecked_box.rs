use lateinit::LateinitUnchecked;
use std::rc::Rc;

#[test]
fn unchecked_new_box_is_not_initialized() {
    let bytes: LateinitUnchecked<u8> = LateinitUnchecked::new();
    assert!(!bytes.is_initialized());
    let text: LateinitUnchecked<String> = LateinitUnchecked::new();
    assert!(!text.is_initialized());
}

#[test]
fn unchecked_init_with_42_reads_42() {
    let mut b: LateinitUnchecked<i32> = LateinitUnchecked::new();
    b.init(42);
    assert_eq!(*b.deref(), 42i32);
}

#[test]
fn unchecked_init_fills_the_box() {
    let mut b: LateinitUnchecked<String> = LateinitUnchecked::new();
    b.init(String::from("ready"));
    assert!(b.is_initialized());
    assert_eq!(b.deref().as_str(), "ready");
}

#[test]
fn unchecked_second_init_replaces_the_first() {
    let mut b: LateinitUnchecked<i32> = LateinitUnchecked::new();
    b.init(1);
    assert!(b.is_initialized());
    assert_eq!(*b.deref(), 1i32);
    b.init(2);
    assert!(b.is_initialized());
    assert_eq!(*b.deref(), 2i32);
}

#[test]
fn unchecked_write_through_deref_mut_is_read_back() {
    let mut b: LateinitUnchecked<u32> = LateinitUnchecked::new();
    b.init(10);
    assert_eq!(*b.deref_mut(), 10u32);
    *b.deref_mut() = 11;
    assert_eq!(*b.deref(), 11u32);
    assert!(b.is_initialized());
}

#[test]
fn unchecked_get_value_hands_out_the_stored_value() {
    let mut b: LateinitUnchecked<String> = LateinitUnchecked::new();
    b.init(String::from("first"));
    b.init(String::from("second"));
    b.deref_mut().push('!');
    let s: String = b.get_value();
    assert_eq!(s, "second!");
}

#[test]
fn unchecked_guarded_access() {
    let mut b: LateinitUnchecked<u8> = LateinitUnchecked::new();
    let mut seen: Option<u8> = None;
    if b.is_initialized() {
        seen = Some(*b.deref());
    }
    assert_eq!(seen, None);
    b.init(8);
    if b.is_initialized() {
        seen = Some(*b.deref());
    }
    assert_eq!(seen, Some(8u8));
}

#[test]
fn unchecked_stored_none_is_a_value() {
    let mut b: LateinitUnchecked<Option<u8>> = LateinitUnchecked::new();
    b.init(None);
    assert!(b.is_initialized());
    assert_eq!(b.get_value(), None);
}

#[test]
fn unchecked_init_drops_the_value_it_replaces() {
    let first: Rc<u8> = Rc::new(1);
    let mut b: LateinitUnchecked<Rc<u8>> = LateinitUnchecked::new();
    b.init(Rc::clone(&first));
    assert_eq!(Rc::strong_count(&first), 2usize);
    b.init(Rc::new(2));
    assert_eq!(Rc::strong_count(&first), 1usize);
    assert_eq!(**b.deref(), 2u8);
}

#[test]
fn unchecked_get_value_moves_the_value_out() {
    let shared: Rc<u8> = Rc::new(9);
    let mut b: LateinitUnchecked<Rc<u8>> = LateinitUnchecked::new();
    b.init(Rc::clone(&shared));
    let taken: Rc<u8> = b.get_value();
    assert!(Rc::ptr_eq(&shared, &taken));
    assert_eq!(Rc::strong_count(&shared), 2usize);
}

#[test]
fn unchecked_dropping_the_box_drops_its_value() {
    let shared: Rc<u8> = Rc::new(9);
    {
        let mut b: LateinitUnchecked<Rc<u8>> = LateinitUnchecked::new();
        b.init(Rc::clone(&shared));
        assert_eq!(Rc::strong_count(&shared), 2usize);
    }
    assert_eq!(Rc::strong_count(&shared), 1usize);
}

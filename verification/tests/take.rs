use atb::take::Take;

struct Container {
    data: Take<String>,
}

#[test]
fn take_can_be_mutated() {
    let mut field = Container {
        data: Take::new("hello".to_owned()),
    };

    let f = &mut field;
    let inner = f.data.get().clone();
    *f.data.get_mut() = "world".to_owned() + &inner;
    assert_eq!(f.data.get(), "worldhello");
}

#[test]
fn it_can_be_mutated() {
    let mut field = Container {
        data: Take::new("hello".to_owned()),
    };

    let f = &mut field;
    let inner = f.data.get().clone();
    *f.data.get_mut() = [inner.as_str(), " ", "world"].concat();

    assert_eq!(f.data.get(), &"hello world".to_owned());
}

#[test]
fn take_hands_out_the_value_once() {
    let mut t = Take::new(7u32);
    assert!(t.is_held());
    assert_eq!(t.take(), Some(7));
    assert!(!t.is_held());
    assert_eq!(t.take(), None);
}

#[test]
fn insert_refills_a_taken_holder() {
    let mut t = Take::new("a".to_owned());
    let _ = t.take();
    *t.insert("b".to_owned()) += "c";
    assert_eq!(t.get(), "bc");
}

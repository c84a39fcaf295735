use mown::{Mown, MownMut};
use std::cmp::Ordering;
use std::collections::hash_map::DefaultHasher;
use std::hash::{Hash, Hasher};

fn digest<T: Hash>(value: &T) -> u64 {
    let mut state = DefaultHasher::new();
    value.hash(&mut state);
    state.finish()
}

#[test]
fn owned_as_ref_yields_value() {
    let m = Mown::<u32>::Owned(5);
    assert_eq!(*m.as_ref(), 5);
    let s = Mown::<str>::Owned(String::from("abc"));
    assert_eq!(s.as_ref(), "abc");
}

#[test]
fn borrowed_as_ref_is_identity() {
    let v = String::from("hello");
    let m = Mown::<str>::Borrowed(&v);
    assert!(std::ptr::eq(m.as_ref(), v.as_str()));
    let w: u32 = 9;
    let n = Mown::Borrowed(&w);
    assert!(std::ptr::eq(n.as_ref(), &w));
}

#[test]
fn variants_complementary() {
    let o = Mown::<u32>::Owned(1);
    let v: u32 = 2;
    let b = Mown::Borrowed(&v);
    assert!(o.is_owned() && !o.is_borrowed());
    assert!(!b.is_owned() && b.is_borrowed());

    let mo = MownMut::<u32>::Owned(1);
    let mut w: u32 = 2;
    let mb = MownMut::Borrowed(&mut w);
    assert!(mo.is_owned() && !mo.is_borrowed());
    assert!(!mb.is_owned() && mb.is_borrowed());
}

#[test]
fn eq_is_representation_blind() {
    let v = String::from("same");
    let owned = Mown::<str>::Owned(String::from("same"));
    let borrowed = Mown::<str>::Borrowed(&v);
    assert!(owned == borrowed);
    assert!(borrowed == owned);

    let other = Mown::<str>::Owned(String::from("other"));
    assert!(owned != other);

    let n: u32 = 7;
    assert!(Mown::<u32>::Owned(7) == Mown::Borrowed(&n));
}

#[test]
fn ordering_is_representation_blind() {
    let a = String::from("apple");
    let b = String::from("banana");
    let owned_a = Mown::<str>::Owned(String::from("apple"));
    let borrowed_b = Mown::<str>::Borrowed(&b);
    assert_eq!(owned_a.partial_cmp(&borrowed_b), Some(Ordering::Less));
    let borrowed_a = Mown::<str>::Borrowed(&a);
    let owned_b = Mown::<str>::Owned(String::from("banana"));
    assert_eq!(
        owned_a.partial_cmp(&borrowed_b),
        borrowed_a.partial_cmp(&owned_b)
    );
    assert_eq!(borrowed_b.partial_cmp(&owned_a), Some(Ordering::Greater));
    assert_eq!(owned_a.partial_cmp(&borrowed_a), Some(Ordering::Equal));
}

#[test]
fn hashes_agree_across_variants() {
    let v = String::from("same");
    let owned = Mown::<str>::Owned(String::from("same"));
    let borrowed = Mown::<str>::Borrowed(&v);
    assert!(owned == borrowed);
    assert_eq!(digest(&owned), digest(&borrowed));

    let mut w = String::from("same");
    let mut_borrowed = MownMut::<str>::Borrowed(&mut w);
    assert_eq!(digest(&owned), digest(&mut_borrowed));
    assert!(mut_borrowed.is_borrowed());
}

#[test]
fn as_mut_on_immutable_container() {
    let v: u32 = 3;
    let mut borrowed = Mown::Borrowed(&v);
    assert!(borrowed.as_mut().is_none());
    assert!(borrowed.is_borrowed());

    let mut owned = Mown::<u32>::Owned(3);
    match owned.as_mut() {
        Some(x) => *x = 4,
        None => panic!("an owned container must give a mutable view"),
    }
    assert_eq!(*owned.as_ref(), 4);
    assert!(owned.is_owned());
}

#[test]
fn as_mut_on_mutable_container() {
    let mut owned = MownMut::<u32>::Owned(3);
    *owned.as_mut() = 4;
    assert_eq!(*owned.as_ref(), 4);

    let mut v: u32 = 5;
    {
        let mut borrowed = MownMut::Borrowed(&mut v);
        *borrowed.as_mut() = 6;
        assert_eq!(*borrowed.as_ref(), 6);
    }
    assert_eq!(v, 6);
}

#[test]
fn owned_string_mutation_lands_in_representation() {
    let mut m = Mown::<str>::Owned(String::from("abc"));
    m.as_mut().unwrap().make_ascii_uppercase();
    assert_eq!(m.as_ref(), "ABC");
}

#[test]
fn owned_slice_mutation_lands_in_representation() {
    let mut m = Mown::<[i32]>::Owned(vec![1, 2, 3]);
    m.as_mut().unwrap()[1] = 20;
    assert_eq!(m.as_ref(), &[1, 20, 3]);
}

fn response<'a>(input: &'a str) -> Mown<'a, str> {
    if input == "Hello\n" {
        Mown::Owned(String::from("World!"))
    } else {
        Mown::Borrowed(input)
    }
}

#[test]
fn trigger_string_scenario() {
    let hit = response("Hello\n");
    assert!(hit.is_owned());
    assert_eq!(format!("{}", hit.as_ref()), "World!");

    let other = String::from("Anything else");
    let miss = response(&other);
    assert!(miss.is_borrowed());
    assert_eq!(format!("{}", miss.as_ref()), "Anything else");
}

#[test]
fn borrowed_slice_reads_like_the_array() {
    let array: [i32; 4] = [10, 20, 30, 40];
    let m = Mown::<[i32]>::Borrowed(&array);
    assert!(m.is_borrowed());
    assert!(!m.is_owned());
    let view = m.as_ref();
    assert_eq!(view.len(), array.len());
    for (i, item) in view.iter().enumerate() {
        assert_eq!(*item, array[i]);
    }
    assert!(std::ptr::eq(view, &array[..]));
}

#[test]
fn owned_growable_buffer_appends_in_order() {
    let mut m = MownMut::<Vec<u8>>::Owned(Vec::new());
    m.as_mut().push(1);
    m.as_mut().push(2);
    m.as_mut().push(3);
    assert_eq!(m.as_ref().as_slice(), &[1, 2, 3]);
}

#[test]
fn string_eq_value_across_variants() {
    let v = String::from("abc");
    let a: Mown<String> = Mown::Owned(v.clone());
    let b = Mown::Borrowed(&v);
    assert!(a.eq_value(&b));
    assert!(b.eq_value(&a));
    assert!(a.is_owned() && b.is_borrowed());

    let c: Mown<String> = Mown::Owned(String::from("zzz"));
    assert!(!a.eq_value(&c));

    let mut w = String::from("abc");
    let m: MownMut<String> = MownMut::Owned(String::from("abc"));
    let n = MownMut::Borrowed(&mut w);
    assert!(m.eq_value(&n));
    let o: MownMut<String> = MownMut::Owned(String::from("zzz"));
    assert!(!n.eq_value(&o));
}

#[test]
fn deref_is_as_ref_for_borrowed() {
    let v = String::from("hello");
    let m = Mown::<str>::Borrowed(&v);
    assert!(std::ptr::eq(&*m, m.as_ref()));
    assert!(std::ptr::eq(&*m, v.as_str()));
}

#[test]
fn deref_reads_through() {
    let m = Mown::<str>::Owned(String::from("deref"));
    assert_eq!(m.len(), 5);
    assert!(m.starts_with("de"));

    let mut n = MownMut::<u32>::Owned(1);
    *n += 1;
    assert_eq!(*n.as_ref(), 2);
}

#[test]
fn mutable_string_borrow_writes_through() {
    let mut s = String::from("hello");
    {
        let mut m = MownMut::<str>::Borrowed(&mut s);
        m.as_mut().make_ascii_uppercase();
        assert_eq!(m.as_ref(), "HELLO");
    }
    assert_eq!(s, "HELLO");
}

use enum_map::key::{ordinal_of, variant_list};
use enum_map::{EnumKey, EnumMap};
use std::cell::RefCell;

#[derive(Clone, Copy, Debug, PartialEq)]
enum Example {
    A,
    B,
}

impl EnumKey for Example {
    fn values() -> &'static [Self] {
        &[Example::A, Example::B]
    }

    fn as_usize(&self) -> usize {
        match self {
            Example::A => 0,
            Example::B => 1,
        }
    }
}

#[derive(Clone, Copy, Debug, PartialEq)]
enum Color {
    Red,
    Green,
    Blue,
}

impl EnumKey for Color {
    fn values() -> &'static [Self] {
        &[Color::Red, Color::Green, Color::Blue]
    }

    fn as_usize(&self) -> usize {
        match self {
            Color::Red => 0,
            Color::Green => 1,
            Color::Blue => 2,
        }
    }
}

#[derive(Clone, Copy, Debug, PartialEq)]
enum Only {
    One,
}

impl EnumKey for Only {
    fn values() -> &'static [Self] {
        &[Only::One]
    }

    fn as_usize(&self) -> usize {
        0
    }
}

#[derive(Clone, Copy, Debug, PartialEq)]
enum Nothing {}

impl EnumKey for Nothing {
    fn values() -> &'static [Self] {
        &[]
    }

    fn as_usize(&self) -> usize {
        match *self {}
    }
}

#[test]
fn test_it() {
    let mut map = EnumMap::new(|_| 0);

    assert_eq!(0, map[Example::A]);
    assert_eq!(0, map[Example::B]);
    map[Example::A] = 1;

    assert_eq!(1, map[Example::A]);
    assert_eq!(0, map[Example::B]);

    let mut iter = map.iter();
    assert_eq!(Some((Example::A, &1)), iter.next());
    assert_eq!(Some((Example::B, &0)), iter.next());
    assert_eq!(None, iter.next());
}

#[test]
fn new_stores_the_factory_result_under_each_key() {
    let map = EnumMap::new(|k: Color| match k {
        Color::Red => "red",
        Color::Green => "green",
        Color::Blue => "blue",
    });
    assert_eq!("red", map[Color::Red]);
    assert_eq!("green", map[Color::Green]);
    assert_eq!("blue", map[Color::Blue]);
}

#[test]
fn new_calls_the_factory_once_per_variant_in_canonical_order() {
    let seen: RefCell<Vec<Color>> = RefCell::new(Vec::new());
    let map = EnumMap::new(|k: Color| {
        seen.borrow_mut().push(k);
        seen.borrow().len()
    });
    assert_eq!(vec![Color::Red, Color::Green, Color::Blue], *seen.borrow());
    assert_eq!(1, map[Color::Red]);
    assert_eq!(2, map[Color::Green]);
    assert_eq!(3, map[Color::Blue]);
}

#[test]
fn write_changes_the_slot_of_its_key_only() {
    let mut map = EnumMap::new(|k: Color| k.as_usize() as i64 * 10);
    map[Color::Green] = -7;
    assert_eq!(0, map[Color::Red]);
    assert_eq!(-7, map[Color::Green]);
    assert_eq!(20, map[Color::Blue]);
    map[Color::Blue] += 1;
    assert_eq!(0, map[Color::Red]);
    assert_eq!(-7, map[Color::Green]);
    assert_eq!(21, map[Color::Blue]);
}

#[test]
fn index_takes_the_key_by_reference_too() {
    let mut map = EnumMap::new(|k: Color| k.as_usize() as u8);
    assert_eq!(2, map[&Color::Blue]);
    map[&Color::Red] = 9;
    assert_eq!(9, map[&Color::Red]);
    assert_eq!(9, map[Color::Red]);
    assert_eq!(1, map[&Color::Green]);
    assert_eq!(2, map[&Color::Blue]);
}

#[test]
fn iter_hands_out_one_pair_per_variant_in_canonical_order() {
    let mut map = EnumMap::new(|k: Color| k.as_usize() as u32 + 100);
    map[Color::Green] = 5;
    let pairs: Vec<(Color, &u32)> = map.iter().collect();
    assert_eq!(
        vec![(Color::Red, &100), (Color::Green, &5), (Color::Blue, &102)],
        pairs
    );
    assert_eq!(Color::values().len(), map.iter().count());
    for (k, v) in map.iter() {
        assert_eq!(map[k], *v);
    }
}

#[test]
fn iter_stays_ended_once_it_has_ended() {
    let map = EnumMap::new(|_: Only| 'x');
    let mut iter = map.iter();
    assert_eq!(Some((Only::One, &'x')), iter.next());
    assert_eq!(None, iter.next());
    assert_eq!(None, iter.next());
    assert_eq!(None, iter.next());
}

#[test]
fn a_fresh_iter_starts_over() {
    let map = EnumMap::new(|k: Example| k.as_usize());
    let mut first = map.iter();
    assert_eq!(Some((Example::A, &0)), first.next());
    let mut second = map.iter();
    assert_eq!(Some((Example::A, &0)), second.next());
    assert_eq!(Some((Example::B, &1)), first.next());
    assert_eq!(Some((Example::B, &1)), second.next());
}

#[test]
fn iter_mut_hands_out_each_slot_once_and_writes_stay_apart() {
    let mut map = EnumMap::new(|k: Color| k.as_usize() as i32);
    {
        let mut pass = map.iter_mut();
        let (k0, v0) = pass.next().unwrap();
        let (k1, v1) = pass.next().unwrap();
        let (k2, v2) = pass.next().unwrap();
        assert!(pass.next().is_none());
        assert!(pass.next().is_none());
        assert_eq!((Color::Red, Color::Green, Color::Blue), (k0, k1, k2));
        assert_eq!((0, 1, 2), (*v0, *v1, *v2));
        *v2 = 30;
        *v0 = 10;
        *v1 = 20;
        *v0 += 1;
    }
    assert_eq!(11, map[Color::Red]);
    assert_eq!(20, map[Color::Green]);
    assert_eq!(30, map[Color::Blue]);
}

#[test]
fn iter_mut_in_a_for_loop_reaches_every_slot() {
    let mut map = EnumMap::new(|_: Color| 1u64);
    let mut keys = Vec::new();
    for (k, v) in map.iter_mut() {
        *v += k.as_usize() as u64;
        keys.push(k);
    }
    assert_eq!(vec![Color::Red, Color::Green, Color::Blue], keys);
    let values: Vec<u64> = map.iter().map(|(_, v)| *v).collect();
    assert_eq!(vec![1, 2, 3], values);
}

#[test]
fn iter_mut_given_up_early_leaves_the_rest_as_it_was() {
    let mut map = EnumMap::new(|k: Color| k.as_usize() as i32);
    {
        let mut pass = map.iter_mut();
        let (k, v) = pass.next().unwrap();
        assert_eq!(Color::Red, k);
        *v = -1;
    }
    assert_eq!(-1, map[Color::Red]);
    assert_eq!(1, map[Color::Green]);
    assert_eq!(2, map[Color::Blue]);
}

#[test]
fn set_all_replaces_every_value() {
    let mut map = EnumMap::new(|_: Color| String::from("old"));
    map[Color::Green] = String::from("changed");
    map.set_all(|k: &Color| format!("{:?}", k));
    let pairs: Vec<(Color, &String)> = map.iter().collect();
    assert_eq!(
        vec![
            (Color::Red, &String::from("Red")),
            (Color::Green, &String::from("Green")),
            (Color::Blue, &String::from("Blue")),
        ],
        pairs
    );
}

#[test]
fn set_all_calls_the_factory_once_per_variant_in_canonical_order() {
    let mut map = EnumMap::new(|_: Example| 0usize);
    let seen: RefCell<Vec<Example>> = RefCell::new(Vec::new());
    map.set_all(|k: &Example| {
        seen.borrow_mut().push(*k);
        seen.borrow().len() * 7
    });
    assert_eq!(vec![Example::A, Example::B], *seen.borrow());
    assert_eq!(7, map[Example::A]);
    assert_eq!(14, map[Example::B]);
}

#[test]
fn maps_built_by_the_same_factory_are_equal() {
    let factory = |k: Color| k.as_usize() * 3;
    let a = EnumMap::new(factory);
    let b = EnumMap::new(factory);
    assert!(a == b);
    assert_eq!(a, b);
}

#[test]
fn maps_built_by_factories_that_differ_on_one_key_are_unequal() {
    let a = EnumMap::new(|k: Color| k.as_usize());
    let b = EnumMap::new(|k: Color| if k == Color::Blue { 99 } else { k.as_usize() });
    assert!(a != b);
    assert_ne!(a, b);
}

#[test]
fn a_write_makes_equal_maps_unequal_and_back() {
    let mut a = EnumMap::new(|_: Example| 0);
    let b = EnumMap::new(|_: Example| 0);
    assert!(a == b);
    a[Example::B] = 4;
    assert!(a != b);
    a[Example::B] = 0;
    assert!(a == b);
}

#[test]
fn clone_copies_the_values_and_shares_nothing() {
    let mut a = EnumMap::new(|k: Example| vec![k.as_usize()]);
    let b = a.clone();
    assert_eq!(a, b);
    a[Example::A].push(5);
    assert_eq!(vec![0, 5], a[Example::A]);
    assert_eq!(vec![0], b[Example::A]);
    assert_eq!(vec![1], b[Example::B]);
    assert!(a != b);
}

#[test]
fn debug_shows_the_values_in_canonical_order() {
    let mut map = EnumMap::new(|_: Example| 0);
    map[Example::A] = 1;
    let text = format!("{:?}", map);
    assert!(text.contains("[1, 0]"));
}

#[test]
fn a_key_type_with_one_variant_has_one_slot() {
    let mut map = EnumMap::new(|_: Only| 3.5f64);
    assert_eq!(3.5, map[Only::One]);
    map[Only::One] = 4.25;
    assert_eq!(vec![(Only::One, &4.25)], map.iter().collect::<Vec<_>>());
    assert_eq!(1, map.iter_mut().count());
}

#[test]
fn a_key_type_without_variants_has_no_slot() {
    let mut map: EnumMap<Nothing, u8> = EnumMap::new(|k: Nothing| match k {});
    assert!(map.iter().next().is_none());
    assert!(map.iter_mut().next().is_none());
    map.set_all(|k: &Nothing| match *k {});
    assert_eq!(0, map.iter().count());
    assert_eq!(map, map.clone());
}

#[test]
fn bool_is_a_key_with_false_first() {
    assert_eq!(&[false, true], bool::values());
    assert_eq!(0, false.as_usize());
    assert_eq!(1, true.as_usize());
    let mut map = EnumMap::new(|k: bool| if k { "yes" } else { "no" });
    assert_eq!("no", map[false]);
    assert_eq!("yes", map[true]);
    map[true] = "aye";
    assert_eq!(
        vec![(false, &"no"), (true, &"aye")],
        map.iter().collect::<Vec<_>>()
    );
}

#[test]
fn variant_list_and_ordinal_of_agree() {
    let list = variant_list::<Color>();
    assert_eq!(&[Color::Red, Color::Green, Color::Blue], list);
    for (i, k) in list.iter().enumerate() {
        assert_eq!(i, ordinal_of(k));
    }
    assert_eq!(2, ordinal_of(&Color::Blue));
    assert_eq!(&[false, true], variant_list::<bool>());
    assert_eq!(1, ordinal_of(&true));
}

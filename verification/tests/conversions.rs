use modify::{Modifiable, Modify};
use std::fmt;

struct Celsius(i32);

impl fmt::Display for Celsius {
    fn fmt(&self, f: &mut fmt::Formatter<'_>) -> fmt::Result {
        f.write_str(&format!("{} degrees", self.0))
    }
}

fn takes_a_box(b: Modify<u16>) -> u16 {
    *b
}

#[test]
fn from_makes_a_clean_box() {
    let b = Modify::from(42);
    assert!(!b.is_modified());
    assert_eq!(*b, 42);
}

#[test]
fn into_makes_a_clean_box() {
    let b: Modify<&str> = "text".into();
    assert!(!b.is_modified());
    assert_eq!(*b, "text");
    assert_eq!(takes_a_box(9.into()), 9);
}

#[test]
fn from_agrees_with_new() {
    assert_eq!(Modify::from(5), Modify::new(5));
}

#[test]
fn default_is_a_clean_box_around_the_default_value() {
    let n: Modify<u32> = Modify::default();
    assert!(!n.is_modified());
    assert_eq!(*n, 0);

    let s: Modify<String> = Modify::default();
    assert!(!s.is_modified());
    assert_eq!(*s, "");
}

#[test]
fn into_inner_hands_out_the_value() {
    let mut b = Modify::new(vec![1u8]);
    b.push(2);
    assert_eq!(b.into_inner(), vec![1u8, 2]);
    assert_eq!(Modify::new(7).into_inner(), 7);
}

#[test]
fn boxes_are_equal_when_value_and_flag_agree() {
    let a = Modify::new(1);
    let b = Modify::new(1);
    let c = Modify::new(2);
    assert!(a == b);
    assert!(a != c);
}

#[test]
fn a_dirty_box_differs_from_a_clean_one_with_the_same_value() {
    let clean = Modify::new(1);
    let mut dirty = Modify::new(1);
    *dirty = 1;
    assert!(clean != dirty);
    dirty.saved();
    assert!(clean == dirty);
}

#[test]
fn debug_shows_value_and_flag() {
    let mut b = Modify::new(1);
    assert_eq!(format!("{:?}", b), "Modify { value: 1, modified: false }");
    *b = 2;
    assert_eq!(format!("{:?}", b), "Modify { value: 2, modified: true }");
}

#[test]
fn text_of_a_box_is_the_text_of_its_value() {
    assert_eq!(Modify::new(43).to_string(), 43.to_string());
    assert_eq!(Modify::new(-7i64).to_string(), "-7");
    assert_eq!(Modify::new("plain").to_string(), "plain");
    assert_eq!(Modify::new('x').to_string(), "x");
    assert_eq!(Modify::new(true).to_string(), "true");
    assert_eq!(Modify::new(Celsius(21)).to_string(), Celsius(21).to_string());
    assert_eq!(Modify::new(Celsius(21)).to_string(), "21 degrees");
}

#[test]
fn text_of_a_box_does_not_show_the_flag() {
    let mut b = Modify::new(String::from("ab"));
    let clean = b.to_string();
    b.push('c');
    assert!(b.is_modified());
    assert_eq!(clean, "ab");
    assert_eq!(b.to_string(), "abc");
    b.saved();
    assert_eq!(b.to_string(), "abc");
}

#[test]
fn asking_for_the_text_leaves_the_flag_alone() {
    let mut b = Modify::new(5);
    assert_eq!(b.to_string(), "5");
    assert!(!b.is_modified());
    *b = 6;
    assert_eq!(b.to_string(), "6");
    assert!(b.is_modified());
}

use somble::essence::collect;
use somble::essence::EssenceCounts;
use somble::health::HealthChange;
use somble::same_text;
use somble::Element;

const ELEMENTS: [Element; 5] =
    [Element::Fire, Element::Water, Element::Wind, Element::Lightning, Element::Earth];

#[test]
fn nothing_is_carried_at_first() {
    let counts = EssenceCounts::default();
    for e in ELEMENTS {
        assert_eq!(counts.count(e), 0);
    }
}

#[test]
fn each_element_is_counted_by_itself() {
    let mut counts = EssenceCounts::default();
    counts.set(Element::Wind, 2);
    counts.set(Element::Earth, 7);
    assert_eq!(counts.count(Element::Wind), 2);
    assert_eq!(counts.count(Element::Earth), 7);
    assert_eq!(counts.count(Element::Fire), 0);
    assert_eq!(counts.count(Element::Water), 0);
    assert_eq!(counts.count(Element::Lightning), 0);
    counts.set(Element::Wind, 0);
    assert_eq!(counts.count(Element::Wind), 0);
    assert_eq!(counts.count(Element::Earth), 7);
}

#[test]
fn at_most_three_essences_of_an_element_are_picked_up() {
    let mut counts = EssenceCounts::default();
    for n in 1..=3 {
        assert_eq!(
            collect(&mut counts, Element::Fire, 11),
            Some(HealthChange { target: 11, amount: 10_000 })
        );
        assert_eq!(counts.count(Element::Fire), n);
    }
    assert_eq!(collect(&mut counts, Element::Fire, 11), None);
    assert_eq!(counts.count(Element::Fire), 3);
    assert!(counts.collect(Element::Water));
    assert!(!counts.collect(Element::Fire));
    assert_eq!(counts.count(Element::Water), 1);
}

#[test]
fn essences_are_spent_one_by_one() {
    let mut counts = EssenceCounts::default();
    assert!(!counts.spend(Element::Earth));
    counts.set(Element::Earth, 2);
    assert!(counts.spend(Element::Earth));
    assert!(counts.spend(Element::Earth));
    assert!(!counts.spend(Element::Earth));
    assert_eq!(counts.count(Element::Earth), 0);
    counts.refund(Element::Earth);
    assert_eq!(counts.count(Element::Earth), 1);
    counts.set(Element::Earth, u32::MAX);
    counts.refund(Element::Earth);
    assert_eq!(counts.count(Element::Earth), u32::MAX);
}

#[test]
fn elements_have_ranks_and_names() {
    for (i, e) in ELEMENTS.iter().enumerate() {
        assert_eq!(e.index(), i);
        assert_eq!(Element::from_index(i), Some(*e));
    }
    assert_eq!(Element::from_index(5), None);
    assert_eq!(Element::from_index(usize::MAX), None);
    assert_eq!(Element::from_name("Fire"), Some(Element::Fire));
    assert_eq!(Element::from_name("Water"), Some(Element::Water));
    assert_eq!(Element::from_name("Wind"), Some(Element::Wind));
    assert_eq!(Element::from_name("Lightning"), Some(Element::Lightning));
    assert_eq!(Element::from_name("Earth"), Some(Element::Earth));
    assert_eq!(Element::from_name("fire"), None);
    assert_eq!(Element::from_name(""), None);
    assert_eq!(Element::from_name("Fire "), None);
    assert!(same_text("", ""));
    assert!(same_text("héllo", "héllo"));
    assert!(!same_text("héllo", "hello"));
    assert!(!same_text("ab", "abc"));
}

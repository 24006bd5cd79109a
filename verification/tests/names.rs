use fog_schemars::name::{is_label, is_path, Identifier, Name};
use fog_schemars::order::{ascending_places, text_before};
use fog_schemars::rename::IdentRenames;
use fog_schemars::text::{decimal_text, split_segments, str_eq};

#[test]
fn renders_path_and_label() {
    let n = Name::new("a::b", "Config");
    assert_eq!(n.render(), "a::b::Config");
}

#[test]
fn empty_path_is_one_empty_segment() {
    let n = Name::new("", "bool");
    assert_eq!(n.id().mods().len(), 1);
    assert_eq!(n.id().mods()[0], "");
    assert_eq!(n.render(), "::bool");
}

#[test]
fn renders_type_parameters() {
    let inner = Name::new("", "u8");
    let other = Name::with_types("std::option", "Option", vec![Name::new("", "str")]);
    let n = Name::with_types("std::result", "Result", vec![inner, other]);
    assert_eq!(n.render(), "std::result::Result<::u8,std::option::Option<::str>>");
}

#[test]
fn splits_at_each_separator() {
    assert_eq!(split_segments("a::b::c"), vec!["a", "b", "c"]);
    assert_eq!(split_segments("abc"), vec!["abc"]);
    assert_eq!(split_segments(""), vec![""]);
    assert_eq!(split_segments("::"), vec!["", ""]);
    assert_eq!(split_segments("a::"), vec!["a", ""]);
}

#[test]
fn splits_from_the_left_without_overlap() {
    assert_eq!(split_segments("a:::b"), vec!["a", ":b"]);
    assert_eq!(split_segments("a::::b"), vec!["a", "", "b"]);
    assert_eq!(split_segments("a:b"), vec!["a:b"]);
}

#[test]
fn splits_as_std_does() {
    for path in ["", "a", "a::b", "::a", "a::", ":::", "a:::b::c", "é::ü", "x::y::z"] {
        let expected: Vec<&str> = path.split("::").collect();
        assert_eq!(split_segments(path), expected);
    }
}

#[test]
fn decimal_text_of_numbers() {
    assert_eq!(decimal_text(0), "0");
    assert_eq!(decimal_text(7), "7");
    assert_eq!(decimal_text(10), "10");
    assert_eq!(decimal_text(1234567890), "1234567890");
}

#[test]
fn names_compare_by_parts() {
    let a = Name::with_types("m", "T", vec![Name::new("", "u8")]);
    let b = Name::with_types("m", "T", vec![Name::new("", "u8")]);
    let c = Name::with_types("m", "T", vec![Name::new("", "u16")]);
    assert!(a.same_as(&b));
    assert!(!a.same_as(&c));
    assert!(a == b);
    assert!(a != c);
    assert!(a.clone().same_as(&a));
}

#[test]
fn shorten_replaces_identifier_and_parameters() {
    let mut map = IdentRenames::new();
    map.insert(
        Identifier::from_parts(vec!["a", "b"], "Config"),
        Identifier::from_parts(vec!["b"], "Config"),
    );
    let plain = Name::new("a::b", "Config");
    assert_eq!(plain.try_shorten(&map).render(), "b::Config");
    let nested = Name::with_types("std::option", "Option", vec![Name::new("a::b", "Config")]);
    assert_eq!(nested.try_shorten(&map).render(), "std::option::Option<b::Config>");
}

#[test]
fn shorten_leaves_unknown_identifiers_unchanged() {
    let mut map = IdentRenames::new();
    map.insert(
        Identifier::from_parts(vec!["a", "b"], "Config"),
        Identifier::from_parts(vec![], "Config"),
    );
    let other = Name::with_types("a::c", "Config", vec![Name::new("a", "Config")]);
    let short = other.try_shorten(&map);
    assert!(short.same_as(&other));
    assert_eq!(short.render(), "a::c::Config<a::Config>");
}

#[test]
fn rename_map_first_pair_counts() {
    let mut map = IdentRenames::new();
    let from = Identifier::from_parts(vec!["x"], "T");
    assert!(map.get(&from).is_none());
    map.insert(from.clone(), Identifier::from_parts(vec![], "T"));
    assert_eq!(map.get(&from).map(|to| to.render()), Some("T".to_string()));
    assert!(map.get(&Identifier::from_parts(vec!["x"], "U")).is_none());
}

#[test]
fn paths_and_labels_are_checked() {
    assert!(is_path(""));
    assert!(is_path("a::b:c"));
    assert!(!is_path("a,b"));
    assert!(!is_path("a<b"));
    assert!(!is_path("a::b>"));
    assert!(is_label("Config"));
    assert!(is_label("!"));
    assert!(!is_label("a:b"));
    assert!(!is_label("a,b"));
    assert!(!is_label("<"));
    assert!(!is_label("T>"));
    assert!(Name::checked("a::b", "T", Vec::new()).is_some());
    assert!(Name::checked("a<b", "T", Vec::new()).is_none());
    assert!(Name::checked("a", "T:", Vec::new()).is_none());
    assert_eq!(
        Name::checked("m", "T", vec![Name::new("", "u8")]).map(|n| n.render()),
        Some("m::T<::u8>".to_string())
    );
}

#[test]
fn strings_are_equal_when_their_characters_are() {
    assert!(str_eq("", ""));
    assert!(str_eq("net::Config", "net::Config"));
    assert!(str_eq("gr\u{fc}n", "gr\u{fc}n"));
    assert!(!str_eq("net::Config", "net::Confih"));
    assert!(!str_eq("net::Config", "net::Confi"));
    assert!(!str_eq("", "a"));
    assert!(!str_eq("gr\u{fc}n", "grun"));
}

#[test]
fn texts_are_ordered_as_std_orders_strings() {
    let texts = ["", "a", "ab", "b", "Z", "a::b", "a_1", "gr\u{fc}n", "grun", "\u{10348}", "z"];
    for a in texts {
        for b in texts {
            assert_eq!(text_before(a, b), a < b, "{:?} before {:?}", a, b);
        }
    }
}

#[test]
fn places_come_in_ascending_order_of_their_texts() {
    let keys = |texts: &[&str]| texts.iter().map(|t| t.to_string()).collect::<Vec<String>>();
    assert_eq!(ascending_places(&keys(&[])), Vec::<usize>::new());
    assert_eq!(ascending_places(&keys(&["b", "a", "c"])), vec![1, 0, 2]);
    assert_eq!(ascending_places(&keys(&["c", "b", "a"])), vec![2, 1, 0]);
    assert_eq!(ascending_places(&keys(&["b", "a", "b", "a"])), vec![1, 3, 0, 2]);
    assert_eq!(ascending_places(&keys(&["m::T_1", "m::T", "m::S"])), vec![2, 1, 0]);
}

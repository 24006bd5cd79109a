use fog_schemars::name::{Identifier, Name};
use fog_schemars::registry::IdentRegistry;
use fog_schemars::rename::IdentRenames;
use fog_schemars::trie::{FixupState, IdentTracker};

fn id(path: &'static str, label: &'static str) -> Identifier {
    Name::new(path, label).id().clone()
}

fn short_of(map: &IdentRenames, path: &'static str, label: &'static str) -> String {
    let full = id(path, label);
    match map.get(&full) {
        Some(to) => to.render(),
        None => full.render(),
    }
}

fn registry_of(ids: &[(&'static str, &'static str)]) -> IdentRegistry {
    let mut registry = IdentRegistry::new();
    for (path, label) in ids {
        registry.register(&id(path, label));
    }
    registry
}

#[test]
fn diverging_parents_keep_the_branch() {
    let registry = registry_of(&[("a::b", "Config"), ("a::c", "Config")]);
    let map = registry.renames();
    assert_eq!(short_of(&map, "a::b", "Config"), "b::Config");
    assert_eq!(short_of(&map, "a::c", "Config"), "c::Config");
}

#[test]
fn lone_identifier_shortens_to_its_label() {
    let registry = registry_of(&[("x::y::z", "Config")]);
    let map = registry.renames();
    assert_eq!(short_of(&map, "x::y::z", "Config"), "Config");
}

#[test]
fn crate_prefix_is_dropped_and_branches_stay() {
    let registry = registry_of(&[("crate::foo", "Config"), ("crate::bar", "Config")]);
    let map = registry.renames();
    assert_eq!(short_of(&map, "crate::foo", "Config"), "foo::Config");
    assert_eq!(short_of(&map, "crate::bar", "Config"), "bar::Config");
}

#[test]
fn branch_at_the_root_keeps_only_the_first_segment() {
    let registry = registry_of(&[("foo::thing", "Config"), ("bar::thing", "Config")]);
    let map = registry.renames();
    assert_eq!(short_of(&map, "foo::thing", "Config"), "foo::Config");
    assert_eq!(short_of(&map, "bar::thing", "Config"), "bar::Config");
}

#[test]
fn labels_are_shortened_apart() {
    let registry = registry_of(&[("a::b", "Config"), ("a::c", "Other")]);
    let map = registry.renames();
    assert_eq!(short_of(&map, "a::b", "Config"), "Config");
    assert_eq!(short_of(&map, "a::c", "Other"), "Other");
}

#[test]
fn registered_prefix_keeps_what_follows() {
    let registry = registry_of(&[("a", "C"), ("a::a::b", "C"), ("a::b", "C")]);
    let map = registry.renames();
    assert_eq!(short_of(&map, "a", "C"), "C");
    assert_eq!(short_of(&map, "a::a::b", "C"), "a::C");
    assert_eq!(short_of(&map, "a::b", "C"), "b::C");
}

#[test]
fn identifier_that_is_short_already_is_not_renamed() {
    let registry = registry_of(&[("a", "T"), ("b", "T")]);
    let map = registry.renames();
    assert!(map.get(&id("a", "T")).is_none());
    assert!(map.get(&id("b", "T")).is_none());
}

#[test]
fn short_forms_of_distinct_identifiers_differ() {
    let ids: [(&'static str, &'static str); 9] = [
        ("a", "C"),
        ("a::a::b", "C"),
        ("a::b", "C"),
        ("a::b::c::d", "C"),
        ("a::b::c::e", "C"),
        ("x::y", "D"),
        ("x::y::z", "D"),
        ("", "D"),
        ("q::r::s", "E"),
    ];
    let registry = registry_of(&ids);
    let map = registry.renames();
    let shorts: Vec<String> = ids.iter().map(|(p, l)| short_of(&map, p, l)).collect();
    for i in 0..shorts.len() {
        for j in (i + 1)..shorts.len() {
            assert_ne!(shorts[i], shorts[j]);
        }
    }
}

#[test]
fn order_of_registration_does_not_matter() {
    let ids: [(&'static str, &'static str); 4] =
        [("a::b", "C"), ("a::c", "C"), ("a", "C"), ("z::y", "D")];
    let forward = registry_of(&ids).renames();
    let mut reversed = ids;
    reversed.reverse();
    let backward = registry_of(&reversed).renames();
    for (path, label) in ids {
        assert_eq!(short_of(&forward, path, label), short_of(&backward, path, label));
    }
}

#[test]
fn registering_twice_changes_nothing() {
    let once = registry_of(&[("a::b", "C"), ("a::c", "C")]).renames();
    let twice = registry_of(&[("a::b", "C"), ("a::c", "C"), ("a::b", "C")]).renames();
    for (path, label) in [("a::b", "C"), ("a::c", "C")] {
        assert_eq!(short_of(&once, path, label), short_of(&twice, path, label));
    }
}

#[test]
fn tracker_walk_records_the_short_forms() {
    let mut tracker = IdentTracker::default();
    tracker.modify(&vec!["a", "b"]);
    tracker.modify(&vec!["a", "c"]);
    let mut state = FixupState::new(IdentRenames::new(), "Config");
    tracker.shorten(&mut state);
    let map = state.into_renames();
    assert_eq!(short_of(&map, "a::b", "Config"), "b::Config");
    assert_eq!(short_of(&map, "a::c", "Config"), "c::Config");
}

#[test]
fn tracker_of_the_empty_path_marks_the_root() {
    let mut tracker = IdentTracker::default();
    tracker.modify(&Vec::new());
    tracker.modify(&vec!["a"]);
    let mut state = FixupState::new(IdentRenames::new(), "T");
    tracker.shorten(&mut state);
    let map = state.into_renames();
    assert!(map.get(&Identifier::from_parts(vec![], "T")).is_none());
    assert!(map.get(&Identifier::from_parts(vec!["a"], "T")).is_none());
}

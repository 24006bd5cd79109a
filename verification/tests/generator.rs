use fog_pack::validator::{ArrayValidator, IntValidator, MapValidator, StrValidator};
use fog_schemars::generator::{computed_by, Admission};
use fog_schemars::{
    CollisionPolicy, FogValidate, Name, SchemaError, SchemaGenerator, ValidatorTree,
};

fn int_leaf() -> ValidatorTree {
    ValidatorTree::Leaf(IntValidator::new().build())
}

fn reference(key: &str) -> ValidatorTree {
    ValidatorTree::Ref(key.to_string())
}

fn array_of(items: ValidatorTree) -> ValidatorTree {
    ValidatorTree::Array {
        contains: Vec::new(),
        items: Box::new(items),
        prefix: Vec::new(),
        rules: ArrayValidator::new(),
    }
}

fn record(fields: Vec<(&str, ValidatorTree)>) -> ValidatorTree {
    ValidatorTree::Mapping {
        req: fields.into_iter().map(|(k, v)| (k.to_string(), v)).collect(),
        opt: Vec::new(),
        values: None,
        rules: MapValidator::new(),
    }
}

/// A plain number: never shared.
struct Number;

impl FogValidate for Number {
    fn origin(_: bool) -> String {
        "tests::Number".to_string()
    }

    fn should_reference(_: bool) -> bool {
        false
    }

    fn has_opt() -> bool {
        false
    }

    fn validator_name(_: bool) -> Name {
        Name::new("", "Number")
    }

    fn validator(_: &mut SchemaGenerator, _: bool) -> Result<ValidatorTree, SchemaError> {
        Ok(int_leaf())
    }
}

/// A shared record of two numbers.
struct Point;

impl FogValidate for Point {
    fn origin(_: bool) -> String {
        "tests::geometry::Point".to_string()
    }

    fn should_reference(_: bool) -> bool {
        true
    }

    fn has_opt() -> bool {
        false
    }

    fn validator_name(_: bool) -> Name {
        Name::new("tests::geometry", "Point")
    }

    fn validator(gen: &mut SchemaGenerator, _: bool) -> Result<ValidatorTree, SchemaError> {
        Ok(record(vec![("x", gen.type_add::<Number>()?), ("y", gen.type_add::<Number>()?)]))
    }
}

/// A shape that uses `Point` twice.
struct Segment;

impl FogValidate for Segment {
    fn origin(_: bool) -> String {
        "tests::geometry::Segment".to_string()
    }

    fn should_reference(_: bool) -> bool {
        true
    }

    fn has_opt() -> bool {
        false
    }

    fn validator_name(_: bool) -> Name {
        Name::new("tests::geometry", "Segment")
    }

    fn validator(gen: &mut SchemaGenerator, _: bool) -> Result<ValidatorTree, SchemaError> {
        Ok(record(vec![("from", gen.type_add::<Point>()?), ("to", gen.type_add::<Point>()?)]))
    }
}

/// A tree node that holds nodes.
struct Node;

impl FogValidate for Node {
    fn origin(_: bool) -> String {
        "tests::Node".to_string()
    }

    fn should_reference(_: bool) -> bool {
        true
    }

    fn has_opt() -> bool {
        false
    }

    fn validator_name(_: bool) -> Name {
        Name::new("tests", "Node")
    }

    fn validator(gen: &mut SchemaGenerator, _: bool) -> Result<ValidatorTree, SchemaError> {
        Ok(record(vec![("children", array_of(gen.type_add::<Node>()?))]))
    }
}

/// Two shapes that hold each other.
struct Ping;

struct Pong;

impl FogValidate for Ping {
    fn origin(_: bool) -> String {
        "tests::Ping".to_string()
    }

    fn should_reference(_: bool) -> bool {
        true
    }

    fn has_opt() -> bool {
        false
    }

    fn validator_name(_: bool) -> Name {
        Name::new("tests", "Ping")
    }

    fn validator(gen: &mut SchemaGenerator, _: bool) -> Result<ValidatorTree, SchemaError> {
        Ok(record(vec![("next", gen.type_add::<Pong>()?)]))
    }
}

impl FogValidate for Pong {
    fn origin(_: bool) -> String {
        "tests::Pong".to_string()
    }

    fn should_reference(_: bool) -> bool {
        true
    }

    fn has_opt() -> bool {
        false
    }

    fn validator_name(_: bool) -> Name {
        Name::new("tests", "Pong")
    }

    fn validator(gen: &mut SchemaGenerator, _: bool) -> Result<ValidatorTree, SchemaError> {
        Ok(record(vec![("next", array_of(gen.type_add::<Ping>()?))]))
    }
}

/// Two different shapes that give the same name.
struct FooOne;

struct FooTwo;

struct FooThree;

impl FogValidate for FooOne {
    fn origin(_: bool) -> String {
        "tests::FooOne".to_string()
    }

    fn should_reference(_: bool) -> bool {
        true
    }

    fn has_opt() -> bool {
        false
    }

    fn validator_name(_: bool) -> Name {
        Name::new("", "Foo")
    }

    fn validator(_: &mut SchemaGenerator, _: bool) -> Result<ValidatorTree, SchemaError> {
        Ok(int_leaf())
    }
}

impl FogValidate for FooTwo {
    fn origin(_: bool) -> String {
        "tests::FooTwo".to_string()
    }

    fn should_reference(_: bool) -> bool {
        true
    }

    fn has_opt() -> bool {
        false
    }

    fn validator_name(_: bool) -> Name {
        Name::new("", "Foo")
    }

    fn validator(_: &mut SchemaGenerator, _: bool) -> Result<ValidatorTree, SchemaError> {
        Ok(ValidatorTree::Leaf(StrValidator::new().build()))
    }
}

impl FogValidate for FooThree {
    fn origin(_: bool) -> String {
        "tests::FooThree".to_string()
    }

    fn should_reference(_: bool) -> bool {
        true
    }

    fn has_opt() -> bool {
        false
    }

    fn validator_name(_: bool) -> Name {
        Name::new("", "Foo")
    }

    fn validator(_: &mut SchemaGenerator, _: bool) -> Result<ValidatorTree, SchemaError> {
        Ok(ValidatorTree::Null)
    }
}

/// A shape with another validator where it may be left out.
struct Count;

impl FogValidate for Count {
    fn origin(_: bool) -> String {
        "tests::Count".to_string()
    }

    fn should_reference(_: bool) -> bool {
        true
    }

    fn has_opt() -> bool {
        true
    }

    fn validator_name(opt: bool) -> Name {
        Name::new("tests", if opt { "NonZeroCount" } else { "Count" })
    }

    fn validator(_: &mut SchemaGenerator, opt: bool) -> Result<ValidatorTree, SchemaError> {
        Ok(if opt { ValidatorTree::Leaf(IntValidator::new().nin_add(0).build()) } else { int_leaf() })
    }
}

#[test]
fn resolving_twice_gives_two_references_to_one_entry() {
    let mut gen = SchemaGenerator::empty(CollisionPolicy::Strict);
    let first = gen.type_add::<Point>().unwrap();
    let second = gen.type_add::<Point>().unwrap();
    assert_eq!(first, reference("tests::geometry::Point"));
    assert_eq!(second, reference("tests::geometry::Point"));
    assert_eq!(gen.type_count(), 1);
    assert_eq!(gen.type_keys(), vec!["tests::geometry::Point".to_string()]);
    assert_eq!(
        gen.type_get("tests::geometry::Point"),
        Some(&record(vec![("x", int_leaf()), ("y", int_leaf())]))
    );
}

#[test]
fn unshared_descriptor_is_inlined() {
    let mut gen = SchemaGenerator::empty(CollisionPolicy::Strict);
    assert_eq!(gen.type_add::<Number>().unwrap(), int_leaf());
    assert_eq!(gen.type_count(), 0);
}

#[test]
fn nested_descriptor_is_shared() {
    let mut gen = SchemaGenerator::empty(CollisionPolicy::Strict);
    assert_eq!(gen.type_add::<Segment>().unwrap(), reference("tests::geometry::Segment"));
    assert_eq!(
        gen.type_keys(),
        vec!["tests::geometry::Segment".to_string(), "tests::geometry::Point".to_string()]
    );
    assert_eq!(
        gen.type_get("tests::geometry::Segment"),
        Some(&record(vec![
            ("from", reference("tests::geometry::Point")),
            ("to", reference("tests::geometry::Point")),
        ]))
    );
}

#[test]
fn self_reference_ends_with_one_entry_that_refers_to_itself() {
    let mut gen = SchemaGenerator::empty(CollisionPolicy::Strict);
    assert_eq!(gen.type_add::<Node>().unwrap(), reference("tests::Node"));
    assert_eq!(gen.type_count(), 1);
    assert_eq!(
        gen.type_get("tests::Node"),
        Some(&record(vec![("children", array_of(reference("tests::Node")))]))
    );
}

#[test]
fn mutual_recursion_ends_with_one_entry_each() {
    let mut gen = SchemaGenerator::empty(CollisionPolicy::Strict);
    assert_eq!(gen.type_add::<Ping>().unwrap(), reference("tests::Ping"));
    assert_eq!(gen.type_count(), 2);
    assert_eq!(
        gen.type_get("tests::Ping"),
        Some(&record(vec![("next", reference("tests::Pong"))]))
    );
    assert_eq!(
        gen.type_get("tests::Pong"),
        Some(&record(vec![("next", array_of(reference("tests::Ping")))]))
    );
}

#[test]
fn opt_is_dropped_where_the_shape_has_no_other_form() {
    let mut gen = SchemaGenerator::empty(CollisionPolicy::Strict);
    assert_eq!(gen.type_add_opt::<Point>().unwrap(), reference("tests::geometry::Point"));
    assert_eq!(gen.type_add::<Point>().unwrap(), reference("tests::geometry::Point"));
    assert_eq!(gen.type_count(), 1);
}

#[test]
fn opt_form_has_its_own_entry() {
    let mut gen = SchemaGenerator::empty(CollisionPolicy::Strict);
    assert_eq!(gen.type_add::<Count>().unwrap(), reference("tests::Count"));
    assert_eq!(gen.type_add_opt::<Count>().unwrap(), reference("tests::NonZeroCount"));
    assert_eq!(gen.type_count(), 2);
    assert_eq!(
        gen.type_get("tests::NonZeroCount"),
        Some(&ValidatorTree::Leaf(IntValidator::new().nin_add(0).build()))
    );
}

#[test]
fn strict_policy_reports_both_descriptors() {
    let mut gen = SchemaGenerator::empty(CollisionPolicy::Strict);
    assert_eq!(gen.type_add::<FooOne>().unwrap(), reference("::Foo"));
    match gen.type_add::<FooTwo>() {
        Err(SchemaError::NameCollision { key, first, second }) => {
            assert_eq!(key, "::Foo");
            assert_eq!(first, "tests::FooOne");
            assert_eq!(second, "tests::FooTwo");
        }
        other => panic!("expected a name collision, got {:?}", other),
    }
    assert_eq!(gen.type_count(), 1);
    assert_eq!(gen.type_add::<FooOne>().unwrap(), reference("::Foo"));
}

#[test]
fn suffix_policy_numbers_later_arrivals() {
    let mut gen = SchemaGenerator::empty(CollisionPolicy::Suffix);
    assert_eq!(gen.type_add::<FooOne>().unwrap(), reference("::Foo"));
    assert_eq!(gen.type_add::<FooTwo>().unwrap(), reference("::Foo_1"));
    assert_eq!(gen.type_add::<FooThree>().unwrap(), reference("::Foo_2"));
    assert_eq!(gen.type_add::<FooTwo>().unwrap(), reference("::Foo_1"));
    assert_eq!(gen.type_add::<FooOne>().unwrap(), reference("::Foo"));
    assert_eq!(
        gen.type_keys(),
        vec!["::Foo".to_string(), "::Foo_1".to_string(), "::Foo_2".to_string()]
    );
    assert_eq!(gen.type_get("::Foo"), Some(&int_leaf()));
    assert_eq!(gen.type_get("::Foo_1"), Some(&ValidatorTree::Leaf(StrValidator::new().build())));
    assert_eq!(gen.type_get("::Foo_2"), Some(&ValidatorTree::Null));
}

#[test]
fn request_and_define_by_hand() {
    let mut gen = SchemaGenerator::empty(CollisionPolicy::Strict);
    let name = Name::new("m", "T");
    match gen.request(&name, "origin", true).unwrap() {
        Admission::Claimed(key) => assert_eq!(key, "m::T"),
        other => panic!("expected a claim, got {:?}", other),
    }
    assert_eq!(gen.type_get("m::T"), Some(&ValidatorTree::Any));
    match gen.request(&name, "origin", true).unwrap() {
        Admission::Known(key) => assert_eq!(key, "m::T"),
        other => panic!("expected a known entry, got {:?}", other),
    }
    assert_eq!(gen.define(&name, "origin", int_leaf()).unwrap(), reference("m::T"));
    assert_eq!(gen.type_get("m::T"), Some(&int_leaf()));
    match gen.request(&Name::new("m", "U"), "origin", false).unwrap() {
        Admission::Inline => {}
        other => panic!("expected inlining, got {:?}", other),
    }
    assert_eq!(gen.type_count(), 1);
}

#[test]
fn define_without_a_claim_claims_first() {
    let mut gen = SchemaGenerator::empty(CollisionPolicy::Suffix);
    let name = Name::new("m", "T");
    assert_eq!(gen.define(&name, "one", int_leaf()).unwrap(), reference("m::T"));
    assert_eq!(gen.define(&name, "two", ValidatorTree::Null).unwrap(), reference("m::T_1"));
    assert_eq!(gen.define(&name, "one", ValidatorTree::Any).unwrap(), reference("m::T"));
    assert_eq!(gen.type_get("m::T"), Some(&ValidatorTree::Any));
    assert_eq!(gen.type_get("m::T_1"), Some(&ValidatorTree::Null));
}

#[test]
fn suffixed_key_that_is_taken_is_reported_under_that_key() {
    let mut gen = SchemaGenerator::empty(CollisionPolicy::Suffix);
    gen.define(&Name::new("m", "T_1"), "other", int_leaf()).unwrap();
    gen.define(&Name::new("m", "T"), "one", int_leaf()).unwrap();
    match gen.define(&Name::new("m", "T"), "two", int_leaf()) {
        Err(SchemaError::NameCollision { key, first, second }) => {
            assert_eq!(key, "m::T_1");
            assert_eq!(first, "other");
            assert_eq!(second, "two");
        }
        other => panic!("expected a name collision, got {:?}", other),
    }
    assert_eq!(gen.type_count(), 2);
}

#[test]
fn strict_collision_names_the_holder_of_the_name() {
    let mut gen = SchemaGenerator::empty(CollisionPolicy::Strict);
    gen.define(&Name::new("m", "T_1"), "other", int_leaf()).unwrap();
    gen.define(&Name::new("m", "T"), "one", int_leaf()).unwrap();
    match gen.define(&Name::new("m", "T"), "two", int_leaf()) {
        Err(SchemaError::NameCollision { key, first, second }) => {
            assert_eq!(key, "m::T");
            assert_eq!(first, "one");
            assert_eq!(second, "two");
        }
        other => panic!("expected a name collision, got {:?}", other),
    }
    match gen.request(&Name::new("m", "T"), "three", true) {
        Err(SchemaError::NameCollision { key, first, second }) => {
            assert_eq!(key, "m::T");
            assert_eq!(first, "one");
            assert_eq!(second, "three");
        }
        other => panic!("expected a name collision, got {:?}", other),
    }
    assert_eq!(gen.type_keys(), vec!["m::T_1".to_string(), "m::T".to_string()]);
}

#[test]
fn strict_policy_takes_a_name_with_a_number_as_it_is() {
    let mut gen = SchemaGenerator::empty(CollisionPolicy::Strict);
    gen.define(&Name::new("m", "T"), "one", int_leaf()).unwrap();
    assert_eq!(
        gen.define(&Name::new("m", "T_1"), "other", int_leaf()).unwrap(),
        reference("m::T_1")
    );
    assert_eq!(gen.type_keys(), vec!["m::T".to_string(), "m::T_1".to_string()]);
}

#[test]
fn optional_shapes_with_one_name_are_told_apart_by_their_parameter() {
    let mut gen = SchemaGenerator::empty(CollisionPolicy::Strict);
    let name = "std::option::Option<std::time::Duration>";
    assert_eq!(gen.type_add::<Option<std::time::Duration>>().unwrap(), reference(name));
    let before = gen.type_keys();
    match gen.type_add::<Option<std::time::SystemTime>>() {
        Err(SchemaError::NameCollision { key, first, second }) => {
            assert_eq!(key, name);
            assert_eq!(first, "std::option::Option<std::time::Duration>");
            assert_eq!(second, "std::option::Option<std::time::SystemTime>");
        }
        other => panic!("expected a name collision, got {:?}", other),
    }
    assert_eq!(gen.type_keys(), before);
    assert_eq!(gen.type_add::<Option<std::time::Duration>>().unwrap(), reference(name));
}

#[test]
fn markers_of_shared_shapes_tell_their_parameters() {
    assert_eq!(<Option<u8> as FogValidate>::origin(false), "std::option::Option<u8>");
    assert_eq!(<Option<u8> as FogValidate>::origin(true), "u8");
    assert_eq!(<[bool; 4] as FogValidate>::origin(false), "Array4<bool>");
    assert_eq!(<Result<u8, bool> as FogValidate>::origin(false), "std::result::Result<u8,bool>");
    assert_eq!(
        <std::ops::Bound<Option<u8>> as FogValidate>::origin(false),
        "std::ops::Bound<std::option::Option<u8>>"
    );
    assert_eq!(<std::ops::Range<u8> as FogValidate>::origin(true), "std::ops::Range<u8>");
    assert_eq!(<std::ops::RangeTo<u8> as FogValidate>::origin(false), "std::ops::RangeTo<u8>");
    assert_ne!(
        <Option<std::time::Duration> as FogValidate>::origin(false),
        <Option<std::time::SystemTime> as FogValidate>::origin(false)
    );
    assert_eq!(<Vec<u8> as FogValidate>::origin(false), "Vec");
}

#[test]
fn duplicate_entry_label_is_refused() {
    let gen = SchemaGenerator::new::<Point>().unwrap();
    let gen = gen.entry_add::<Number>("item", None).unwrap();
    match gen.entry_add::<Point>("item", None) {
        Err(SchemaError::DuplicateEntry { label }) => assert_eq!(label, "item"),
        other => panic!("expected a duplicate entry, got {:?}", other.map(|_| ())),
    }
}

#[test]
fn error_messages_name_the_offender() {
    let collision = SchemaError::NameCollision {
        key: "a::T".to_string(),
        first: "one".to_string(),
        second: "two".to_string(),
    };
    assert_eq!(collision.message(), "type name a::T is given by two descriptors: one and two");
    let optional = SchemaError::ImpossibleOptional { origin: "unit".to_string() };
    assert_eq!(
        optional.message(),
        "an optional null cannot be told from an absent value, in unit"
    );
    let entry = SchemaError::DuplicateEntry { label: "item".to_string() };
    assert_eq!(entry.message(), "entry label item is already in use");
    assert_eq!(SchemaError::NoDocument.message(), "the schema has no document validator");
}

fn seconds_and_nanos(secs: &str, nanos: &str) -> ValidatorTree {
    record(vec![
        (secs, ValidatorTree::Leaf(IntValidator::new().min(0).max(u64::MAX).build())),
        (nanos, ValidatorTree::Leaf(IntValidator::new().min(0).max(999_999_999).build())),
    ])
}

#[test]
fn duration_resolved_twice_has_one_entry() {
    let mut gen = SchemaGenerator::new::<u8>().unwrap();
    let first = gen.type_add::<std::time::Duration>().unwrap();
    let second = gen.type_add::<std::time::Duration>().unwrap();
    assert_eq!(first, reference("std::time::Duration"));
    assert_eq!(second, first);
    assert_eq!(gen.type_count(), 1);
    assert_eq!(gen.type_keys(), vec!["std::time::Duration".to_string()]);
    assert_eq!(gen.type_get("std::time::Duration"), Some(&seconds_and_nanos("secs", "nanos")));
}

#[test]
fn optional_duration_that_may_be_left_out_is_the_duration() {
    let mut gen = SchemaGenerator::new::<u8>().unwrap();
    let answer = gen.type_add_opt::<Option<std::time::Duration>>().unwrap();
    assert_eq!(answer, reference("std::time::Duration"));
    assert_eq!(gen.type_keys(), vec!["std::time::Duration".to_string()]);
    assert_eq!(gen.type_get("std::time::Duration"), Some(&seconds_and_nanos("secs", "nanos")));
    for key in gen.type_keys() {
        assert_ne!(gen.type_get(&key), Some(&reference(&key)));
    }
}

#[test]
fn built_in_descriptors_say_whether_they_are_shared() {
    assert!(<std::time::Duration as FogValidate>::should_reference(false));
    assert!(<std::time::SystemTime as FogValidate>::should_reference(true));
    assert!(<[u8; 4] as FogValidate>::should_reference(false));
    assert!(!<[u8; 4] as FogValidate>::has_opt());
    assert!(<Result<u8, u8> as FogValidate>::should_reference(false));
    assert!(!<Result<u8, u8> as FogValidate>::has_opt());
    assert!(<std::ops::Range<u8> as FogValidate>::should_reference(false));
    assert!(<std::ops::Range<u8> as FogValidate>::has_opt());
    assert!(!<(u8, u8) as FogValidate>::should_reference(false));
    assert!(!<(u8, u8) as FogValidate>::has_opt());
    assert!(!<fog_pack::types::Hash as FogValidate>::has_opt());
}

#[test]
fn descriptor_computes_on_the_generator_it_is_given() {
    let mut gen = SchemaGenerator::empty(CollisionPolicy::Strict);
    let (plain, _) = computed_by::<Number>(&mut gen, false);
    assert_eq!(plain.unwrap(), int_leaf());
    assert_eq!(gen.type_count(), 0);
    let (nested, _) = computed_by::<Segment>(&mut gen, false);
    assert_eq!(
        nested.unwrap(),
        record(vec![
            ("from", reference("tests::geometry::Point")),
            ("to", reference("tests::geometry::Point")),
        ])
    );
    assert_eq!(gen.type_keys(), vec!["tests::geometry::Point".to_string()]);
}

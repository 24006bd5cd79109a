use fog_pack::schema::{Compress, Schema as FogSchema};
use fog_pack::types::Integer;
use fog_pack::validator::{ArrayValidator, IntValidator, MapValidator, Validator};
use fog_schemars::fixup::{fixup, Fixups};
use fog_schemars::generator::RootItem;
use fog_schemars::schema::handed_on;
use fog_schemars::{
    CollisionPolicy, FogValidate, Name, SchemaError, SchemaGenerator, ValidatorTree,
};

fn int_leaf() -> ValidatorTree {
    ValidatorTree::Leaf(IntValidator::new().build())
}

fn reference(key: &str) -> ValidatorTree {
    ValidatorTree::Ref(key.to_string())
}

fn array_of(items: ValidatorTree) -> ValidatorTree {
    ValidatorTree::Array {
        contains: Vec::new(),
        items: Box::new(items),
        prefix: Vec::new(),
        rules: ArrayValidator::new(),
    }
}

fn record(fields: Vec<(&str, ValidatorTree)>) -> ValidatorTree {
    ValidatorTree::Mapping {
        req: fields.into_iter().map(|(k, v)| (k.to_string(), v)).collect(),
        opt: Vec::new(),
        values: None,
        rules: MapValidator::new(),
    }
}

struct Config;

struct OtherConfig;

struct Settings;

impl FogValidate for Config {
    fn origin(_: bool) -> String {
        "app::net::Config".to_string()
    }

    fn should_reference(_: bool) -> bool {
        true
    }

    fn has_opt() -> bool {
        false
    }

    fn validator_name(_: bool) -> Name {
        Name::new("app::net", "Config")
    }

    fn validator(_: &mut SchemaGenerator, _: bool) -> Result<ValidatorTree, SchemaError> {
        Ok(record(vec![("port", int_leaf())]))
    }
}

impl FogValidate for OtherConfig {
    fn origin(_: bool) -> String {
        "app::disk::Config".to_string()
    }

    fn should_reference(_: bool) -> bool {
        true
    }

    fn has_opt() -> bool {
        false
    }

    fn validator_name(_: bool) -> Name {
        Name::new("app::disk", "Config")
    }

    fn validator(_: &mut SchemaGenerator, _: bool) -> Result<ValidatorTree, SchemaError> {
        Ok(record(vec![("size", int_leaf())]))
    }
}

impl FogValidate for Settings {
    fn origin(_: bool) -> String {
        "app::Settings".to_string()
    }

    fn should_reference(_: bool) -> bool {
        true
    }

    fn has_opt() -> bool {
        false
    }

    fn validator_name(_: bool) -> Name {
        Name::new("app", "Settings")
    }

    fn validator(gen: &mut SchemaGenerator, _: bool) -> Result<ValidatorTree, SchemaError> {
        Ok(record(vec![
            ("net", gen.type_add::<Config>()?),
            ("disks", array_of(gen.type_add::<OtherConfig>()?)),
            ("parent", ValidatorTree::Multi(vec![ValidatorTree::Null, gen.type_add::<Settings>()?])),
        ]))
    }
}

fn names_of(schema: &fog_schemars::Schema) -> Vec<String> {
    (0..schema.type_count()).map(|i| schema.type_name_at(i).clone()).collect()
}

#[test]
fn assemble_shortens_names_and_rewrites_references() {
    let schema = SchemaGenerator::new::<Settings>().unwrap().assemble().unwrap();
    assert_eq!(schema.doc(), &reference("Settings"));
    assert_eq!(
        names_of(&schema),
        vec!["net::Config".to_string(), "disk::Config".to_string(), "Settings".to_string()]
    );
    assert_eq!(
        schema.type_get("Settings"),
        Some(&record(vec![
            ("net", reference("net::Config")),
            ("disks", array_of(reference("disk::Config"))),
            ("parent", ValidatorTree::Multi(vec![ValidatorTree::Null, reference("Settings")])),
        ]))
    );
    assert_eq!(schema.type_get("net::Config"), Some(&record(vec![("port", int_leaf())])));
    assert_eq!(schema.type_get("disk::Config"), Some(&record(vec![("size", int_leaf())])));
    assert_eq!(schema.type_get("app::Settings"), None);
}

#[test]
fn no_reference_points_to_a_name_that_was_shortened_away() {
    let schema = SchemaGenerator::new::<Settings>()
        .unwrap()
        .entry_add::<Config>("net", None)
        .unwrap()
        .assemble()
        .unwrap();
    let old_names = ["app::Settings", "app::net::Config", "app::disk::Config"];
    let mut texts = vec![format!("{:?}", schema.doc())];
    for i in 0..schema.type_count() {
        texts.push(format!("{:?}", schema.type_validator_at(i)));
    }
    for i in 0..schema.entry_count() {
        texts.push(format!("{:?}", schema.entry_validator_at(i)));
    }
    for text in texts {
        for old in old_names {
            assert!(!text.contains(&format!("Ref(\"{}\")", old)), "{} in {}", old, text);
        }
    }
}

#[test]
fn top_level_validators_give_way_to_shared_entries() {
    let schema = SchemaGenerator::new::<Config>()
        .unwrap()
        .entry_add::<OtherConfig>("disk", None)
        .unwrap()
        .entry_add::<Settings>("all", Some(Compress::None))
        .unwrap()
        .assemble()
        .unwrap();
    assert_eq!(schema.doc(), &reference("net::Config"));
    assert_eq!(schema.entry_count(), 2);
    assert_eq!(schema.entry_label_at(0), "disk");
    assert_eq!(schema.entry_validator_at(0), &reference("disk::Config"));
    assert!(schema.entry_compress_at(0).is_none());
    assert_eq!(schema.entry_label_at(1), "all");
    assert_eq!(schema.entry_validator_at(1), &reference("Settings"));
    assert!(schema.entry_compress_at(1).is_some());
}

#[test]
fn root_that_is_not_shared_stays_inline() {
    let gen = SchemaGenerator::empty(CollisionPolicy::Strict)
        .document(RootItem::new(int_leaf(), "::Number".to_string(), "tests::Number"));
    let schema = gen.assemble().unwrap();
    assert_eq!(schema.doc(), &int_leaf());
    assert_eq!(schema.type_count(), 0);
}

#[test]
fn generator_without_document_cannot_be_built() {
    let gen = SchemaGenerator::empty(CollisionPolicy::Strict);
    assert!(matches!(gen.assemble(), Err(SchemaError::NoDocument)));
    let gen = SchemaGenerator::empty(CollisionPolicy::Strict);
    assert!(matches!(gen.build(), Err(SchemaError::NoDocument)));
}

#[test]
fn suffixed_names_keep_their_suffix_when_shortened() {
    let mut gen = SchemaGenerator::empty(CollisionPolicy::Suffix);
    gen.define(&Name::new("a::b", "T"), "one", int_leaf()).unwrap();
    gen.define(&Name::new("a::b", "T"), "two", reference("a::b::T")).unwrap();
    let schema = gen
        .document(RootItem::new(reference("a::b::T_1"), "root".to_string(), "root"))
        .assemble()
        .unwrap();
    assert_eq!(names_of(&schema), vec!["T".to_string(), "T_1".to_string()]);
    assert_eq!(schema.doc(), &reference("T_1"));
    assert_eq!(schema.type_get("T_1"), Some(&reference("T")));
}

#[test]
fn build_gives_a_schema_document() {
    let doc = SchemaGenerator::new::<Settings>()
        .unwrap()
        .description("settings of the app")
        .name("settings")
        .version(Integer::from(3u32))
        .regexes(2)
        .doc_compress(Compress::None)
        .entry_add::<Config>("net", None)
        .unwrap()
        .build()
        .unwrap();
    let schema = FogSchema::from_doc(&doc).unwrap();
    assert_eq!(schema.hash(), doc.hash());
}

#[test]
fn build_equals_the_schema_built_by_hand() {
    let doc = SchemaGenerator::new::<Settings>()
        .unwrap()
        .name("settings")
        .regexes(1)
        .entry_add::<OtherConfig>("disk", None)
        .unwrap()
        .build()
        .unwrap();
    let port = MapValidator::new().req_add("port", IntValidator::new().build()).build();
    let size = MapValidator::new().req_add("size", IntValidator::new().build()).build();
    let settings = MapValidator::new()
        .req_add("net", Validator::new_ref("net::Config"))
        .req_add("disks", ArrayValidator::new().items(Validator::new_ref("disk::Config")).build())
        .req_add(
            "parent",
            fog_pack::validator::MultiValidator::new()
                .push(Validator::Null)
                .push(Validator::new_ref("Settings"))
                .build(),
        )
        .build();
    let by_hand = fog_pack::schema::SchemaBuilder::new(Validator::new_ref("Settings"))
        .regexes(1)
        .name("settings")
        .entry_add("disk", Validator::new_ref("disk::Config"), None)
        .type_add("net::Config", port)
        .type_add("disk::Config", size)
        .type_add("Settings", settings)
        .build()
        .unwrap();
    assert_eq!(doc.hash(), by_hand.hash());
}

#[test]
fn build_of_an_inline_document_equals_the_schema_built_by_hand() {
    let doc = SchemaGenerator::new::<Config>()
        .unwrap()
        .description("one config")
        .version(Integer::from(7u8))
        .doc_compress(Compress::new_zstd_general(3))
        .entry_add::<OtherConfig>("disk", Some(Compress::None))
        .unwrap()
        .build()
        .unwrap();
    let port = MapValidator::new().req_add("port", IntValidator::new().build()).build();
    let size = MapValidator::new().req_add("size", IntValidator::new().build()).build();
    let by_hand = fog_pack::schema::SchemaBuilder::new(port)
        .description("one config")
        .version(7u8)
        .doc_compress(Compress::new_zstd_general(3))
        .entry_add("disk", size, Some(Compress::None))
        .build()
        .unwrap();
    assert_eq!(doc.hash(), by_hand.hash());
}

#[test]
fn building_twice_gives_the_same_document() {
    let build = || {
        SchemaGenerator::new::<Settings>()
            .unwrap()
            .description("twice")
            .entry_add::<Config>("net", None)
            .unwrap()
            .entry_add::<OtherConfig>("disk", None)
            .unwrap()
            .build()
            .unwrap()
    };
    let first = build();
    let second = build();
    assert_eq!(first.hash(), second.hash());
}

#[test]
fn fixup_rewrites_every_kind_of_validator() {
    let mut fixups = Fixups::new();
    fixups.insert("a::T".to_string(), "T".to_string());
    fixups.insert("a::T".to_string(), "ignored".to_string());
    assert_eq!(fixups.get("a::T"), Some(&"T".to_string()));
    assert_eq!(fixups.get("T"), None);
    let old = || reference("a::T");
    let new = || reference("T");
    let kept = || reference("b::U");
    let make = |r: &dyn Fn() -> ValidatorTree| {
        ValidatorTree::Multi(vec![
            ValidatorTree::Array {
                contains: vec![r(), kept()],
                items: Box::new(r()),
                prefix: vec![int_leaf(), r()],
                rules: ArrayValidator::new().min_len(1),
            },
            ValidatorTree::Mapping {
                req: vec![("x".to_string(), r())],
                opt: vec![("y".to_string(), ValidatorTree::Any), ("z".to_string(), r())],
                values: Some(Box::new(r())),
                rules: MapValidator::new(),
            },
            ValidatorTree::Hash {
                link: Some(Box::new(r())),
                rules: fog_pack::validator::HashValidator::new(),
            },
            ValidatorTree::Enum(vec![
                ("A".to_string(), None),
                ("B".to_string(), Some(r())),
                ("C".to_string(), Some(ValidatorTree::Null)),
            ]),
            r(),
            kept(),
        ])
    };
    let mut tree = make(&old);
    fixup(&fixups, &mut tree);
    assert_eq!(tree, make(&new));
}

#[test]
fn suffixed_names_of_the_schema() {
    let mut gen = SchemaGenerator::empty(CollisionPolicy::Suffix);
    gen.define(&Name::new("", "Foo"), "one", int_leaf()).unwrap();
    gen.define(&Name::new("", "Foo"), "two", ValidatorTree::Null).unwrap();
    let schema = gen
        .document(RootItem::new(ValidatorTree::Any, "root".to_string(), "root"))
        .assemble()
        .unwrap();
    assert_eq!(names_of(&schema), vec!["Foo".to_string(), "Foo_1".to_string()]);
    assert_eq!(schema.type_get("Foo"), Some(&int_leaf()));
    assert_eq!(schema.type_get("Foo_1"), Some(&ValidatorTree::Null));
}

#[test]
fn refusal_of_fog_pack_is_handed_on() {
    let long = "x".repeat(2 << 20);
    let built = SchemaGenerator::new::<Config>().unwrap().description(&long).build();
    match built {
        Err(SchemaError::Assembler(_)) => {}
        other => panic!("expected a refusal, got {:?}", other.map(|d| d.hash().clone())),
    }
    let error = SchemaGenerator::new::<Config>().unwrap().description(&long).build().unwrap_err();
    assert_eq!(error.message(), "the schema document could not be built");
}

#[test]
fn schema_names_are_the_texts_of_the_shortened_names() {
    let mut gen = SchemaGenerator::empty(CollisionPolicy::Strict);
    gen.type_add::<Settings>().unwrap();
    gen.type_add::<Option<Config>>().unwrap();
    let keys = gen.type_keys();
    assert_eq!(
        keys,
        vec![
            "app::Settings".to_string(),
            "app::net::Config".to_string(),
            "app::disk::Config".to_string(),
            "std::option::Option<app::net::Config>".to_string(),
        ]
    );
    let schema = gen
        .document(RootItem::new(ValidatorTree::Any, "root".to_string(), "root"))
        .assemble()
        .unwrap();
    assert_eq!(
        names_of(&schema),
        vec![
            "Settings".to_string(),
            "net::Config".to_string(),
            "disk::Config".to_string(),
            "Option<net::Config>".to_string(),
        ]
    );
    assert_eq!(
        schema.type_get("Option<net::Config>"),
        Some(&ValidatorTree::Multi(vec![ValidatorTree::Null, reference("net::Config")]))
    );
}

#[test]
fn short_name_that_was_the_full_name_of_another_entry() {
    let mut gen = SchemaGenerator::empty(CollisionPolicy::Strict);
    gen.define(&Name::new("a", "C"), "one", reference("a::a::b::C")).unwrap();
    gen.define(&Name::new("a::a::b", "C"), "two", reference("a::b::C")).unwrap();
    gen.define(&Name::new("a::b", "C"), "three", reference("a::C")).unwrap();
    let schema = gen
        .document(RootItem::new(reference("a::C"), "root".to_string(), "root"))
        .assemble()
        .unwrap();
    assert_eq!(names_of(&schema), vec!["C".to_string(), "a::C".to_string(), "b::C".to_string()]);
    assert_eq!(schema.doc(), &reference("C"));
    assert_eq!(schema.type_get("C"), Some(&reference("a::C")));
    assert_eq!(schema.type_get("a::C"), Some(&reference("b::C")));
    assert_eq!(schema.type_get("b::C"), Some(&reference("C")));
}

#[test]
fn answer_of_fog_pack_is_handed_on_as_it_is() {
    match handed_on(Err(fog_pack::error::Error::BadSignature)) {
        Err(SchemaError::Assembler(fog_pack::error::Error::BadSignature)) => {}
        other => panic!("expected the refusal, got {:?}", other.map(|d| d.hash().clone())),
    }
    let doc = SchemaGenerator::new::<Config>().unwrap().build().unwrap();
    let hash = doc.hash().clone();
    assert_eq!(handed_on(Ok(doc)).unwrap().hash(), &hash);
}

#[test]
fn list_of_optional_durations_has_two_types() {
    let schema = SchemaGenerator::new::<Vec<Option<std::time::Duration>>>()
        .unwrap()
        .assemble()
        .unwrap();
    assert_eq!(schema.doc(), &array_of(reference("Option<Duration>")));
    assert_eq!(names_of(&schema), vec!["Option<Duration>".to_string(), "Duration".to_string()]);
    assert_eq!(
        schema.type_get("Option<Duration>"),
        Some(&ValidatorTree::Multi(vec![ValidatorTree::Null, reference("Duration")]))
    );
    let secs = ValidatorTree::Leaf(IntValidator::new().min(0).max(u64::MAX).build());
    let nanos = ValidatorTree::Leaf(IntValidator::new().min(0).max(999_999_999).build());
    assert_eq!(schema.type_get("Duration"), Some(&record(vec![("secs", secs), ("nanos", nanos)])));
}

#[test]
fn list_of_optional_durations_builds_the_schema_built_by_hand() {
    let doc = SchemaGenerator::new::<Vec<Option<std::time::Duration>>>().unwrap().build().unwrap();
    let duration = MapValidator::new()
        .req_add("secs", IntValidator::new().min(0).max(u64::MAX).build())
        .req_add("nanos", IntValidator::new().min(0).max(999_999_999).build())
        .build();
    let optional = fog_pack::validator::MultiValidator::new()
        .push(Validator::Null)
        .push(Validator::new_ref("Duration"))
        .build();
    let by_hand = fog_pack::schema::SchemaBuilder::new(
        ArrayValidator::new().items(Validator::new_ref("Option<Duration>")).build(),
    )
    .type_add("Option<Duration>", optional)
    .type_add("Duration", duration)
    .build()
    .unwrap();
    assert_eq!(doc.hash(), by_hand.hash());
}

#[test]
fn order_of_adding_does_not_show_in_the_document() {
    let one = SchemaGenerator::new::<Config>()
        .unwrap()
        .entry_add::<OtherConfig>("disk", None)
        .unwrap()
        .entry_add::<Config>("net", Some(Compress::None))
        .unwrap()
        .build()
        .unwrap();
    let other = SchemaGenerator::new::<Config>()
        .unwrap()
        .entry_add::<Config>("net", Some(Compress::None))
        .unwrap()
        .entry_add::<OtherConfig>("disk", None)
        .unwrap()
        .build()
        .unwrap();
    assert_eq!(one.hash(), other.hash());
}

#[test]
fn suffixed_name_that_meets_another_name_after_shortening_is_reported() {
    let mut gen = SchemaGenerator::empty(CollisionPolicy::Suffix);
    gen.define(&Name::new("m", "X"), "one", int_leaf()).unwrap();
    gen.define(&Name::new("m", "X"), "two", ValidatorTree::Null).unwrap();
    gen.define(&Name::new("n", "X_1"), "three", ValidatorTree::Any).unwrap();
    assert_eq!(
        gen.type_keys(),
        vec!["m::X".to_string(), "m::X_1".to_string(), "n::X_1".to_string()]
    );
    let gen = gen.document(RootItem::new(ValidatorTree::Any, "root".to_string(), "root"));
    match gen.build() {
        Err(SchemaError::NameCollision { key, first, second }) => {
            assert_eq!(key, "X_1");
            assert_eq!(first, "two");
            assert_eq!(second, "three");
        }
        other => panic!("expected a name collision, got {:?}", other.map(|_| ())),
    }
}

#[test]
fn parameter_that_meets_a_shortened_one_is_reported() {
    let mut gen = SchemaGenerator::empty(CollisionPolicy::Strict);
    gen.define(&Name::new("a::b", "X"), "x1", int_leaf()).unwrap();
    gen.define(&Name::new("a::c", "X"), "x2", int_leaf()).unwrap();
    let long = Name::with_types("p", "Foo", vec![Name::new("a::b", "X")]);
    let short = Name::with_types("p", "Foo", vec![Name::new("b", "X")]);
    gen.define(&long, "one", ValidatorTree::Null).unwrap();
    gen.define(&short, "two", ValidatorTree::Any).unwrap();
    let gen = gen.document(RootItem::new(ValidatorTree::Any, "root".to_string(), "root"));
    match gen.assemble() {
        Err(SchemaError::NameCollision { key, first, second }) => {
            assert_eq!(key, "Foo<b::X>");
            assert_eq!(first, "one");
            assert_eq!(second, "two");
        }
        other => panic!("expected a name collision, got {:?}", other.map(|_| ())),
    }
}

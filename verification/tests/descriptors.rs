use fog_pack::types::{Integer, Value};
use fog_pack::validator::{
    ArrayValidator, BinValidator, BoolValidator, EnumValidator, HashValidator, IdentityValidator,
    IntValidator, MapValidator, MultiValidator, StrValidator, TimeValidator, Validator,
};
use fog_schemars::schema_impls::basics::optional_of;
use fog_schemars::{
    CollisionPolicy, FogValidate, Name, SchemaError, SchemaGenerator, ValidatorTree,
};
use std::collections::{BTreeMap, BTreeSet, HashMap, HashSet, VecDeque};

fn leaf(v: Validator) -> ValidatorTree {
    ValidatorTree::Leaf(v)
}

fn reference(key: &str) -> ValidatorTree {
    ValidatorTree::Ref(key.to_string())
}

fn strict() -> SchemaGenerator {
    SchemaGenerator::empty(CollisionPolicy::Strict)
}

fn inline<T: FogValidate>(opt: bool) -> ValidatorTree {
    let mut gen = strict();
    let v = if opt { gen.type_add_opt::<T>() } else { gen.type_add::<T>() }.unwrap();
    assert_eq!(gen.type_count(), 0);
    v
}

fn direct<T: FogValidate + ?Sized>(opt: bool) -> ValidatorTree {
    let mut gen = strict();
    let v = T::validator(&mut gen, opt).unwrap();
    assert_eq!(gen.type_count(), 0);
    v
}

fn name_of<T: FogValidate + ?Sized>(opt: bool) -> String {
    T::validator_name(opt).render()
}

fn u8_leaf() -> ValidatorTree {
    leaf(IntValidator::new().min(0u8).max(u8::MAX).build())
}

fn array(items: ValidatorTree, rules: ArrayValidator) -> ValidatorTree {
    ValidatorTree::Array { contains: Vec::new(), items: Box::new(items), prefix: Vec::new(), rules }
}

/// A shared shape, to see what containers do with a reference.
struct Point;

impl FogValidate for Point {
    fn origin(_: bool) -> String {
        "tests::Point".to_string()
    }

    fn validator_name(_: bool) -> Name {
        Name::new("tests", "Point")
    }

    fn validator(gen: &mut SchemaGenerator, _: bool) -> Result<ValidatorTree, SchemaError> {
        Ok(ValidatorTree::Mapping {
            req: vec![("x".to_string(), gen.type_add::<u8>()?)],
            opt: vec![("label".to_string(), gen.type_add_opt::<String>()?)],
            values: None,
            rules: MapValidator::new(),
        })
    }
}

#[test]
fn trait_defaults_share_and_have_no_opt_form() {
    assert!(Point::should_reference(false));
    assert!(Point::should_reference(true));
    assert!(!Point::has_opt());
}

#[test]
fn bool_descriptor() {
    assert_eq!(name_of::<bool>(false), "::bool");
    assert_eq!(name_of::<bool>(true), "::true");
    assert_eq!(inline::<bool>(false), leaf(BoolValidator::new().build()));
    assert_eq!(inline::<bool>(true), leaf(BoolValidator::new().nin_add(false).build()));
    assert!(!bool::should_reference(false));
    assert!(bool::has_opt());
    assert_eq!(bool::origin(false), "bool");
}

#[test]
fn unit_descriptor() {
    assert_eq!(name_of::<()>(false), "::unit");
    assert_eq!(name_of::<()>(true), "::!");
    assert_eq!(inline::<()>(false), ValidatorTree::Null);
    assert_eq!(
        inline::<()>(true),
        leaf(BoolValidator::new().nin_add(false).nin_add(true).build())
    );
    assert_eq!(inline::<std::marker::PhantomData<Point>>(false), ValidatorTree::Null);
}

#[test]
fn string_descriptors() {
    assert_eq!(name_of::<str>(false), "::str");
    assert_eq!(name_of::<String>(true), "::OptStr");
    assert_eq!(direct::<str>(false), leaf(StrValidator::new().build()));
    assert_eq!(inline::<String>(false), leaf(StrValidator::new().build()));
    assert_eq!(inline::<String>(true), leaf(StrValidator::new().min_len(1).build()));
    assert_eq!(String::origin(false), "str");
}

#[test]
fn char_descriptor() {
    assert_eq!(name_of::<char>(false), "::char");
    assert_eq!(name_of::<char>(true), "::OptChar");
    assert_eq!(inline::<char>(false), leaf(StrValidator::new().min_char(1).max_char(1).build()));
    assert_eq!(
        inline::<char>(true),
        leaf(StrValidator::new().nin_add(char::default()).min_char(1).max_char(1).build())
    );
}

#[test]
fn unsigned_descriptors() {
    assert_eq!(name_of::<u8>(false), "::u8");
    assert_eq!(name_of::<u8>(true), "::NonZeroU8");
    assert_eq!(inline::<u8>(false), leaf(IntValidator::new().min(u8::MIN).max(u8::MAX).build()));
    assert_eq!(inline::<u8>(true), leaf(IntValidator::new().min(u8::MIN + 1).max(u8::MAX).build()));
    assert_eq!(inline::<u16>(false), leaf(IntValidator::new().min(u16::MIN).max(u16::MAX).build()));
    assert_eq!(
        inline::<u16>(true),
        leaf(IntValidator::new().min(u16::MIN + 1).max(u16::MAX).build())
    );
    assert_eq!(inline::<u32>(false), leaf(IntValidator::new().min(u32::MIN).max(u32::MAX).build()));
    assert_eq!(
        inline::<u32>(true),
        leaf(IntValidator::new().min(u32::MIN + 1).max(u32::MAX).build())
    );
    assert_eq!(inline::<u64>(false), leaf(IntValidator::new().min(u64::MIN).max(u64::MAX).build()));
    assert_eq!(
        inline::<u64>(true),
        leaf(IntValidator::new().min(u64::MIN + 1).max(u64::MAX).build())
    );
    assert_eq!(name_of::<u64>(true), "::NonZeroU64");
}

#[test]
fn signed_descriptors() {
    assert_eq!(name_of::<i32>(false), "::i32");
    assert_eq!(name_of::<i32>(true), "::NonZeroI32");
    assert_eq!(inline::<i8>(false), leaf(IntValidator::new().min(i8::MIN).max(i8::MAX).build()));
    assert_eq!(
        inline::<i8>(true),
        leaf(IntValidator::new().nin_add(0).min(i8::MIN).max(i8::MAX).build())
    );
    assert_eq!(inline::<i16>(false), leaf(IntValidator::new().min(i16::MIN).max(i16::MAX).build()));
    assert_eq!(
        inline::<i16>(true),
        leaf(IntValidator::new().nin_add(0).min(i16::MIN).max(i16::MAX).build())
    );
    assert_eq!(inline::<i32>(false), leaf(IntValidator::new().min(i32::MIN).max(i32::MAX).build()));
    assert_eq!(
        inline::<i32>(true),
        leaf(IntValidator::new().nin_add(0).min(i32::MIN).max(i32::MAX).build())
    );
    assert_eq!(inline::<i64>(false), leaf(IntValidator::new().min(i64::MIN).max(i64::MAX).build()));
    assert_eq!(
        inline::<i64>(true),
        leaf(IntValidator::new().nin_add(0).min(i64::MIN).max(i64::MAX).build())
    );
}

#[test]
fn atomics_stand_for_their_values() {
    assert_eq!(name_of::<std::sync::atomic::AtomicU16>(true), "::NonZeroU16");
    assert_eq!(inline::<std::sync::atomic::AtomicU16>(false), inline::<u16>(false));
    assert_eq!(inline::<std::sync::atomic::AtomicI64>(true), inline::<i64>(true));
    assert_eq!(inline::<std::sync::atomic::AtomicBool>(true), inline::<bool>(true));
}

#[test]
fn wrappers_stand_for_what_they_wrap() {
    assert_eq!(name_of::<Box<u8>>(false), "::u8");
    assert_eq!(inline::<Box<u8>>(true), inline::<u8>(true));
    assert_eq!(inline::<&u8>(false), u8_leaf());
    assert_eq!(inline::<&mut str>(false), direct::<str>(false));
    assert_eq!(inline::<std::rc::Rc<str>>(true), direct::<str>(true));
    assert_eq!(inline::<std::sync::Arc<bool>>(false), inline::<bool>(false));
    assert_eq!(inline::<std::sync::Mutex<u8>>(false), u8_leaf());
    assert_eq!(inline::<std::sync::RwLock<u8>>(false), u8_leaf());
    assert_eq!(inline::<std::cell::Cell<u8>>(false), u8_leaf());
    assert_eq!(inline::<std::cell::RefCell<u8>>(false), u8_leaf());
    assert_eq!(inline::<std::borrow::Cow<'static, str>>(false), direct::<str>(false));
    assert_eq!(inline::<std::num::Wrapping<u8>>(false), u8_leaf());
    assert_eq!(inline::<std::cmp::Reverse<u8>>(false), u8_leaf());
    let mut gen = strict();
    assert_eq!(gen.type_add::<Box<Point>>().unwrap(), reference("tests::Point"));
    assert_eq!(gen.type_add::<Point>().unwrap(), reference("tests::Point"));
    assert_eq!(gen.type_add::<std::sync::Arc<Point>>().unwrap(), reference("tests::Point"));
    assert_eq!(gen.type_count(), 1);
}

#[test]
fn option_is_null_or_the_value() {
    let mut gen = strict();
    assert_eq!(gen.type_add::<Option<u8>>().unwrap(), reference("std::option::Option<::u8>"));
    assert_eq!(
        gen.type_get("std::option::Option<::u8>"),
        Some(&ValidatorTree::Multi(vec![ValidatorTree::Null, u8_leaf()]))
    );
    assert_eq!(gen.type_add::<Option<Point>>().unwrap(), reference("std::option::Option<tests::Point>"));
    assert_eq!(
        gen.type_get("std::option::Option<tests::Point>"),
        Some(&ValidatorTree::Multi(vec![ValidatorTree::Null, reference("tests::Point")]))
    );
    assert_eq!(gen.type_count(), 3);
}

#[test]
fn option_left_out_when_absent_is_the_value_itself() {
    assert_eq!(name_of::<Option<u8>>(true), "::u8");
    assert_eq!(inline::<Option<u8>>(true), u8_leaf());
    let mut gen = strict();
    assert_eq!(gen.type_add_opt::<Option<Point>>().unwrap(), reference("tests::Point"));
    assert_eq!(gen.type_count(), 1);
    assert_ne!(gen.type_get("tests::Point"), Some(&reference("tests::Point")));
    assert_eq!(gen.type_add::<Point>().unwrap(), reference("tests::Point"));
    assert_eq!(gen.type_count(), 1);
}

#[test]
fn optional_unit_is_refused() {
    let mut gen = strict();
    match gen.type_add::<Option<()>>() {
        Err(SchemaError::ImpossibleOptional { origin }) => assert_eq!(origin, "unit"),
        other => panic!("expected an impossible optional, got {:?}", other),
    }
    match optional_of(ValidatorTree::Null, "somewhere") {
        Err(SchemaError::ImpossibleOptional { origin }) => assert_eq!(origin, "somewhere"),
        other => panic!("expected an impossible optional, got {:?}", other),
    }
    assert_eq!(
        optional_of(u8_leaf(), "u8").unwrap(),
        ValidatorTree::Multi(vec![ValidatorTree::Null, u8_leaf()])
    );
}

#[test]
fn result_and_bound_are_enums() {
    let mut gen = strict();
    assert_eq!(
        gen.type_add::<Result<u8, String>>().unwrap(),
        reference("std::result::Result<::u8,::str>")
    );
    assert_eq!(
        gen.type_get("std::result::Result<::u8,::str>"),
        Some(&ValidatorTree::Enum(vec![
            ("Ok".to_string(), Some(u8_leaf())),
            ("Err".to_string(), Some(leaf(StrValidator::new().build()))),
        ]))
    );
    assert_eq!(
        gen.type_add::<std::ops::Bound<u8>>().unwrap(),
        reference("std::ops::Bound<::u8>")
    );
    assert_eq!(
        gen.type_get("std::ops::Bound<::u8>"),
        Some(&ValidatorTree::Enum(vec![
            ("Included".to_string(), Some(u8_leaf())),
            ("Excluded".to_string(), Some(u8_leaf())),
            ("Unbounded".to_string(), None),
        ]))
    );
}

#[test]
fn ranges_are_maps() {
    let both = |rules: MapValidator| ValidatorTree::Mapping {
        req: vec![("start".to_string(), u8_leaf()), ("end".to_string(), u8_leaf())],
        opt: Vec::new(),
        values: None,
        rules,
    };
    let mut gen = strict();
    assert_eq!(gen.type_add::<std::ops::Range<u8>>().unwrap(), reference("std::ops::Range<::u8>"));
    assert_eq!(gen.type_get("std::ops::Range<::u8>"), Some(&both(MapValidator::new())));
    assert_eq!(
        gen.type_add_opt::<std::ops::Range<u8>>().unwrap(),
        reference("std::ops::OptRange<::u8>")
    );
    assert_eq!(
        gen.type_get("std::ops::OptRange<::u8>"),
        Some(&both(MapValidator::new().nin_add([
            (String::from("start"), Value::from(0u8)),
            (String::from("end"), Value::from(0u8)),
        ])))
    );
    gen.type_add::<std::ops::RangeInclusive<u8>>().unwrap();
    assert_eq!(gen.type_get("std::ops::RangeInclusive<::u8>"), Some(&both(MapValidator::new())));
    gen.type_add::<std::ops::RangeFrom<u8>>().unwrap();
    assert_eq!(
        gen.type_get("std::ops::RangeFrom<::u8>"),
        Some(&ValidatorTree::Mapping {
            req: vec![("start".to_string(), u8_leaf())],
            opt: Vec::new(),
            values: None,
            rules: MapValidator::new(),
        })
    );
    gen.type_add::<std::ops::RangeTo<u8>>().unwrap();
    assert_eq!(
        gen.type_get("std::ops::RangeTo<::u8>"),
        Some(&ValidatorTree::Mapping {
            req: vec![("end".to_string(), u8_leaf())],
            opt: Vec::new(),
            values: None,
            rules: MapValidator::new(),
        })
    );
}

#[test]
fn sequences_are_arrays_of_the_items() {
    assert_eq!(name_of::<Vec<u8>>(false), "::Vec<::u8>");
    assert_eq!(name_of::<Vec<u8>>(true), "::NonEmptyVec<::u8>");
    assert_eq!(inline::<Vec<u8>>(false), array(u8_leaf(), ArrayValidator::new()));
    assert_eq!(inline::<Vec<u8>>(true), array(u8_leaf(), ArrayValidator::new().min_len(1)));
    assert_eq!(direct::<[u8]>(false), array(u8_leaf(), ArrayValidator::new()));
    assert_eq!(inline::<Box<[u8]>>(true), array(u8_leaf(), ArrayValidator::new().min_len(1)));
    assert_eq!(inline::<VecDeque<u8>>(true), array(u8_leaf(), ArrayValidator::new().min_len(1)));
    let mut gen = strict();
    assert_eq!(
        gen.type_add::<Vec<Point>>().unwrap(),
        array(reference("tests::Point"), ArrayValidator::new())
    );
    assert_eq!(gen.type_count(), 1);
}

#[test]
fn sets_are_arrays_of_different_items() {
    assert_eq!(name_of::<BTreeSet<u8>>(false), "::Set<::u8>");
    assert_eq!(name_of::<HashSet<u8>>(true), "::NonEmptySet<::u8>");
    assert_eq!(inline::<BTreeSet<u8>>(false), array(u8_leaf(), ArrayValidator::new().unique(true)));
    assert_eq!(
        inline::<HashSet<u8>>(true),
        array(u8_leaf(), ArrayValidator::new().unique(true).min_len(1))
    );
}

#[test]
fn maps_hold_the_validator_of_the_values() {
    let map = |rules: MapValidator| ValidatorTree::Mapping {
        req: Vec::new(),
        opt: Vec::new(),
        values: Some(Box::new(u8_leaf())),
        rules,
    };
    assert_eq!(name_of::<BTreeMap<String, u8>>(false), "::Map<::u8>");
    assert_eq!(name_of::<HashMap<String, u8>>(true), "::NonEmptyMap<::u8>");
    assert_eq!(inline::<BTreeMap<String, u8>>(false), map(MapValidator::new()));
    assert_eq!(inline::<HashMap<String, u8>>(false), map(MapValidator::new()));
    assert_eq!(
        inline::<HashMap<String, u8>>(true),
        map(MapValidator::new().nin_add(BTreeMap::new()))
    );
}

#[test]
fn arrays_have_a_fixed_length() {
    assert_eq!(name_of::<[u8; 0]>(false), "::Array0");
    assert_eq!(
        inline::<[Point; 0]>(false),
        array(ValidatorTree::Any, ArrayValidator::new().max_len(0))
    );
    let mut gen = strict();
    assert_eq!(gen.type_add::<[u8; 4]>().unwrap(), reference("::Array4<::u8>"));
    assert_eq!(
        gen.type_get("::Array4<::u8>"),
        Some(&array(u8_leaf(), ArrayValidator::new().min_len(4).max_len(4)))
    );
    assert_eq!(gen.type_add::<[bool; 32]>().unwrap(), reference("::Array32<::bool>"));
    assert_eq!(
        gen.type_get("::Array32<::bool>"),
        Some(&array(leaf(BoolValidator::new().build()), ArrayValidator::new().min_len(32).max_len(32)))
    );
    assert_eq!(name_of::<[u8; 17]>(false), "::Array17<::u8>");
}

#[test]
fn tuples_have_one_validator_for_each_item() {
    assert_eq!(name_of::<(u8,)>(false), "::Tuple1<::u8>");
    assert_eq!(name_of::<(u8, bool, String)>(false), "::Tuple3<::u8,::bool,::str>");
    let mut gen = strict();
    assert_eq!(
        gen.type_add::<(u8, Point, bool)>().unwrap(),
        ValidatorTree::Array {
            contains: Vec::new(),
            items: Box::new(ValidatorTree::Any),
            prefix: vec![u8_leaf(), reference("tests::Point"), leaf(BoolValidator::new().build())],
            rules: ArrayValidator::new().min_len(3).max_len(3),
        }
    );
    assert_eq!(gen.type_count(), 1);
    let sixteen = inline::<(u8, u8, u8, u8, u8, u8, u8, u8, u8, u8, u8, u8, u8, u8, u8, bool)>(false);
    match sixteen {
        ValidatorTree::Array { prefix, rules, .. } => {
            assert_eq!(prefix.len(), 16);
            assert_eq!(prefix[15], leaf(BoolValidator::new().build()));
            assert_eq!(rules, ArrayValidator::new().min_len(16).max_len(16));
        }
        other => panic!("expected an array, got {:?}", other),
    }
}

#[test]
fn durations_are_maps_of_seconds_and_nanoseconds() {
    let fields = |secs: &str, nanos: &str, rules: MapValidator| ValidatorTree::Mapping {
        req: vec![
            (secs.to_string(), leaf(IntValidator::new().min(0).max(u64::MAX).build())),
            (nanos.to_string(), leaf(IntValidator::new().min(0).max(1_000_000_000 - 1).build())),
        ],
        opt: Vec::new(),
        values: None,
        rules,
    };
    let mut gen = strict();
    assert_eq!(gen.type_add::<std::time::Duration>().unwrap(), reference("std::time::Duration"));
    assert_eq!(
        gen.type_get("std::time::Duration"),
        Some(&fields("secs", "nanos", MapValidator::new()))
    );
    assert_eq!(
        gen.type_add_opt::<std::time::Duration>().unwrap(),
        reference("std::time::OptDuration")
    );
    assert_eq!(
        gen.type_get("std::time::OptDuration"),
        Some(&fields(
            "secs",
            "nanos",
            MapValidator::new().nin_add([
                (String::from("secs"), Value::from(0u64)),
                (String::from("nanos"), Value::from(0u32)),
            ])
        ))
    );
    let mut gen = strict();
    gen.type_add::<std::time::SystemTime>().unwrap();
    assert_eq!(
        gen.type_get("std::time::Duration"),
        Some(&fields("secs_since_epoch", "nanos_since_epoch", MapValidator::new()))
    );
}

#[test]
fn duration_and_system_time_collide() {
    let mut gen = strict();
    gen.type_add::<std::time::Duration>().unwrap();
    match gen.type_add::<std::time::SystemTime>() {
        Err(SchemaError::NameCollision { key, first, second }) => {
            assert_eq!(key, "std::time::Duration");
            assert_eq!(first, "std::time::Duration");
            assert_eq!(second, "std::time::SystemTime");
        }
        other => panic!("expected a name collision, got {:?}", other),
    }
    let mut gen = SchemaGenerator::empty(CollisionPolicy::Suffix);
    assert_eq!(gen.type_add::<std::time::Duration>().unwrap(), reference("std::time::Duration"));
    assert_eq!(
        gen.type_add::<std::time::SystemTime>().unwrap(),
        reference("std::time::Duration_1")
    );
}

#[test]
fn fog_pack_types() {
    assert_eq!(name_of::<Integer>(false), "fog_pack::types::Integer");
    assert_eq!(name_of::<Integer>(true), "fog_pack::types::OptInteger");
    assert_eq!(inline::<Integer>(false), leaf(IntValidator::new().build()));
    assert_eq!(inline::<Integer>(true), leaf(IntValidator::new().nin_add(0).build()));
    assert_eq!(inline::<Value>(false), ValidatorTree::Any);
    assert_eq!(inline::<fog_pack::types::ValueRef>(false), ValidatorTree::Any);
    assert_eq!(name_of::<fog_pack::types::Hash>(false), "fog_pack::types::Hash");
    assert_eq!(
        inline::<fog_pack::types::Hash>(false),
        ValidatorTree::Hash { link: None, rules: HashValidator::new() }
    );
    assert_eq!(inline::<fog_pack::types::Identity>(false), leaf(IdentityValidator::new().build()));
    assert_eq!(inline::<fog_pack::types::Timestamp>(false), leaf(TimeValidator::new().build()));
    assert_eq!(
        inline::<fog_pack::types::StreamId>(false),
        leaf(fog_pack::validator::StreamIdValidator::new().build())
    );
    assert_eq!(
        inline::<fog_pack::types::LockId>(false),
        leaf(fog_pack::validator::LockIdValidator::new().build())
    );
    assert_eq!(
        inline::<fog_pack::types::DataLockbox>(false),
        leaf(fog_pack::validator::DataLockboxValidator::new().build())
    );
    assert_eq!(
        direct::<fog_pack::types::DataLockboxRef>(false),
        leaf(fog_pack::validator::DataLockboxValidator::new().build())
    );
    assert_eq!(
        inline::<fog_pack::types::IdentityLockbox>(false),
        leaf(fog_pack::validator::IdentityLockboxValidator::new().build())
    );
    assert_eq!(
        direct::<fog_pack::types::StreamLockboxRef>(false),
        leaf(fog_pack::validator::StreamLockboxValidator::new().build())
    );
    assert_eq!(
        inline::<fog_pack::types::LockLockbox>(false),
        leaf(fog_pack::validator::LockLockboxValidator::new().build())
    );
    assert_eq!(name_of::<fog_pack::types::LockLockboxRef>(false), "fog_pack::types::LockLockboxRef");
}

#[test]
fn schema_of_a_record_with_built_in_fields() {
    let doc = SchemaGenerator::new::<Vec<Point>>().unwrap().build().unwrap();
    let point = MapValidator::new()
        .req_add("x", IntValidator::new().min(0u8).max(u8::MAX).build())
        .opt_add("label", StrValidator::new().min_len(1).build())
        .build();
    let by_hand = fog_pack::schema::SchemaBuilder::new(
        ArrayValidator::new().items(fog_pack::validator::Validator::new_ref("Point")).build(),
    )
    .type_add("Point", point)
    .build()
    .unwrap();
    assert_eq!(doc.hash(), by_hand.hash());
}

#[test]
fn types_of_other_crates() {
    assert_eq!(name_of::<smol_str::SmolStr>(true), "::OptStr");
    assert_eq!(inline::<smol_str::SmolStr>(false), leaf(StrValidator::new().build()));
    assert_eq!(name_of::<bytes::Bytes>(false), "bytes::Bytes");
    assert_eq!(name_of::<bytes::BytesMut>(true), "bytes::OptBytes");
    assert_eq!(inline::<bytes::Bytes>(false), leaf(BinValidator::new().build()));
    assert_eq!(inline::<bytes::Bytes>(true), leaf(BinValidator::new().min_len(1).build()));
    assert_eq!(inline::<bytes::BytesMut>(true), leaf(BinValidator::new().min_len(1).build()));
    assert_eq!(name_of::<uuid::Uuid>(false), "uuid::Uuid");
    assert_eq!(name_of::<uuid::Uuid>(true), "uuid::OptUuid");
    assert_eq!(
        inline::<uuid::Uuid>(false),
        leaf(BinValidator::new().min_len(16).max_len(16).build())
    );
    assert_eq!(
        inline::<uuid::Uuid>(true),
        leaf(
            BinValidator::new()
                .min_len(16)
                .max_len(16)
                .nin_add(uuid::Uuid::default().as_bytes().to_owned())
                .build()
        )
    );
}

#[test]
fn optional_uuid_bans_sixteen_zero_bytes() {
    assert_eq!(
        inline::<uuid::Uuid>(true),
        leaf(BinValidator::new().min_len(16).max_len(16).nin_add(vec![0u8; 16]).build())
    );
    assert_ne!(
        inline::<uuid::Uuid>(true),
        leaf(BinValidator::new().min_len(16).max_len(16).nin_add(vec![0u8; 15]).build())
    );
}

#[test]
fn to_validator_gives_fog_pack_its_own_form() {
    let tree = ValidatorTree::Multi(vec![
        ValidatorTree::Null,
        ValidatorTree::Any,
        reference("a::T"),
        u8_leaf(),
        ValidatorTree::Array {
            contains: vec![reference("c")],
            items: Box::new(reference("i")),
            prefix: vec![reference("p"), ValidatorTree::Null],
            rules: ArrayValidator::new().min_len(2).unique(true),
        },
        ValidatorTree::Mapping {
            req: vec![("r".to_string(), reference("x"))],
            opt: vec![("o".to_string(), reference("y"))],
            values: Some(Box::new(reference("z"))),
            rules: MapValidator::new().max_len(9),
        },
        ValidatorTree::Hash { link: Some(Box::new(reference("l"))), rules: HashValidator::new() },
        ValidatorTree::Enum(vec![
            ("B".to_string(), Some(reference("b"))),
            ("A".to_string(), None),
        ]),
    ]);
    let expected = MultiValidator::new()
        .push(Validator::Null)
        .push(Validator::Any)
        .push(Validator::new_ref("a::T"))
        .push(IntValidator::new().min(0u8).max(u8::MAX).build())
        .push(
            ArrayValidator::new()
                .min_len(2)
                .unique(true)
                .contains_add(Validator::new_ref("c"))
                .items(Validator::new_ref("i"))
                .prefix_add(Validator::new_ref("p"))
                .prefix_add(Validator::Null)
                .build(),
        )
        .push(
            MapValidator::new()
                .max_len(9)
                .req_add("r", Validator::new_ref("x"))
                .opt_add("o", Validator::new_ref("y"))
                .values(Validator::new_ref("z"))
                .build(),
        )
        .push(HashValidator::new().link(Validator::new_ref("l")).build())
        .push(
            EnumValidator::new().insert("A", None).insert("B", Some(Validator::new_ref("b"))).build(),
        )
        .build();
    assert_eq!(tree.to_validator(), expected);
}

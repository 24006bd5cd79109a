//! The types of the fog-pack crate that the library carries through, and
//! the calls into it. Nothing here is proved: each contract is taken from
//! fog-pack's source.

use vstd::prelude::*;

verus! {

/// fog-pack's validator enum. The library holds values of it only as the
/// constraints of a primitive kind and never looks inside.
#[verifier::external_type_specification]
#[verifier::external_body]
pub struct ExValidator(fog_pack::validator::Validator);

/// fog-pack's array validator, held for its constraints on the array itself.
#[verifier::external_type_specification]
#[verifier::external_body]
pub struct ExArrayValidator(fog_pack::validator::ArrayValidator);

/// fog-pack's map validator, held for its constraints on the map itself.
#[verifier::external_type_specification]
#[verifier::external_body]
pub struct ExMapValidator(fog_pack::validator::MapValidator);

/// fog-pack's hash validator, held for its constraints on the hash itself.
#[verifier::external_type_specification]
#[verifier::external_body]
pub struct ExHashValidator(fog_pack::validator::HashValidator);

/// fog-pack's boolean validator, while it is built.
#[verifier::external_type_specification]
#[verifier::external_body]
pub struct ExBoolValidator(fog_pack::validator::BoolValidator);

/// fog-pack's integer validator, while it is built.
#[verifier::external_type_specification]
#[verifier::external_body]
pub struct ExIntValidator(fog_pack::validator::IntValidator);

/// fog-pack's string validator, while it is built.
#[verifier::external_type_specification]
#[verifier::external_body]
pub struct ExStrValidator(fog_pack::validator::StrValidator);

/// fog-pack's value, held where a validator names a value that is allowed
/// or banned.
#[verifier::external_type_specification]
#[verifier::external_body]
pub struct ExValue(fog_pack::types::Value);

/// fog-pack's hash.
#[verifier::external_type_specification]
#[verifier::external_body]
pub struct ExHash(fog_pack::types::Hash);

/// fog-pack's identity.
#[verifier::external_type_specification]
#[verifier::external_body]
pub struct ExIdentity(fog_pack::types::Identity);

/// fog-pack's stream identifier.
#[verifier::external_type_specification]
#[verifier::external_body]
pub struct ExStreamId(fog_pack::types::StreamId);

/// fog-pack's lock identifier.
#[verifier::external_type_specification]
#[verifier::external_body]
pub struct ExLockId(fog_pack::types::LockId);

/// fog-pack's timestamp.
#[verifier::external_type_specification]
#[verifier::external_body]
pub struct ExTimestamp(fog_pack::types::Timestamp);

/// fog-pack's data lockbox.
#[verifier::external_type_specification]
#[verifier::external_body]
pub struct ExDataLockbox(fog_pack::types::DataLockbox);

/// fog-pack's lock lockbox.
#[verifier::external_type_specification]
#[verifier::external_body]
pub struct ExLockLockbox(fog_pack::types::LockLockbox);

/// fog-pack's identity lockbox.
#[verifier::external_type_specification]
#[verifier::external_body]
pub struct ExIdentityLockbox(fog_pack::types::IdentityLockbox);

/// fog-pack's stream lockbox.
#[verifier::external_type_specification]
#[verifier::external_body]
pub struct ExStreamLockbox(fog_pack::types::StreamLockbox);

/// fog-pack's borrowed data lockbox.
#[verifier::external_type_specification]
#[verifier::external_body]
pub struct ExDataLockboxRef(fog_pack::types::DataLockboxRef);

/// fog-pack's borrowed lock lockbox.
#[verifier::external_type_specification]
#[verifier::external_body]
pub struct ExLockLockboxRef(fog_pack::types::LockLockboxRef);

/// fog-pack's borrowed identity lockbox.
#[verifier::external_type_specification]
#[verifier::external_body]
pub struct ExIdentityLockboxRef(fog_pack::types::IdentityLockboxRef);

/// fog-pack's borrowed stream lockbox.
#[verifier::external_type_specification]
#[verifier::external_body]
pub struct ExStreamLockboxRef(fog_pack::types::StreamLockboxRef);

/// fog-pack's borrowed value.
#[verifier::external_type_specification]
#[verifier::external_body]
pub struct ExValueRef<'a>(fog_pack::types::ValueRef<'a>);

/// fog-pack's validator of byte strings, while it is built.
#[verifier::external_type_specification]
#[verifier::external_body]
pub struct ExBinValidator(fog_pack::validator::BinValidator);

/// fog-pack's validator of timestamps, while it is built.
#[verifier::external_type_specification]
#[verifier::external_body]
pub struct ExTimeValidator(fog_pack::validator::TimeValidator);

/// fog-pack's validator of identities, while it is built.
#[verifier::external_type_specification]
#[verifier::external_body]
pub struct ExIdentityValidator(fog_pack::validator::IdentityValidator);

/// fog-pack's validator of stream identifiers, while it is built.
#[verifier::external_type_specification]
#[verifier::external_body]
pub struct ExStreamIdValidator(fog_pack::validator::StreamIdValidator);

/// fog-pack's validator of lock identifiers, while it is built.
#[verifier::external_type_specification]
#[verifier::external_body]
pub struct ExLockIdValidator(fog_pack::validator::LockIdValidator);

/// fog-pack's validator of data lockboxes, while it is built.
#[verifier::external_type_specification]
#[verifier::external_body]
pub struct ExDataLockboxValidator(fog_pack::validator::DataLockboxValidator);

/// fog-pack's validator of identity lockboxes, while it is built.
#[verifier::external_type_specification]
#[verifier::external_body]
pub struct ExIdentityLockboxValidator(fog_pack::validator::IdentityLockboxValidator);

/// fog-pack's validator of stream lockboxes, while it is built.
#[verifier::external_type_specification]
#[verifier::external_body]
pub struct ExStreamLockboxValidator(fog_pack::validator::StreamLockboxValidator);

/// fog-pack's validator of lock lockboxes, while it is built.
#[verifier::external_type_specification]
#[verifier::external_body]
pub struct ExLockLockboxValidator(fog_pack::validator::LockLockboxValidator);

/// fog-pack's compression setting.
#[verifier::external_type_specification]
#[verifier::external_body]
pub struct ExCompress(fog_pack::schema::Compress);

/// fog-pack's integer.
#[verifier::external_type_specification]
#[verifier::external_body]
pub struct ExInteger(fog_pack::types::Integer);

/// fog-pack's document.
#[verifier::external_type_specification]
#[verifier::external_body]
pub struct ExDocument(fog_pack::document::Document);

/// fog-pack's error.
#[verifier::external_type_specification]
#[verifier::external_body]
pub struct ExError(fog_pack::error::Error);

/// fog-pack's schema builder.
#[verifier::external_type_specification]
#[verifier::external_body]
pub struct ExSchemaBuilder(fog_pack::schema::SchemaBuilder);

/// fog-pack's `Validator::new_any`: the validator that accepts any value.
#[verifier::external_body]
pub(crate) fn any_validator() -> (v: fog_pack::validator::Validator) {
    fog_pack::validator::Validator::new_any()
}

/// fog-pack's `Validator::new_null`: the validator of the null value.
#[verifier::external_body]
pub(crate) fn null_validator() -> (v: fog_pack::validator::Validator) {
    fog_pack::validator::Validator::new_null()
}

/// fog-pack's reference validator to the type named `name`: what
/// `Validator::new_ref` gives for that name.
pub uninterp spec fn reference_to(name: Seq<char>) -> fog_pack::validator::Validator;

/// fog-pack's `Validator::new_ref`: the reference to the type named `name`.
#[verifier::external_body]
pub(crate) fn ref_validator(name: String) -> (v: fog_pack::validator::Validator)
    ensures
        v == reference_to(name@),
{
    fog_pack::validator::Validator::new_ref(name)
}

/// `Clone::clone` of fog-pack's validator, which fog-pack derives: the copy
/// is the same validator.
#[verifier::external_body]
pub(crate) fn copy_validator(v: &fog_pack::validator::Validator) -> (copy:
    fog_pack::validator::Validator)
    ensures
        copy == *v,
{
    v.clone()
}

/// `Clone::clone` of fog-pack's compression setting, which fog-pack derives:
/// the copy is the same setting.
#[verifier::external_body]
pub(crate) fn copy_compress(c: &fog_pack::schema::Compress) -> (copy: fog_pack::schema::Compress)
    ensures
        copy == *c,
{
    c.clone()
}

/// fog-pack's validator of the alternatives `list`, in order: what
/// `Validator::Multi` gives for a `MultiValidator` of them.
pub uninterp spec fn multi_of(
    list: Seq<fog_pack::validator::Validator>,
) -> fog_pack::validator::Validator;

/// fog-pack's `Validator::Multi` with the alternatives `list`, in order.
#[verifier::external_body]
pub(crate) fn multi_validator(list: Vec<fog_pack::validator::Validator>) -> (v:
    fog_pack::validator::Validator)
    ensures
        v == multi_of(list@),
{
    fog_pack::validator::Validator::Multi(fog_pack::validator::MultiValidator(list))
}

/// fog-pack's validator of the enum with the variants `variants`: what
/// `Validator::Enum` gives for an `EnumValidator` of the map that is
/// collected from them.
pub uninterp spec fn enum_of(
    variants: Seq<(String, Option<fog_pack::validator::Validator>)>,
) -> fog_pack::validator::Validator;

/// fog-pack's `Validator::Enum` with the variants `variants`. Of two
/// variants with one name the later one stays, as in a map.
#[verifier::external_body]
pub(crate) fn enum_validator(
    variants: Vec<(String, Option<fog_pack::validator::Validator>)>,
) -> (v: fog_pack::validator::Validator)
    ensures
        v == enum_of(variants@),
{
    fog_pack::validator::Validator::Enum(
        fog_pack::validator::EnumValidator(variants.into_iter().collect()),
    )
}

/// fog-pack's validator of the arrays that keep the constraints of `rules`
/// and whose items pass the given validators: what `Validator::Array`
/// gives for `rules` with these in its fields `contains`, `items` and
/// `prefix`.
pub uninterp spec fn array_of(
    rules: fog_pack::validator::ArrayValidator,
    contains: Seq<fog_pack::validator::Validator>,
    items: fog_pack::validator::Validator,
    prefix: Seq<fog_pack::validator::Validator>,
) -> fog_pack::validator::Validator;

/// fog-pack's `Validator::Array` with the constraints of `rules` and the
/// given validators for the items.
#[verifier::external_body]
pub(crate) fn array_validator(
    rules: &fog_pack::validator::ArrayValidator,
    contains: Vec<fog_pack::validator::Validator>,
    items: fog_pack::validator::Validator,
    prefix: Vec<fog_pack::validator::Validator>,
) -> (v: fog_pack::validator::Validator)
    ensures
        v == array_of(*rules, contains@, items, prefix@),
{
    let mut array = rules.clone();
    array.contains = contains;
    array.items = Box::new(items);
    array.prefix = prefix;
    fog_pack::validator::Validator::Array(Box::new(array))
}

/// fog-pack's validator of the maps that keep the constraints of `rules`
/// and whose fields pass the given validators: what `Validator::Map` gives
/// for `rules` with the maps collected from `req` and `opt` in the fields
/// of those names, and `values` in its field `values`.
pub uninterp spec fn map_of(
    rules: fog_pack::validator::MapValidator,
    req: Seq<(String, fog_pack::validator::Validator)>,
    opt: Seq<(String, fog_pack::validator::Validator)>,
    values: Option<fog_pack::validator::Validator>,
) -> fog_pack::validator::Validator;

/// fog-pack's `Validator::Map` with the constraints of `rules` and the given
/// validators for the fields and the other values. Of two fields with one
/// name the later one stays, as in a map.
#[verifier::external_body]
pub(crate) fn map_validator(
    rules: &fog_pack::validator::MapValidator,
    req: Vec<(String, fog_pack::validator::Validator)>,
    opt: Vec<(String, fog_pack::validator::Validator)>,
    values: Option<fog_pack::validator::Validator>,
) -> (v: fog_pack::validator::Validator)
    ensures
        v == map_of(*rules, req@, opt@, values),
{
    let mut map = rules.clone();
    map.req = req.into_iter().collect();
    map.opt = opt.into_iter().collect();
    map.values = values.map(Box::new);
    fog_pack::validator::Validator::Map(Box::new(map))
}

/// fog-pack's validator of the hashes that keep the constraints of `rules`
/// and whose linked document passes `link`: what `Validator::Hash` gives
/// for `rules` with `link` in its field `link`.
pub uninterp spec fn hash_of(
    rules: fog_pack::validator::HashValidator,
    link: Option<fog_pack::validator::Validator>,
) -> fog_pack::validator::Validator;

/// fog-pack's `Validator::Hash` with the constraints of `rules` and the
/// given validator for the linked document.
#[verifier::external_body]
pub(crate) fn hash_validator(
    rules: &fog_pack::validator::HashValidator,
    link: Option<fog_pack::validator::Validator>,
) -> (v: fog_pack::validator::Validator)
    ensures
        v == hash_of(*rules, link),
{
    let mut hash = rules.clone();
    hash.link = link.map(Box::new);
    fog_pack::validator::Validator::Hash(Box::new(hash))
}

/// fog-pack's `BoolValidator::new`: the validator of all booleans.
#[verifier::external_body]
pub(crate) fn bool_new() -> (v: fog_pack::validator::BoolValidator) {
    fog_pack::validator::BoolValidator::new()
}

/// The boolean validator `v` with `banned` banned as well: what `nin_add` gives.
pub uninterp spec fn bool_nin_added(
    v: fog_pack::validator::BoolValidator,
    banned: bool,
) -> fog_pack::validator::BoolValidator;

/// fog-pack's `BoolValidator::nin_add`: bans one value more.
#[verifier::external_body]
pub(crate) fn bool_nin_add(
    v: fog_pack::validator::BoolValidator,
    banned: bool,
) -> (next: fog_pack::validator::BoolValidator)
    ensures
        next == bool_nin_added(v, banned),
{
    v.nin_add(banned)
}

/// The validator that the boolean validator `v` is built into.
pub uninterp spec fn bool_built(
    v: fog_pack::validator::BoolValidator,
) -> fog_pack::validator::Validator;

/// fog-pack's `BoolValidator::build`.
#[verifier::external_body]
pub(crate) fn bool_build(
    v: fog_pack::validator::BoolValidator,
) -> (built: fog_pack::validator::Validator)
    ensures
        built == bool_built(v),
{
    v.build()
}

/// fog-pack's `IntValidator::new`: the validator of all integers.
#[verifier::external_body]
pub(crate) fn int_new() -> (v: fog_pack::validator::IntValidator) {
    fog_pack::validator::IntValidator::new()
}

/// The integer validator `v` with the least value `min`: what `min` gives.
pub uninterp spec fn int_min_set(
    v: fog_pack::validator::IntValidator,
    min: i64,
) -> fog_pack::validator::IntValidator;

/// fog-pack's `IntValidator::min`: sets the least value.
#[verifier::external_body]
pub(crate) fn int_min(
    v: fog_pack::validator::IntValidator,
    min: i64,
) -> (next: fog_pack::validator::IntValidator)
    ensures
        next == int_min_set(v, min),
{
    v.min(min)
}

/// The integer validator `v` with the greatest value `max`: what `max` gives.
pub uninterp spec fn int_max_set(
    v: fog_pack::validator::IntValidator,
    max: u64,
) -> fog_pack::validator::IntValidator;

/// fog-pack's `IntValidator::max`: sets the greatest value.
#[verifier::external_body]
pub(crate) fn int_max(
    v: fog_pack::validator::IntValidator,
    max: u64,
) -> (next: fog_pack::validator::IntValidator)
    ensures
        next == int_max_set(v, max),
{
    v.max(max)
}

/// The integer validator `v` with `banned` banned as well: what `nin_add` gives.
pub uninterp spec fn int_nin_added(
    v: fog_pack::validator::IntValidator,
    banned: i64,
) -> fog_pack::validator::IntValidator;

/// fog-pack's `IntValidator::nin_add`: bans one value more.
#[verifier::external_body]
pub(crate) fn int_nin_add(
    v: fog_pack::validator::IntValidator,
    banned: i64,
) -> (next: fog_pack::validator::IntValidator)
    ensures
        next == int_nin_added(v, banned),
{
    v.nin_add(banned)
}

/// The validator that the integer validator `v` is built into.
pub uninterp spec fn int_built(
    v: fog_pack::validator::IntValidator,
) -> fog_pack::validator::Validator;

/// fog-pack's `IntValidator::build`.
#[verifier::external_body]
pub(crate) fn int_build(
    v: fog_pack::validator::IntValidator,
) -> (built: fog_pack::validator::Validator)
    ensures
        built == int_built(v),
{
    v.build()
}

/// fog-pack's `StrValidator::new`: the validator of all strings.
#[verifier::external_body]
pub(crate) fn str_new() -> (v: fog_pack::validator::StrValidator) {
    fog_pack::validator::StrValidator::new()
}

/// The string validator `v` with the least length `min_len`: what `min_len` gives.
pub uninterp spec fn str_min_len_set(
    v: fog_pack::validator::StrValidator,
    min_len: u32,
) -> fog_pack::validator::StrValidator;

/// fog-pack's `StrValidator::min_len`: sets the least length in bytes.
#[verifier::external_body]
pub(crate) fn str_min_len(
    v: fog_pack::validator::StrValidator,
    min_len: u32,
) -> (next: fog_pack::validator::StrValidator)
    ensures
        next == str_min_len_set(v, min_len),
{
    v.min_len(min_len)
}

/// The string validator `v` with at least `min_char` characters: what `min_char` gives.
pub uninterp spec fn str_min_char_set(
    v: fog_pack::validator::StrValidator,
    min_char: u32,
) -> fog_pack::validator::StrValidator;

/// fog-pack's `StrValidator::min_char`: sets the least number of characters.
#[verifier::external_body]
pub(crate) fn str_min_char(
    v: fog_pack::validator::StrValidator,
    min_char: u32,
) -> (next: fog_pack::validator::StrValidator)
    ensures
        next == str_min_char_set(v, min_char),
{
    v.min_char(min_char)
}

/// The string validator `v` with at most `max_char` characters: what `max_char` gives.
pub uninterp spec fn str_max_char_set(
    v: fog_pack::validator::StrValidator,
    max_char: u32,
) -> fog_pack::validator::StrValidator;

/// fog-pack's `StrValidator::max_char`: sets the greatest number of
/// characters.
#[verifier::external_body]
pub(crate) fn str_max_char(
    v: fog_pack::validator::StrValidator,
    max_char: u32,
) -> (next: fog_pack::validator::StrValidator)
    ensures
        next == str_max_char_set(v, max_char),
{
    v.max_char(max_char)
}

/// The string validator `v` with `banned` banned as well: what `nin_add` gives.
pub uninterp spec fn str_nin_added(
    v: fog_pack::validator::StrValidator,
    banned: Seq<char>,
) -> fog_pack::validator::StrValidator;

/// fog-pack's `StrValidator::nin_add`: bans one string more.
#[verifier::external_body]
pub(crate) fn str_nin_add(
    v: fog_pack::validator::StrValidator,
    banned: &str,
) -> (next: fog_pack::validator::StrValidator)
    ensures
        next == str_nin_added(v, banned@),
{
    v.nin_add(banned)
}

/// The validator that the string validator `v` is built into.
pub uninterp spec fn str_built(
    v: fog_pack::validator::StrValidator,
) -> fog_pack::validator::Validator;

/// fog-pack's `StrValidator::build`.
#[verifier::external_body]
pub(crate) fn str_build(
    v: fog_pack::validator::StrValidator,
) -> (built: fog_pack::validator::Validator)
    ensures
        built == str_built(v),
{
    v.build()
}

/// fog-pack's `BinValidator::new`: the validator of all byte strings.
#[verifier::external_body]
pub(crate) fn bin_new() -> (v: fog_pack::validator::BinValidator) {
    fog_pack::validator::BinValidator::new()
}

/// The validator of byte strings `v` with the least length `min_len`: what `min_len` gives.
pub uninterp spec fn bin_min_len_set(
    v: fog_pack::validator::BinValidator,
    min_len: u32,
) -> fog_pack::validator::BinValidator;

/// fog-pack's `BinValidator::min_len`: sets the least length.
#[verifier::external_body]
pub(crate) fn bin_min_len(
    v: fog_pack::validator::BinValidator,
    min_len: u32,
) -> (next: fog_pack::validator::BinValidator)
    ensures
        next == bin_min_len_set(v, min_len),
{
    v.min_len(min_len)
}

/// The validator of byte strings `v` with the greatest length `max_len`: what `max_len` gives.
pub uninterp spec fn bin_max_len_set(
    v: fog_pack::validator::BinValidator,
    max_len: u32,
) -> fog_pack::validator::BinValidator;

/// fog-pack's `BinValidator::max_len`: sets the greatest length.
#[verifier::external_body]
pub(crate) fn bin_max_len(
    v: fog_pack::validator::BinValidator,
    max_len: u32,
) -> (next: fog_pack::validator::BinValidator)
    ensures
        next == bin_max_len_set(v, max_len),
{
    v.max_len(max_len)
}

/// The validator of byte strings `v` with `banned` banned as well: what `nin_add` gives.
pub uninterp spec fn bin_nin_added(
    v: fog_pack::validator::BinValidator,
    banned: Seq<u8>,
) -> fog_pack::validator::BinValidator;

/// fog-pack's `BinValidator::nin_add`: bans one byte string more.
#[verifier::external_body]
pub(crate) fn bin_nin_add(
    v: fog_pack::validator::BinValidator,
    banned: Vec<u8>,
) -> (next: fog_pack::validator::BinValidator)
    ensures
        next == bin_nin_added(v, banned@),
{
    v.nin_add(banned)
}

/// The validator that the validator of byte strings `v` is built into.
pub uninterp spec fn bin_built(
    v: fog_pack::validator::BinValidator,
) -> fog_pack::validator::Validator;

/// fog-pack's `BinValidator::build`.
#[verifier::external_body]
pub(crate) fn bin_build(
    v: fog_pack::validator::BinValidator,
) -> (built: fog_pack::validator::Validator)
    ensures
        built == bin_built(v),
{
    v.build()
}

/// fog-pack's `ArrayValidator::new`: no constraint on the array.
#[verifier::external_body]
pub(crate) fn array_new() -> (rules: fog_pack::validator::ArrayValidator) {
    fog_pack::validator::ArrayValidator::new()
}

/// The array validator `rules` with at least `min_len` items: what `min_len` gives.
pub uninterp spec fn array_min_len_set(
    rules: fog_pack::validator::ArrayValidator,
    min_len: u32,
) -> fog_pack::validator::ArrayValidator;

/// fog-pack's `ArrayValidator::min_len`: sets the least number of items.
#[verifier::external_body]
pub(crate) fn array_min_len(
    rules: fog_pack::validator::ArrayValidator,
    min_len: u32,
) -> (next: fog_pack::validator::ArrayValidator)
    ensures
        next == array_min_len_set(rules, min_len),
{
    rules.min_len(min_len)
}

/// The array validator `rules` with at most `max_len` items: what `max_len` gives.
pub uninterp spec fn array_max_len_set(
    rules: fog_pack::validator::ArrayValidator,
    max_len: u32,
) -> fog_pack::validator::ArrayValidator;

/// fog-pack's `ArrayValidator::max_len`: sets the greatest number of items.
#[verifier::external_body]
pub(crate) fn array_max_len(
    rules: fog_pack::validator::ArrayValidator,
    max_len: u32,
) -> (next: fog_pack::validator::ArrayValidator)
    ensures
        next == array_max_len_set(rules, max_len),
{
    rules.max_len(max_len)
}

/// The array validator `rules` with the say `unique` on whether all items
/// must differ: what `unique` gives.
pub uninterp spec fn array_unique_set(
    rules: fog_pack::validator::ArrayValidator,
    unique: bool,
) -> fog_pack::validator::ArrayValidator;

/// fog-pack's `ArrayValidator::unique`: says whether all items must differ.
#[verifier::external_body]
pub(crate) fn array_unique(
    rules: fog_pack::validator::ArrayValidator,
    unique: bool,
) -> (next: fog_pack::validator::ArrayValidator)
    ensures
        next == array_unique_set(rules, unique),
{
    rules.unique(unique)
}

/// fog-pack's `MapValidator::new`: no constraint on the map.
#[verifier::external_body]
pub(crate) fn map_new() -> (rules: fog_pack::validator::MapValidator) {
    fog_pack::validator::MapValidator::new()
}

/// The map validator `rules` with one more banned map, the one with the
/// fields `banned`: what `nin_add` gives.
pub uninterp spec fn map_nin_added(
    rules: fog_pack::validator::MapValidator,
    banned: Seq<(String, fog_pack::types::Value)>,
) -> fog_pack::validator::MapValidator;

/// fog-pack's `MapValidator::nin_add`: bans the map with the given fields.
#[verifier::external_body]
pub(crate) fn map_nin_add(
    rules: fog_pack::validator::MapValidator,
    banned: Vec<(String, fog_pack::types::Value)>,
) -> (next: fog_pack::validator::MapValidator)
    ensures
        next == map_nin_added(rules, banned@),
{
    rules.nin_add(banned.into_iter().collect::<std::collections::BTreeMap<_, _>>())
}

/// fog-pack's `HashValidator::new`: no constraint on the hash.
#[verifier::external_body]
pub(crate) fn hash_new() -> (rules: fog_pack::validator::HashValidator) {
    fog_pack::validator::HashValidator::new()
}

/// fog-pack's `TimeValidator::new`: no constraint on the timestamp.
#[verifier::external_body]
pub(crate) fn time_new() -> (v: fog_pack::validator::TimeValidator) {
    fog_pack::validator::TimeValidator::new()
}

/// The validator that holds the validator of timestamps `v`: what `build`
/// gives.
pub uninterp spec fn time_built(
    v: fog_pack::validator::TimeValidator,
) -> fog_pack::validator::Validator;

/// fog-pack's `TimeValidator::build`: wraps the validator of timestamps
/// as a validator.
#[verifier::external_body]
pub(crate) fn time_build(v: fog_pack::validator::TimeValidator) -> (built:
    fog_pack::validator::Validator)
    ensures
        built == time_built(v),
{
    v.build()
}

/// fog-pack's `IdentityValidator::new`: no constraint on the identity.
#[verifier::external_body]
pub(crate) fn identity_new() -> (v: fog_pack::validator::IdentityValidator) {
    fog_pack::validator::IdentityValidator::new()
}

/// The validator that holds the validator of identities `v`: what `build`
/// gives.
pub uninterp spec fn identity_built(
    v: fog_pack::validator::IdentityValidator,
) -> fog_pack::validator::Validator;

/// fog-pack's `IdentityValidator::build`: wraps the validator of identities
/// as a validator.
#[verifier::external_body]
pub(crate) fn identity_build(v: fog_pack::validator::IdentityValidator) -> (built:
    fog_pack::validator::Validator)
    ensures
        built == identity_built(v),
{
    v.build()
}

/// fog-pack's `StreamIdValidator::new`: no constraint on the stream identifier.
#[verifier::external_body]
pub(crate) fn stream_id_new() -> (v: fog_pack::validator::StreamIdValidator) {
    fog_pack::validator::StreamIdValidator::new()
}

/// The validator that holds the validator of stream identifiers `v`: what `build`
/// gives.
pub uninterp spec fn stream_id_built(
    v: fog_pack::validator::StreamIdValidator,
) -> fog_pack::validator::Validator;

/// fog-pack's `StreamIdValidator::build`: wraps the validator of stream identifiers
/// as a validator.
#[verifier::external_body]
pub(crate) fn stream_id_build(v: fog_pack::validator::StreamIdValidator) -> (built:
    fog_pack::validator::Validator)
    ensures
        built == stream_id_built(v),
{
    v.build()
}

/// fog-pack's `LockIdValidator::new`: no constraint on the lock identifier.
#[verifier::external_body]
pub(crate) fn lock_id_new() -> (v: fog_pack::validator::LockIdValidator) {
    fog_pack::validator::LockIdValidator::new()
}

/// The validator that holds the validator of lock identifiers `v`: what `build`
/// gives.
pub uninterp spec fn lock_id_built(
    v: fog_pack::validator::LockIdValidator,
) -> fog_pack::validator::Validator;

/// fog-pack's `LockIdValidator::build`: wraps the validator of lock identifiers
/// as a validator.
#[verifier::external_body]
pub(crate) fn lock_id_build(v: fog_pack::validator::LockIdValidator) -> (built:
    fog_pack::validator::Validator)
    ensures
        built == lock_id_built(v),
{
    v.build()
}

/// fog-pack's `DataLockboxValidator::new`: no constraint on the data lockbox.
#[verifier::external_body]
pub(crate) fn data_lockbox_new() -> (v: fog_pack::validator::DataLockboxValidator) {
    fog_pack::validator::DataLockboxValidator::new()
}

/// The validator that holds the validator of data lockboxes `v`: what `build`
/// gives.
pub uninterp spec fn data_lockbox_built(
    v: fog_pack::validator::DataLockboxValidator,
) -> fog_pack::validator::Validator;

/// fog-pack's `DataLockboxValidator::build`: wraps the validator of data lockboxes
/// as a validator.
#[verifier::external_body]
pub(crate) fn data_lockbox_build(v: fog_pack::validator::DataLockboxValidator) -> (built:
    fog_pack::validator::Validator)
    ensures
        built == data_lockbox_built(v),
{
    v.build()
}

/// fog-pack's `IdentityLockboxValidator::new`: no constraint on the identity lockbox.
#[verifier::external_body]
pub(crate) fn identity_lockbox_new() -> (v: fog_pack::validator::IdentityLockboxValidator) {
    fog_pack::validator::IdentityLockboxValidator::new()
}

/// The validator that holds the validator of identity lockboxes `v`: what `build`
/// gives.
pub uninterp spec fn identity_lockbox_built(
    v: fog_pack::validator::IdentityLockboxValidator,
) -> fog_pack::validator::Validator;

/// fog-pack's `IdentityLockboxValidator::build`: wraps the validator of identity lockboxes
/// as a validator.
#[verifier::external_body]
pub(crate) fn identity_lockbox_build(v: fog_pack::validator::IdentityLockboxValidator) -> (built:
    fog_pack::validator::Validator)
    ensures
        built == identity_lockbox_built(v),
{
    v.build()
}

/// fog-pack's `StreamLockboxValidator::new`: no constraint on the stream lockbox.
#[verifier::external_body]
pub(crate) fn stream_lockbox_new() -> (v: fog_pack::validator::StreamLockboxValidator) {
    fog_pack::validator::StreamLockboxValidator::new()
}

/// The validator that holds the validator of stream lockboxes `v`: what `build`
/// gives.
pub uninterp spec fn stream_lockbox_built(
    v: fog_pack::validator::StreamLockboxValidator,
) -> fog_pack::validator::Validator;

/// fog-pack's `StreamLockboxValidator::build`: wraps the validator of stream lockboxes
/// as a validator.
#[verifier::external_body]
pub(crate) fn stream_lockbox_build(v: fog_pack::validator::StreamLockboxValidator) -> (built:
    fog_pack::validator::Validator)
    ensures
        built == stream_lockbox_built(v),
{
    v.build()
}

/// fog-pack's `LockLockboxValidator::new`: no constraint on the lock lockbox.
#[verifier::external_body]
pub(crate) fn lock_lockbox_new() -> (v: fog_pack::validator::LockLockboxValidator) {
    fog_pack::validator::LockLockboxValidator::new()
}

/// The validator that holds the validator of lock lockboxes `v`: what `build`
/// gives.
pub uninterp spec fn lock_lockbox_built(
    v: fog_pack::validator::LockLockboxValidator,
) -> fog_pack::validator::Validator;

/// fog-pack's `LockLockboxValidator::build`: wraps the validator of lock lockboxes
/// as a validator.
#[verifier::external_body]
pub(crate) fn lock_lockbox_build(v: fog_pack::validator::LockLockboxValidator) -> (built:
    fog_pack::validator::Validator)
    ensures
        built == lock_lockbox_built(v),
{
    v.build()
}

/// fog-pack's `Value::from` for a type that it can be made from.
#[verifier::external_body]
pub(crate) fn value_from<T>(from: T) -> (value: fog_pack::types::Value) where
    fog_pack::types::Value: From<T>,
 {
    fog_pack::types::Value::from(from)
}

/// fog-pack's value of the integer `n`: what `Value::from` gives for a
/// `u64`.
pub uninterp spec fn value_of_u64(n: u64) -> fog_pack::types::Value;

/// fog-pack's `Value::from` for a `u64`: the value of that integer.
#[verifier::external_body]
pub(crate) fn value_from_u64(n: u64) -> (value: fog_pack::types::Value)
    ensures
        value == value_of_u64(n),
{
    fog_pack::types::Value::from(n)
}

/// fog-pack's value of the integer `n`: what `Value::from` gives for a
/// `u32`.
pub uninterp spec fn value_of_u32(n: u32) -> fog_pack::types::Value;

/// fog-pack's `Value::from` for a `u32`: the value of that integer.
#[verifier::external_body]
pub(crate) fn value_from_u32(n: u32) -> (value: fog_pack::types::Value)
    ensures
        value == value_of_u32(n),
{
    fog_pack::types::Value::from(n)
}

/// The schema builder for documents that pass `doc`, with nothing else
/// set: what `SchemaBuilder::new` gives.
pub uninterp spec fn builder_of(
    doc: fog_pack::validator::Validator,
) -> fog_pack::schema::SchemaBuilder;

/// fog-pack's `SchemaBuilder::new`: the builder of a schema whose documents
/// pass `doc`.
#[verifier::external_body]
pub(crate) fn builder_new(doc: fog_pack::validator::Validator) -> (b:
    fog_pack::schema::SchemaBuilder)
    ensures
        b == builder_of(doc),
{
    fog_pack::schema::SchemaBuilder::new(doc)
}

/// The builder `b` with `max_regex` as the number of regular expressions
/// that a query may hold: what `regexes` gives.
pub uninterp spec fn regexes_set(
    b: fog_pack::schema::SchemaBuilder,
    max_regex: u8,
) -> fog_pack::schema::SchemaBuilder;

/// fog-pack's `SchemaBuilder::regexes`: sets the number of regular
/// expressions that a query may hold.
#[verifier::external_body]
pub(crate) fn builder_regexes(b: fog_pack::schema::SchemaBuilder, max_regex: u8) -> (next:
    fog_pack::schema::SchemaBuilder)
    ensures
        next == regexes_set(b, max_regex),
{
    b.regexes(max_regex)
}

/// The builder `b` with the description `text`: what `description` gives.
pub uninterp spec fn description_set(
    b: fog_pack::schema::SchemaBuilder,
    text: Seq<char>,
) -> fog_pack::schema::SchemaBuilder;

/// fog-pack's `SchemaBuilder::description`: sets the description.
#[verifier::external_body]
pub(crate) fn builder_description(b: fog_pack::schema::SchemaBuilder, text: &str) -> (next:
    fog_pack::schema::SchemaBuilder)
    ensures
        next == description_set(b, text@),
{
    b.description(text)
}

/// The builder `b` with the schema's name `text`: what `name` gives.
pub uninterp spec fn name_set(
    b: fog_pack::schema::SchemaBuilder,
    text: Seq<char>,
) -> fog_pack::schema::SchemaBuilder;

/// fog-pack's `SchemaBuilder::name`: sets the name of the schema.
#[verifier::external_body]
pub(crate) fn builder_name(b: fog_pack::schema::SchemaBuilder, text: &str) -> (next:
    fog_pack::schema::SchemaBuilder)
    ensures
        next == name_set(b, text@),
{
    b.name(text)
}

/// The builder `b` with `compress` as the compression of the documents:
/// what `doc_compress` gives.
pub uninterp spec fn doc_compress_set(
    b: fog_pack::schema::SchemaBuilder,
    compress: fog_pack::schema::Compress,
) -> fog_pack::schema::SchemaBuilder;

/// fog-pack's `SchemaBuilder::doc_compress`: sets the compression of the
/// documents.
#[verifier::external_body]
pub(crate) fn builder_doc_compress(
    b: fog_pack::schema::SchemaBuilder,
    compress: fog_pack::schema::Compress,
) -> (next: fog_pack::schema::SchemaBuilder)
    ensures
        next == doc_compress_set(b, compress),
{
    b.doc_compress(compress)
}

/// The builder `b` with the version `version`: what `version` gives.
pub uninterp spec fn version_set(
    b: fog_pack::schema::SchemaBuilder,
    version: fog_pack::types::Integer,
) -> fog_pack::schema::SchemaBuilder;

/// fog-pack's `SchemaBuilder::version`: sets the version of the schema.
#[verifier::external_body]
pub(crate) fn builder_version(
    b: fog_pack::schema::SchemaBuilder,
    version: fog_pack::types::Integer,
) -> (next: fog_pack::schema::SchemaBuilder)
    ensures
        next == version_set(b, version),
{
    b.version(version)
}

/// The builder `b` with `validator` and `compress` for the entries under
/// `label`: what `entry_add` gives.
pub uninterp spec fn entry_added(
    b: fog_pack::schema::SchemaBuilder,
    label: Seq<char>,
    validator: fog_pack::validator::Validator,
    compress: Option<fog_pack::schema::Compress>,
) -> fog_pack::schema::SchemaBuilder;

/// fog-pack's `SchemaBuilder::entry_add`: sets the validator and the
/// compression of the entries under `label`.
#[verifier::external_body]
pub(crate) fn builder_entry_add(
    b: fog_pack::schema::SchemaBuilder,
    label: &str,
    validator: fog_pack::validator::Validator,
    compress: Option<fog_pack::schema::Compress>,
) -> (next: fog_pack::schema::SchemaBuilder)
    ensures
        next == entry_added(b, label@, validator, compress),
{
    b.entry_add(label, validator, compress)
}

/// The builder `b` with `validator` stored under the name `name`: what
/// `type_add` gives.
pub uninterp spec fn type_added(
    b: fog_pack::schema::SchemaBuilder,
    name: Seq<char>,
    validator: fog_pack::validator::Validator,
) -> fog_pack::schema::SchemaBuilder;

/// fog-pack's `SchemaBuilder::type_add`: stores `validator` under the name
/// `name`.
#[verifier::external_body]
pub(crate) fn builder_type_add(
    b: fog_pack::schema::SchemaBuilder,
    name: &str,
    validator: fog_pack::validator::Validator,
) -> (next: fog_pack::schema::SchemaBuilder)
    ensures
        next == type_added(b, name@, validator),
{
    b.type_add(name, validator)
}

/// fog-pack's answer to the builder `b`: the document that `build` encodes
/// the schema as, or its refusal.
pub uninterp spec fn schema_document(b: fog_pack::schema::SchemaBuilder) -> Result<
    fog_pack::document::Document,
    fog_pack::error::Error,
>;

/// fog-pack's `SchemaBuilder::build`: encodes the schema as a document, or
/// says why it cannot.
#[verifier::external_body]
pub(crate) fn builder_build(b: fog_pack::schema::SchemaBuilder) -> (built: Result<
    fog_pack::document::Document,
    fog_pack::error::Error,
>)
    ensures
        built == schema_document(b),
{
    b.build()
}

} // verus!

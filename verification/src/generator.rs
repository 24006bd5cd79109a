//! The schema generator: the type graph builder that turns descriptors into
//! validators and shared type table entries.

use vstd::prelude::*;
use vstd::string::StringExecFns;
use crate::error::{CollisionPolicy, SchemaError};
use crate::fixup::{fixup, lemma_no_stale_refs, lemma_refs_renamed, names_map, Fixups};
use crate::name::{render_name, shorten_name, IdentifierView, Name, NameView};
use crate::registry::{lemma_rename_map_shortens, lemma_renamed_ids_differ, IdentRegistry};
use crate::rename::IdentRenames;
use crate::schema::{
    distinct_names, handed_over, schema_entries, schema_types, text_view, Schema, SchemaView,
};
use crate::shorten::{rename_map, short_id};
use crate::table::{
    admits, blocks, first_blocker, fixup_pairs, held_at, keyed, knows, lemma_final_keys,
    place_of,
    placeholder, plain, renamed_table, table_wf, wanted_key, TypeEntryView, TypeTable,
};
use crate::text::str_eq;
use crate::tree::{refers_to, rename_refs, TreeView, ValidatorTree};

verus! {

broadcast use {vstd::std_specs::vec::group_vec_axioms, vstd::seq::group_seq_axioms};

/// A validator at the top of the schema, as a mathematical value: that of
/// the documents, or that of the entries under one label.
pub struct RootView {
    /// The validator as the descriptor gave it.
    pub validator: TreeView,
    /// The rendered name of the descriptor.
    pub shape_name: Seq<char>,
    /// The marker of the descriptor.
    pub origin: Seq<char>,
}

/// An entry item as a mathematical value.
pub struct EntryView {
    /// The label under which entries of this kind are stored.
    pub label: Seq<char>,
    /// The validator of these entries.
    pub root: RootView,
    /// The compression of these entries, where it is not the default.
    pub compress: Option<fog_pack::schema::Compress>,
}

/// The generator as a mathematical value.
pub struct GeneratorView {
    pub doc: Option<RootView>,
    pub max_regex: u8,
    pub description: Option<Seq<char>>,
    pub name: Option<Seq<char>>,
    pub doc_compress: Option<fog_pack::schema::Compress>,
    pub version: Option<fog_pack::types::Integer>,
    /// The type table.
    pub types: Seq<TypeEntryView>,
    /// The entry items, in the order in which they were added.
    pub entries: Seq<EntryView>,
    /// The identifiers of the names in the type table.
    pub idents: Set<IdentifierView>,
    pub policy: CollisionPolicy,
}

/// Whether every identifier of `idents` is that of the name of an entry.
pub open spec fn named(types: Seq<TypeEntryView>, idents: Set<IdentifierView>) -> bool {
    forall|id: IdentifierView|
        idents.contains(id) ==> exists|i: int|
            0 <= i < types.len() && (#[trigger] types[i]).name.id == id
}

/// Whether the identifier of the name of every entry is in `idents`.
pub open spec fn registered(types: Seq<TypeEntryView>, idents: Set<IdentifierView>) -> bool {
    forall|i: int| 0 <= i < types.len() ==> idents.contains((#[trigger] types[i]).name.id)
}

/// What holds of every generator: the type table is well formed and, under
/// the strict policy, without suffixes; the registered identifiers are
/// those of the names of the entries; and no two entry items have the same
/// label.
pub open spec fn generator_wf(g: GeneratorView) -> bool {
    &&& table_wf(g.types)
    &&& g.policy == CollisionPolicy::Strict ==> plain(g.types)
    &&& named(g.types, g.idents)
    &&& registered(g.types, g.idents)
    &&& forall|i: int, j: int|
        0 <= i < j < g.entries.len() ==> g.entries[i].label != g.entries[j].label
}

/// Whether `entries` has an item under `label`.
pub open spec fn has_label(entries: Seq<EntryView>, label: Seq<char>) -> bool {
    exists|i: int| 0 <= i < entries.len() && #[trigger] entries[i].label == label
}

/// A validator at the top of the schema, with the descriptor it came from.
#[derive(Debug)]
pub struct RootItem {
    validator: ValidatorTree,
    shape_name: String,
    origin: String,
}

impl View for RootItem {
    type V = RootView;

    closed spec fn view(&self) -> RootView {
        RootView { validator: self.validator@, shape_name: self.shape_name@, origin: self.origin@ }
    }
}

/// The validator for the entries under one label.
#[derive(Debug)]
pub struct EntryItem {
    label: String,
    root: RootItem,
    compress: Option<fog_pack::schema::Compress>,
}

impl View for EntryItem {
    type V = EntryView;

    closed spec fn view(&self) -> EntryView {
        EntryView { label: self.label@, root: self.root@, compress: self.compress }
    }
}

/// The values of a list of entry items.
pub open spec fn item_views(items: Seq<EntryItem>) -> Seq<EntryView> {
    items.map_values(|e: EntryItem| e@)
}

impl RootItem {
    /// A validator at the top of the schema: the validator that the
    /// descriptor `origin` computed, and the rendered name of that
    /// descriptor.
    pub fn new(validator: ValidatorTree, shape_name: String, origin: &str) -> (root:
        RootItem)
        ensures
            root@ == (RootView {
                validator: validator@,
                shape_name: shape_name@,
                origin: origin@,
            }),
    {
        RootItem { validator, shape_name, origin: String::from_str(origin) }
    }
}

impl EntryItem {
    /// The label under which entries of this kind are stored.
    pub fn label(&self) -> (label: &String)
        ensures
            label@ == self@.label,
    {
        &self.label
    }

    /// The validator of these entries.
    pub fn validator(&self) -> (validator: &ValidatorTree)
        ensures
            validator@ == self@.root.validator,
    {
        &self.root.validator
    }

    /// The compression of these entries, where it is not the default.
    pub fn compress(&self) -> (compress: &Option<fog_pack::schema::Compress>)
        ensures
            *compress == self@.compress,
    {
        &self.compress
    }
}

/// What the generator decides when a descriptor asks for its validator.
#[derive(Debug)]
pub enum Admission {
    /// The descriptor has an entry already: a reference to its key is the
    /// answer.
    Known(String),
    /// The descriptor is not shared: its validator stands where it is used.
    Inline,
    /// The descriptor got a new entry under this key, with the placeholder
    /// in it: its validator has to be computed and put there.
    Claimed(String),
}

/// The generator of one schema. It is made for one build, gathers the type
/// table while the descriptors are resolved, and is used up when the schema
/// is built.
#[derive(Debug)]
pub struct SchemaGenerator {
    doc: Option<RootItem>,
    max_regex: u8,
    description: Option<String>,
    name: Option<String>,
    doc_compress: Option<fog_pack::schema::Compress>,
    version: Option<fog_pack::types::Integer>,
    types: TypeTable,
    entries: Vec<EntryItem>,
    registry: IdentRegistry,
    policy: CollisionPolicy,
}

impl SchemaGenerator {
    spec fn entry_views(&self) -> Seq<EntryView> {
        item_views(self.entries@)
    }

    #[verifier::type_invariant]
    spec fn inv(&self) -> bool {
        &&& self.registry.wf()
        &&& table_wf(self.types@)
        &&& self.policy == CollisionPolicy::Strict ==> plain(self.types@)
        &&& named(self.types@, self.registry@)
        &&& registered(self.types@, self.registry@)
        &&& forall|i: int, j: int|
            0 <= i < j < self.entries@.len() ==> self.entries@[i].label@ != self.entries@[j].label@
    }
}

impl View for SchemaGenerator {
    type V = GeneratorView;

    closed spec fn view(&self) -> GeneratorView {
        GeneratorView {
            doc: match self.doc {
                Some(root) => Some(root@),
                None => None,
            },
            max_regex: self.max_regex,
            description: text_view(self.description),
            name: text_view(self.name),
            doc_compress: self.doc_compress,
            version: self.version,
            types: self.types@,
            entries: self.entry_views(),
            idents: self.registry@,
            policy: self.policy,
        }
    }
}

/// The generator before anything is registered.
pub open spec fn empty_generator(policy: CollisionPolicy) -> GeneratorView {
    GeneratorView {
        doc: None,
        max_regex: 0,
        description: None,
        name: None,
        doc_compress: None,
        version: None,
        types: Seq::empty(),
        entries: Seq::empty(),
        idents: Set::empty(),
        policy,
    }
}

/// What is answered to a descriptor that asks for its validator.
pub enum AnswerView {
    /// The descriptor has the entry under this key.
    Known(Seq<char>),
    /// The descriptor is not shared.
    Inline,
    /// The descriptor got a new entry under this key.
    Claimed(Seq<char>),
    /// The descriptor `second` asked for an entry under the name `key`, and
    /// the entry of the descriptor `first` stands in the way.
    Collision { key: Seq<char>, first: Seq<char>, second: Seq<char> },
    /// Another failure.
    Failed,
}

/// The answer that an outcome of `request` stands for.
pub open spec fn answer_view(admission: Result<Admission, SchemaError>) -> AnswerView {
    match admission {
        Ok(Admission::Known(key)) => AnswerView::Known(key@),
        Ok(Admission::Inline) => AnswerView::Inline,
        Ok(Admission::Claimed(key)) => AnswerView::Claimed(key@),
        Err(SchemaError::NameCollision { key, first, second }) => AnswerView::Collision {
            key: key@,
            first: first@,
            second: second@,
        },
        Err(_) => AnswerView::Failed,
    }
}

/// A generator and the answer that it gave.
pub struct Outcome {
    pub after: GeneratorView,
    pub answer: AnswerView,
}

/// The place of the first entry that stands in the way of a new descriptor
/// with the rendered name `base`.
pub open spec fn blocker_of(
    types: Seq<TypeEntryView>,
    base: Seq<char>,
    policy: CollisionPolicy,
) -> int {
    choose|i: int| first_blocker(types, base, policy, i)
}

/// What `request` does, and what it answers.
pub open spec fn requested(
    g: GeneratorView,
    name: NameView,
    origin: Seq<char>,
    shared: bool,
) -> Outcome {
    let base = render_name(name);
    if knows(g.types, base, origin) {
        Outcome {
            after: g,
            answer: AnswerView::Known(g.types[place_of(g.types, base, origin)].key),
        }
    } else if !shared {
        Outcome { after: g, answer: AnswerView::Inline }
    } else if admits(g.types, base, g.policy) {
        Outcome {
            after: with_claim(g, name, origin),
            answer: AnswerView::Claimed(placeholder(g.types, name, origin, g.policy).key),
        }
    } else {
        Outcome {
            after: g,
            answer: AnswerView::Collision {
                key: wanted_key(g.types, base, g.policy),
                first: g.types[blocker_of(g.types, base, g.policy)].origin,
                second: origin,
            },
        }
    }
}

/// What `define` does, and what it answers: `Known` with the key of the
/// entry that now holds the validator, or the collision.
pub open spec fn defined(
    g: GeneratorView,
    name: NameView,
    origin: Seq<char>,
    validator: TreeView,
) -> Outcome {
    let base = render_name(name);
    if knows(g.types, base, origin) {
        let at = place_of(g.types, base, origin);
        Outcome {
            after: with_validator(g, at, validator),
            answer: AnswerView::Known(g.types[at].key),
        }
    } else if admits(g.types, base, g.policy) {
        Outcome {
            after: with_validator(with_claim(g, name, origin), g.types.len() as int, validator),
            answer: AnswerView::Known(placeholder(g.types, name, origin, g.policy).key),
        }
    } else {
        Outcome {
            after: g,
            answer: AnswerView::Collision {
                key: wanted_key(g.types, base, g.policy),
                first: g.types[blocker_of(g.types, base, g.policy)].origin,
                second: origin,
            },
        }
    }
}

/// A shared descriptor that has no entry and whose name is free gets the
/// last place of the table: once its validator is put there, the answer is
/// the key that it asked for, the table has one entry more, which holds the
/// validator under that key, and its identifier is registered. This is what
/// `requested` and `defined` come to where the descriptor leaves the
/// generator as it found it.
pub proof fn lemma_claimed_and_defined(
    g: GeneratorView,
    name: NameView,
    origin: Seq<char>,
    validator: TreeView,
)
    requires
        generator_wf(g),
        !knows(g.types, render_name(name), origin),
        admits(g.types, render_name(name), g.policy),
    ensures
        ({
            let claimed = requested(g, name, origin, true).after;
            let done = defined(claimed, name, origin, validator);
            &&& claimed == with_claim(g, name, origin)
            &&& done.answer == AnswerView::Known(wanted_key(g.types, render_name(name), g.policy))
            &&& done.after.types == g.types.push(
                TypeEntryView { validator, ..placeholder(g.types, name, origin, g.policy) },
            )
            &&& done.after.idents == g.idents.insert(name.id)
        }),
{
    let base = render_name(name);
    let claimed = with_claim(g, name, origin);
    let at = g.types.len() as int;
    assert(held_at(claimed.types, base, origin, at));
    let p = place_of(claimed.types, base, origin);
    assert(held_at(claimed.types, base, origin, p));
    if p < at {
        assert(held_at(g.types, base, origin, p));
    }
    let done = defined(claimed, name, origin, validator);
    assert(done.after.types =~= g.types.push(
        TypeEntryView { validator, ..placeholder(g.types, name, origin, g.policy) },
    ));
}

/// In a well-formed table a descriptor has its entry in one place only.
pub proof fn lemma_one_place(types: Seq<TypeEntryView>, base: Seq<char>, origin: Seq<char>, i: int)
    requires
        table_wf(types),
        held_at(types, base, origin, i),
    ensures
        place_of(types, base, origin) == i,
{
    let j = place_of(types, base, origin);
    assert(held_at(types, base, origin, j));
    if i < j {
        assert(!(types[i].base == types[j].base && types[i].origin == types[j].origin));
    } else if j < i {
        assert(!(types[j].base == types[i].base && types[j].origin == types[i].origin));
    }
}

/// Under the strict policy the entry that stands in the way of a new
/// descriptor is the one that holds its name: where a descriptor is not
/// let in, the failure names the descriptor of the entry with that
/// rendered name as the first, and no other entry has that name.
pub proof fn lemma_strict_collision(g: GeneratorView, base: Seq<char>)
    requires
        generator_wf(g),
        g.policy == CollisionPolicy::Strict,
        !admits(g.types, base, g.policy),
    ensures
        ({
            let at = blocker_of(g.types, base, g.policy);
            &&& 0 <= at < g.types.len()
            &&& g.types[at].base == base
            &&& g.types[at].key == base
            &&& wanted_key(g.types, base, g.policy) == base
            &&& forall|i: int|
                0 <= i < g.types.len() && (#[trigger] g.types[i]).base == base ==> i == at
        }),
{
    let key = wanted_key(g.types, base, g.policy);
    assert(key =~= base);
    lemma_blocker_exists(g.types, base, g.policy);
    let at = blocker_of(g.types, base, g.policy);
    assert(first_blocker(g.types, base, g.policy, at));
    assert forall|i: int| 0 <= i < g.types.len() implies (#[trigger] g.types[i]).key
        =~= g.types[i].base by {
        assert(keyed(g.types[i]));
        assert(g.types[i].suffix == Seq::<char>::empty());
    }
    assert forall|i: int| 0 <= i < g.types.len() && (#[trigger] g.types[i]).base == base implies i
        == at by {
        if i < at {
            assert(blocks(g.types[i], base, key, g.policy));
        } else if at < i {
            assert(g.types[i].key != g.types[at].key);
        }
    }
}

/// Where a new descriptor is not let in, some entry is the first that
/// stands in its way.
pub proof fn lemma_blocker_exists(
    types: Seq<TypeEntryView>,
    base: Seq<char>,
    policy: CollisionPolicy,
)
    requires
        !admits(types, base, policy),
    ensures
        exists|i: int| first_blocker(types, base, policy, i),
{
    let key = wanted_key(types, base, policy);
    let some = choose|i: int|
        0 <= i < types.len() && blocks(#[trigger] types[i], base, key, policy);
    lemma_first_among(types, base, policy, some);
}

/// Among the entries up to one that stands in the way, one is the first
/// to do so.
proof fn lemma_first_among(
    types: Seq<TypeEntryView>,
    base: Seq<char>,
    policy: CollisionPolicy,
    upto: int,
)
    requires
        0 <= upto < types.len(),
        blocks(types[upto], base, wanted_key(types, base, policy), policy),
    ensures
        exists|i: int| first_blocker(types, base, policy, i),
    decreases upto,
{
    let key = wanted_key(types, base, policy);
    if exists|j: int| 0 <= j < upto && blocks(#[trigger] types[j], base, key, policy) {
        let j = choose|j: int| 0 <= j < upto && blocks(#[trigger] types[j], base, key, policy);
        lemma_first_among(types, base, policy, j);
    } else {
        assert(first_blocker(types, base, policy, upto));
    }
}

/// Where a new descriptor is not let in, one entry is the first that
/// stands in its way.
pub(crate) proof fn lemma_one_blocker(types: Seq<TypeEntryView>, base: Seq<char>, policy: CollisionPolicy)
    requires
        exists|i: int| first_blocker(types, base, policy, i),
    ensures
        forall|i: int|
            first_blocker(types, base, policy, i) ==> i == blocker_of(types, base, policy),
{
    let j = blocker_of(types, base, policy);
    assert forall|i: int| first_blocker(types, base, policy, i) implies i == j by {
        if i < j {
            assert(!blocks(types[i], base, wanted_key(types, base, policy), policy));
        } else if j < i {
            assert(!blocks(types[j], base, wanted_key(types, base, policy), policy));
        }
    }
}

/// A shared descriptor that is resolved twice has one entry, and both
/// times the answer is the reference to it: the first request claims the
/// entry, the validator is put there, and the second request finds it and
/// changes nothing.
pub proof fn lemma_resolved_once(
    g: GeneratorView,
    name: NameView,
    origin: Seq<char>,
    validator: TreeView,
)
    requires
        table_wf(g.types),
        !knows(g.types, render_name(name), origin),
        admits(g.types, render_name(name), g.policy),
    ensures
        ({
            let first = requested(g, name, origin, true);
            let put = defined(first.after, name, origin, validator);
            let second = requested(put.after, name, origin, true);
            let key = placeholder(g.types, name, origin, g.policy).key;
            &&& first.answer == AnswerView::Claimed(key)
            &&& put.answer == AnswerView::Known(key)
            &&& second.answer == AnswerView::Known(key)
            &&& second.after == put.after
            &&& put.after.types.len() == g.types.len() + 1
            &&& put.after.types.last().key == key
            &&& put.after.types.last().validator == validator
            &&& forall|i: int| 0 <= i < g.types.len() ==> (#[trigger] put.after.types[i]).key != key
        }),
{
    let base = render_name(name);
    let first = requested(g, name, origin, true);
    let at = g.types.len() as int;
    assert(held_at(first.after.types, base, origin, at));
    assert forall|i: int, j: int| 0 <= i < j < first.after.types.len() implies first.after.types[i].key
        != first.after.types[j].key && !(first.after.types[i].base == first.after.types[j].base
        && first.after.types[i].origin == first.after.types[j].origin) by {
        if j == at {
            assert(!blocks(g.types[i], base, wanted_key(g.types, base, g.policy), g.policy));
            assert(!held_at(g.types, base, origin, i));
        }
    }
    lemma_one_place(first.after.types, base, origin, at);
    let put = defined(first.after, name, origin, validator);
    assert(held_at(put.after.types, base, origin, at));
    assert forall|i: int, j: int| 0 <= i < j < put.after.types.len() implies put.after.types[i].key
        != put.after.types[j].key && !(put.after.types[i].base == put.after.types[j].base
        && put.after.types[i].origin == put.after.types[j].origin) by {
        assert(first.after.types[i].key != first.after.types[j].key);
    }
    lemma_one_place(put.after.types, base, origin, at);
    assert forall|i: int| 0 <= i < g.types.len() implies (#[trigger] put.after.types[i]).key
        != placeholder(g.types, name, origin, g.policy).key by {
        assert(!blocks(g.types[i], base, wanted_key(g.types, base, g.policy), g.policy));
    }
}

/// The generator after the descriptor `origin` with the name `name` has
/// claimed a new entry.
pub open spec fn with_claim(g: GeneratorView, name: NameView, origin: Seq<char>) -> GeneratorView {
    GeneratorView {
        types: g.types.push(placeholder(g.types, name, origin, g.policy)),
        idents: g.idents.insert(name.id),
        ..g
    }
}

/// The generator after `validator` has been put in the entry at `i`.
pub open spec fn with_validator(g: GeneratorView, i: int, validator: TreeView) -> GeneratorView {
    GeneratorView { types: g.types.update(i, TypeEntryView { validator, ..g.types[i] }), ..g }
}

impl SchemaGenerator {
    /// A generator without a document validator, for descriptors that are
    /// resolved by hand.
    pub fn empty(policy: CollisionPolicy) -> (gen: SchemaGenerator)
        ensures
            gen@ == empty_generator(policy),
    {
        let gen = SchemaGenerator {
            doc: None,
            max_regex: 0,
            description: None,
            name: None,
            doc_compress: None,
            version: None,
            types: TypeTable::new(),
            entries: Vec::new(),
            registry: IdentRegistry::new(),
            policy,
        };
        assert(gen.entry_views() =~= Seq::<EntryView>::empty());
        gen
    }

    /// Decides how the descriptor `origin` with the name `name` gets its
    /// validator, as `requested` says. A descriptor that has an entry is
    /// answered with the key of that entry, whatever it says of sharing. One
    /// that has none and is not to be shared is inlined. One that is to be
    /// shared claims an entry: its identifier is registered for shortening
    /// and the placeholder is put under its key, before its validator is
    /// computed. Claiming fails where another descriptor stands in the way.
    pub fn request(
        &mut self,
        name: &Name,
        origin: &str,
        should_reference: bool,
    ) -> (admission: Result<Admission, SchemaError>)
        ensures
            generator_wf(old(self)@),
            generator_wf(final(self)@),
            final(self)@ == requested(old(self)@, name@, origin@, should_reference).after,
            answer_view(admission) == requested(
                old(self)@,
                name@,
                origin@,
                should_reference,
            ).answer,
    {
        proof {
            use_type_invariant(&*self);
        }
        let base: String = name.render();
        match self.types.find(base.as_str(), origin) {
            Some(i) => {
                proof {
                    lemma_one_place(self.types@, base@, origin@, i as int);
                }
                return Ok(Admission::Known(self.types.key_at(i).clone()));
            },
            None => {},
        }
        if !should_reference {
            return Ok(Admission::Inline);
        }
        let at: usize = match self.claim(name, origin) {
            Ok(at) => at,
            Err(e) => {
                proof {
                    lemma_one_blocker(old(self)@.types, base@, old(self)@.policy);
                }
                return Err(e);
            },
        };
        proof {
            use_type_invariant(&*self);
        }
        Ok(Admission::Claimed(self.types.key_at(at).clone()))
    }

    /// Claims an entry for a descriptor that has none, and registers the
    /// identifier of its name.
    fn claim(&mut self, name: &Name, origin: &str) -> (claimed: Result<usize, SchemaError>)
        requires
            !knows(old(self)@.types, render_name(name@), origin@),
        ensures
            claimed is Ok <==> admits(old(self)@.types, render_name(name@), old(self)@.policy),
            claimed matches Ok(at) ==> at == old(self)@.types.len() && final(self)@ == with_claim(
                old(self)@,
                name@,
                origin@,
            ),
            claimed matches Err(e) ==> final(self)@ == old(self)@ && (
            e matches SchemaError::NameCollision { key, first, second } && key@ == wanted_key(
                old(self)@.types,
                render_name(name@),
                old(self)@.policy,
            ) && second@ == origin@ && exists|i: int|
                first_blocker(old(self)@.types, render_name(name@), old(self)@.policy, i)
                    && first@ == old(self)@.types[i].origin && (old(self)@.policy
                    == CollisionPolicy::Strict ==> old(self)@.types[i].base == render_name(
                    name@,
                ))),
    {
        proof {
            use_type_invariant(&*self);
        }
        // The generator is taken apart while the table and the registry
        // change, and put together again when both agree.
        let mut taken = SchemaGenerator::empty(self.policy);
        core::mem::swap(self, &mut taken);
        proof {
            use_type_invariant(&taken);
        }
        let SchemaGenerator {
            doc,
            max_regex,
            description,
            name: title,
            doc_compress,
            version,
            types,
            entries,
            registry,
            policy,
        } = taken;
        let mut types = types;
        let mut registry = registry;
        let ghost before = types@;
        let claimed = types.claim(name.clone(), origin, policy);
        if claimed.is_ok() {
            registry.register(name.id());
        }
        proof {
            if claimed is Ok {
                let at = before.len() as int;
                assert(types@[at].name.id == name@.id);
                assert forall|id: IdentifierView| registry@.contains(id) implies exists|i: int|
                    0 <= i < types@.len() && (#[trigger] types@[i]).name.id == id by {
                    if id != name@.id {
                        let i = choose|i: int|
                            0 <= i < before.len() && (#[trigger] before[i]).name.id == id;
                        assert(types@[i].name.id == id);
                    }
                }
                assert forall|i: int| 0 <= i < types@.len() implies registry@.contains(
                    (#[trigger] types@[i]).name.id,
                ) by {
                    if i < at {
                        assert(types@[i] == before[i]);
                    }
                }
            }
        }
        *self = SchemaGenerator {
            doc,
            max_regex,
            description,
            name: title,
            doc_compress,
            version,
            types,
            entries,
            registry,
            policy,
        };
        claimed
    }

    /// Puts `validator` in the entry at `at`.
    fn put(&mut self, at: usize, validator: ValidatorTree)
        requires
            at < old(self)@.types.len(),
        ensures
            final(self)@ == with_validator(old(self)@, at as int, validator@),
    {
        proof {
            use_type_invariant(&*self);
        }
        let mut taken = SchemaGenerator::empty(self.policy);
        core::mem::swap(self, &mut taken);
        proof {
            use_type_invariant(&taken);
        }
        let SchemaGenerator {
            doc,
            max_regex,
            description,
            name: title,
            doc_compress,
            version,
            types,
            entries,
            registry,
            policy,
        } = taken;
        let mut types = types;
        let ghost before = types@;
        types.define(at, validator);
        proof {
            assert forall|id: IdentifierView| registry@.contains(id) implies exists|i: int|
                0 <= i < types@.len() && (#[trigger] types@[i]).name.id == id by {
                let i = choose|i: int|
                    0 <= i < before.len() && (#[trigger] before[i]).name.id == id;
                assert(types@[i].name.id == id);
            }
            assert forall|i: int| 0 <= i < types@.len() implies registry@.contains(
                (#[trigger] types@[i]).name.id,
            ) by {
                assert(types@[i].name == before[i].name);
            }
        }
        *self = SchemaGenerator {
            doc,
            max_regex,
            description,
            name: title,
            doc_compress,
            version,
            types,
            entries,
            registry,
            policy,
        };
    }

    /// Puts the validator that was computed for the descriptor `origin` with
    /// the name `name` in its entry, in place of the placeholder, and answers
    /// with the reference to that entry, as `defined` says. A descriptor that
    /// has no entry claims one first, as `request` does.
    pub fn define(
        &mut self,
        name: &Name,
        origin: &str,
        validator: ValidatorTree,
    ) -> (reference: Result<ValidatorTree, SchemaError>)
        ensures
            generator_wf(old(self)@),
            generator_wf(final(self)@),
            final(self)@ == defined(old(self)@, name@, origin@, validator@).after,
            match reference {
                Ok(tree) => defined(old(self)@, name@, origin@, validator@).answer == (
                AnswerView::Known(tree@->Ref_0)) && tree@ is Ref,
                Err(e) => defined(old(self)@, name@, origin@, validator@).answer == answer_view(
                    Err(e),
                ),
            },
    {
        proof {
            use_type_invariant(&*self);
        }
        let base: String = name.render();
        let at: usize = match self.types.find(base.as_str(), origin) {
            Some(i) => {
                proof {
                    lemma_one_place(self.types@, base@, origin@, i as int);
                }
                i
            },
            None => {
                match self.claim(name, origin) {
                    Ok(i) => i,
                    Err(e) => {
                        proof {
                            lemma_one_blocker(old(self)@.types, base@, old(self)@.policy);
                        }
                        return Err(e);
                    },
                }
            },
        };
        let key: String = self.types.key_at(at).clone();
        self.put(at, validator);
        proof {
            use_type_invariant(&*self);
        }
        Ok(ValidatorTree::Ref(key))
    }

    /// The number of entries in the type table.
    pub fn type_count(&self) -> (n: usize)
        ensures
            n == self@.types.len(),
    {
        self.types.len()
    }

    /// The validator under the key `key` in the type table, if there is one.
    pub fn type_get(&self, key: &str) -> (found: Option<&ValidatorTree>)
        ensures
            match found {
                Some(validator) => exists|i: int|
                    0 <= i < self@.types.len() && (#[trigger] self@.types[i]).key == key@
                        && validator@ == self@.types[i].validator,
                None => forall|i: int|
                    0 <= i < self@.types.len() ==> (#[trigger] self@.types[i]).key != key@,
            },
    {
        match self.types.find_key(key) {
            Some(i) => Some(self.types.validator_at(i)),
            None => None,
        }
    }

    /// The keys of the type table, in the order in which they were claimed.
    /// No two are the same.
    pub fn type_keys(&self) -> (keys: Vec<String>)
        ensures
            generator_wf(self@),
            keys@.len() == self@.types.len(),
            forall|i: int| 0 <= i < keys@.len() ==> (#[trigger] keys@[i])@ == self@.types[i].key,
            forall|i: int, j: int| 0 <= i < j < keys@.len() ==> keys@[i]@ != keys@[j]@,
    {
        proof {
            use_type_invariant(self);
        }
        let mut keys: Vec<String> = Vec::new();
        let mut i: usize = 0;
        while i < self.types.len()
            invariant
                i <= self.types@.len(),
                keys@.len() == i,
                forall|j: int| 0 <= j < i ==> (#[trigger] keys@[j])@ == self.types@[j].key,
            decreases self.types@.len() - i,
        {
            keys.push(self.types.key_at(i).clone());
            i = i + 1;
        }
        keys
    }
}

/// A descriptor: what a data shape has to say of itself for a schema to be
/// made of it. The methods take no value of the shape; they speak of the
/// type. Where `opt` is set, the shape stands in a field that is left out
/// when it holds the default value, and may then have another validator.
///
/// Nothing is asked of an implementation: whatever the methods answer, the
/// generator stays whole.
#[allow(unused_variables)]
pub trait FogValidate {
    /// A marker that tells this descriptor from every other that gives the
    /// same name. A descriptor that stands for another, as a wrapper does
    /// for what it wraps, gives the marker of that other. A shared shape
    /// with parameters puts the markers of its parameters into its own, as
    /// `marker_of` does for the shapes of this library: two shapes of one
    /// kind whose parameters have different descriptors are then different
    /// descriptors, also where their names are the same.
    fn origin(opt: bool) -> (marker: String);

    /// Whether the validator of this shape is to be shared through the type
    /// table and referred to by name. A shape that can hold itself, directly
    /// or through others, has to say yes, or generation does not end.
    fn should_reference(opt: bool) -> (shared: bool) {
        true
    }

    /// Whether this shape has another validator when `opt` is set.
    fn has_opt() -> (differs: bool) {
        false
    }

    /// The name under which the validator is shared, in the form
    /// `module_path::Type<TypeParam1,TypeParam2>`.
    fn validator_name(opt: bool) -> (name: Name);

    /// Computes the validator of this shape. The validators of the shapes
    /// that it is made of are had from `gen`, by `type_add` and
    /// `type_add_opt`.
    fn validator(gen: &mut SchemaGenerator, opt: bool) -> (validator: Result<
        ValidatorTree,
        SchemaError,
    >);
}

/// One resolution on the way of a descriptor that is made of several: the
/// generator before and after, and the answer.
pub struct Step {
    pub before: GeneratorView,
    pub after: GeneratorView,
    pub answer: Result<ValidatorTree, SchemaError>,
}

/// Whether the step is a resolution of the descriptor `T`: `resolved` holds
/// of the generator before and after it and of its answer. It is opaque,
/// so that a proof about many steps does not carry what each of them says:
/// `reveal` it to read one.
#[verifier::opaque]
pub open spec fn step_of<T: FogValidate>(step: Step) -> bool {
    resolved::<T>(step.before, step.after, false, step.answer)
}

/// Whether `steps` lead from `before` to `after`: each starts where the one
/// before it ended, and every one but the last got an answer.
pub open spec fn chained(before: GeneratorView, after: GeneratorView, steps: Seq<Step>) -> bool {
    &&& steps.len() > 0
    &&& steps[0].before == before
    &&& steps.last().after == after
    &&& forall|i: int, j: int|
        0 <= i && j == i + 1 && j < steps.len() ==> (#[trigger] steps[i]).after == (
        #[trigger] steps[j]).before
    &&& forall|i: int| 0 <= i < steps.len() - 1 ==> (#[trigger] steps[i]).answer is Ok
}

/// Whether `steps` are the resolutions that gave the items `items`, one
/// each: they lead from `before` to `now`, and every one got its item as the
/// answer.
pub open spec fn gathered(
    before: GeneratorView,
    now: GeneratorView,
    steps: Seq<Step>,
    items: Seq<ValidatorTree>,
) -> bool {
    &&& steps.len() == items.len()
    &&& steps.len() == 0 ==> now == before
    &&& steps.len() > 0 ==> steps[0].before == before && steps.last().after == now
    &&& forall|i: int, j: int|
        0 <= i && j == i + 1 && j < steps.len() ==> (#[trigger] steps[i]).after == (
        #[trigger] steps[j]).before
    &&& forall|i: int|
        0 <= i < steps.len() ==> (#[trigger] steps[i]).answer == Ok::<
            ValidatorTree,
            SchemaError,
        >(items[i])
}

/// One more resolution that got an item goes on from where the last one
/// ended.
pub proof fn lemma_gathered_more(
    before: GeneratorView,
    now: GeneratorView,
    steps: Seq<Step>,
    items: Seq<ValidatorTree>,
    step: Step,
    item: ValidatorTree,
)
    requires
        gathered(before, now, steps, items),
        step.before == now,
        step.answer == Ok::<ValidatorTree, SchemaError>(item),
    ensures
        gathered(before, step.after, steps.push(step), items.push(item)),
        chained(before, step.after, steps.push(step)),
{
    let more = steps.push(step);
    assert forall|i: int, j: int| 0 <= i && j == i + 1 && j < more.len() implies (
    #[trigger] more[i]).after == (#[trigger] more[j]).before by {
        if j < steps.len() {
            assert(steps[i].after == steps[j].before);
        }
    }
    assert forall|i: int| 0 <= i < more.len() - 1 implies (#[trigger] more[i]).answer is Ok by {
        assert(steps[i].answer is Ok);
    }
}

/// A resolution that failed ends the way.
pub proof fn lemma_gathered_failed(
    before: GeneratorView,
    now: GeneratorView,
    steps: Seq<Step>,
    items: Seq<ValidatorTree>,
    step: Step,
)
    requires
        gathered(before, now, steps, items),
        step.before == now,
    ensures
        chained(before, step.after, steps.push(step)),
{
    let more = steps.push(step);
    assert forall|i: int, j: int| 0 <= i && j == i + 1 && j < more.len() implies (
    #[trigger] more[i]).after == (#[trigger] more[j]).before by {
        if j < steps.len() {
            assert(steps[i].after == steps[j].before);
        }
    }
    assert forall|i: int| 0 <= i < more.len() - 1 implies (#[trigger] more[i]).answer is Ok by {
        assert(steps[i].answer is Ok);
    }
}

/// Whether `root` is a validator that the descriptor `T` gave: it goes by
/// the rendered name and the marker that `T` gives when it is asked without
/// `opt`.
pub open spec fn root_of<T: FogValidate>(root: RootView) -> bool {
    exists|name: Name, origin: String|
        {
            &&& #[trigger] call_ensures(T::validator_name, (false,), name)
            &&& #[trigger] call_ensures(T::origin, (false,), origin)
            &&& root.shape_name == render_name(name@)
            &&& root.origin == origin@
        }
}

/// What resolving a descriptor with the name `name`, the marker `origin`
/// and the sharing `shared` comes to, whatever the descriptors that are
/// asked on the way do. A descriptor that has an entry gets the reference
/// to it, and nothing changes. One that is to be shared and has none fails
/// where another descriptor stands in its way, and nothing changes: the
/// failure has the key that was asked for, the marker of the descriptor
/// whose entry stands in the way, and the marker of this one. Where it gets
/// an answer, it has an entry afterwards and the answer is the reference
/// to it.
pub open spec fn resolved_as(
    before: GeneratorView,
    after: GeneratorView,
    name: NameView,
    origin: Seq<char>,
    shared: bool,
    answer: Result<ValidatorTree, SchemaError>,
) -> bool {
    let base = render_name(name);
    if knows(before.types, base, origin) {
        &&& after == before
        &&& answer matches Ok(reference)
        &&& reference@ == TreeView::Ref(before.types[place_of(before.types, base, origin)].key)
    } else if !shared {
        true
    } else if admits(before.types, base, before.policy) {
        answer matches Ok(reference) ==> exists|i: int|
            held_at(after.types, base, origin, i) && reference@ == TreeView::Ref(
                (#[trigger] after.types[i]).key,
            )
    } else {
        &&& after == before
        &&& answer matches Err(SchemaError::NameCollision { key, first, second })
        &&& key@ == wanted_key(before.types, base, before.policy)
        &&& first@ == before.types[blocker_of(before.types, base, before.policy)].origin
        &&& second@ == origin
    }
}

/// Whether a descriptor with the name `name`, the marker `origin` and the
/// sharing `shared` is asked for its validator when it is resolved in
/// `before`: it has no entry yet, and where it is to be shared its name is
/// free.
pub open spec fn computes(
    before: GeneratorView,
    name: NameView,
    origin: Seq<char>,
    shared: bool,
) -> bool {
    let base = render_name(name);
    !knows(before.types, base, origin) && (!shared || admits(
        before.types,
        base,
        before.policy,
    ))
}

/// What resolving comes to once the descriptor has computed `computed` and
/// left the generator as `returned`. A validator of a shared descriptor is
/// put in its entry, as `defined` says, and the answer is the reference to
/// that entry. In every other case the generator stays as the descriptor
/// left it, and what it computed is the answer.
pub open spec fn concluded(
    returned: GeneratorView,
    after: GeneratorView,
    name: NameView,
    origin: Seq<char>,
    shared: bool,
    computed: Result<ValidatorTree, SchemaError>,
    answer: Result<ValidatorTree, SchemaError>,
) -> bool {
    if shared && computed is Ok {
        let outcome = defined(returned, name, origin, computed->Ok_0@);
        &&& after == outcome.after
        &&& match answer {
            Ok(tree) => tree@ is Ref && outcome.answer == AnswerView::Known(tree@->Ref_0),
            Err(e) => outcome.answer == answer_view(Err(e)),
        }
    } else {
        after == returned && answer == computed
    }
}

/// Has the descriptor `T` compute its validator in the form `asked`. The
/// second part of the result is the generator as the descriptor left it:
/// through it a contract can say of such a call on which generator the
/// validator was computed, and what became of the generator.
pub fn computed_by<T: FogValidate>(gen: &mut SchemaGenerator, asked: bool) -> (done: (
    Result<ValidatorTree, SchemaError>,
    Ghost<GeneratorView>,
))
    ensures
        done.1@ == final(gen)@,
        exists|inner: &mut SchemaGenerator, computed: Result<ValidatorTree, SchemaError>|
            *inner == *old(gen) && *final(inner) == *final(gen) && computed == done.0
                && #[trigger] call_ensures(T::validator, (inner, asked), computed),
{
    let computed = T::validator(gen, asked);
    (computed, Ghost(gen@))
}

/// What resolving the descriptor `T` comes to, for a name, a marker and a
/// sharing that the descriptor gives when it is asked with `opt`, where
/// `opt` counts only if the descriptor tells the two forms apart.
/// `resolved_as` says what holds whatever the descriptors do that are asked
/// on the way. Where the descriptor has no entry yet and may have one, it
/// is asked for its validator, by `computed_by`, on the generator as
/// `requested` leaves it; what becomes of the validator that it computed
/// and of the generator as it left it, `concluded` says.
pub open spec fn resolved<T: FogValidate>(
    before: GeneratorView,
    after: GeneratorView,
    opt: bool,
    answer: Result<ValidatorTree, SchemaError>,
) -> bool {
    exists|differs: bool, asked: bool, name: Name, origin: String, shared: bool|
        {
            &&& asked == (opt && differs)
            &&& #[trigger] call_ensures(T::has_opt, (), differs)
            &&& #[trigger] call_ensures(T::validator_name, (asked,), name)
            &&& #[trigger] call_ensures(T::origin, (asked,), origin)
            &&& #[trigger] call_ensures(T::should_reference, (asked,), shared)
            &&& resolved_as(before, after, name@, origin@, shared, answer)
            &&& computes(before, name@, origin@, shared) ==> exists|
                run: &mut SchemaGenerator,
                done: (Result<ValidatorTree, SchemaError>, Ghost<GeneratorView>),
            |
                {
                    &&& (*run)@ == requested(before, name@, origin@, shared).after
                    &&& #[trigger] call_ensures(computed_by::<T>, (run, asked), done)
                    &&& concluded(done.1@, after, name@, origin@, shared, done.0, answer)
                }
        }
}

impl SchemaGenerator {
    /// The validator to use for the shape `T` where it stands in another:
    /// its own validator, or a reference to its entry in the type table.
    /// What the answer is and how the generator changes, `resolved` says.
    pub fn type_add<T: FogValidate>(&mut self) -> (validator: Result<ValidatorTree, SchemaError>)
        ensures
            generator_wf(final(self)@),
            resolved::<T>(old(self)@, final(self)@, false, validator),
    {
        self.type_add_inner::<T>(false)
    }

    /// As `type_add`, for a shape in a field that is left out when it holds
    /// the default value.
    pub fn type_add_opt<T: FogValidate>(&mut self) -> (validator: Result<
        ValidatorTree,
        SchemaError,
    >)
        ensures
            generator_wf(final(self)@),
            resolved::<T>(old(self)@, final(self)@, true, validator),
    {
        self.type_add_inner::<T>(true)
    }

    /// Resolves the descriptor `T`: asks it for its name, lets `request`
    /// decide, and where an entry was claimed has the descriptor compute its
    /// validator, which `define` puts in the entry. The placeholder is in
    /// the table while the validator is computed, so that a shape that
    /// comes to itself on the way finds its entry and gets a reference.
    fn type_add_inner<T: FogValidate>(&mut self, opt: bool) -> (validator: Result<
        ValidatorTree,
        SchemaError,
    >)
        ensures
            generator_wf(final(self)@),
            resolved::<T>(old(self)@, final(self)@, opt, validator),
    {
        let differs: bool = T::has_opt();
        let asked: bool = opt && differs;
        let name: Name = T::validator_name(asked);
        let origin: String = T::origin(asked);
        let shared: bool = T::should_reference(asked);
        let ghost base = render_name(name@);
        let admission = self.request(&name, origin.as_str(), shared);
        let validator = match admission {
            Ok(Admission::Known(key)) => Ok(ValidatorTree::Ref(key)),
            Ok(Admission::Inline) => computed_by::<T>(self, asked).0,
            Ok(Admission::Claimed(_)) => {
                match computed_by::<T>(self, asked).0 {
                    Ok(validator) => {
                        let ghost computed = self@;
                        let reference = self.define(&name, origin.as_str(), validator);
                        proof {
                            if reference is Ok {
                                let at = if knows(computed.types, base, origin@) {
                                    place_of(computed.types, base, origin@)
                                } else {
                                    computed.types.len() as int
                                };
                                assert(held_at(self@.types, base, origin@, at));
                            }
                        }
                        reference
                    },
                    Err(e) => Err(e),
                }
            },
            Err(e) => Err(e),
        };
        proof {
            use_type_invariant(&*self);
            assert(call_ensures(T::has_opt, (), differs));
            assert(call_ensures(T::validator_name, (asked,), name));
            assert(call_ensures(T::origin, (asked,), origin));
            assert(call_ensures(T::should_reference, (asked,), shared));
            assert(resolved_as(old(self)@, self@, name@, origin@, shared, validator));
        }
        validator
    }
}

/// The validator that stands for `root` in the schema: the reference to the
/// entry of its descriptor where the type table has one, and else the
/// validator itself.
pub open spec fn shared(types: Seq<TypeEntryView>, root: RootView) -> TreeView {
    if knows(types, root.shape_name, root.origin) {
        TreeView::Ref(types[place_of(types, root.shape_name, root.origin)].key)
    } else {
        root.validator
    }
}

/// The renamings of the fix-up pass of a generator: from the key of every
/// entry whose name is shortened to its new key.
pub open spec fn fixups_of(g: GeneratorView) -> Map<Seq<char>, Seq<char>> {
    names_map(fixup_pairs(g.types, rename_map(g.idents)))
}

/// The entry items after the fix-up.
pub open spec fn fixed_entries(
    entries: Seq<EntryView>,
    types: Seq<TypeEntryView>,
    map: Map<Seq<char>, Seq<char>>,
) -> Seq<EntryView> {
    Seq::new(
        entries.len(),
        |i: int|
            EntryView {
                root: RootView {
                    validator: rename_refs(shared(types, entries[i].root), map),
                    ..entries[i].root
                },
                ..entries[i]
            },
    )
}

/// The schema that a generator comes to. The identifiers of the type table
/// are shortened. The validator of the documents and that of each entry
/// give way to a reference where the type table has an entry for their
/// descriptor. Then every reference, in these and in the type table, is
/// renamed to the shortened key, and last the keys themselves.
pub open spec fn assembled(g: GeneratorView) -> SchemaView
    recommends
        g.doc is Some,
{
    let map = fixups_of(g);
    SchemaView {
        doc: rename_refs(shared(g.types, g.doc->Some_0), map),
        max_regex: g.max_regex,
        description: g.description,
        name: g.name,
        doc_compress: g.doc_compress,
        version: g.version,
        entries: schema_entries(fixed_entries(g.entries, g.types, map)),
        types: schema_types(renamed_table(g.types, map)),
    }
}

/// No identifier is dropped: every registered identifier is that of the
/// name of an entry, and the name of that entry in the schema is the text
/// of the shortened name, in which the identifier has its short form.
pub proof fn lemma_identifiers_kept(g: GeneratorView, id: IdentifierView) -> (i: int)
    requires
        generator_wf(g),
        g.idents.contains(id),
    ensures
        0 <= i < g.types.len(),
        g.types[i].name.id == id,
        assembled(g).types[i].name == render_name(
            shorten_name(g.types[i].name, rename_map(g.idents)),
        ) + g.types[i].suffix,
        shorten_name(g.types[i].name, rename_map(g.idents)).id == short_id(g.idents, id),
{
    let i = choose|i: int| 0 <= i < g.types.len() && (#[trigger] g.types[i]).name.id == id;
    lemma_final_keys(g.types, rename_map(g.idents), i);
    lemma_rename_map_shortens(g.idents, id);
    i
}

/// References follow their entries: where a tree refers to the entry at
/// `i` by its key, the tree after the fix-up refers to it by the name that
/// the entry has in the schema.
pub proof fn lemma_references_follow(g: GeneratorView, tree: TreeView, i: int)
    requires
        0 <= i < g.types.len(),
        refers_to(tree, g.types[i].key),
    ensures
        refers_to(rename_refs(tree, fixups_of(g)), assembled(g).types[i].name),
{
    lemma_refs_renamed(tree, fixups_of(g), g.types[i].key);
}

/// Nothing is dropped and nothing is added: the schema has one named type
/// for each entry of the type table and one entry for each entry item, in
/// the same places, each entry under its label with its compression.
pub proof fn lemma_schema_holds_all(g: GeneratorView)
    ensures
        assembled(g).types.len() == g.types.len(),
        assembled(g).entries.len() == g.entries.len(),
        forall|i: int|
            0 <= i < g.entries.len() ==> (#[trigger] assembled(g).entries[i]).label
                == g.entries[i].label && assembled(g).entries[i].compress
                == g.entries[i].compress,
{
}

/// In the schema that a generator comes to, no validator refers to a name
/// that was shortened away: not that of the documents, nor that of a named
/// type or of an entry. This holds as long as no name is shortened to one
/// that is shortened itself.
pub proof fn lemma_schema_refs_are_current(g: GeneratorView, name: Seq<char>)
    requires
        g.doc is Some,
        forall|from: Seq<char>|
            fixups_of(g).contains_key(from) ==> !fixups_of(g).contains_key(
                #[trigger] fixups_of(g)[from],
            ),
        fixups_of(g).contains_key(name),
    ensures
        !refers_to(assembled(g).doc, name),
        forall|i: int|
            0 <= i < g.types.len() ==> !refers_to(
                (#[trigger] assembled(g).types[i]).validator,
                name,
            ),
        forall|i: int|
            0 <= i < g.entries.len() ==> !refers_to(
                (#[trigger] assembled(g).entries[i]).validator,
                name,
            ),
{
    let map = fixups_of(g);
    if refers_to(assembled(g).doc, name) {
        lemma_no_stale_refs(shared(g.types, g.doc->Some_0), map, name);
    }
    assert forall|i: int| 0 <= i < g.types.len() implies !refers_to(
        (#[trigger] assembled(g).types[i]).validator,
        name,
    ) by {
        if refers_to(assembled(g).types[i].validator, name) {
            lemma_no_stale_refs(g.types[i].validator, map, name);
        }
    }
    assert forall|i: int| 0 <= i < g.entries.len() implies !refers_to(
        (#[trigger] assembled(g).entries[i]).validator,
        name,
    ) by {
        if refers_to(assembled(g).entries[i].validator, name) {
            lemma_no_stale_refs(shared(g.types, g.entries[i].root), map, name);
        }
    }
}

/// Shortening keeps the entries apart by their identifiers: two entries
/// whose names have different identifiers have different identifiers after
/// shortening too. The type parameters of a name are shortened with it, and
/// of the texts of two whole names nothing is said here.
pub proof fn lemma_short_names_differ(g: GeneratorView, i: int, j: int)
    requires
        generator_wf(g),
        0 <= i < g.types.len(),
        0 <= j < g.types.len(),
        g.types[i].name.id != g.types[j].name.id,
    ensures
        shorten_name(g.types[i].name, rename_map(g.idents)).id != shorten_name(
            g.types[j].name,
            rename_map(g.idents),
        ).id,
{
    assert(g.idents.contains(g.types[i].name.id));
    assert(g.idents.contains(g.types[j].name.id));
    lemma_renamed_ids_differ(g.idents, g.types[i].name.id, g.types[j].name.id);
}

/// The names of the schema are the texts of the shortened names: the entry
/// at `i` goes by the text of its name after shortening, with the suffix
/// that its key had.
pub proof fn lemma_schema_names(g: GeneratorView, i: int)
    requires
        generator_wf(g),
        0 <= i < g.types.len(),
    ensures
        assembled(g).types[i].name == render_name(
            shorten_name(g.types[i].name, rename_map(g.idents)),
        ) + g.types[i].suffix,
{
    lemma_final_keys(g.types, rename_map(g.idents), i);
}

impl SchemaGenerator {
    /// Starts a schema for documents of the shape `T`. Two descriptors that
    /// give the same name make the generation fail. The descriptor computes
    /// its validator on an empty generator; where it fails, its error is
    /// handed on, and else the validator is that of the documents, under
    /// the name and the marker of `T`.
    pub fn new<T: FogValidate>() -> (gen: Result<SchemaGenerator, SchemaError>)
        ensures
            exists|run: &mut SchemaGenerator, computed: Result<ValidatorTree, SchemaError>|
                {
                    &&& (*run)@ == empty_generator(CollisionPolicy::Strict)
                    &&& #[trigger] call_ensures(T::validator, (run, false), computed)
                    &&& match computed {
                        Ok(validator) => {
                            &&& gen matches Ok(g)
                            &&& generator_wf(g@)
                            &&& g@.doc matches Some(root)
                            &&& root.validator == validator@
                            &&& root_of::<T>(root)
                            &&& g@ == (GeneratorView { doc: g@.doc, ..(*final(run))@ })
                        },
                        Err(e) => gen matches Err(failed) && failed == e,
                    }
                },
    {
        SchemaGenerator::with_policy::<T>(CollisionPolicy::Strict)
    }

    /// Starts a schema for documents of the shape `T`, with the given way
    /// to treat two descriptors that give the same name. The descriptor
    /// computes its validator on an empty generator; where it fails, its
    /// error is handed on, and else the validator is that of the documents,
    /// under the name and the marker of `T`.
    pub fn with_policy<T: FogValidate>(policy: CollisionPolicy) -> (gen: Result<
        SchemaGenerator,
        SchemaError,
    >)
        ensures
            exists|run: &mut SchemaGenerator, computed: Result<ValidatorTree, SchemaError>|
                {
                    &&& (*run)@ == empty_generator(policy)
                    &&& #[trigger] call_ensures(T::validator, (run, false), computed)
                    &&& match computed {
                        Ok(validator) => {
                            &&& gen matches Ok(g)
                            &&& generator_wf(g@)
                            &&& g@.doc matches Some(root)
                            &&& root.validator == validator@
                            &&& root_of::<T>(root)
                            &&& g@ == (GeneratorView { doc: g@.doc, ..(*final(run))@ })
                        },
                        Err(e) => gen matches Err(failed) && failed == e,
                    }
                },
    {
        let mut this = SchemaGenerator::empty(policy);
        let validator: ValidatorTree = match T::validator(&mut this, false) {
            Ok(validator) => validator,
            Err(e) => {
                return Err(e);
            },
        };
        let name: Name = T::validator_name(false);
        let origin: String = T::origin(false);
        let root = RootItem::new(validator, name.render(), origin.as_str());
        let gen = this.document(root);
        proof {
            use_type_invariant(&gen);
            assert(call_ensures(T::validator_name, (false,), name));
            assert(call_ensures(T::origin, (false,), origin));
            assert(root_of::<T>(root@));
        }
        Ok(gen)
    }

    /// Sets the validator of the documents.
    pub fn document(self, root: RootItem) -> (gen: SchemaGenerator)
        ensures
            gen@ == (GeneratorView { doc: Some(root@), ..self@ }),
    {
        proof {
            use_type_invariant(&self);
        }
        let mut this = self;
        this.doc = Some(root);
        this
    }

    /// Sets the description of the schema. It is kept for the reader and
    /// means nothing to the library.
    pub fn description(self, description: &str) -> (gen: SchemaGenerator)
        ensures
            gen@ == (GeneratorView { description: Some(description@), ..self@ }),
    {
        proof {
            use_type_invariant(&self);
        }
        let mut this = self;
        this.description = Some(String::from_str(description));
        this
    }

    /// Sets the compression of the documents of this schema.
    pub fn doc_compress(self, doc_compress: fog_pack::schema::Compress) -> (gen:
        SchemaGenerator)
        ensures
            gen@ == (GeneratorView { doc_compress: Some(doc_compress), ..self@ }),
    {
        proof {
            use_type_invariant(&self);
        }
        let mut this = self;
        this.doc_compress = Some(doc_compress);
        this
    }

    /// Sets the name of the schema. It is kept for the reader and means
    /// nothing to the library.
    pub fn name(self, name: &str) -> (gen: SchemaGenerator)
        ensures
            gen@ == (GeneratorView { name: Some(name@), ..self@ }),
    {
        proof {
            use_type_invariant(&self);
        }
        let mut this = self;
        this.name = Some(String::from_str(name));
        this
    }

    /// Sets the version of the schema. It is kept for the reader and means
    /// nothing to the library.
    pub fn version(self, version: fog_pack::types::Integer) -> (gen: SchemaGenerator)
        ensures
            gen@ == (GeneratorView { version: Some(version), ..self@ }),
    {
        proof {
            use_type_invariant(&self);
        }
        let mut this = self;
        this.version = Some(version);
        this
    }

    /// Sets the number of regular expressions that a query may hold.
    pub fn regexes(self, max_regex: u8) -> (gen: SchemaGenerator)
        ensures
            gen@ == (GeneratorView { max_regex, ..self@ }),
    {
        proof {
            use_type_invariant(&self);
        }
        let mut this = self;
        this.max_regex = max_regex;
        this
    }

    /// Adds the entries stored under `entry` to the schema: they have the
    /// shape `T` and the compression `compress`, or that of the documents
    /// where none is given. The descriptor computes its validator first;
    /// where it fails, its error is handed on. Then the item is added as
    /// `entry` does, and it fails where the label is in use.
    pub fn entry_add<T: FogValidate>(
        self,
        entry: &str,
        compress: Option<fog_pack::schema::Compress>,
    ) -> (gen: Result<SchemaGenerator, SchemaError>)
        ensures
            exists|run: &mut SchemaGenerator, computed: Result<ValidatorTree, SchemaError>|
                {
                    &&& *run == self
                    &&& #[trigger] call_ensures(T::validator, (run, false), computed)
                    &&& match computed {
                        Ok(validator) => if has_label((*final(run))@.entries, entry@) {
                            gen matches Err(SchemaError::DuplicateEntry { label }) && label@
                                == entry@
                        } else {
                            &&& gen matches Ok(g)
                            &&& generator_wf(g@)
                            &&& g@.entries.len() == (*final(run))@.entries.len() + 1
                            &&& g@.entries.last().label == entry@
                            &&& g@.entries.last().compress == compress
                            &&& g@.entries.last().root.validator == validator@
                            &&& root_of::<T>(g@.entries.last().root)
                            &&& g@ == (GeneratorView {
                                entries: (*final(run))@.entries.push(g@.entries.last()),
                                ..(*final(run))@
                            })
                        },
                        Err(e) => gen matches Err(failed) && failed == e,
                    }
                },
    {
        let mut this = self;
        let validator: ValidatorTree = match T::validator(&mut this, false) {
            Ok(validator) => validator,
            Err(e) => {
                return Err(e);
            },
        };
        let name: Name = T::validator_name(false);
        let origin: String = T::origin(false);
        let root = RootItem::new(validator, name.render(), origin.as_str());
        match this.entry(entry, root, compress) {
            Ok(gen) => {
                proof {
                    use_type_invariant(&gen);
                    assert(call_ensures(T::validator_name, (false,), name));
                    assert(call_ensures(T::origin, (false,), origin));
                    assert(root_of::<T>(root@));
                }
                Ok(gen)
            },
            Err(e) => Err(e),
        }
    }

    /// Adds the entries stored under `label`, with their validator and
    /// their compression. It fails where the label is in use.
    pub fn entry(
        self,
        label: &str,
        root: RootItem,
        compress: Option<fog_pack::schema::Compress>,
    ) -> (gen: Result<SchemaGenerator, SchemaError>)
        ensures
            match gen {
                Ok(g) => {
                    &&& !has_label(self@.entries, label@)
                    &&& g@ == (GeneratorView {
                        entries: self@.entries.push(
                            EntryView { label: label@, root: root@, compress },
                        ),
                        ..self@
                    })
                },
                Err(e) => {
                    &&& has_label(self@.entries, label@)
                    &&& e matches SchemaError::DuplicateEntry { label: taken }
                    &&& taken@ == label@
                },
            },
    {
        proof {
            use_type_invariant(&self);
        }
        let mut i: usize = 0;
        while i < self.entries.len()
            invariant
                i <= self.entries.len(),
                forall|j: int| 0 <= j < i ==> (#[trigger] self.entry_views()[j]).label != label@,
            decreases self.entries.len() - i,
        {
            if str_eq(self.entries[i].label.as_str(), label) {
                assert(self.entry_views()[i as int].label == label@);
                return Err(SchemaError::DuplicateEntry { label: String::from_str(label) });
            }
            i = i + 1;
        }
        let ghost before = self.entry_views();
        let mut this = self;
        let mut entries: Vec<EntryItem> = Vec::new();
        core::mem::swap(&mut this.entries, &mut entries);
        entries.push(EntryItem { label: String::from_str(label), root, compress });
        proof {
            assert forall|a: int, b: int| 0 <= a < b < entries@.len() implies entries@[a].label@
                != entries@[b].label@ by {
                if b == before.len() {
                    assert(before[a].label != label@);
                }
            }
        }
        this.entries = entries;
        assert(this.entry_views() =~= before.push(
            EntryView { label: label@, root: root@, compress },
        ));
        Ok(this)
    }

    /// The schema that this generator comes to, as `assembled` says. It
    /// fails where no validator was set for the documents. It fails as well
    /// where shortening gives two named types the same name, so that one
    /// would take the place of the other in the document: the failure has
    /// that name and the markers of the two descriptors, the earlier entry
    /// first.
    pub fn assemble(self) -> (schema: Result<Schema, SchemaError>)
        ensures
            generator_wf(self@),
            match schema {
                Ok(s) => self@.doc is Some && distinct_names(assembled(self@)) && s@ == assembled(
                    self@,
                ),
                Err(SchemaError::NoDocument) => self@.doc is None,
                Err(SchemaError::NameCollision { key, first, second }) => self@.doc is Some
                    && exists|i: int, j: int|
                    0 <= i < j < self@.types.len() && (#[trigger] assembled(self@).types[i]).name
                        == (#[trigger] assembled(self@).types[j]).name && key@ == assembled(
                        self@,
                    ).types[j].name && first@ == self@.types[i].origin && second@
                        == self@.types[j].origin,
                Err(_) => false,
            },
    {
        proof {
            use_type_invariant(&self);
        }
        let ghost g = self@;
        let SchemaGenerator {
            doc,
            max_regex,
            description,
            name,
            doc_compress,
            version,
            types,
            entries,
            registry,
            policy,
        } = self;
        let mut root: RootItem = match doc {
            Some(root) => root,
            None => {
                return Err(SchemaError::NoDocument);
            },
        };
        let renames: IdentRenames = registry.renames();
        let fixups: Fixups = types.fixups(&renames);
        assert(fixups@ == fixups_of(g));
        share(&types, &mut root);
        fixup(&fixups, &mut root.validator);
        let mut entries = entries;
        let ghost items = item_views(entries@);
        let mut i: usize = 0;
        while i < entries.len()
            invariant
                i <= entries.len(),
                table_wf(types@),
                entries@.len() == items.len(),
                forall|j: int|
                    0 <= j < i ==> (#[trigger] entries@[j])@ == fixed_entries(
                        items,
                        types@,
                        fixups@,
                    )[j],
                forall|j: int| i <= j < entries@.len() ==> (#[trigger] entries@[j])@ == items[j],
            decreases entries.len() - i,
        {
            share(&types, &mut entries[i].root);
            fixup(&fixups, &mut entries[i].root.validator);
            i = i + 1;
        }
        let mut types = types;
        types.shorten(&fixups);
        proof {
            assert(item_views(entries@) =~= fixed_entries(g.entries, g.types, fixups@));
            assert(assembled(g).types =~= schema_types(types@));
        }
        match types.clash() {
            Some((i, j)) => {
                assert(assembled(g).types[i as int].name == assembled(g).types[j as int].name);
                return Err(
                    SchemaError::NameCollision {
                        key: types.key_at(j).clone(),
                        first: String::from_str(types.origin_at(i)),
                        second: String::from_str(types.origin_at(j)),
                    },
                );
            },
            None => {},
        }
        proof {
            assert forall|i: int, j: int| 0 <= i < j < assembled(g).types.len() implies assembled(
                g,
            ).types[i].name != assembled(g).types[j].name by {
                assert(types@[i].key != types@[j].key);
            }
        }
        Ok(
            Schema::from_parts(
                root.validator,
                max_regex,
                description,
                name,
                doc_compress,
                version,
                entries,
                types,
            ),
        )
    }

    /// Builds the schema and has fog-pack encode it as a document. Without a
    /// validator of the documents there is no schema. Else fog-pack's
    /// schema builder is handed the schema that `assembled` gives for this
    /// generator, as `handed_over` says: its settings, every entry by
    /// ascending label and every named type by the ascending key that it
    /// had before the names were shortened, each validator in fog-pack's
    /// own form. What fog-pack answers to that builder is handed back: the
    /// document, or its refusal as an error of the assembler. Where
    /// shortening gives two named types the same name, nothing is handed to
    /// fog-pack and the collision is reported, as `assemble` says: no
    /// named type takes the place of another.
    pub fn build(self) -> (built: Result<fog_pack::document::Document, SchemaError>)
        ensures
            built matches Err(SchemaError::NoDocument) <==> self@.doc is None,
            built matches Err(SchemaError::NameCollision { .. }) <==> self@.doc is Some
                && !distinct_names(assembled(self@)),
            self@.doc is Some && distinct_names(assembled(self@)) ==> handed_over(
                assembled(self@),
                built,
            ),
    {
        match self.assemble() {
            Ok(schema) => schema.into_document(),
            Err(e) => Err(e),
        }
    }
}

/// Puts the reference to the entry of the descriptor of `root` in place of
/// its validator, where the type table has such an entry.
fn share(types: &TypeTable, root: &mut RootItem)
    requires
        table_wf(types@),
    ensures
        final(root)@ == (RootView { validator: shared(types@, old(root)@), ..old(root)@ }),
{
    match types.find(root.shape_name.as_str(), root.origin.as_str()) {
        Some(i) => {
            proof {
                let base = root.shape_name@;
                let origin = root.origin@;
                let j = place_of(types@, base, origin);
                assert(held_at(types@, base, origin, i as int));
                assert(held_at(types@, base, origin, j));
                assert(j == i);
            }
            root.validator = ValidatorTree::Ref(types.key_at(i).clone());
        },
        None => {},
    }
}

} // verus!

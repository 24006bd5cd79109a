//! The finished schema: the validators after the fix-up, under their
//! shortened names, ready to be handed to fog-pack.

use vstd::prelude::*;
use vstd::string::StringExecFns;
use crate::error::SchemaError;
use crate::fog::{
    builder_build, builder_description, builder_doc_compress, builder_entry_add, builder_name,
    builder_new, builder_of, builder_regexes, builder_type_add, builder_version, copy_compress,
    copy_validator, description_set, doc_compress_set, entry_added, name_set, regexes_set,
    schema_document, type_added, version_set,
};
use crate::generator::{item_views, EntryItem, EntryView};
use crate::order::{ascending, ascending_places, places, texts};
use crate::outside::in_fog_form;
use crate::table::{TypeEntryView, TypeTable};
use crate::tree::{TreeView, ValidatorTree};

verus! {

broadcast use {vstd::std_specs::vec::group_vec_axioms, vstd::seq::group_seq_axioms};

/// The validator of the entries under one label, as a mathematical value.
pub struct SchemaEntryView {
    pub label: Seq<char>,
    pub validator: TreeView,
    pub compress: Option<fog_pack::schema::Compress>,
}

/// A named type of the schema, as a mathematical value.
pub struct SchemaTypeView {
    /// The name of the type in the schema.
    pub name: Seq<char>,
    /// The key that the type had before the names were shortened: the
    /// rendered name that its descriptor gave, with the suffix.
    pub original: Seq<char>,
    pub validator: TreeView,
}

/// The finished schema as a mathematical value.
pub struct SchemaView {
    pub doc: TreeView,
    pub max_regex: u8,
    pub description: Option<Seq<char>>,
    pub name: Option<Seq<char>>,
    pub doc_compress: Option<fog_pack::schema::Compress>,
    pub version: Option<fog_pack::types::Integer>,
    pub entries: Seq<SchemaEntryView>,
    pub types: Seq<SchemaTypeView>,
}

/// The named types that a type table holds.
pub open spec fn schema_types(table: Seq<TypeEntryView>) -> Seq<SchemaTypeView> {
    Seq::new(
        table.len(),
        |i: int|
            SchemaTypeView {
                name: table[i].key,
                original: table[i].base + table[i].suffix,
                validator: table[i].validator,
            },
    )
}

/// The entries of the schema that a list of entry items holds.
pub open spec fn schema_entries(entries: Seq<EntryView>) -> Seq<SchemaEntryView> {
    Seq::new(
        entries.len(),
        |i: int|
            SchemaEntryView {
                label: entries[i].label,
                validator: entries[i].root.validator,
                compress: entries[i].compress,
            },
    )
}

/// The finished schema.
#[derive(Debug)]
pub struct Schema {
    doc: ValidatorTree,
    max_regex: u8,
    description: Option<String>,
    name: Option<String>,
    doc_compress: Option<fog_pack::schema::Compress>,
    version: Option<fog_pack::types::Integer>,
    entries: Vec<EntryItem>,
    types: TypeTable,
}

impl View for Schema {
    type V = SchemaView;

    closed spec fn view(&self) -> SchemaView {
        SchemaView {
            doc: self.doc@,
            max_regex: self.max_regex,
            description: text_view(self.description),
            name: text_view(self.name),
            doc_compress: self.doc_compress,
            version: self.version,
            entries: schema_entries(item_views(self.entries@)),
            types: schema_types(self.types@),
        }
    }
}

/// The text, if there is one, as a mathematical value.
pub open spec fn text_view(text: Option<String>) -> Option<Seq<char>> {
    match text {
        Some(t) => Some(t@),
        None => None,
    }
}

/// The builder `b` after the settings of `schema` were made on it: the
/// number of regular expressions, then the description, the name, the
/// compression of the documents and the version, each where it was set.
pub open spec fn with_settings(
    b: fog_pack::schema::SchemaBuilder,
    schema: SchemaView,
) -> fog_pack::schema::SchemaBuilder {
    let counted = regexes_set(b, schema.max_regex);
    let described = match schema.description {
        Some(text) => description_set(counted, text),
        None => counted,
    };
    let named = match schema.name {
        Some(text) => name_set(described, text),
        None => described,
    };
    let compressed = match schema.doc_compress {
        Some(compress) => doc_compress_set(named, compress),
        None => named,
    };
    match schema.version {
        Some(version) => version_set(compressed, version),
        None => compressed,
    }
}

/// Whether no two named types of the schema have the same name.
pub open spec fn distinct_names(schema: SchemaView) -> bool {
    forall|i: int, j: int|
        0 <= i < j < schema.types.len() ==> schema.types[i].name != schema.types[j].name
}

/// The labels of the entries of a schema, each in the place of its entry.
pub open spec fn labels_of(schema: SchemaView) -> Seq<Seq<char>> {
    Seq::new(schema.entries.len(), |i: int| schema.entries[i].label)
}

/// The keys that the named types of a schema had before the names were
/// shortened, each in the place of its type.
pub open spec fn originals_of(schema: SchemaView) -> Seq<Seq<char>> {
    Seq::new(schema.types.len(), |i: int| schema.types[i].original)
}

/// The builder `b` after the entries at the first `n` places of `order`
/// were added to it, one after the other, each with the validator that
/// `validators` holds in the place of the entry.
pub open spec fn with_entries(
    b: fog_pack::schema::SchemaBuilder,
    entries: Seq<SchemaEntryView>,
    validators: Seq<fog_pack::validator::Validator>,
    order: Seq<int>,
    n: nat,
) -> fog_pack::schema::SchemaBuilder
    decreases n,
{
    if n == 0 {
        b
    } else {
        let at = order[n - 1];
        entry_added(
            with_entries(b, entries, validators, order, (n - 1) as nat),
            entries[at].label,
            validators[at],
            entries[at].compress,
        )
    }
}

/// The builder `b` after the named types at the first `n` places of
/// `order` were added to it, one after the other, each with the validator
/// that `validators` holds in the place of the type.
pub open spec fn with_types(
    b: fog_pack::schema::SchemaBuilder,
    types: Seq<SchemaTypeView>,
    validators: Seq<fog_pack::validator::Validator>,
    order: Seq<int>,
    n: nat,
) -> fog_pack::schema::SchemaBuilder
    decreases n,
{
    if n == 0 {
        b
    } else {
        let at = order[n - 1];
        type_added(
            with_types(b, types, validators, order, (n - 1) as nat),
            types[at].name,
            validators[at],
        )
    }
}

/// The builder that holds `schema`: made for the validator `doc` of the
/// documents, then given the settings, every entry in the order
/// `entry_order` and every named type in the order `type_order`, with
/// `entries` and `types` as their validators.
pub open spec fn loaded(
    schema: SchemaView,
    doc: fog_pack::validator::Validator,
    entries: Seq<fog_pack::validator::Validator>,
    types: Seq<fog_pack::validator::Validator>,
    entry_order: Seq<int>,
    type_order: Seq<int>,
) -> fog_pack::schema::SchemaBuilder {
    with_types(
        with_entries(
            with_settings(builder_of(doc), schema),
            schema.entries,
            entries,
            entry_order,
            schema.entries.len(),
        ),
        schema.types,
        types,
        type_order,
        schema.types.len(),
    )
}

/// Whether fog-pack's schema builder can have been handed `schema` with
/// the answer `built`: the validator of the documents, the settings,
/// every entry by ascending label and every named type by the ascending
/// key that it had before the names were shortened, each validator in
/// fog-pack's own form; and `built` is what fog-pack answers to that
/// builder, as the library hands it on.
pub open spec fn handed_over(
    schema: SchemaView,
    built: Result<fog_pack::document::Document, SchemaError>,
) -> bool {
    exists|
        doc: fog_pack::validator::Validator,
        entries: Seq<fog_pack::validator::Validator>,
        types: Seq<fog_pack::validator::Validator>,
        entry_order: Seq<int>,
        type_order: Seq<int>,
    |
        {
            &&& in_fog_form(schema.doc, doc)
            &&& entries.len() == schema.entries.len()
            &&& forall|i: int|
                0 <= i < entries.len() ==> in_fog_form(
                    schema.entries[i].validator,
                    #[trigger] entries[i],
                )
            &&& types.len() == schema.types.len()
            &&& forall|i: int|
                0 <= i < types.len() ==> in_fog_form(schema.types[i].validator, #[trigger] types[i])
            &&& ascending(labels_of(schema), entry_order)
            &&& ascending(originals_of(schema), type_order)
            &&& answered(
                schema_document(
                    #[trigger] loaded(schema, doc, entries, types, entry_order, type_order),
                ),
                built,
            )
        }
}

/// Whether `built` is fog-pack's `answer` as the library hands it on: the
/// document as it is, and a refusal as an error of the assembler.
pub open spec fn answered(
    answer: Result<fog_pack::document::Document, fog_pack::error::Error>,
    built: Result<fog_pack::document::Document, SchemaError>,
) -> bool {
    match answer {
        Ok(document) => built matches Ok(same) && same == document,
        Err(refusal) => built matches Err(SchemaError::Assembler(same)) && same == refusal,
    }
}

/// What fog-pack answered, as the answer of the library: the document as
/// it is, and a refusal as an error of the assembler.
pub fn handed_on(answer: Result<fog_pack::document::Document, fog_pack::error::Error>) -> (built:
    Result<fog_pack::document::Document, SchemaError>)
    ensures
        answered(answer, built),
{
    match answer {
        Ok(document) => Ok(document),
        Err(e) => Err(SchemaError::Assembler(e)),
    }
}

impl Schema {
    /// The schema with these parts.
    pub fn from_parts(
        doc: ValidatorTree,
        max_regex: u8,
        description: Option<String>,
        name: Option<String>,
        doc_compress: Option<fog_pack::schema::Compress>,
        version: Option<fog_pack::types::Integer>,
        entries: Vec<EntryItem>,
        types: TypeTable,
    ) -> (schema: Schema)
        ensures
            schema@ == (SchemaView {
                doc: doc@,
                max_regex,
                description: text_view(description),
                name: text_view(name),
                doc_compress,
                version,
                entries: schema_entries(item_views(entries@)),
                types: schema_types(types@),
            }),
    {
        Schema { doc, max_regex, description, name, doc_compress, version, entries, types }
    }

    /// The validator of the documents.
    pub fn doc(&self) -> (doc: &ValidatorTree)
        ensures
            doc@ == self@.doc,
    {
        &self.doc
    }

    /// The number of named types.
    pub fn type_count(&self) -> (n: usize)
        ensures
            n == self@.types.len(),
    {
        self.types.len()
    }

    /// The name of the type at `i`.
    pub fn type_name_at(&self, i: usize) -> (name: &String)
        requires
            i < self@.types.len(),
        ensures
            name@ == self@.types[i as int].name,
    {
        self.types.key_at(i)
    }

    /// The validator of the type at `i`.
    pub fn type_validator_at(&self, i: usize) -> (validator: &ValidatorTree)
        requires
            i < self@.types.len(),
        ensures
            validator@ == self@.types[i as int].validator,
    {
        self.types.validator_at(i)
    }

    /// The validator of the type named `name`, if there is one. Where two
    /// types have that name, it is the first.
    pub fn type_get(&self, name: &str) -> (found: Option<&ValidatorTree>)
        ensures
            match found {
                Some(validator) => exists|i: int|
                    0 <= i < self@.types.len() && (#[trigger] self@.types[i]).name == name@
                        && validator@ == self@.types[i].validator,
                None => forall|i: int|
                    0 <= i < self@.types.len() ==> (#[trigger] self@.types[i]).name != name@,
            },
    {
        match self.types.find_key(name) {
            Some(i) => {
                assert(self@.types[i as int].name == name@);
                Some(self.types.validator_at(i))
            },
            None => {
                assert forall|i: int| 0 <= i < self@.types.len() implies (
                #[trigger] self@.types[i]).name != name@ by {
                    assert(self.types@[i].key != name@);
                }
                None
            },
        }
    }

    /// The number of entries.
    pub fn entry_count(&self) -> (n: usize)
        ensures
            n == self@.entries.len(),
    {
        self.entries.len()
    }

    /// The label of the entry at `i`.
    pub fn entry_label_at(&self, i: usize) -> (label: &String)
        requires
            i < self@.entries.len(),
        ensures
            label@ == self@.entries[i as int].label,
    {
        self.entries[i].label()
    }

    /// The validator of the entry at `i`.
    pub fn entry_validator_at(&self, i: usize) -> (validator: &ValidatorTree)
        requires
            i < self@.entries.len(),
        ensures
            validator@ == self@.entries[i as int].validator,
    {
        self.entries[i].validator()
    }

    /// The compression of the entry at `i`, where it is not the default.
    pub fn entry_compress_at(&self, i: usize) -> (compress: &Option<fog_pack::schema::Compress>)
        requires
            i < self@.entries.len(),
        ensures
            *compress == self@.entries[i as int].compress,
    {
        self.entries[i].compress()
    }

    /// Hands the schema to fog-pack's schema builder: the validator of the
    /// documents, the settings that were made, every entry by ascending
    /// label and every named type by the ascending key that it had before
    /// the names were shortened, each validator in fog-pack's own form.
    /// What fog-pack answers to that builder is handed back: the document
    /// that holds the schema, or its refusal as an error of the assembler.
    pub fn into_document(self) -> (built: Result<fog_pack::document::Document, SchemaError>)
        ensures
            built matches Err(e) ==> e is Assembler,
            handed_over(self@, built),
    {
        let doc = self.doc.to_validator();
        let ghost doc_as = doc;
        let mut builder = builder_regexes(builder_new(doc), self.max_regex);
        match &self.description {
            Some(text) => {
                builder = builder_description(builder, text.as_str());
            },
            None => {},
        }
        match &self.name {
            Some(text) => {
                builder = builder_name(builder, text.as_str());
            },
            None => {},
        }
        match self.doc_compress {
            Some(compress) => {
                builder = builder_doc_compress(builder, compress);
            },
            None => {},
        }
        match self.version {
            Some(version) => {
                builder = builder_version(builder, version);
            },
            None => {},
        }
        let ghost set = builder;
        assert(set == with_settings(builder_of(doc_as), self@));
        let mut labels: Vec<String> = Vec::new();
        let mut entries: Vec<fog_pack::validator::Validator> = Vec::new();
        let mut i: usize = 0;
        while i < self.entries.len()
            invariant
                i <= self.entries.len(),
                self.entries@.len() == self@.entries.len(),
                labels@.len() == i,
                entries@.len() == i,
                forall|k: int| 0 <= k < i ==> (#[trigger] labels@[k])@ == self@.entries[k].label,
                forall|k: int|
                    0 <= k < i ==> in_fog_form(self@.entries[k].validator, #[trigger] entries@[k]),
            decreases self.entries.len() - i,
        {
            labels.push(self.entries[i].label().clone());
            entries.push(self.entries[i].validator().to_validator());
            i = i + 1;
        }
        let entry_order: Vec<usize> = ascending_places(&labels);
        assert(texts(labels@) =~= labels_of(self@));
        let mut k: usize = 0;
        while k < entry_order.len()
            invariant
                k <= entry_order@.len(),
                entry_order@.len() == self.entries@.len(),
                self.entries@.len() == self@.entries.len(),
                entries@.len() == self@.entries.len(),
                ascending(labels_of(self@), places(entry_order@)),
                builder == with_entries(
                    set,
                    self@.entries,
                    entries@,
                    places(entry_order@),
                    k as nat,
                ),
            decreases entry_order@.len() - k,
        {
            let at: usize = entry_order[k];
            assert(places(entry_order@)[k as int] == at);
            let compress: Option<fog_pack::schema::Compress> = match self.entries[at].compress() {
                Some(c) => Some(copy_compress(c)),
                None => None,
            };
            builder = builder_entry_add(
                builder,
                self.entries[at].label().as_str(),
                copy_validator(&entries[at]),
                compress,
            );
            k = k + 1;
        }
        let ghost filled = builder;
        let mut originals: Vec<String> = Vec::new();
        let mut types: Vec<fog_pack::validator::Validator> = Vec::new();
        let mut j: usize = 0;
        while j < self.types.len()
            invariant
                j <= self.types@.len(),
                self.types@.len() == self@.types.len(),
                originals@.len() == j,
                types@.len() == j,
                forall|k: int|
                    0 <= k < j ==> (#[trigger] originals@[k])@ == self@.types[k].original,
                forall|k: int|
                    0 <= k < j ==> in_fog_form(self@.types[k].validator, #[trigger] types@[k]),
            decreases self.types@.len() - j,
        {
            let mut original: String = self.types.base_at(j).clone();
            original.append(self.types.suffix_at(j).as_str());
            originals.push(original);
            types.push(self.types.validator_at(j).to_validator());
            j = j + 1;
        }
        let type_order: Vec<usize> = ascending_places(&originals);
        assert(texts(originals@) =~= originals_of(self@));
        let mut k: usize = 0;
        while k < type_order.len()
            invariant
                k <= type_order@.len(),
                type_order@.len() == self.types@.len(),
                self.types@.len() == self@.types.len(),
                types@.len() == self@.types.len(),
                ascending(originals_of(self@), places(type_order@)),
                builder == with_types(
                    filled,
                    self@.types,
                    types@,
                    places(type_order@),
                    k as nat,
                ),
            decreases type_order@.len() - k,
        {
            let at: usize = type_order[k];
            assert(places(type_order@)[k as int] == at);
            builder = builder_type_add(
                builder,
                self.types.key_at(at).as_str(),
                copy_validator(&types[at]),
            );
            k = k + 1;
        }
        assert(builder == loaded(
            self@,
            doc_as,
            entries@,
            types@,
            places(entry_order@),
            places(type_order@),
        ));
        handed_on(builder_build(builder))
    }
}

} // verus!

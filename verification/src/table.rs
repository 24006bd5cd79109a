//! The type table: the shared validators, each under its rendered name.

use vstd::prelude::*;
use vstd::string::StringExecFns;
use crate::error::{CollisionPolicy, SchemaError};
use crate::fixup::{fixup, names_map, Fixups};
use crate::name::{render_name, shorten_name, IdentifierView, Name, NameView};
use crate::rename::IdentRenames;
use crate::text::{decimal, decimal_text, str_eq};
use crate::tree::{rename_ref, rename_refs, TreeView, ValidatorTree};

verus! {

broadcast use {vstd::std_specs::vec::group_vec_axioms, vstd::seq::group_seq_axioms};

/// One entry of the type table as a mathematical value.
pub struct TypeEntryView {
    /// The name under which references point to the entry.
    pub key: Seq<char>,
    /// The rendered name that the descriptor gave.
    pub base: Seq<char>,
    /// The marker of the descriptor that the entry comes from.
    pub origin: Seq<char>,
    /// The name that the descriptor gave.
    pub name: NameView,
    /// What the key has after the rendered name: nothing, or `_1`, `_2`
    /// and so on.
    pub suffix: Seq<char>,
    /// The validator, or the placeholder `Any` while it is computed.
    pub validator: TreeView,
}

/// Whether the entry at `i` comes from the descriptor `origin` under the
/// rendered name `base`.
pub open spec fn held_at(
    table: Seq<TypeEntryView>,
    base: Seq<char>,
    origin: Seq<char>,
    i: int,
) -> bool {
    0 <= i < table.len() && table[i].base == base && table[i].origin == origin
}

/// Whether the table has an entry of the descriptor `origin` under the
/// rendered name `base`.
pub open spec fn knows(table: Seq<TypeEntryView>, base: Seq<char>, origin: Seq<char>) -> bool {
    exists|i: int| held_at(table, base, origin, i)
}

/// The place of the entry of the descriptor `origin` under the rendered
/// name `base`.
pub open spec fn place_of(table: Seq<TypeEntryView>, base: Seq<char>, origin: Seq<char>) -> int {
    choose|i: int| held_at(table, base, origin, i)
}

/// Whether the table has an entry under the key `key`.
pub open spec fn has_key(table: Seq<TypeEntryView>, key: Seq<char>) -> bool {
    exists|i: int| 0 <= i < table.len() && #[trigger] table[i].key == key
}

/// The number of entries whose descriptor gave the rendered name `base`.
pub open spec fn count_base(table: Seq<TypeEntryView>, base: Seq<char>) -> nat
    decreases table.len(),
{
    if table.len() == 0 {
        0
    } else {
        count_base(table.drop_last(), base) + if table.last().base == base {
            1nat
        } else {
            0nat
        }
    }
}

/// What the key of the next descriptor with the rendered name `base` has
/// after that name. Under the strict policy it is nothing: the key is the
/// name itself. Under the other it is nothing for the first descriptor with
/// that name, and `_1`, `_2`, and so on for those that follow.
pub open spec fn wanted_suffix(
    table: Seq<TypeEntryView>,
    base: Seq<char>,
    policy: CollisionPolicy,
) -> Seq<char> {
    let n = count_base(table, base);
    if policy == CollisionPolicy::Strict || n == 0 {
        Seq::empty()
    } else {
        seq!['_'] + decimal(n)
    }
}

/// The key that the next descriptor with the rendered name `base` asks for.
pub open spec fn wanted_key(
    table: Seq<TypeEntryView>,
    base: Seq<char>,
    policy: CollisionPolicy,
) -> Seq<char> {
    base + wanted_suffix(table, base, policy)
}

/// Whether the entry `entry` stands in the way of a new descriptor with the
/// rendered name `base` that asks for the key `key`: it has that key, or,
/// under the strict policy, it holds that name.
pub open spec fn blocks(
    entry: TypeEntryView,
    base: Seq<char>,
    key: Seq<char>,
    policy: CollisionPolicy,
) -> bool {
    entry.key == key || (policy == CollisionPolicy::Strict && entry.base == base)
}

/// Whether no two entries have the same key.
pub open spec fn distinct_keys(table: Seq<TypeEntryView>) -> bool {
    forall|i: int, j: int| 0 <= i < j < table.len() ==> table[i].key != table[j].key
}

/// Whether every key is the rendered name itself: no entry has a suffix.
/// This holds of a table that was filled under the strict policy.
pub open spec fn plain(table: Seq<TypeEntryView>) -> bool {
    forall|i: int| 0 <= i < table.len() ==> (#[trigger] table[i]).suffix == Seq::<char>::empty()
}

/// Whether the entry at `i` is the first that stands in the way.
pub open spec fn first_blocker(
    table: Seq<TypeEntryView>,
    base: Seq<char>,
    policy: CollisionPolicy,
    i: int,
) -> bool {
    &&& 0 <= i < table.len()
    &&& blocks(table[i], base, wanted_key(table, base, policy), policy)
    &&& forall|j: int|
        0 <= j < i ==> !blocks(#[trigger] table[j], base, wanted_key(table, base, policy), policy)
}

/// Whether a new descriptor with the rendered name `base` can have an
/// entry.
pub open spec fn admits(
    table: Seq<TypeEntryView>,
    base: Seq<char>,
    policy: CollisionPolicy,
) -> bool {
    forall|i: int|
        0 <= i < table.len() ==> !blocks(
            #[trigger] table[i],
            base,
            wanted_key(table, base, policy),
            policy,
        )
}

/// Whether the key of the entry is the rendered name that its descriptor
/// gave, followed by the suffix.
pub open spec fn keyed(entry: TypeEntryView) -> bool {
    entry.base == render_name(entry.name) && entry.key == entry.base + entry.suffix
}

/// No two entries have the same key, no two come from the same descriptor
/// under the same rendered name, and every key is the rendered name with
/// the suffix.
pub open spec fn table_wf(table: Seq<TypeEntryView>) -> bool {
    &&& forall|i: int, j: int| 0 <= i < j < table.len() ==> table[i].key != table[j].key
    &&& forall|i: int, j: int|
        0 <= i < j < table.len() ==> !(table[i].base == table[j].base && table[i].origin
            == table[j].origin)
    &&& forall|i: int| 0 <= i < table.len() ==> keyed(#[trigger] table[i])
}

/// The placeholder entry that the descriptor `origin` with the name `name`
/// gets in `table` before its validator is computed.
pub open spec fn placeholder(
    table: Seq<TypeEntryView>,
    name: NameView,
    origin: Seq<char>,
    policy: CollisionPolicy,
) -> TypeEntryView {
    TypeEntryView {
        key: wanted_key(table, render_name(name), policy),
        base: render_name(name),
        origin,
        name,
        suffix: wanted_suffix(table, render_name(name), policy),
        validator: TreeView::Any,
    }
}

/// The renamings of keys that shortening the identifiers brings: for each
/// entry whose name changes, from its key to the text of the shortened name
/// with the same suffix.
pub open spec fn fixup_pairs(
    table: Seq<TypeEntryView>,
    renames: Map<IdentifierView, IdentifierView>,
) -> Seq<(Seq<char>, Seq<char>)>
    decreases table.len(),
{
    if table.len() == 0 {
        Seq::empty()
    } else {
        let init = fixup_pairs(table.drop_last(), renames);
        let entry = table.last();
        let short = shorten_name(entry.name, renames);
        if short != entry.name {
            init.push((entry.key, render_name(short) + entry.suffix))
        } else {
            init
        }
    }
}

/// The key of an entry after the fix-up is the text of its shortened name,
/// with the suffix that it had.
pub proof fn lemma_final_keys(
    table: Seq<TypeEntryView>,
    renames: Map<IdentifierView, IdentifierView>,
    i: int,
)
    requires
        table_wf(table),
        0 <= i < table.len(),
    ensures
        renamed_table(table, names_map(fixup_pairs(table, renames)))[i].key == render_name(
            shorten_name(table[i].name, renames),
        ) + table[i].suffix,
{
    lemma_fixups_of_prefix(table, renames, table.len() as int);
    assert(table.take(table.len() as int) =~= table);
    assert(keyed(table[i]));
    let map = names_map(fixup_pairs(table, renames));
    if map.contains_key(table[i].key) {
        let j = choose|j: int|
            0 <= j < table.len() && #[trigger] table[j].key == table[i].key && shorten_name(
                table[j].name,
                renames,
            ) != table[j].name;
        if j < i {
            assert(table[j].key != table[i].key);
        } else if i < j {
            assert(table[i].key != table[j].key);
        }
    }
}

/// The renamings that the first `n` entries bring: one for each entry whose
/// name changes, from its key to the text of the shortened name with the
/// suffix.
pub(crate) proof fn lemma_fixups_of_prefix(
    table: Seq<TypeEntryView>,
    renames: Map<IdentifierView, IdentifierView>,
    n: int,
)
    requires
        table_wf(table),
        0 <= n <= table.len(),
    ensures
        forall|key: Seq<char>|
            names_map(fixup_pairs(table.take(n), renames)).contains_key(key) <==> exists|j: int|
                0 <= j < n && #[trigger] table[j].key == key && shorten_name(
                    table[j].name,
                    renames,
                ) != table[j].name,
        forall|j: int|
            0 <= j < n && shorten_name(table[j].name, renames) != table[j].name ==> names_map(
                fixup_pairs(table.take(n), renames),
            )[#[trigger] table[j].key] == render_name(shorten_name(table[j].name, renames))
                + table[j].suffix,
    decreases n,
{
    let now = table.take(n);
    let map = names_map(fixup_pairs(now, renames));
    if n == 0 {
        assert(now =~= Seq::<TypeEntryView>::empty());
    } else {
        lemma_fixups_of_prefix(table, renames, n - 1);
        let init = table.take(n - 1);
        assert(now.drop_last() =~= init);
        assert(now.last() == table[n - 1]);
        let entry = table[n - 1];
        let short = shorten_name(entry.name, renames);
        let before = names_map(fixup_pairs(init, renames));
        if short != entry.name {
            let pairs = fixup_pairs(init, renames);
            let pair = (entry.key, render_name(short) + entry.suffix);
            assert(pairs.push(pair).drop_last() =~= pairs);
            assert(pairs.push(pair).last() == pair);
            assert(!before.contains_key(entry.key)) by {
                if before.contains_key(entry.key) {
                    let j = choose|j: int|
                        0 <= j < n - 1 && #[trigger] table[j].key == entry.key && shorten_name(
                            table[j].name,
                            renames,
                        ) != table[j].name;
                    assert(table[j].key != table[n - 1].key);
                }
            }
            assert(map == before.insert(pair.0, pair.1));
            assert forall|key: Seq<char>| map.contains_key(key) implies exists|j: int|
                0 <= j < n && #[trigger] table[j].key == key && shorten_name(
                    table[j].name,
                    renames,
                ) != table[j].name by {
                if key == entry.key {
                    assert(table[n - 1].key == key);
                } else {
                    let j = choose|j: int|
                        0 <= j < n - 1 && #[trigger] table[j].key == key && shorten_name(
                            table[j].name,
                            renames,
                        ) != table[j].name;
                    assert(table[j].key == key);
                }
            }
            assert forall|j: int|
                0 <= j < n && shorten_name(table[j].name, renames)
                    != table[j].name implies map[#[trigger] table[j].key] == render_name(
                shorten_name(table[j].name, renames),
            ) + table[j].suffix by {
                if j < n - 1 {
                    assert(table[j].key != table[n - 1].key);
                }
            }
        } else {
            assert(map == before);
            assert forall|key: Seq<char>| map.contains_key(key) implies exists|j: int|
                0 <= j < n && #[trigger] table[j].key == key && shorten_name(
                    table[j].name,
                    renames,
                ) != table[j].name by {
                let j = choose|j: int|
                    0 <= j < n - 1 && #[trigger] table[j].key == key && shorten_name(
                        table[j].name,
                        renames,
                    ) != table[j].name;
                assert(table[j].key == key);
            }
        }
    }
}

/// The table after the fix-up: every key and every reference renamed.
pub open spec fn renamed_table(table: Seq<TypeEntryView>, map: Map<Seq<char>, Seq<char>>) -> Seq<
    TypeEntryView,
> {
    Seq::new(
        table.len(),
        |i: int|
            TypeEntryView {
                key: rename_ref(table[i].key, map),
                validator: rename_refs(table[i].validator, map),
                ..table[i]
            },
    )
}

/// One entry of the type table.
#[derive(Debug)]
pub struct TypeEntry {
    key: String,
    base: String,
    origin: String,
    name: Name,
    suffix: String,
    validator: ValidatorTree,
}

impl View for TypeEntry {
    type V = TypeEntryView;

    closed spec fn view(&self) -> TypeEntryView {
        TypeEntryView {
            key: self.key@,
            base: self.base@,
            origin: self.origin@,
            name: self.name@,
            suffix: self.suffix@,
            validator: self.validator@,
        }
    }
}

/// The type table. Its value is the list of its entries in the order in
/// which they were claimed.
#[derive(Debug)]
pub struct TypeTable {
    entries: Vec<TypeEntry>,
}

impl View for TypeTable {
    type V = Seq<TypeEntryView>;

    closed spec fn view(&self) -> Seq<TypeEntryView> {
        self.entries@.map_values(|e: TypeEntry| e@)
    }
}

impl TypeTable {
    /// The table without entries.
    pub fn new() -> (table: TypeTable)
        ensures
            table@ == Seq::<TypeEntryView>::empty(),
    {
        let table = TypeTable { entries: Vec::new() };
        assert(table@ =~= Seq::<TypeEntryView>::empty());
        table
    }

    /// The number of entries.
    pub fn len(&self) -> (n: usize)
        ensures
            n == self@.len(),
    {
        self.entries.len()
    }

    /// The key of the entry at `i`.
    pub fn key_at(&self, i: usize) -> (key: &String)
        requires
            i < self@.len(),
        ensures
            key@ == self@[i as int].key,
    {
        &self.entries[i].key
    }

    /// The rendered name that the descriptor of the entry at `i` gave.
    pub fn base_at(&self, i: usize) -> (base: &String)
        requires
            i < self@.len(),
        ensures
            base@ == self@[i as int].base,
    {
        &self.entries[i].base
    }

    /// The marker of the descriptor of the entry at `i`.
    pub fn origin_at(&self, i: usize) -> (origin: &str)
        requires
            i < self@.len(),
        ensures
            origin@ == self@[i as int].origin,
    {
        self.entries[i].origin.as_str()
    }

    /// The name that the descriptor of the entry at `i` gave.
    pub fn name_at(&self, i: usize) -> (name: &Name)
        requires
            i < self@.len(),
        ensures
            name@ == self@[i as int].name,
    {
        &self.entries[i].name
    }

    /// What the key of the entry at `i` has after the rendered name.
    pub fn suffix_at(&self, i: usize) -> (suffix: &String)
        requires
            i < self@.len(),
        ensures
            suffix@ == self@[i as int].suffix,
    {
        &self.entries[i].suffix
    }

    /// The validator of the entry at `i`.
    pub fn validator_at(&self, i: usize) -> (validator: &ValidatorTree)
        requires
            i < self@.len(),
        ensures
            validator@ == self@[i as int].validator,
    {
        &self.entries[i].validator
    }

    /// Two places of entries with one key, the earlier first, if there are
    /// such; none where every key is held once.
    pub fn clash(&self) -> (found: Option<(usize, usize)>)
        ensures
            match found {
                Some((i, j)) => i < j < self@.len() && self@[i as int].key == self@[j as int].key,
                None => distinct_keys(self@),
            },
    {
        let mut j: usize = 0;
        while j < self.entries.len()
            invariant
                j <= self.entries.len(),
                forall|a: int, b: int| 0 <= a < b < j ==> self@[a].key != self@[b].key,
            decreases self.entries.len() - j,
        {
            let mut i: usize = 0;
            while i < j
                invariant
                    i <= j,
                    j < self.entries.len(),
                    forall|a: int| 0 <= a < i ==> self@[a].key != self@[j as int].key,
                decreases j - i,
            {
                if str_eq(self.entries[i].key.as_str(), self.entries[j].key.as_str()) {
                    return Some((i, j));
                }
                i = i + 1;
            }
            j = j + 1;
        }
        None
    }

    /// The place of the entry of the descriptor `origin` under the rendered
    /// name `base`, if there is one.
    pub fn find(&self, base: &str, origin: &str) -> (found: Option<usize>)
        ensures
            found is Some <==> knows(self@, base@, origin@),
            found matches Some(i) ==> held_at(self@, base@, origin@, i as int),
    {
        let mut i: usize = 0;
        while i < self.entries.len()
            invariant
                i <= self.entries.len(),
                forall|j: int| 0 <= j < i ==> !held_at(self@, base@, origin@, j),
            decreases self.entries.len() - i,
        {
            if str_eq(self.entries[i].base.as_str(), base) && str_eq(
                self.entries[i].origin.as_str(),
                origin,
            ) {
                assert(held_at(self@, base@, origin@, i as int));
                return Some(i);
            }
            i = i + 1;
        }
        None
    }

    /// The place of the entry under the key `key`, if there is one.
    pub fn find_key(&self, key: &str) -> (found: Option<usize>)
        ensures
            found is Some <==> has_key(self@, key@),
            found matches Some(i) ==> i < self@.len() && self@[i as int].key == key@,
    {
        let mut i: usize = 0;
        while i < self.entries.len()
            invariant
                i <= self.entries.len(),
                forall|j: int| 0 <= j < i ==> (#[trigger] self@[j]).key != key@,
            decreases self.entries.len() - i,
        {
            if str_eq(self.entries[i].key.as_str(), key) {
                assert(self@[i as int].key == key@);
                return Some(i);
            }
            i = i + 1;
        }
        None
    }

    /// The number of entries whose descriptor gave the rendered name `base`.
    fn count(&self, base: &str) -> (n: usize)
        ensures
            n == count_base(self@, base@),
    {
        let mut n: usize = 0;
        let mut i: usize = 0;
        assert(self@.take(0) =~= Seq::<TypeEntryView>::empty());
        while i < self.entries.len()
            invariant
                i <= self.entries.len(),
                n <= i,
                n == count_base(self@.take(i as int), base@),
            decreases self.entries.len() - i,
        {
            proof {
                let next = self@.take(i + 1);
                assert(next.drop_last() =~= self@.take(i as int));
                assert(next.last() == self@[i as int]);
            }
            if str_eq(self.entries[i].base.as_str(), base) {
                n = n + 1;
            }
            i = i + 1;
        }
        assert(self@.take(i as int) =~= self@);
        n
    }

    /// What the key of the next descriptor with the rendered name `base`
    /// has after that name.
    fn suffix_for(&self, base: &str, strict: bool) -> (suffix: String)
        ensures
            suffix@ == wanted_suffix(
                self@,
                base@,
                if strict {
                    CollisionPolicy::Strict
                } else {
                    CollisionPolicy::Suffix
                },
            ),
    {
        let mut suffix: String = String::new();
        if strict {
            return suffix;
        }
        let n: usize = self.count(base);
        if n > 0 {
            proof {
                reveal_strlit("_");
            }
            suffix.append("_");
            let digits: String = decimal_text(n);
            suffix.append(digits.as_str());
            assert(suffix@ =~= seq!['_'] + decimal(n as nat));
        }
        suffix
    }

    /// Claims an entry for the descriptor `origin` with the name `name`,
    /// and puts the placeholder there. Under the strict policy the key is
    /// the rendered name, and the claim fails where an entry holds that
    /// name. Under the other policy the first descriptor with a name gets
    /// the name as its key and a later one the name with a numeric suffix.
    /// Under both the claim fails where the key is taken. The failure
    /// names the key that was asked for and the descriptor of the first
    /// entry that stands in the way; in a table without suffixes, under
    /// the strict policy, that is the entry that holds the name.
    pub fn claim(&mut self, name: Name, origin: &str, policy: CollisionPolicy) -> (claimed: Result<
        usize,
        SchemaError,
    >)
        requires
            table_wf(old(self)@),
            !knows(old(self)@, render_name(name@), origin@),
        ensures
            table_wf(final(self)@),
            claimed is Ok <==> admits(old(self)@, render_name(name@), policy),
            claimed matches Ok(i) ==> i == old(self)@.len() && final(self)@ == old(self)@.push(
                placeholder(old(self)@, name@, origin@, policy),
            ),
            claimed matches Err(e) ==> final(self)@ == old(self)@ && (
            e matches SchemaError::NameCollision { key, first, second } && key@ == wanted_key(
                old(self)@,
                render_name(name@),
                policy,
            ) && second@ == origin@ && exists|i: int|
                first_blocker(old(self)@, render_name(name@), policy, i) && first@ == old(
                    self,
                )@[i].origin && (policy == CollisionPolicy::Strict && plain(old(self)@)
                    ==> old(self)@[i].base == render_name(name@))),
            policy == CollisionPolicy::Strict && plain(old(self)@) ==> plain(final(self)@),
    {
        let base: String = name.render();
        let strict: bool = match policy {
            CollisionPolicy::Strict => true,
            CollisionPolicy::Suffix => false,
        };
        let suffix: String = self.suffix_for(base.as_str(), strict);
        let mut key: String = base.clone();
        key.append(suffix.as_str());
        let mut i: usize = 0;
        while i < self.entries.len()
            invariant
                i <= self.entries.len(),
                *self == *old(self),
                table_wf(self@),
                base@ == render_name(name@),
                key@ == wanted_key(self@, base@, policy),
                strict == (policy == CollisionPolicy::Strict),
                forall|j: int| 0 <= j < i ==> !blocks(#[trigger] self@[j], base@, key@, policy),
            decreases self.entries.len() - i,
        {
            if str_eq(self.entries[i].key.as_str(), key.as_str()) || (strict && str_eq(
                self.entries[i].base.as_str(),
                base.as_str(),
            )) {
                proof {
                    assert(first_blocker(self@, base@, policy, i as int));
                    if strict && plain(self@) {
                        assert(keyed(self@[i as int]));
                        assert(self@[i as int].key =~= self@[i as int].base);
                    }
                }
                return Err(
                    SchemaError::NameCollision {
                        key,
                        first: self.entries[i].origin.clone(),
                        second: String::from_str(origin),
                    },
                );
            }
            i = i + 1;
        }
        let at: usize = self.entries.len();
        let ghost before = self@;
        let ghost entry = placeholder(before, name@, origin@, policy);
        self.entries.push(
            TypeEntry {
                key,
                base,
                origin: String::from_str(origin),
                name,
                suffix,
                validator: ValidatorTree::Any,
            },
        );
        proof {
            assert(self@ =~= before.push(entry));
            assert forall|a: int, b: int| 0 <= a < b < self@.len() implies self@[a].key
                != self@[b].key && !(self@[a].base == self@[b].base && self@[a].origin
                == self@[b].origin) by {
                if b == before.len() {
                    assert(!blocks(before[a], entry.base, entry.key, policy));
                    assert(!held_at(before, entry.base, origin@, a));
                }
            }
            assert forall|a: int| 0 <= a < self@.len() implies keyed(#[trigger] self@[a]) by {
                if a < before.len() {
                    assert(keyed(before[a]));
                }
            }
        }
        Ok(at)
    }

    /// Puts `validator` in the entry at `i`.
    pub fn define(&mut self, i: usize, validator: ValidatorTree)
        requires
            i < old(self)@.len(),
        ensures
            final(self)@ == old(self)@.update(
                i as int,
                TypeEntryView { validator: validator@, ..old(self)@[i as int] },
            ),
            table_wf(old(self)@) ==> table_wf(final(self)@),
    {
        let ghost before = self@;
        self.entries[i].validator = validator;
        assert(self@ =~= before.update(
            i as int,
            TypeEntryView { validator: validator@, ..before[i as int] },
        ));
        proof {
            if table_wf(before) {
                assert forall|a: int| 0 <= a < self@.len() implies keyed(#[trigger] self@[a]) by {
                    assert(keyed(before[a]));
                }
            }
        }
    }

    /// The renamings of keys that the renamings `renames` of identifiers
    /// bring.
    pub fn fixups(&self, renames: &IdentRenames) -> (fixups: Fixups)
        ensures
            fixups@ == names_map(fixup_pairs(self@, renames@)),
    {
        let mut fixups: Fixups = Fixups::new();
        let mut i: usize = 0;
        assert(self@.take(0) =~= Seq::<TypeEntryView>::empty());
        while i < self.entries.len()
            invariant
                i <= self.entries.len(),
                fixups@ == names_map(fixup_pairs(self@.take(i as int), renames@)),
            decreases self.entries.len() - i,
        {
            proof {
                let next = self@.take(i + 1);
                assert(next.drop_last() =~= self@.take(i as int));
                assert(next.last() == self@[i as int]);
            }
            let short: Name = self.entries[i].name.try_shorten(renames);
            if !short.same_as(&self.entries[i].name) {
                let mut to: String = short.render();
                to.append(self.entries[i].suffix.as_str());
                proof {
                    let pairs = fixup_pairs(self@.take(i as int), renames@);
                    let pair = (self@[i as int].key, to@);
                    assert(pairs.push(pair).drop_last() =~= pairs);
                    assert(pairs.push(pair).last() == pair);
                }
                fixups.insert(self.entries[i].key.clone(), to);
            }
            i = i + 1;
        }
        assert(self@.take(i as int) =~= self@);
        fixups
    }

    /// The fix-up of the table: every reference in every validator is
    /// renamed, and then every key.
    pub fn shorten(&mut self, fixups: &Fixups)
        ensures
            final(self)@ == renamed_table(old(self)@, fixups@),
    {
        let ghost before = self@;
        let mut i: usize = 0;
        while i < self.entries.len()
            invariant
                i <= self.entries.len(),
                self@.len() == before.len(),
                forall|j: int|
                    0 <= j < i ==> #[trigger] self@[j] == renamed_table(before, fixups@)[j],
                forall|j: int| i <= j < self@.len() ==> #[trigger] self@[j] == before[j],
            decreases self.entries.len() - i,
        {
            let ghost at_start = self@;
            fixup(fixups, &mut self.entries[i].validator);
            let renamed: Option<String> = match fixups.get(self.entries[i].key.as_str()) {
                Some(to) => Some(to.clone()),
                None => None,
            };
            match renamed {
                Some(to) => {
                    self.entries[i].key = to;
                },
                None => {},
            }
            proof {
                assert(forall|j: int|
                    0 <= j < self@.len() && j != i ==> #[trigger] self@[j] == at_start[j]);
                let now = self@[i as int];
                let target = renamed_table(before, fixups@)[i as int];
                assert(at_start[i as int] == before[i as int]);
                assert(now.validator == target.validator);
                assert(now.key == target.key);
                assert(now.base == target.base);
                assert(now.origin == target.origin);
                assert(now.name == target.name);
                assert(now.suffix == target.suffix);
                assert(now == target);
            }
            i = i + 1;
        }
        assert(self@ =~= renamed_table(before, fixups@));
    }
}

} // verus!

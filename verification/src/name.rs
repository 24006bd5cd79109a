//! Names of data shapes: a namespaced identifier, optionally parameterized by
//! nested names.

use vstd::prelude::*;
use vstd::string::StringExecFns;
use crate::rename::IdentRenames;
use crate::text::{
    copy_segments, path_sep, segments_eq, split_path, split_segments, str_eq, views,
};

verus! {

broadcast use vstd::std_specs::vec::group_vec_axioms, vstd::seq::group_seq_axioms;

/// An identifier as a mathematical value: namespace segments, outermost
/// first, and a leaf label.
#[verifier::ext_equal]
pub struct IdentifierView {
    pub mods: Seq<Seq<char>>,
    pub name: Seq<char>,
}

/// A name as a mathematical value: an identifier and its parameter names.
#[verifier::ext_equal]
pub struct NameView {
    pub id: IdentifierView,
    pub type_params: Seq<NameView>,
}

/// Every segment followed by the path separator, in order.
pub open spec fn join_mods(mods: Seq<Seq<char>>) -> Seq<char>
    decreases mods.len(),
{
    if mods.len() == 0 {
        Seq::<char>::empty()
    } else {
        join_mods(mods.drop_last()) + mods.last() + path_sep()
    }
}

/// The text of an identifier: `seg::seg::label`.
pub open spec fn render_identifier(id: IdentifierView) -> Seq<char> {
    join_mods(id.mods) + id.name
}

/// The text of a name: its identifier, then its parameters between `<` and
/// `>`, separated by commas, when it has any.
pub open spec fn render_name(n: NameView) -> Seq<char>
    decreases n, 1int,
{
    if n.type_params.len() == 0 {
        render_identifier(n.id)
    } else {
        render_identifier(n.id) + seq!['<'] + render_params(n.type_params, n.type_params.len())
            + seq!['>']
    }
}

/// The texts of the first `upto` names of `params`, separated by commas.
pub open spec fn render_params(params: Seq<NameView>, upto: nat) -> Seq<char>
    decreases params, upto,
{
    if upto == 0 || upto > params.len() {
        Seq::<char>::empty()
    } else if upto == 1 {
        render_name(params[0])
    } else {
        render_params(params, (upto - 1) as nat) + seq![','] + render_name(params[upto - 1])
    }
}

/// The identifier that `map` gives for `id`, or `id` itself where it gives
/// none.
pub open spec fn shorten_identifier(
    id: IdentifierView,
    map: Map<IdentifierView, IdentifierView>,
) -> IdentifierView {
    if map.contains_key(id) {
        map[id]
    } else {
        id
    }
}

/// `n` with `map` applied to its identifier and to the identifier of every
/// nested parameter.
pub open spec fn shorten_name(n: NameView, map: Map<IdentifierView, IdentifierView>) -> NameView
    decreases n,
{
    NameView {
        id: shorten_identifier(n.id, map),
        type_params: Seq::new(
            n.type_params.len(),
            |i: int|
                if 0 <= i < n.type_params.len() {
                    shorten_name(n.type_params[i], map)
                } else {
                    n
                },
        ),
    }
}

/// The identifier with the segments of `path` and the label `label`.
pub open spec fn identifier_of(path: Seq<char>, label: Seq<char>) -> IdentifierView {
    IdentifierView { mods: split_path(path), name: label }
}

/// The name with the segments of `path`, the label `label` and the
/// parameters `type_params`.
pub open spec fn name_with(
    path: Seq<char>,
    label: Seq<char>,
    type_params: Seq<NameView>,
) -> NameView {
    NameView { id: identifier_of(path, label), type_params }
}

/// The name with the segments of `path` and the label `label`, without
/// parameters.
pub open spec fn plain_name(path: Seq<char>, label: Seq<char>) -> NameView {
    name_with(path, label, Seq::empty())
}

/// A path may hold any character but `,`, `<` and `>`.
pub open spec fn path_ok(path: Seq<char>) -> bool {
    forall|i: int| 0 <= i < path.len() ==> path[i] != ',' && path[i] != '<' && path[i] != '>'
}

/// A label may hold any character but `,`, `<`, `>` and `:`.
pub open spec fn label_ok(label: Seq<char>) -> bool {
    forall|i: int|
        0 <= i < label.len() ==> label[i] != ',' && label[i] != '<' && label[i] != '>' && label[i]
            != ':'
}

/// Whether `path` may be the path of a name.
pub fn is_path(path: &str) -> (ok: bool)
    ensures
        ok == path_ok(path@),
{
    let n: usize = path.unicode_len();
    let mut i: usize = 0;
    while i < n
        invariant
            n == path@.len(),
            i <= n,
            forall|j: int|
                0 <= j < i ==> path@[j] != ',' && path@[j] != '<' && path@[j] != '>',
        decreases n - i,
    {
        let c: char = path.get_char(i);
        if c == ',' || c == '<' || c == '>' {
            return false;
        }
        i = i + 1;
    }
    true
}

/// Whether `label` may be the label of a name.
pub fn is_label(label: &str) -> (ok: bool)
    ensures
        ok == label_ok(label@),
{
    let n: usize = label.unicode_len();
    let mut i: usize = 0;
    while i < n
        invariant
            n == label@.len(),
            i <= n,
            forall|j: int|
                0 <= j < i ==> label@[j] != ',' && label@[j] != '<' && label@[j] != '>'
                    && label@[j] != ':',
        decreases n - i,
    {
        let c: char = label.get_char(i);
        if c == ',' || c == '<' || c == '>' || c == ':' {
            return false;
        }
        i = i + 1;
    }
    true
}

/// A namespaced name: the segments of a module path and a leaf label.
#[derive(Debug, PartialEq, Eq, Hash)]
pub struct Identifier {
    mods: Vec<&'static str>,
    name: &'static str,
}

impl View for Identifier {
    type V = IdentifierView;

    closed spec fn view(&self) -> IdentifierView {
        IdentifierView { mods: views(self.mods@), name: self.name@ }
    }
}

impl Clone for Identifier {
    fn clone(&self) -> (copy: Self)
        ensures
            copy@ == self@,
    {
        Identifier { mods: copy_segments(&self.mods), name: self.name }
    }
}

impl Identifier {
    /// An identifier from its segments and its label.
    pub fn from_parts(mods: Vec<&'static str>, name: &'static str) -> (id: Identifier)
        ensures
            id@ == (IdentifierView { mods: views(mods@), name: name@ }),
    {
        Identifier { mods, name }
    }

    /// The namespace segments, outermost first.
    pub fn mods(&self) -> (mods: &Vec<&'static str>)
        ensures
            views(mods@) == self@.mods,
    {
        &self.mods
    }

    /// The leaf label.
    pub fn name(&self) -> (name: &'static str)
        ensures
            name@ == self@.name,
    {
        self.name
    }

    /// Whether both identifiers have the same segments and the same label.
    pub fn same_as(&self, other: &Identifier) -> (same: bool)
        ensures
            same == (self@ == other@),
    {
        str_eq(self.name, other.name) && segments_eq(&self.mods, &other.mods)
    }

    /// The text of this identifier.
    pub fn render(&self) -> (text: String)
        ensures
            text@ == render_identifier(self@),
    {
        let mut text: String = String::new();
        let mut i: usize = 0;
        proof {
            reveal_strlit("::");
            assert(self@.mods.take(0) =~= Seq::<Seq<char>>::empty());
        }
        while i < self.mods.len()
            invariant
                i <= self.mods.len(),
                "::"@ == path_sep(),
                text@ == join_mods(self@.mods.take(i as int)),
            decreases self.mods.len() - i,
        {
            text.append(self.mods[i]);
            text.append("::");
            i = i + 1;
            proof {
                let done = self@.mods.take(i as int);
                assert(done.drop_last() =~= self@.mods.take(i - 1));
                assert(done.last() == self.mods@[i - 1]@);
            }
        }
        assert(self@.mods.take(i as int) =~= self@.mods);
        text.append(self.name);
        text
    }
}

/// The name of a data shape: an identifier and the names of its type
/// parameters. It renders as `segments::label<param1,param2,...>`.
#[derive(Debug, PartialEq, Eq)]
pub struct Name {
    id: Identifier,
    type_params: Vec<Name>,
}

impl View for Name {
    type V = NameView;

    closed spec fn view(&self) -> NameView {
        self.model()
    }
}

impl Name {
    spec fn model(&self) -> NameView
        decreases self,
    {
        NameView {
            id: self.id@,
            type_params: Seq::new(
                self.type_params@.len(),
                |i: int|
                    if 0 <= i < self.type_params@.len() {
                        self.type_params@[i].model()
                    } else {
                        arbitrary()
                    },
            ),
        }
    }
}

/// The values of the names of `names`, in order.
pub open spec fn name_views(names: Seq<Name>) -> Seq<NameView> {
    names.map_values(|n: Name| n@)
}

impl Clone for Name {
    fn clone(&self) -> (copy: Self)
        ensures
            copy@ == self@,
        decreases self,
    {
        let mut type_params: Vec<Name> = Vec::new();
        let mut i: usize = 0;
        while i < self.type_params.len()
            invariant
                i <= self.type_params.len(),
                type_params@.len() == i,
                forall|j: int| 0 <= j < i ==> type_params@[j]@ == self.type_params@[j]@,
            decreases self.type_params.len() - i,
        {
            let param: Name = self.type_params[i].clone();
            type_params.push(param);
            i = i + 1;
        }
        let copy = Name { id: self.id.clone(), type_params };
        assert(copy@.type_params =~= self@.type_params);
        copy
    }
}

impl Name {
    /// A name without type parameters, from a module path and a label.
    pub fn new(path: &'static str, name: &'static str) -> (n: Name)
        requires
            path_ok(path@),
            label_ok(name@),
        ensures
            n@ == plain_name(path@, name@),
    {
        let type_params: Vec<Name> = Vec::new();
        assert(name_views(type_params@) =~= Seq::<NameView>::empty());
        Name::with_types(path, name, type_params)
    }

    /// A name from a module path, a label and the names of the type
    /// parameters. The path is split into segments at each `::`.
    pub fn with_types(path: &'static str, name: &'static str, type_params: Vec<Name>) -> (n: Name)
        requires
            path_ok(path@),
            label_ok(name@),
        ensures
            n@ == name_with(path@, name@, name_views(type_params@)),
    {
        let mods: Vec<&'static str> = split_segments(path);
        let n = Name { id: Identifier { mods, name }, type_params };
        assert(n@.type_params =~= name_views(type_params@));
        assert(n@ =~= name_with(path@, name@, name_views(type_params@)));
        n
    }

    /// As `with_types`, for a path and a label that are not known to be
    /// fit: a name, or nothing where the path holds one of `,<>` or the
    /// label one of `,<>:`.
    pub fn checked(path: &'static str, name: &'static str, type_params: Vec<Name>) -> (n: Option<
        Name,
    >)
        ensures
            n is Some <==> path_ok(path@) && label_ok(name@),
            n matches Some(made) ==> made@ == name_with(path@, name@, name_views(type_params@)),
    {
        if is_path(path) && is_label(name) {
            Some(Name::with_types(path, name, type_params))
        } else {
            None
        }
    }

    /// The identifier of this name.
    pub fn id(&self) -> (id: &Identifier)
        ensures
            id@ == self@.id,
    {
        &self.id
    }

    /// The names of the type parameters.
    pub fn type_params(&self) -> (params: &Vec<Name>)
        ensures
            name_views(params@) == self@.type_params,
    {
        assert(name_views(self.type_params@) =~= self@.type_params);
        &self.type_params
    }

    /// This name with `map` applied to its identifier and to those of all
    /// nested parameters; identifiers that `map` does not hold stay as they
    /// are.
    pub fn try_shorten(&self, map: &IdentRenames) -> (short: Name)
        ensures
            short@ == shorten_name(self@, map@),
        decreases self,
    {
        let id: Identifier = match map.get(&self.id) {
            Some(to) => to.clone(),
            None => self.id.clone(),
        };
        let mut type_params: Vec<Name> = Vec::new();
        let mut i: usize = 0;
        while i < self.type_params.len()
            invariant
                i <= self.type_params.len(),
                type_params@.len() == i,
                forall|j: int|
                    0 <= j < i ==> type_params@[j]@ == shorten_name(
                        self.type_params@[j]@,
                        map@,
                    ),
            decreases self.type_params.len() - i,
        {
            let param: Name = self.type_params[i].try_shorten(map);
            type_params.push(param);
            i = i + 1;
        }
        let short = Name { id, type_params };
        assert(short@.type_params =~= shorten_name(self@, map@).type_params);
        short
    }

    /// Whether both names have the same identifier and the same parameters.
    pub fn same_as(&self, other: &Name) -> (same: bool)
        ensures
            same == (self@ == other@),
        decreases self,
    {
        if !self.id.same_as(&other.id) {
            return false;
        }
        if self.type_params.len() != other.type_params.len() {
            assert(self@.type_params.len() != other@.type_params.len());
            return false;
        }
        let mut i: usize = 0;
        while i < self.type_params.len()
            invariant
                i <= self.type_params.len(),
                self.type_params.len() == other.type_params.len(),
                forall|j: int| 0 <= j < i ==> self.type_params@[j]@ == other.type_params@[j]@,
            decreases self.type_params.len() - i,
        {
            if !self.type_params[i].same_as(&other.type_params[i]) {
                assert(self@.type_params[i as int] != other@.type_params[i as int]);
                return false;
            }
            i = i + 1;
        }
        assert(self@.type_params =~= other@.type_params);
        true
    }

    /// The text of this name.
    pub fn render(&self) -> (text: String)
        ensures
            text@ == render_name(self@),
        decreases self,
    {
        let mut text: String = self.id.render();
        if self.type_params.len() == 0 {
            return text;
        }
        proof {
            reveal_strlit("<");
            reveal_strlit(",");
            reveal_strlit(">");
        }
        text.append("<");
        let mut i: usize = 0;
        while i < self.type_params.len()
            invariant
                i <= self.type_params.len(),
                self.type_params.len() == self@.type_params.len(),
                "<"@ == seq!['<'],
                ","@ == seq![','],
                text@ == render_identifier(self@.id) + seq!['<'] + render_params(
                    self@.type_params,
                    i as nat,
                ),
            decreases self.type_params.len() - i,
        {
            if i > 0 {
                text.append(",");
            }
            let param: String = self.type_params[i].render();
            text.append(param.as_str());
            i = i + 1;
        }
        text.append(">");
        text
    }
}

} // verus!

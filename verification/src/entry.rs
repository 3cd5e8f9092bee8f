//! Raw directory entries: a distinguished name and a mapping from attribute
//! names to the values the server returned for them.

use vstd::prelude::*;

verus! {

/// The attribute mapping of an entry, as mathematics: each attribute name that
/// is present maps to its values, in the order the server returned them. A
/// present attribute may have no values at all.
pub type AttributeMap = Map<Seq<char>, Seq<Seq<char>>>;

/// What an entry is, independent of how it is stored.
pub struct EntryView {
    pub dn: Seq<char>,
    pub attrs: AttributeMap,
}

/// Whether attribute `key` is present with at least one value.
pub open spec fn has_value(attrs: AttributeMap, key: Seq<char>) -> bool {
    attrs.contains_key(key) && attrs[key].len() > 0
}

/// The single display value of attribute `key`: its first value if the
/// attribute is present with at least one value, the empty string otherwise.
pub open spec fn first_or_default(attrs: AttributeMap, key: Seq<char>) -> Seq<char> {
    if has_value(attrs, key) {
        attrs[key][0]
    } else {
        Seq::empty()
    }
}

/// One stored attribute: a name and its values.
#[derive(Clone, Debug)]
struct Attribute {
    name: String,
    values: Vec<String>,
}

/// One entry of a search result.
///
/// Attributes are kept in insertion order; a later insertion under a name that
/// is already present replaces the earlier one, as in a map.
#[derive(Clone, Debug)]
pub struct DirectoryEntry {
    dn: String,
    attrs: Vec<Attribute>,
}

/// The mapping that a list of stored attributes stands for: the last one
/// stored under a name is the one that counts.
spec fn attrs_of(stored: Seq<Attribute>) -> AttributeMap
    decreases stored.len(),
{
    if stored.len() == 0 {
        Map::empty()
    } else {
        attrs_of(stored.drop_last()).insert(
            stored.last().name@,
            stored.last().values.deep_view(),
        )
    }
}

/// A name that no stored attribute carries is not in the mapping.
proof fn lemma_absent(stored: Seq<Attribute>, key: Seq<char>)
    requires
        forall|j: int| 0 <= j < stored.len() ==> stored[j].name@ != key,
    ensures
        !attrs_of(stored).contains_key(key),
    decreases stored.len(),
{
    if stored.len() > 0 {
        lemma_absent(stored.drop_last(), key);
    }
}

/// The last attribute stored under a name decides what the name maps to.
proof fn lemma_last_stored_wins(stored: Seq<Attribute>, at: int, key: Seq<char>)
    requires
        0 <= at < stored.len(),
        stored[at].name@ == key,
        forall|j: int| at < j < stored.len() ==> stored[j].name@ != key,
    ensures
        attrs_of(stored).contains_key(key),
        attrs_of(stored)[key] == stored[at].values.deep_view(),
    decreases stored.len(),
{
    if at < stored.len() - 1 {
        lemma_last_stored_wins(stored.drop_last(), at, key);
    }
}

impl View for DirectoryEntry {
    type V = EntryView;

    closed spec fn view(&self) -> EntryView {
        EntryView { dn: self.dn@, attrs: attrs_of(self.attrs@) }
    }
}

impl DeepView for DirectoryEntry {
    type V = EntryView;

    open spec fn deep_view(&self) -> EntryView {
        self@
    }
}

impl DirectoryEntry {
    /// An entry with the given distinguished name and no attributes.
    pub fn new(dn: String) -> (entry: DirectoryEntry)
        ensures
            entry@.dn == dn@,
            entry@.attrs == Map::<Seq<char>, Seq<Seq<char>>>::empty(),
    {
        DirectoryEntry { dn, attrs: Vec::new() }
    }

    /// Sets attribute `name` to `values`, replacing what it held before.
    pub fn insert(&mut self, name: String, values: Vec<String>)
        ensures
            final(self)@.dn == old(self)@.dn,
            final(self)@.attrs == old(self)@.attrs.insert(name@, values.deep_view()),
    {
        let ghost before = self.attrs@;
        self.attrs.push(Attribute { name, values });
        assert(self.attrs@.drop_last() == before);
    }

    /// The distinguished name of the entry.
    pub fn dn(&self) -> (dn: &String)
        ensures
            dn@ == self@.dn,
    {
        &self.dn
    }

    /// The values of attribute `name`, if the entry has that attribute.
    pub fn get(&self, name: &str) -> (found: Option<&Vec<String>>)
        ensures
            match found {
                Some(values) => self@.attrs.contains_key(name@) && values.deep_view()
                    == self@.attrs[name@],
                None => !self@.attrs.contains_key(name@),
            },
    {
        let key = name.to_owned();
        let mut i: usize = self.attrs.len();
        while i > 0
            invariant
                i <= self.attrs.len(),
                key@ == name@,
                forall|j: int| i <= j < self.attrs.len() ==> self.attrs@[j].name@ != name@,
            decreases i,
        {
            i = i - 1;
            if self.attrs[i].name == key {
                proof {
                    lemma_last_stored_wins(self.attrs@, i as int, name@);
                }
                return Some(&self.attrs[i].values);
            }
        }
        proof {
            lemma_absent(self.attrs@, name@);
        }
        None
    }

    /// The single display value of attribute `name`: its first value, or the
    /// empty string where the attribute is absent or has no values. Further
    /// values are dropped.
    pub fn first_or_default(&self, name: &str) -> (value: String)
        ensures
            value@ == first_or_default(self@.attrs, name@),
    {
        match self.get(name) {
            Some(values) => {
                if values.len() > 0 {
                    values[0].clone()
                } else {
                    String::new()
                }
            },
            None => String::new(),
        }
    }
}

} // verus!

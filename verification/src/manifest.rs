//! The manifest of a package: its name, its version and the upstream sources
//! that the version is pinned against.
//!
//! A manifest is written in YAML. Reading the text is left to the caller; this
//! module holds the typed form and the rule by which the list of upstream
//! sources is decoded from the structured values that a YAML reader hands
//! over.

use crate::text::{begins_with, same_text, starts_with};
use vstd::prelude::*;

verus! {

/// A structured YAML value, held as plain data.
///
/// A number is kept as its text; a tagged value keeps its tag beside the
/// value that carries it.
#[derive(Debug, PartialEq, Eq)]
pub enum YamlValue {
    Null,
    Bool(bool),
    Number(String),
    Text(String),
    Sequence(Vec<YamlValue>),
    Mapping(Vec<(YamlValue, YamlValue)>),
    Tagged(String, Box<YamlValue>),
}

impl YamlValue {
    /// The text of a value that is text once its tags are taken off.
    pub open spec fn as_text(&self) -> Option<Seq<char>>
        decreases self,
    {
        match self {
            YamlValue::Text(s) => Some(s@),
            YamlValue::Tagged(_, inner) => inner.as_text(),
            _ => None,
        }
    }

    /// Whether the value is the plain text `key`.
    pub open spec fn is_key(&self, key: Seq<char>) -> bool {
        match self {
            YamlValue::Text(s) => s@ == key,
            _ => false,
        }
    }

    /// The text of the value, looking through tags; `None` for anything that
    /// is not text.
    pub fn text(&self) -> (r: Option<&String>)
        ensures
            match r {
                Some(s) => self.as_text() == Some(s@),
                None => self.as_text() is None,
            },
        decreases self,
    {
        match self {
            YamlValue::Text(s) => Some(s),
            YamlValue::Tagged(_, inner) => inner.text(),
            _ => None,
        }
    }
}

/// An auxiliary property of an upstream source: a key and the value declared
/// under it.
#[derive(Debug, PartialEq, Eq)]
pub struct Property {
    pub key: String,
    pub value: YamlValue,
}

/// No key stands twice in `props`.
pub open spec fn distinct_keys(props: Seq<Property>) -> bool {
    forall|i: int, j: int|
        0 <= i < props.len() && 0 <= j < props.len() && i != j ==> props[i].key@ != props[j].key@
}

/// Some property of `props` has the key `key`.
pub open spec fn has_key(props: Seq<Property>, key: Seq<char>) -> bool {
    exists|i: int| 0 <= i < props.len() && #[trigger] props[i].key@ == key
}

/// A place in `props` where `key` stands.
pub open spec fn place_of(props: Seq<Property>, key: Seq<char>) -> int {
    choose|i: int| 0 <= i < props.len() && #[trigger] props[i].key@ == key
}

/// The properties as a map from key to value.
pub open spec fn property_map(props: Seq<Property>) -> Map<Seq<char>, YamlValue> {
    Map::new(
        |key: Seq<char>| has_key(props, key),
        |key: Seq<char>| props[place_of(props, key)].value,
    )
}

/// What a manifest declares for one upstream source.
#[derive(Debug, PartialEq, Eq)]
pub enum UpstreamValue {
    /// A bare content hash.
    Simple(String),
    /// A hash with auxiliary properties, none of them keyed `hash` and no key
    /// twice.
    Extended { hash: String, properties: Vec<Property> },
    /// The hash of a version-control source.
    Git(String),
}

/// The mathematical form of an [`UpstreamValue`].
pub enum UpstreamValueModel {
    Simple(Seq<char>),
    Extended { hash: Seq<char>, properties: Map<Seq<char>, YamlValue> },
    Git(Seq<char>),
}

impl UpstreamValueModel {
    /// The hash that the value carries, whatever its form.
    pub open spec fn hash(self) -> Seq<char> {
        match self {
            UpstreamValueModel::Simple(hash) => hash,
            UpstreamValueModel::Extended { hash, .. } => hash,
            UpstreamValueModel::Git(hash) => hash,
        }
    }
}

impl View for UpstreamValue {
    type V = UpstreamValueModel;

    open spec fn view(&self) -> UpstreamValueModel {
        match self {
            UpstreamValue::Simple(hash) => UpstreamValueModel::Simple(hash@),
            UpstreamValue::Extended { hash, properties } => UpstreamValueModel::Extended {
                hash: hash@,
                properties: property_map(properties@),
            },
            UpstreamValue::Git(hash) => UpstreamValueModel::Git(hash@),
        }
    }
}

impl UpstreamValue {
    /// The properties of an extended value name no key twice, and none is
    /// keyed `hash`.
    pub open spec fn well_formed(&self) -> bool {
        match self {
            UpstreamValue::Extended { properties, .. } => distinct_keys(properties@) && !has_key(
                properties@,
                hash_key(),
            ),
            _ => true,
        }
    }
}

/// One declared source: where it is, and the identity it is pinned to.
#[derive(Debug, PartialEq, Eq)]
pub struct UpstreamEntry {
    pub url: String,
    pub value: UpstreamValue,
}

/// The mathematical form of an [`UpstreamEntry`].
pub struct UpstreamEntryModel {
    pub url: Seq<char>,
    pub value: UpstreamValueModel,
}

impl View for UpstreamEntry {
    type V = UpstreamEntryModel;

    open spec fn view(&self) -> UpstreamEntryModel {
        UpstreamEntryModel { url: self.url@, value: self.value@ }
    }
}

/// The entries of a list, each in its mathematical form.
pub open spec fn entry_models(entries: Seq<UpstreamEntry>) -> Seq<UpstreamEntryModel> {
    entries.map_values(|e: UpstreamEntry| e@)
}

/// The prefix that marks a URL as a version-control source.
pub open spec fn git_marker() -> Seq<char> {
    "git|"@
}

/// The key under which a structured upstream value declares its hash.
pub open spec fn hash_key() -> Seq<char> {
    "hash"@
}

/// The first place in `entries` whose key is the text `hash`, or the length
/// of `entries` if there is none.
pub open spec fn hash_place(entries: Seq<(YamlValue, YamlValue)>) -> int
    decreases entries.len(),
{
    if entries.len() == 0 {
        0
    } else if entries[0].0.is_key(hash_key()) {
        0
    } else {
        1 + hash_place(entries.subrange(1, entries.len() as int))
    }
}

/// The hash that a structured upstream value declares: the text under its key
/// `hash`.
pub open spec fn declared_hash(entries: Seq<(YamlValue, YamlValue)>) -> Option<Seq<char>> {
    let at = hash_place(entries);
    if at < entries.len() {
        entries[at].1.as_text()
    } else {
        None
    }
}

/// The auxiliary properties of a structured upstream value: every entry whose
/// key is text other than `hash`; of two entries with one key the later
/// stands.
pub open spec fn auxiliary(entries: Seq<(YamlValue, YamlValue)>) -> Map<Seq<char>, YamlValue>
    decreases entries.len(),
{
    if entries.len() == 0 {
        Map::empty()
    } else {
        let before = auxiliary(entries.drop_last());
        match entries.last().0 {
            YamlValue::Text(key) => if key@ != hash_key() {
                before.insert(key@, entries.last().1)
            } else {
                before
            },
            _ => before,
        }
    }
}

/// The value that a URL and what is declared under it decode to; `None` where
/// the declaration is neither text nor a mapping with a textual `hash`.
///
/// A URL that begins with the version-control marker always gives a
/// version-control value: auxiliary properties declared beside its hash are
/// not kept.
pub open spec fn decoded_value(url: Seq<char>, declared: YamlValue) -> Option<UpstreamValueModel> {
    match declared {
        YamlValue::Text(hash) => if begins_with(url, git_marker()) {
            Some(UpstreamValueModel::Git(hash@))
        } else {
            Some(UpstreamValueModel::Simple(hash@))
        },
        YamlValue::Mapping(entries) => match declared_hash(entries@) {
            Some(hash) => if begins_with(url, git_marker()) {
                Some(UpstreamValueModel::Git(hash))
            } else {
                Some(UpstreamValueModel::Extended { hash, properties: auxiliary(entries@) })
            },
            None => None,
        },
        _ => None,
    }
}

/// The form of a decoded value follows from the URL and from the shape of
/// the declaration: a marked URL gives a version-control value, an unmarked
/// one a simple value for a bare hash and an extended value for a mapping.
pub proof fn lemma_decoded_form(url: Seq<char>, declared: YamlValue)
    ensures
        match decoded_value(url, declared) {
            Some(UpstreamValueModel::Git(_)) => begins_with(url, git_marker()),
            Some(UpstreamValueModel::Simple(_)) => !begins_with(url, git_marker()) && declared
                is Text,
            Some(UpstreamValueModel::Extended { .. }) => !begins_with(url, git_marker())
                && declared is Mapping,
            None => !(declared is Text),
        },
{
}

/// The hash of a decoded value is the declared one: the bare text, or the
/// text under the key `hash`.
pub proof fn lemma_decoded_hash(url: Seq<char>, declared: YamlValue)
    requires
        decoded_value(url, declared) is Some,
    ensures
        match declared {
            YamlValue::Text(hash) => decoded_value(url, declared).unwrap().hash() == hash@,
            YamlValue::Mapping(entries) => declared_hash(entries@) == Some(
                decoded_value(url, declared).unwrap().hash(),
            ),
            _ => false,
        },
{
}

/// The entry that one element of the upstream list decodes to. The element
/// is a mapping from URL to declaration, of which the first pair counts; an
/// element without a pair, or with a declaration that cannot be decoded,
/// gives no entry.
pub open spec fn decoded_entry(element: Seq<(String, YamlValue)>) -> Option<UpstreamEntryModel> {
    if element.len() == 0 {
        None
    } else {
        match decoded_value(element[0].0@, element[0].1) {
            Some(value) => Some(UpstreamEntryModel { url: element[0].0@, value }),
            None => None,
        }
    }
}

/// The entries that a list of elements decodes to, in the order of the list,
/// without the elements that give none.
pub open spec fn decoded_entries(elements: Seq<Vec<(String, YamlValue)>>) -> Seq<
    UpstreamEntryModel,
>
    decreases elements.len(),
{
    if elements.len() == 0 {
        Seq::empty()
    } else {
        let before = decoded_entries(elements.drop_last());
        match decoded_entry(elements.last()@) {
            Some(entry) => before.push(entry),
            None => before,
        }
    }
}

/// Sets `key` to `value` in `props`: in place where the key is there already,
/// at the end where it is new.
fn set_property(props: &mut Vec<Property>, key: String, value: YamlValue)
    requires
        distinct_keys(old(props)@),
    ensures
        distinct_keys(final(props)@),
        property_map(final(props)@) == property_map(old(props)@).insert(key@, value),
{
    let ghost before = props@;
    let n: usize = props.len();
    let mut i: usize = 0;
    while i < n
        invariant
            i <= n,
            n == props.len(),
            props@ == before,
            before == old(props)@,
            distinct_keys(before),
            forall|j: int| 0 <= j < i ==> before[j].key@ != key@,
        decreases n - i,
    {
        if same_text(props[i].key.as_str(), key.as_str()) {
            let ghost k = key@;
            props.set(i, Property { key, value });
            proof {
                let after = props@;
                assert forall|a: int, b: int|
                    0 <= a < after.len() && 0 <= b < after.len() && a != b implies after[a].key@
                    != after[b].key@ by {
                    assert(after[a].key@ == before[a].key@);
                    assert(after[b].key@ == before[b].key@);
                }
                assert forall|q: Seq<char>| has_key(after, q) == has_key(before, q) by {
                    if has_key(after, q) {
                        let w = place_of(after, q);
                        assert(before[w].key@ == q);
                    }
                    if has_key(before, q) {
                        let w = place_of(before, q);
                        assert(after[w].key@ == q);
                    }
                }
                assert(has_key(before, k)) by {
                    assert(before[i as int].key@ == k);
                }
                assert forall|q: Seq<char>| has_key(after, q) implies after[place_of(
                    after,
                    q,
                )].value == (if q == k {
                    value
                } else {
                    before[place_of(before, q)].value
                }) by {
                    let w = place_of(after, q);
                    let v = place_of(before, q);
                    assert(after[v].key@ == q);
                    assert(w == v);
                    if q == k {
                        assert(w == i);
                    } else {
                        assert(w != i);
                    }
                }
                assert(property_map(after) =~= property_map(before).insert(k, value));
            }
            return ;
        }
        i += 1;
    }
    let ghost k = key@;
    props.push(Property { key, value });
    proof {
        let after = props@;
        assert forall|a: int, b: int|
            0 <= a < after.len() && 0 <= b < after.len() && a != b implies after[a].key@
            != after[b].key@ by {
            if a < n {
                assert(after[a].key@ == before[a].key@);
            }
            if b < n {
                assert(after[b].key@ == before[b].key@);
            }
        }
        assert forall|q: Seq<char>| has_key(after, q) == (q == k || has_key(before, q)) by {
            if has_key(after, q) {
                let w = place_of(after, q);
                if w < n {
                    assert(before[w].key@ == q);
                }
            }
            if has_key(before, q) {
                let w = place_of(before, q);
                assert(after[w].key@ == q);
            }
            if q == k {
                assert(after[n as int].key@ == q);
            }
        }
        assert forall|q: Seq<char>| has_key(after, q) implies after[place_of(after, q)].value == (
        if q == k {
            value
        } else {
            before[place_of(before, q)].value
        }) by {
            let w = place_of(after, q);
            if q == k {
                assert(after[n as int].key@ == q);
                assert(w == n);
            } else {
                assert(w < n);
                assert(before[w].key@ == q);
                let v = place_of(before, q);
                assert(after[v].key@ == q);
                assert(w == v);
            }
        }
        assert(property_map(after) =~= property_map(before).insert(k, value));
    }
}

/// The auxiliary properties that a structured upstream value declares.
pub fn auxiliary_properties(entries: Vec<(YamlValue, YamlValue)>) -> (r: Vec<Property>)
    ensures
        distinct_keys(r@),
        !has_key(r@, hash_key()),
        property_map(r@) == auxiliary(entries@),
{
    let ghost all = entries@;
    let mut props: Vec<Property> = Vec::new();
    proof {
        assert(all.take(0) =~= Seq::empty());
        assert(property_map(props@) =~= Map::empty());
    }
    for pair in it: entries.into_iter()
        invariant
            it.seq() == all,
            distinct_keys(props@),
            !has_key(props@, hash_key()),
            property_map(props@) == auxiliary(all.take(it.index() as int)),
    {
        proof {
            let upto = all.take(it.index() + 1);
            assert(upto.drop_last() =~= all.take(it.index() as int));
            assert(upto.last() == all[it.index() as int]);
        }
        let (key, value) = pair;
        match key {
            YamlValue::Text(name) => {
                if !same_text(name.as_str(), "hash") {
                    let ghost before = props@;
                    set_property(&mut props, name, value);
                    proof {
                        assert(property_map(props@).dom().contains(hash_key()) == property_map(
                            before,
                        ).insert(name@, value).dom().contains(hash_key()));
                    }
                }
            },
            _ => {},
        }
    }
    proof {
        assert(all.take(all.len() as int) =~= all);
    }
    props
}

/// The hash that a structured upstream value declares, if it declares one as
/// text.
pub fn find_hash(entries: &Vec<(YamlValue, YamlValue)>) -> (r: Option<String>)
    ensures
        match r {
            Some(hash) => declared_hash(entries@) == Some(hash@),
            None => declared_hash(entries@) is None,
        },
{
    let n: usize = entries.len();
    let mut i: usize = 0;
    proof {
        assert(entries@.subrange(0, n as int) =~= entries@);
    }
    while i < n
        invariant
            i <= n,
            n == entries.len(),
            hash_place(entries@) == i + hash_place(entries@.subrange(i as int, n as int)),
        decreases n - i,
    {
        let ghost rest = entries@.subrange(i as int, n as int);
        proof {
            assert(rest[0] == entries@[i as int]);
            assert(rest.subrange(1, rest.len() as int) =~= entries@.subrange(i + 1, n as int));
        }
        let found = match &entries[i].0 {
            YamlValue::Text(key) => same_text(key.as_str(), "hash"),
            _ => false,
        };
        if found {
            return match entries[i].1.text() {
                Some(hash) => Some(hash.clone()),
                None => None,
            };
        }
        i += 1;
    }
    None
}

/// Decodes what is declared under a URL, as [`decoded_value`] says.
pub fn decode_value(url: &String, declared: YamlValue) -> (r: Option<UpstreamValue>)
    ensures
        match r {
            Some(value) => value.well_formed() && decoded_value(url@, declared) == Some(value@),
            None => decoded_value(url@, declared) is None,
        },
{
    let git = starts_with(url.as_str(), "git|");
    match declared {
        YamlValue::Text(hash) => {
            if git {
                Some(UpstreamValue::Git(hash))
            } else {
                Some(UpstreamValue::Simple(hash))
            }
        },
        YamlValue::Mapping(entries) => {
            match find_hash(&entries) {
                Some(hash) => {
                    if git {
                        Some(UpstreamValue::Git(hash))
                    } else {
                        let properties = auxiliary_properties(entries);
                        Some(UpstreamValue::Extended { hash, properties })
                    }
                },
                None => None,
            }
        },
        _ => None,
    }
}

/// Decodes the upstream list of a manifest.
///
/// `raw` is the list as the YAML reader hands it over: `None` where the
/// manifest declares none, else one element for each item of the list, each
/// element the pairs of that item's mapping from URL to declaration. The
/// result holds one entry for each element that can be decoded, in the order
/// of the list; an element that cannot is left out.
pub fn deserialize_upstreams(raw: Option<Vec<Vec<(String, YamlValue)>>>) -> (r: Option<
    Vec<UpstreamEntry>,
>)
    ensures
        r is None <==> raw is None,
        raw is Some ==> entry_models(r.unwrap()@) == decoded_entries(raw.unwrap()@),
        r is Some ==> forall|i: int|
            0 <= i < r.unwrap().len() ==> (#[trigger] r.unwrap()[i]).value.well_formed(),
{
    match raw {
        None => None,
        Some(elements) => {
            let ghost all = elements@;
            let mut entries: Vec<UpstreamEntry> = Vec::new();
            proof {
                assert(all.take(0) =~= Seq::empty());
                assert(entry_models(entries@) =~= Seq::empty());
            }
            for element in it: elements.into_iter()
                invariant
                    it.seq() == all,
                    entry_models(entries@) == decoded_entries(all.take(it.index() as int)),
                    forall|i: int|
                        0 <= i < entries.len() ==> (#[trigger] entries[i]).value.well_formed(),
            {
                proof {
                    let upto = all.take(it.index() + 1);
                    assert(upto.drop_last() =~= all.take(it.index() as int));
                    assert(upto.last() == all[it.index() as int]);
                }
                let ghost before = entries@;
                let mut element = element;
                if element.len() > 0 {
                    let (url, declared) = element.swap_remove(0);
                    match decode_value(&url, declared) {
                        Some(value) => {
                            let entry = UpstreamEntry { url, value };
                            entries.push(entry);
                            proof {
                                assert(entry_models(entries@) =~= entry_models(before).push(
                                    entry@,
                                ));
                            }
                        },
                        None => {},
                    }
                }
            }
            proof {
                assert(all.take(all.len() as int) =~= all);
            }
            Some(entries)
        },
    }
}

/// The declared data of a package.
#[derive(Debug, PartialEq, Eq)]
pub struct Manifest {
    pub name: String,
    /// The current version; not empty in a manifest that is in use.
    pub version: String,
    pub release: Option<u32>,
    /// The declared sources in the order of the manifest. The first one is
    /// authoritative for version tracking; without any, the package is not
    /// checked for updates.
    pub upstreams: Option<Vec<UpstreamEntry>>,
    pub homepage: Option<String>,
}

impl Manifest {
    /// The entry that is authoritative for version tracking: the first one
    /// declared.
    pub open spec fn first_upstream(&self) -> Option<UpstreamEntry> {
        match self.upstreams {
            Some(entries) => if entries@.len() > 0 {
                Some(entries@[0])
            } else {
                None
            },
            None => None,
        }
    }

    /// The first declared upstream entry, if the manifest declares any.
    pub fn first(&self) -> (r: Option<&UpstreamEntry>)
        ensures
            match r {
                Some(entry) => self.first_upstream() == Some(*entry),
                None => self.first_upstream() is None,
            },
    {
        match &self.upstreams {
            Some(entries) => if entries.len() > 0 {
                Some(&entries[0])
            } else {
                None
            },
            None => None,
        }
    }
}

} // verus!

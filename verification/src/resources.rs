//! Document resources other than fonts: layers, external objects, and the errors for
//! resources that were never registered.
use vstd::prelude::*;
use crate::font::{BuiltinFont, FontId, FontRef};
use crate::font_map::{InternalFontTypes, PdfFontMap};
use crate::ids::random_character_string;
use crate::image::PdfXObjectImage;
use crate::text_out::{push_char, str_eq};
use crate::key_order::{key_before, lemma_key_order, str_before};
use vstd::utf8::encode_utf8;
use crate::font_map::all_alphanumeric;

verus! {

/// The value stored under `key` in entries whose keys are distinct.
pub open spec fn keyed_get<V>(entries: Seq<(String, V)>, key: Seq<char>) -> Option<V> {
    if exists|i: int| 0 <= i < entries.len() && entries[i].0@ == key {
        Some(entries[choose|i: int| 0 <= i < entries.len() && entries[i].0@ == key].1)
    } else {
        None
    }
}

/// Whether no key occurs twice.
pub open spec fn keys_distinct<V>(entries: Seq<(String, V)>) -> bool {
    forall|i: int, j: int| 0 <= i < j < entries.len() ==> entries[i].0@ != entries[j].0@
}

/// Whether `after` is `before` with `value` put under `key`.
pub open spec fn inserted<V>(before: KeyedMap<V>, after: KeyedMap<V>, key: Seq<char>, value: V) -> bool {
    &&& after.wf()
    &&& after.get_spec(key) == Some(value)
    &&& forall|k: Seq<char>| k != key ==> after.get_spec(k) == before.get_spec(k)
}

/// Law of the keyed maps: a read gives back the last value written under the key; writes
/// under other keys do not disturb it.
pub proof fn law_read_after_write<V>(
    m0: KeyedMap<V>,
    m1: KeyedMap<V>,
    m2: KeyedMap<V>,
    k1: Seq<char>,
    v1: V,
    k2: Seq<char>,
    v2: V,
)
    requires
        inserted(m0, m1, k1, v1),
        inserted(m1, m2, k2, v2),
    ensures
        m2.get_spec(k2) == Some(v2),
        k1 != k2 ==> m2.get_spec(k1) == Some(v1),
        k1 == k2 ==> m2.get_spec(k1) == Some(v2),
        forall|k: Seq<char>| k != k1 && k != k2 ==> m2.get_spec(k) == m0.get_spec(k),
{
}

/// Whether the keys come in the order of strings.
pub open spec fn keys_sorted<V>(entries: Seq<(String, V)>) -> bool {
    forall|i: int, j: int|
        #![trigger entries[i], entries[j]]
        0 <= i < j < entries.len() ==> key_before(entries[i].0@, entries[j].0@)
}

/// Inserting an entry at the position where its key belongs, among entries in the order of
/// their keys that do not hold it, keeps them in order and puts the entry's value under its key
/// without changing the others.
proof fn lemma_sorted_insert<V>(before: Seq<(String, V)>, p: int, e: (String, V))
    requires
        keys_sorted(before),
        keys_distinct(before),
        0 <= p <= before.len(),
        forall|j: int| 0 <= j < p ==> key_before(#[trigger] before[j].0@, e.0@),
        p < before.len() ==> key_before(e.0@, before[p].0@),
    ensures
        keys_sorted(before.insert(p, e)),
        keys_distinct(before.insert(p, e)),
        keyed_get(before.insert(p, e), e.0@) == Some(e.1),
        forall|k: Seq<char>| k != e.0@ ==> keyed_get(before.insert(p, e), k) == keyed_get(before, k),
{
    let after = before.insert(p, e);
    let key = e.0@;
    assert forall|a: int, b: int| #![trigger after[a], after[b]] 0 <= a < b < after.len() implies key_before(
        after[a].0@,
        after[b].0@,
    ) by {
        if a < p && b == p {
        } else if a < p && b > p {
            assert(key_before(before[a].0@, before[b - 1].0@));
        } else if a == p && b > p {
            if b - 1 > p {
                assert(key_before(before[p].0@, before[b - 1].0@));
                lemma_key_order(key, before[p].0@, before[b - 1].0@);
            }
        } else if a > p {
            assert(key_before(before[a - 1].0@, before[b - 1].0@));
        } else {
            assert(key_before(before[a].0@, before[b].0@));
        }
    }
    assert forall|a: int, b: int| 0 <= a < b < after.len() implies after[a].0@ != after[b].0@ by {
        assert(key_before(after[a].0@, after[b].0@));
        lemma_key_order(after[a].0@, after[a].0@, after[a].0@);
    }
    assert(after[p].0@ == key);
    let c = choose|j: int| 0 <= j < after.len() && after[j].0@ == key;
    assert(c == p);
    assert forall|k: Seq<char>| k != key implies keyed_get(after, k) == keyed_get(before, k) by {
        if exists|j: int| 0 <= j < before.len() && before[j].0@ == k {
            let j = choose|j: int| 0 <= j < before.len() && before[j].0@ == k;
            if j < p {
                assert(after[j].0@ == k);
            } else {
                assert(after[j + 1].0@ == k);
            }
        }
        if exists|j: int| 0 <= j < after.len() && after[j].0@ == k {
            let j = choose|j: int| 0 <= j < after.len() && after[j].0@ == k;
            if j < p {
                assert(before[j].0@ == k);
            } else {
                assert(j != p);
                assert(before[j - 1].0@ == k);
            }
        }
    }
}

/// Changing the entry at a position for one with the same key changes the value under that key
/// only.
proof fn lemma_keyed_update<V>(entries: Seq<(String, V)>, i: int)
    requires
        keys_distinct(entries),
        keys_sorted(entries),
        0 <= i < entries.len(),
    ensures
        keyed_get(entries, entries[i].0@) == Some(entries[i].1),
        forall|e: (String, V)|
            e.0@ == entries[i].0@ ==> {
                let after = #[trigger] entries.update(i, e);
                &&& keys_distinct(after)
                &&& keys_sorted(after)
                &&& keyed_get(after, entries[i].0@) == Some(e.1)
                &&& forall|k: Seq<char>| k != entries[i].0@ ==> keyed_get(after, k) == keyed_get(entries, k)
            },
{
    let key = entries[i].0@;
    assert(entries[i].0@ == key);
    let c = choose|j: int| 0 <= j < entries.len() && entries[j].0@ == key;
    assert(c == i);
    assert forall|e: (String, V)|
        e.0@ == key implies {
            let after = #[trigger] entries.update(i, e);
            &&& keys_distinct(after)
            &&& keys_sorted(after)
            &&& keyed_get(after, key) == Some(e.1)
            &&& forall|k: Seq<char>| k != key ==> keyed_get(after, k) == keyed_get(entries, k)
        } by {
        let after = entries.update(i, e);
        assert forall|a: int, b: int| #![trigger after[a], after[b]] 0 <= a < b < after.len() implies key_before(
            after[a].0@,
            after[b].0@,
        ) by {
            assert(key_before(entries[a].0@, entries[b].0@));
        }
        assert forall|a: int, b: int| 0 <= a < b < after.len() implies after[a].0@ != after[b].0@ by {
            assert(entries[a].0@ != entries[b].0@);
        }
        assert(after[i].0@ == key);
        let c2 = choose|j: int| 0 <= j < after.len() && after[j].0@ == key;
        assert(c2 == i);
        assert forall|k: Seq<char>| k != key implies keyed_get(after, k) == keyed_get(entries, k) by {
            if exists|j: int| 0 <= j < entries.len() && entries[j].0@ == k {
                let j = choose|j: int| 0 <= j < entries.len() && entries[j].0@ == k;
                assert(after[j].0@ == k);
            }
            if exists|j: int| 0 <= j < after.len() && after[j].0@ == k {
                let j = choose|j: int| 0 <= j < after.len() && after[j].0@ == k;
                assert(entries[j].0@ == k);
            }
        }
    }
}

/// Values under string keys, each key at most once, in the order of the keys.
#[derive(Debug, Clone, PartialEq)]
pub struct KeyedMap<V> {
    entries: Vec<(String, V)>,
}

impl<V> KeyedMap<V> {
    /// The entries.
    pub closed spec fn entries(self) -> Seq<(String, V)> {
        self.entries@
    }

    /// No key occurs twice, and the keys come in order.
    pub open spec fn wf(self) -> bool {
        &&& keys_distinct(self.entries())
        &&& keys_sorted(self.entries())
    }

    /// The value under a key.
    pub open spec fn get_spec(self, key: Seq<char>) -> Option<V> {
        keyed_get(self.entries(), key)
    }

    /// An empty map.
    pub fn new() -> (r: Self)
        ensures
            r.wf(),
            r.entries().len() == 0,
            forall|k: Seq<char>| r.get_spec(k) is None,
    {
        KeyedMap { entries: Vec::new() }
    }

    /// The map of the given entries, whose keys are distinct and in order.
    pub(crate) fn from_sorted(entries: Vec<(String, V)>) -> (r: Self)
        requires
            keys_distinct(entries@),
            keys_sorted(entries@),
        ensures
            r.wf(),
            r.entries() == entries@,
    {
        KeyedMap { entries }
    }

    /// The position of a key.
    fn position(&self, key: &str) -> (r: Option<usize>)
        ensures
            match r {
                Some(i) => i < self.entries().len() && self.entries()[i as int].0@ == key@,
                None => forall|i: int| 0 <= i < self.entries().len() ==> self.entries()[i].0@ != key@,
            },
    {
        let mut i: usize = 0;
        while i < self.entries.len()
            invariant
                i <= self.entries.len(),
                forall|j: int| 0 <= j < i ==> self.entries@[j].0@ != key@,
            decreases self.entries.len() - i,
        {
            if str_eq(self.entries[i].0.as_str(), key) {
                return Some(i);
            }
            i = i + 1;
        }
        None
    }

    /// The value under a key.
    pub fn get(&self, key: &str) -> (r: Option<&V>)
        requires
            self.wf(),
        ensures
            match r {
                Some(v) => self.get_spec(key@) == Some(*v),
                None => self.get_spec(key@) is None,
            },
    {
        match self.position(key) {
            Some(i) => {
                assert(self.entries()[i as int].0@ == key@);
                Some(&self.entries[i].1)
            },
            None => None,
        }
    }

    /// The value under a key, to change in place.
    pub fn get_mut(&mut self, key: &str) -> (r: Option<&mut V>)
        requires
            old(self).wf(),
        ensures
            match r {
                Some(v) => {
                    &&& old(self).get_spec(key@) == Some(*v)
                    &&& inserted(*old(self), *final(self), key@, *final(v))
                },
                None => {
                    &&& old(self).get_spec(key@) is None
                    &&& *final(self) == *old(self)
                },
            },
    {
        match self.position(key) {
            Some(i) => {
                proof {
                    lemma_keyed_update(self.entries@, i as int);
                }
                Some(&mut self.entries[i].1)
            },
            None => None,
        }
    }

    /// Whether a key has a value.
    pub fn contains_key(&self, key: &str) -> (r: bool)
        ensures
            r == self.get_spec(key@) is Some,
    {
        match self.position(key) {
            Some(i) => {
                assert(self.entries()[i as int].0@ == key@);
                true
            },
            None => false,
        }
    }

    /// Whether the map is empty.
    pub fn is_empty(&self) -> (r: bool)
        ensures
            r == (forall|k: Seq<char>| self.get_spec(k) is None),
    {
        if self.entries.len() == 0 {
            true
        } else {
            assert(self.get_spec(self.entries@[0].0@) is Some);
            false
        }
    }

    /// Puts `value` under `key`, replacing the value that was there; a new key takes its
    /// place in the order of the keys.
    pub fn insert(&mut self, key: String, value: V)
        requires
            old(self).wf(),
        ensures
            inserted(*old(self), *final(self), key@, value),
    {
        let ghost k = key@;
        let ghost before = self.entries@;
        let mut p: usize = 0;
        while p < self.entries.len() && str_before(self.entries[p].0.as_str(), key.as_str())
            invariant
                p <= self.entries@.len(),
                self.entries@ == before,
                key@ == k,
                forall|j: int| 0 <= j < p ==> key_before(#[trigger] before[j].0@, k),
            decreases self.entries@.len() - p,
        {
            p = p + 1;
        }
        if p < self.entries.len() && str_eq(self.entries[p].0.as_str(), key.as_str()) {
            proof {
                lemma_keyed_update(before, p as int);
            }
            self.entries.set(p, (key, value));
            proof {
                assert(self.entries@ == before.update(p as int, self.entries@[p as int]));
            }
        } else {
            proof {
                if p < before.len() {
                    lemma_key_order(k, before[p as int].0@, k);
                }
            }
            self.entries.insert(p, (key, value));
            proof {
                lemma_sorted_insert(before, p as int, self.entries@[p as int]);
            }
        }
    }

    /// The entries, taken, in the order of their keys.
    pub fn into_entries(self) -> (r: Vec<(String, V)>)
        ensures
            r@ == self.entries(),
    {
        self.entries
    }

    /// The entries, in the order of their keys.
    pub fn entries_in_order(&self) -> (r: &[(String, V)])
        ensures
            r@ == self.entries(),
    {
        self.entries.as_slice()
    }
}

/// The id of a kind of resource: a string, random when new.
pub trait IdType: Sized {
    /// The id's text.
    spec fn id_view(&self) -> Seq<char>;

    /// A new random id: 32 letters and digits.
    fn new_random() -> (r: Self)
        ensures
            r.id_view().len() == 32,
            all_alphanumeric(r.id_view()),
    ;

    /// The id's text.
    fn as_str(&self) -> (r: &str)
        ensures
            r@ == self.id_view(),
    ;

    /// The id's text, taken.
    fn into_string(self) -> (r: String)
        ensures
            r@ == self.id_view(),
    ;

    /// The kind of resource, for error messages.
    fn resource_category(&self) -> &'static str;

    /// The id's text as UTF-8 bytes.
    fn into_bytes(self) -> (r: Vec<u8>)
        ensures
            r@ == encode_utf8(self.id_view()),
    {
        let s = self.into_string();
        vstd::slice::slice_to_vec(s.as_str().as_bytes())
    }
}

impl IdType for FontId {
    open spec fn id_view(&self) -> Seq<char> {
        self.0@
    }

    fn new_random() -> (r: Self) {
        FontId(random_character_string(32))
    }

    fn as_str(&self) -> (r: &str) {
        self.0.as_str()
    }

    fn into_string(self) -> (r: String) {
        self.0
    }

    fn resource_category(&self) -> (r: &'static str)
        ensures
            r@ == "Font"@,
    {
        "Font"
    }
}

impl IdType for LayerId {
    open spec fn id_view(&self) -> Seq<char> {
        self.0@
    }

    fn new_random() -> (r: Self) {
        LayerId(random_character_string(32))
    }

    fn as_str(&self) -> (r: &str) {
        self.0.as_str()
    }

    fn into_string(self) -> (r: String) {
        self.0
    }

    fn resource_category(&self) -> (r: &'static str)
        ensures
            r@ == "Layer"@,
    {
        "Layer"
    }
}

impl IdType for XObjectId {
    open spec fn id_view(&self) -> Seq<char> {
        self.0@
    }

    fn new_random() -> (r: Self) {
        XObjectId(random_character_string(32))
    }

    fn as_str(&self) -> (r: &str) {
        self.0.as_str()
    }

    fn into_string(self) -> (r: String) {
        self.0
    }

    fn resource_category(&self) -> (r: &'static str)
        ensures
            r@ == "XObject"@,
    {
        "XObject"
    }
}

impl FontId {
    /// The id followed by `-` and 8 random letters and digits.
    pub fn add_random_suffix(self) -> (r: FontId)
        ensures
            r.0@.len() == self.0@.len() + 9,
            r.0@.subrange(0, self.0@.len() + 1int) == self.0@.push('-'),
            all_alphanumeric(r.0@.subrange(self.0@.len() + 1int, r.0@.len() as int)),
    {
        let mut s = self.0;
        let ghost n = s@;
        push_char(&mut s, '-');
        let suffix = random_character_string(8);
        s.append(suffix.as_str());
        proof {
            assert(s@.subrange(0, n.len() + 1int) =~= n.push('-'));
            assert(s@.subrange(n.len() + 1int, s@.len() as int) =~= suffix@);
        }
        FontId(s)
    }
}

/// The usage subtype of a layer.
#[derive(Debug, PartialEq, Clone, Copy, Default, Eq, Structural)]
pub enum LayerSubtype {
    #[default]
    Artwork,
}

impl LayerSubtype {
    /// The PDF name of the subtype.
    pub fn name(&self) -> (r: &'static str)
        ensures
            r@ == "Artwork"@,
    {
        match self {
            LayerSubtype::Artwork => "Artwork",
        }
    }
}

/// The intent of a layer.
#[derive(Debug, PartialEq, Clone, Copy, Default, Eq, Structural)]
pub enum LayerIntent {
    View,
    #[default]
    Design,
}

/// The id of a layer.
#[derive(Debug, PartialEq, Clone, Eq, PartialOrd, Ord, Hash)]
pub struct LayerId(pub String);

/// The id of an external object.
#[derive(Debug, PartialEq, Clone, Eq, PartialOrd, Ord)]
pub struct XObjectId(pub String);

/// The id of an ICC colour profile.
#[derive(Debug, PartialEq, Clone, Eq, PartialOrd, Ord)]
pub struct IccProfileId(pub String);

impl IccProfileId {
    /// A new random id of 32 letters and digits.
    pub fn new_random() -> (r: Self)
        ensures
            r.0@.len() == 32,
            all_alphanumeric(r.0@),
    {
        IccProfileId(random_character_string(32))
    }
}

/// An optional content group, whose operations are drawn on the pages that show it.
#[derive(Debug, PartialEq, Clone)]
pub struct Layer<O> {
    pub name: String,
    /// The layer's operations; each page that shows the layer gets its own copy.
    pub operations: Vec<O>,
    pub creator: Option<String>,
    pub intent: LayerIntent,
    pub usage: LayerSubtype,
}

impl<O> Layer<O> {
    /// An empty layer with a name, design intent and artwork usage.
    pub fn new(name: &str) -> (r: Self)
        ensures
            r.name@ == name@,
            r.operations@.len() == 0,
            r.creator is None,
            r.intent == LayerIntent::Design,
            r.usage == LayerSubtype::Artwork,
    {
        Layer {
            name: name.to_owned(),
            operations: Vec::new(),
            creator: None,
            intent: LayerIntent::Design,
            usage: LayerSubtype::Artwork,
        }
    }

    /// Appends an operation to the layer.
    pub fn add_to_layer(&mut self, object: O)
        ensures
            final(self).operations@ == old(self).operations@.push(object),
            final(self).name == old(self).name,
            final(self).creator == old(self).creator,
            final(self).intent == old(self).intent,
            final(self).usage == old(self).usage,
    {
        self.operations.push(object);
    }

    /// Sets the creator.
    pub fn set_creator(&mut self, creator: String)
        ensures
            final(self).creator == Some(creator),
            final(self).name == old(self).name,
            final(self).operations == old(self).operations,
            final(self).intent == old(self).intent,
            final(self).usage == old(self).usage,
    {
        self.creator = Some(creator);
    }

    /// Sets the intent.
    pub fn set_intent(&mut self, intent: LayerIntent)
        ensures
            final(self).intent == intent,
            final(self).name == old(self).name,
            final(self).operations == old(self).operations,
            final(self).creator == old(self).creator,
            final(self).usage == old(self).usage,
    {
        self.intent = intent;
    }

    /// Sets the usage.
    pub fn set_usage(&mut self, usage: LayerSubtype)
        ensures
            final(self).usage == usage,
            final(self).name == old(self).name,
            final(self).operations == old(self).operations,
            final(self).creator == old(self).creator,
            final(self).intent == old(self).intent,
    {
        self.usage = usage;
    }
}

/// The layers of a document, under their ids.
#[derive(Debug, PartialEq, Clone)]
pub struct PdfLayerMap<O> {
    pub map: KeyedMap<Layer<O>>,
}

impl<O> PdfLayerMap<O> {
    /// A map without layers.
    pub fn new() -> (r: Self)
        ensures
            r.map.wf(),
            r.map.entries().len() == 0,
            forall|k: Seq<char>| r.map.get_spec(k) is None,
    {
        PdfLayerMap { map: KeyedMap::new() }
    }

    /// The layer under an id.
    pub fn get_layer(&self, id: &LayerId) -> (r: Option<&Layer<O>>)
        requires
            self.map.wf(),
        ensures
            match r {
                Some(l) => self.map.get_spec(id.0@) == Some(*l),
                None => self.map.get_spec(id.0@) is None,
            },
    {
        self.map.get(id.0.as_str())
    }

    /// Whether a layer is stored under an id.
    pub fn has_id(&self, id: &LayerId) -> (r: bool)
        ensures
            r == self.map.get_spec(id.0@) is Some,
    {
        self.map.contains_key(id.0.as_str())
    }

    /// The layer under an id, to change in place.
    pub fn get_layer_mut(&mut self, id: &LayerId) -> (r: Option<&mut Layer<O>>)
        requires
            old(self).map.wf(),
        ensures
            match r {
                Some(l) => {
                    &&& old(self).map.get_spec(id.0@) == Some(*l)
                    &&& inserted(old(self).map, final(self).map, id.0@, *final(l))
                },
                None => {
                    &&& old(self).map.get_spec(id.0@) is None
                    &&& *final(self) == *old(self)
                },
            },
    {
        self.map.get_mut(id.0.as_str())
    }

    /// A copy of the operations of the layer under an id, if there is one.
    pub fn clone_layer_content(&self, id: &LayerId) -> (r: Option<Vec<O>>)
        where
            O: Clone,
        requires
            self.map.wf(),
        ensures
            match self.map.get_spec(id.0@) {
                Some(l) => r matches Some(ops) && ops@.len() == l.operations@.len()
                    && forall|i: int| 0 <= i < ops@.len() ==> cloned::<O>(l.operations@[i], #[trigger] ops@[i]),
                None => r is None,
            },
    {
        match self.map.get(id.0.as_str()) {
            Some(layer) => Some(layer.operations.clone()),
            None => None,
        }
    }

    /// Creates an empty layer with a name under a new random id (32 letters and digits),
    /// and returns the id.
    pub fn create_layer(&mut self, name: &str) -> (r: LayerId)
        requires
            old(self).map.wf(),
        ensures
            final(self).map.wf(),
            r.0@.len() == 32,
            all_alphanumeric(r.0@),
            final(self).map.get_spec(r.0@) matches Some(l) && l.name@ == name@ && l.operations@.len() == 0
                && l.creator is None && l.intent == LayerIntent::Design && l.usage == LayerSubtype::Artwork,
            forall|k: Seq<char>| k != r.0@ ==> final(self).map.get_spec(k) == old(self).map.get_spec(k),
    {
        let id = random_character_string(32);
        let key = id.clone();
        self.map.insert(id, Layer::new(name));
        LayerId(key)
    }
}

/// An external object: an image. (Form objects are not supported.)
#[derive(Debug, PartialEq, Clone)]
pub enum XObject {
    /// Image XObject, for images
    Image(Box<PdfXObjectImage>),
}

/// A borrowed external object.
#[derive(Debug, PartialEq, Clone, Copy)]
pub enum XObjectRef<'a> {
    Image(&'a PdfXObjectImage),
}

impl XObject {
    /// The object, borrowed.
    pub fn as_ref(&self) -> (r: XObjectRef<'_>)
        ensures
            match (*self, r) {
                (XObject::Image(a), XObjectRef::Image(b)) => *a == *b,
            },
    {
        match self {
            XObject::Image(image) => XObjectRef::Image(&**image),
        }
    }
}

/// The external objects of a document, under their ids.
#[derive(Debug, PartialEq, Clone)]
pub struct XObjectMap {
    pub map: KeyedMap<XObject>,
}

impl XObjectMap {
    /// A map without objects.
    pub fn new() -> (r: Self)
        ensures
            r.map.wf(),
            r.map.entries().len() == 0,
            forall|k: Seq<char>| r.map.get_spec(k) is None,
    {
        XObjectMap { map: KeyedMap::new() }
    }

    /// Adds an object under a new random id (32 letters and digits) and returns the id.
    pub fn add_xobject(&mut self, xobject: XObject) -> (r: XObjectId)
        requires
            old(self).map.wf(),
        ensures
            r.0@.len() == 32,
            all_alphanumeric(r.0@),
            inserted(old(self).map, final(self).map, r.0@, xobject),
    {
        let id = random_character_string(32);
        let key = id.clone();
        self.map.insert(id, xobject);
        XObjectId(key)
    }

    /// Whether the map holds no object.
    pub fn is_empty(&self) -> (r: bool)
        ensures
            r == (forall|k: Seq<char>| self.map.get_spec(k) is None),
    {
        self.map.is_empty()
    }

    /// Whether an object is stored under an id.
    pub fn has_id(&self, id: &XObjectId) -> (r: bool)
        ensures
            r == self.map.get_spec(id.0@) is Some,
    {
        self.map.contains_key(id.0.as_str())
    }

    /// The object under an id.
    pub fn get_xobject(&self, id: &XObjectId) -> (r: Option<&XObject>)
        requires
            self.map.wf(),
        ensures
            match r {
                Some(x) => self.map.get_spec(id.0@) == Some(*x),
                None => self.map.get_spec(id.0@) is None,
            },
    {
        self.map.get(id.0.as_str())
    }
}

/// A resource that a page uses but the document never registered.
#[derive(Debug, PartialEq, Clone)]
pub enum ResourceNotRegistered {
    FontId(FontId),
    BuiltinFontNotRegistered(BuiltinFont),
    XObjectId(XObjectId),
    LayerId(LayerId),
}

impl ResourceNotRegistered {
    /// The error for a font reference: its id, or the built-in font.
    pub fn from_font_ref(font_ref: FontRef) -> (r: Self)
        ensures
            match font_ref {
                FontRef::External(id) => r == ResourceNotRegistered::FontId(id),
                FontRef::Builtin(b) => r == ResourceNotRegistered::BuiltinFontNotRegistered(b),
            },
    {
        match font_ref {
            FontRef::External(font_id) => ResourceNotRegistered::FontId(font_id),
            FontRef::Builtin(builtin_font) => ResourceNotRegistered::BuiltinFontNotRegistered(builtin_font),
        }
    }
}

/// The bookmarks of a document (none are kept yet).
#[derive(Debug, PartialEq, Default, Clone)]
pub struct PageAnnotMap {}

/// The resources shared between the pages of a document.
#[derive(Debug, PartialEq, Clone)]
pub struct PdfResources<O> {
    /// Fonts
    pub fonts: PdfFontMap,
    /// External objects (images)
    pub xobjects: XObjectMap,
    /// Optional content groups
    pub layers: PdfLayerMap<O>,
}

impl<O> PdfResources<O> {
    /// Resources without fonts, objects or layers.
    pub fn new() -> (r: Self)
        ensures
            r.fonts.wf(),
            r.xobjects.map.wf(),
            r.layers.map.wf(),
            r.fonts.entries().len() == 0,
            r.fonts.builtins().len() == 0,
            r.xobjects.map.entries().len() == 0,
            r.layers.map.entries().len() == 0,
            forall|id: Seq<char>| r.fonts.font(id) is None,
            forall|b: BuiltinFont| !r.fonts.has_builtin(b),
            forall|k: Seq<char>| r.xobjects.map.get_spec(k) is None,
            forall|k: Seq<char>| r.layers.map.get_spec(k) is None,
    {
        PdfResources { fonts: PdfFontMap::new(), xobjects: XObjectMap::new(), layers: PdfLayerMap::new() }
    }

    /// The font that a reference names, if it is registered (see `PdfFontMap::internal_font_type`).
    pub fn get_font_type(&self, font_id: &FontRef) -> (r: Option<InternalFontTypes<'_>>)
        ensures
            match *font_id {
                FontRef::External(id) => match self.fonts.font(id.0@) {
                    Some(p) => r matches Some(InternalFontTypes::External(q)) && *q == p,
                    None => r is None,
                },
                FontRef::Builtin(b) => if self.fonts.has_builtin(b) {
                    r == Some(InternalFontTypes::Builtin(b))
                } else {
                    r is None
                },
            },
    {
        self.fonts.internal_font_type(font_id)
    }
}

/// Whether an entry of the emoji cache is stored under a font name and a glyph.
pub open spec fn cache_entry_is(e: (String, u16, XObjectId), font_name: Seq<char>, glyph_id: u16) -> bool {
    e.0@ == font_name && e.1 == glyph_id
}

/// Whether no font name and glyph occur twice among the entries.
pub open spec fn cache_keys_unique(entries: Seq<(String, u16, XObjectId)>) -> bool {
    forall|i: int, j: int|
        #![trigger entries[i], entries[j]]
        0 <= i < j < entries.len() ==> !cache_entry_is(entries[i], entries[j].0@, entries[j].1)
}

/// The id of the image stored under a font name and a glyph among the entries, if any.
pub open spec fn cache_lookup(entries: Seq<(String, u16, XObjectId)>, font_name: Seq<char>, glyph_id: u16) -> Option<
    Seq<char>,
> {
    if exists|i: int| 0 <= i < entries.len() && cache_entry_is(entries[i], font_name, glyph_id) {
        Some(entries[choose|i: int| 0 <= i < entries.len() && cache_entry_is(entries[i], font_name, glyph_id)].2.0@)
    } else {
        None
    }
}

/// With unique keys, the lookup finds the entry at any position that holds the key.
proof fn lemma_cache_lookup_at(entries: Seq<(String, u16, XObjectId)>, i: int)
    requires
        cache_keys_unique(entries),
        0 <= i < entries.len(),
    ensures
        cache_lookup(entries, entries[i].0@, entries[i].1) == Some(entries[i].2.0@),
{
    let f = entries[i].0@;
    let g = entries[i].1;
    assert(cache_entry_is(entries[i], f, g));
    let c = choose|k: int| 0 <= k < entries.len() && cache_entry_is(entries[k], f, g);
    if c < i {
        assert(!cache_entry_is(entries[c], entries[i].0@, entries[i].1));
    } else if c > i {
        assert(!cache_entry_is(entries[i], entries[c].0@, entries[c].1));
    }
}

/// The position of the entry of a font name and a glyph.
fn cache_position(entries: &Vec<(String, u16, XObjectId)>, font_name: &str, glyph_id: u16) -> (r: Option<usize>)
    ensures
        match r {
            Some(i) => i < entries@.len() && cache_entry_is(entries@[i as int], font_name@, glyph_id),
            None => forall|i: int| 0 <= i < entries@.len() ==> !cache_entry_is(entries@[i], font_name@, glyph_id),
        },
{
    let mut i: usize = 0;
    while i < entries.len()
        invariant
            i <= entries.len(),
            forall|j: int| 0 <= j < i ==> !cache_entry_is(entries@[j], font_name@, glyph_id),
        decreases entries.len() - i,
    {
        if entries[i].1 == glyph_id && str_eq(entries[i].0.as_str(), font_name) {
            return Some(i);
        }
        i = i + 1;
    }
    None
}

/// The images of rasterised emoji glyphs: under a font's name and a glyph id, the id of the
/// XObject that shows the glyph.
#[derive(Debug, PartialEq)]
pub struct EmojiGlyphCache {
    entries: Vec<(String, u16, XObjectId)>,
}

impl EmojiGlyphCache {
    /// No font name and glyph occur twice.
    #[verifier::type_invariant]
    spec fn keys_unique(self) -> bool {
        cache_keys_unique(self.entries@)
    }

    /// The id of the image stored under a font name and a glyph, if any.
    pub closed spec fn lookup(self, font_name: Seq<char>, glyph_id: u16) -> Option<Seq<char>> {
        cache_lookup(self.entries@, font_name, glyph_id)
    }

    /// An empty cache.
    pub fn new() -> (r: Self)
        ensures
            forall|f: Seq<char>, g: u16| #[trigger] r.lookup(f, g) is None,
    {
        EmojiGlyphCache { entries: Vec::new() }
    }

    /// The id of the image of a glyph of a font, if it was stored.
    pub fn get(&self, font_name: &str, glyph_id: u16) -> (r: Option<&XObjectId>)
        ensures
            match r {
                Some(id) => self.lookup(font_name@, glyph_id) == Some(id.0@),
                None => self.lookup(font_name@, glyph_id) is None,
            },
    {
        proof {
            use_type_invariant(self);
        }
        match cache_position(&self.entries, font_name, glyph_id) {
            Some(i) => {
                proof {
                    lemma_cache_lookup_at(self.entries@, i as int);
                }
                Some(&self.entries[i].2)
            },
            None => None,
        }
    }

    /// Stores the image of a glyph of a font, replacing the one stored before.
    pub fn insert(&mut self, font_name: String, glyph_id: u16, xobject_id: XObjectId)
        ensures
            final(self).lookup(font_name@, glyph_id) == Some(xobject_id.0@),
            forall|f: Seq<char>, g: u16|
                !(f == font_name@ && g == glyph_id) ==> #[trigger] final(self).lookup(f, g) == old(self).lookup(f, g),
    {
        proof {
            use_type_invariant(&*self);
        }
        let ghost before = self.entries@;
        let ghost fname = font_name@;
        let mut entries: Vec<(String, u16, XObjectId)> = Vec::new();
        core::mem::swap(&mut entries, &mut self.entries);
        let ghost at: int;
        match cache_position(&entries, font_name.as_str(), glyph_id) {
            Some(i) => {
                entries.set(i, (font_name, glyph_id, xobject_id));
                proof {
                    at = i as int;
                }
            },
            None => {
                entries.push((font_name, glyph_id, xobject_id));
                proof {
                    at = before.len() as int;
                }
            },
        }
        let ghost after = entries@;
        proof {
            assert forall|a: int, b: int| #![trigger after[a], after[b]] 0 <= a < b < after.len() implies !cache_entry_is(
                after[a],
                after[b].0@,
                after[b].1,
            ) by {
                if a != at && b != at {
                    assert(!cache_entry_is(before[a], before[b].0@, before[b].1));
                }
            }
            lemma_cache_lookup_at(after, at);
            assert forall|f: Seq<char>, g: u16| !(f == fname && g == glyph_id) implies #[trigger] cache_lookup(
                after,
                f,
                g,
            ) == cache_lookup(before, f, g) by {
                if exists|k: int| 0 <= k < before.len() && cache_entry_is(before[k], f, g) {
                    let k = choose|k: int| 0 <= k < before.len() && cache_entry_is(before[k], f, g);
                    assert(after[k] == before[k]);
                    lemma_cache_lookup_at(before, k);
                    lemma_cache_lookup_at(after, k);
                }
                if exists|k: int| 0 <= k < after.len() && cache_entry_is(after[k], f, g) {
                    let k = choose|k: int| 0 <= k < after.len() && cache_entry_is(after[k], f, g);
                    assert(k != at);
                    assert(after[k] == before[k]);
                    lemma_cache_lookup_at(before, k);
                    lemma_cache_lookup_at(after, k);
                }
            }
        }
        self.entries = entries;
    }

    /// Whether nothing is stored.
    pub fn is_empty(&self) -> (r: bool)
        ensures
            r == (forall|f: Seq<char>, g: u16| #[trigger] self.lookup(f, g) is None),
    {
        let r = self.entries.len() == 0;
        proof {
            if !r {
                let e = self.entries@[0];
                assert(cache_entry_is(e, e.0@, e.1));
                assert(self.lookup(e.0@, e.1) is Some);
            }
        }
        r
    }
}

impl Default for EmojiGlyphCache {
    /// An empty cache.
    fn default() -> (r: Self)
        ensures
            forall|f: Seq<char>, g: u16| #[trigger] r.lookup(f, g) is None,
    {
        EmojiGlyphCache::new()
    }
}

impl Clone for EmojiGlyphCache {
    /// A cache that stores the same images under the same fonts and glyphs.
    fn clone(&self) -> (r: Self)
        ensures
            forall|f: Seq<char>, g: u16| #[trigger] r.lookup(f, g) == self.lookup(f, g),
    {
        proof {
            use_type_invariant(self);
        }
        let mut entries: Vec<(String, u16, XObjectId)> = Vec::new();
        let mut i: usize = 0;
        while i < self.entries.len()
            invariant
                i <= self.entries.len(),
                cache_keys_unique(self.entries@),
                entries@.len() == i,
                forall|k: int| 0 <= k < i ==> {
                    &&& (#[trigger] entries@[k]).0@ == self.entries@[k].0@
                    &&& entries@[k].1 == self.entries@[k].1
                    &&& entries@[k].2.0@ == self.entries@[k].2.0@
                },
            decreases self.entries.len() - i,
        {
            let e = &self.entries[i];
            entries.push((e.0.clone(), e.1, XObjectId(e.2.0.clone())));
            i = i + 1;
        }
        let ghost a = self.entries@;
        let ghost b = entries@;
        proof {
            assert forall|x: int, y: int| #![trigger b[x], b[y]] 0 <= x < y < b.len() implies !cache_entry_is(
                b[x],
                b[y].0@,
                b[y].1,
            ) by {
                assert(!cache_entry_is(a[x], a[y].0@, a[y].1));
            }
            assert forall|f: Seq<char>, g: u16| #[trigger] cache_lookup(b, f, g) == cache_lookup(a, f, g) by {
                if exists|k: int| 0 <= k < a.len() && cache_entry_is(a[k], f, g) {
                    let k = choose|k: int| 0 <= k < a.len() && cache_entry_is(a[k], f, g);
                    assert(cache_entry_is(b[k], f, g));
                    lemma_cache_lookup_at(a, k);
                    lemma_cache_lookup_at(b, k);
                } else if exists|k: int| 0 <= k < b.len() && cache_entry_is(b[k], f, g) {
                    let k = choose|k: int| 0 <= k < b.len() && cache_entry_is(b[k], f, g);
                    assert(cache_entry_is(a[k], f, g));
                }
            }
        }
        EmojiGlyphCache { entries }
    }
}

} // verus!

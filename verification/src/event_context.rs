use vstd::prelude::*;

verus! {

/// A value stored in the context: a tagged union over the kinds of data that
/// units exchange. A read yields the value only when the requested kind
/// matches the stored one; otherwise the key counts as absent.
#[derive(Debug, Clone, PartialEq, Eq)]
pub enum ContextValue {
    Bool(bool),
    Int(i64),
    Str(String),
}

/// Backing store of the context. It holds a hash map of an outside crate,
/// opaque to the verifier and reachable only through the trusted methods
/// below, whose contracts speak of `store_contents`.
#[verifier::external_body]
pub struct ValueStore {
    map: hashbrown::HashMap<String, ContextValue>,
}

/// The mapping a `ValueStore` holds, keyed by the characters of each key.
pub uninterp spec fn store_contents(s: ValueStore) -> Map<Seq<char>, ContextValue>;

/// The contents of a context that holds nothing.
pub open spec fn empty_contents() -> Map<Seq<char>, ContextValue> {
    Map::empty()
}

impl ValueStore {
    /// Relies on hashbrown::HashMap::new: the new map is empty.
    #[verifier::external_body]
    fn new() -> (s: ValueStore)
        ensures
            store_contents(s) == empty_contents(),
    {
        ValueStore { map: hashbrown::HashMap::new() }
    }

    /// Relies on hashbrown::HashMap::insert: the value is stored under the
    /// key, replacing any prior value under an equal key.
    #[verifier::external_body]
    fn insert(&mut self, key: &str, value: ContextValue)
        ensures
            store_contents(*final(self)) == store_contents(*old(self)).insert(key@, value),
    {
        self.map.insert(key.to_string(), value);
    }

    /// Relies on hashbrown::HashMap::get: a copy of the value stored under an
    /// equal key, or nothing when no such key is present.
    #[verifier::external_body]
    fn lookup(&self, key: &str) -> (r: Option<ContextValue>)
        ensures
            store_contents(*self).dom().contains(key@) ==> r == Some(
                store_contents(*self)[key@],
            ),
            !store_contents(*self).dom().contains(key@) ==> r is None,
    {
        self.map.get(key).cloned()
    }

    /// Relies on hashbrown::HashMap::contains_key: whether a key equal to the
    /// given one is present.
    #[verifier::external_body]
    fn contains(&self, key: &str) -> (r: bool)
        ensures
            r == store_contents(*self).dom().contains(key@),
    {
        self.map.contains_key(key)
    }
}

/// What a read of the given key yields when a boolean is requested.
pub open spec fn spec_get_bool(m: Map<Seq<char>, ContextValue>, k: Seq<char>) -> Option<bool> {
    if m.dom().contains(k) {
        match m[k] {
            ContextValue::Bool(b) => Some(b),
            _ => None,
        }
    } else {
        None
    }
}

/// What a read of the given key yields when an integer is requested.
pub open spec fn spec_get_int(m: Map<Seq<char>, ContextValue>, k: Seq<char>) -> Option<i64> {
    if m.dom().contains(k) {
        match m[k] {
            ContextValue::Int(v) => Some(v),
            _ => None,
        }
    } else {
        None
    }
}

/// What a read of the given key yields when a string is requested.
pub open spec fn spec_get_str(m: Map<Seq<char>, ContextValue>, k: Seq<char>) -> Option<Seq<char>> {
    if m.dom().contains(k) {
        match m[k] {
            ContextValue::Str(s) => Some(s@),
            _ => None,
        }
    } else {
        None
    }
}

/// Shared, mutable, type-tagged key/value store passed by mutable reference
/// through a whole run; keys are unique and the last write wins.
pub struct EventContext {
    data: ValueStore,
}

impl View for EventContext {
    type V = Map<Seq<char>, ContextValue>;

    closed spec fn view(&self) -> Map<Seq<char>, ContextValue> {
        store_contents(self.data)
    }
}

impl EventContext {
    /// Create an empty context.
    pub fn new() -> (r: EventContext)
        ensures
            r@ == empty_contents(),
    {
        EventContext { data: ValueStore::new() }
    }

    /// Store `value` under `key`, overwriting any prior value of any kind.
    pub fn set(&mut self, key: &str, value: ContextValue)
        ensures
            final(self)@ == old(self)@.insert(key@, value),
    {
        self.data.insert(key, value);
    }

    /// A copy of the value stored under `key`, whatever its kind, or nothing
    /// when the key is absent.
    pub fn get(&self, key: &str) -> (r: Option<ContextValue>)
        ensures
            self@.dom().contains(key@) ==> r == Some(self@[key@]),
            !self@.dom().contains(key@) ==> r is None,
    {
        self.data.lookup(key)
    }

    /// Whether a value of any kind is stored under `key`.
    pub fn has(&self, key: &str) -> (r: bool)
        ensures
            r == self@.dom().contains(key@),
    {
        self.data.contains(key)
    }

    /// The boolean stored under `key`, or nothing when the key is absent or
    /// holds a value of another kind.
    pub fn get_bool(&self, key: &str) -> (r: Option<bool>)
        ensures
            r == spec_get_bool(self@, key@),
    {
        match self.data.lookup(key) {
            Some(ContextValue::Bool(b)) => Some(b),
            _ => None,
        }
    }

    /// The integer stored under `key`, or nothing when the key is absent or
    /// holds a value of another kind.
    pub fn get_int(&self, key: &str) -> (r: Option<i64>)
        ensures
            r == spec_get_int(self@, key@),
    {
        match self.data.lookup(key) {
            Some(ContextValue::Int(v)) => Some(v),
            _ => None,
        }
    }

    /// The string stored under `key`, or nothing when the key is absent or
    /// holds a value of another kind.
    pub fn get_str(&self, key: &str) -> (r: Option<String>)
        ensures
            (r is Some) == (spec_get_str(self@, key@) is Some),
            r is Some ==> Some(r->Some_0@) == spec_get_str(self@, key@),
    {
        match self.data.lookup(key) {
            Some(ContextValue::Str(s)) => Some(s),
            _ => None,
        }
    }
}

impl Default for EventContext {
    /// An empty context.
    fn default() -> (r: EventContext)
        ensures
            r@ == empty_contents(),
    {
        EventContext::new()
    }
}

/// Law: storing a value under a key and reading the same key back yields the
/// value when the requested kind matches the stored one and nothing when it
/// does not, while reads of every other key are unchanged.
pub proof fn lemma_context_round_trip(
    m: Map<Seq<char>, ContextValue>,
    k: Seq<char>,
    v: ContextValue,
)
    ensures
        spec_get_bool(m.insert(k, v), k) == (match v {
            ContextValue::Bool(b) => Some(b),
            _ => None::<bool>,
        }),
        spec_get_int(m.insert(k, v), k) == (match v {
            ContextValue::Int(i) => Some(i),
            _ => None::<i64>,
        }),
        spec_get_str(m.insert(k, v), k) == (match v {
            ContextValue::Str(s) => Some(s@),
            _ => None::<Seq<char>>,
        }),
        forall|k2: Seq<char>|
            k2 != k ==> #[trigger] spec_get_bool(m.insert(k, v), k2) == spec_get_bool(m, k2),
        forall|k2: Seq<char>|
            k2 != k ==> #[trigger] spec_get_int(m.insert(k, v), k2) == spec_get_int(m, k2),
        forall|k2: Seq<char>|
            k2 != k ==> #[trigger] spec_get_str(m.insert(k, v), k2) == spec_get_str(m, k2),
{
}

} // verus!

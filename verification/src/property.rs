//! The property store: a kernel-owned mapping from name to a typed value,
//! used to pass configuration between otherwise-decoupled screens.

use vstd::prelude::*;

verus! {

/// A property value: one of the small closed set of kinds the screens
/// exchange. A path is held as its components; the configuration blob is the
/// configuration text handed to the external engine.
pub enum PropValue {
    Port(u16),
    Text(String),
    Path(Vec<String>),
    Blob(String),
}

/// The mathematical shape of a property value: strings as character
/// sequences, paths as sequences of components.
pub enum PropView {
    Port(u16),
    Text(Seq<char>),
    Path(Seq<Seq<char>>),
    Blob(Seq<char>),
}

impl View for PropValue {
    type V = PropView;

    open spec fn view(&self) -> PropView {
        match self {
            PropValue::Port(p) => PropView::Port(*p),
            PropValue::Text(s) => PropView::Text(s@),
            PropValue::Path(p) => PropView::Path(p.deep_view()),
            PropValue::Blob(s) => PropView::Blob(s@),
        }
    }
}

/// A copy of a property value, equal at the view level.
pub fn clone_prop(v: &PropValue) -> (r: PropValue)
    ensures
        r@ == v@,
{
    match v {
        PropValue::Port(p) => PropValue::Port(*p),
        PropValue::Text(s) => PropValue::Text(s.clone()),
        PropValue::Path(p) => PropValue::Path(crate::strutil::clone_path(p)),
        PropValue::Blob(s) => PropValue::Blob(s.clone()),
    }
}

/// The store, seen as a map from name to value. Entries are appended; a later
/// entry for a name overrides earlier ones, so the view is the fold of all
/// entries, last one winning. Nothing is ever deleted.
pub struct PropertyStore {
    entries: Vec<(String, PropValue)>,
}

/// The map described by a sequence of (name, value) entries, later entries
/// overriding earlier ones.
pub open spec fn map_of_entries(s: Seq<(String, PropValue)>) -> Map<Seq<char>, PropView>
    decreases s.len(),
{
    if s.len() == 0 {
        Map::empty()
    } else {
        map_of_entries(s.drop_last()).insert(s.last().0@, s.last().1@)
    }
}

/// Looking a name up in the map of a sequence whose last entry has a
/// different name is the same as looking it up without that entry.
proof fn lemma_map_of_entries_skip_last(s: Seq<(String, PropValue)>, name: Seq<char>)
    requires
        s.len() > 0,
        s.last().0@ != name,
    ensures
        map_of_entries(s).contains_key(name) == map_of_entries(s.drop_last()).contains_key(name),
        map_of_entries(s).contains_key(name) ==> map_of_entries(s)[name] == map_of_entries(
            s.drop_last(),
        )[name],
{
}

impl View for PropertyStore {
    type V = Map<Seq<char>, PropView>;

    closed spec fn view(&self) -> Map<Seq<char>, PropView> {
        map_of_entries(self.entries@)
    }
}

impl PropertyStore {
    /// An empty store.
    pub fn new() -> (r: PropertyStore)
        ensures
            r@ == Map::<Seq<char>, PropView>::empty(),
    {
        PropertyStore { entries: Vec::new() }
    }

    /// Insert or overwrite the entry for `name`.
    pub fn insert(&mut self, name: String, value: PropValue)
        ensures
            final(self)@ == old(self)@.insert(name@, value@),
    {
        let ghost pre = self.entries@;
        self.entries.push((name, value));
        proof {
            assert(self.entries@.drop_last() =~= pre);
        }
    }

    /// Look `name` up; `None` exactly when the store has no entry for it.
    pub fn get(&self, name: &String) -> (r: Option<&PropValue>)
        ensures
            match r {
                Some(v) => self@.contains_key(name@) && v@ == self@[name@],
                None => !self@.contains_key(name@),
            },
    {
        let mut i: usize = self.entries.len();
        proof {
            assert(self.entries@.take(i as int) =~= self.entries@);
        }
        while i > 0
            invariant
                i <= self.entries@.len(),
                self@.contains_key(name@) == map_of_entries(self.entries@.take(i as int)).contains_key(name@),
                self@.contains_key(name@) ==> self@[name@] == map_of_entries(
                    self.entries@.take(i as int),
                )[name@],
            decreases i,
        {
            let ghost prefix = self.entries@.take(i as int);
            proof {
                assert(prefix.drop_last() =~= self.entries@.take(i - 1));
            }
            if self.entries[i - 1].0 == *name {
                return Some(&self.entries[i - 1].1);
            }
            proof {
                lemma_map_of_entries_skip_last(prefix, name@);
            }
            i = i - 1;
        }
        proof {
            assert(self.entries@.take(0) =~= Seq::<(String, PropValue)>::empty());
        }
        None
    }

    /// Whether the store has an entry for `name`.
    pub fn contains(&self, name: &String) -> (r: bool)
        ensures
            r == self@.contains_key(name@),
    {
        match self.get(name) {
            Some(_) => true,
            None => false,
        }
    }
}

} // verus!

use vstd::prelude::*;

verus! {

/// Value of `key` in a list of named fields: the first entry with that name wins.
pub open spec fn lookup(entries: Seq<(Seq<char>, Seq<char>)>, key: Seq<char>) -> Option<Seq<char>>
    decreases entries.len(),
{
    if entries.len() == 0 {
        None
    } else if entries[0].0 == key {
        Some(entries[0].1)
    } else {
        lookup(entries.drop_first(), key)
    }
}

/// The mapping of named string fields that a list of entries denotes.
pub open spec fn fields_of(entries: Seq<(Seq<char>, Seq<char>)>) -> Map<Seq<char>, Seq<char>> {
    Map::new(|k: Seq<char>| lookup(entries, k) is Some, |k: Seq<char>| lookup(entries, k)->0)
}

/// A snapshot of named fields, as strings, handed out by an [`Observer`].
pub struct Snapshot {
    entries: Vec<(String, String)>,
}

impl Snapshot {
    pub closed spec fn entries_view(&self) -> Seq<(Seq<char>, Seq<char>)> {
        self.entries@.map_values(|e: (String, String)| (e.0@, e.1@))
    }

    /// An empty snapshot.
    pub fn new() -> (r: Snapshot)
        ensures
            r@ == Map::<Seq<char>, Seq<char>>::empty(),
    {
        let r = Snapshot { entries: Vec::new() };
        assert(r@ =~= Map::<Seq<char>, Seq<char>>::empty());
        r
    }

    /// Sets field `key` to `value`, replacing any earlier value of it.
    pub fn insert(&mut self, key: &str, value: &str)
        ensures
            final(self)@ == old(self)@.insert(key@, value@),
    {
        let ghost before = self.entries_view();
        self.entries.insert(0, (String::from_str(key), String::from_str(value)));
        assert(self.entries_view().drop_first() =~= before);
        assert(self@ =~= old(self)@.insert(key@, value@));
    }

    /// The value of field `key`, if the snapshot has one.
    pub fn get(&self, key: &str) -> (r: Option<&String>)
        ensures
            match r {
                Some(v) => self@.contains_key(key@) && v@ == self@[key@],
                None => !self@.contains_key(key@),
            },
    {
        let k = String::from_str(key);
        let n = self.entries.len();
        let mut i: usize = 0;
        assert(self.entries_view().subrange(0, n as int) =~= self.entries_view());
        while i < n
            invariant
                n == self.entries@.len(),
                i <= n,
                k@ == key@,
                lookup(self.entries_view(), key@) == lookup(self.entries_view().subrange(i as int, n as int), key@),
            decreases n - i,
        {
            let ghost rest = self.entries_view().subrange(i as int, n as int);
            if self.entries[i].0 == k {
                return Some(&self.entries[i].1);
            }
            assert(rest.drop_first() =~= self.entries_view().subrange(i + 1, n as int));
            i = i + 1;
        }
        None
    }
}

impl View for Snapshot {
    type V = Map<Seq<char>, Seq<char>>;

    closed spec fn view(&self) -> Map<Seq<char>, Seq<char>> {
        fields_of(self.entries_view())
    }
}

/// A source of external state that a widget pulls a fresh snapshot from.
pub trait Observer {
    /// The current values of the fields that the observer tracks.
    fn observe(&self) -> Snapshot;
}

/// A field that a widget reads from an observer's snapshot.
#[derive(PartialEq, Eq, Structural, Clone, Copy, Debug)]
pub enum SnapshotField {
    Text,
    Checked,
}

/// Why a snapshot could not be applied to a widget.
#[derive(PartialEq, Eq, Structural, Clone, Copy, Debug)]
pub enum ObserverDataError {
    /// The snapshot has no value for a required field.
    MissingField(SnapshotField),
    /// The snapshot's value for the field cannot be read as that field's type.
    InvalidValue(SnapshotField),
}

/// The boolean that `s` spells: exactly `true` or `false`.
pub open spec fn flag_of(s: Seq<char>) -> Option<bool> {
    if s == "true"@ {
        Some(true)
    } else if s == "false"@ {
        Some(false)
    } else {
        None
    }
}

/// Reads a boolean written as `true` or `false`.
pub fn parse_flag(s: &String) -> (r: Option<bool>)
    ensures
        r == flag_of(s@),
{
    let t = String::from_str("true");
    let f = String::from_str("false");
    if *s == t {
        Some(true)
    } else if *s == f {
        Some(false)
    } else {
        None
    }
}

} // verus!

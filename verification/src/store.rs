//! The table of shortcuts: each name stands for one path.

use vstd::prelude::*;
use vstd::string::*;
use crate::text::{load_error, spec_load_error};

verus! {

/// The entries of a table as mathematical values: pairs of name and path, in
/// the order in which the table lists them.
pub type Listing = Seq<(Seq<char>, Seq<char>)>;

/// No name occurs twice in the listing.
pub open spec fn names_distinct(s: Listing) -> bool {
    forall|i: int, j: int| 0 <= i < j < s.len() ==> (#[trigger] s[i]).0 != (#[trigger] s[j]).0
}

/// Some entry of the listing has this name.
pub open spec fn has_name(s: Listing, name: Seq<char>) -> bool {
    exists|i: int| 0 <= i < s.len() && (#[trigger] s[i]).0 == name
}

/// The place of an entry with this name, where there is one.
pub open spec fn place_of(s: Listing, name: Seq<char>) -> int {
    choose|i: int| 0 <= i < s.len() && (#[trigger] s[i]).0 == name
}

/// The listing read as a mapping from names to paths.
pub open spec fn as_map(s: Listing) -> Map<Seq<char>, Seq<char>> {
    Map::new(|name: Seq<char>| has_name(s, name), |name: Seq<char>| s[place_of(s, name)].1)
}

/// The listing after `name` is given `path`: an entry of that name keeps its
/// place and takes the new path, a new name goes to the end.
pub open spec fn put(s: Listing, name: Seq<char>, path: Seq<char>) -> Listing {
    if has_name(s, name) {
        s.update(place_of(s, name), (name, path))
    } else {
        s.push((name, path))
    }
}

/// The listing without the entry of this name; unchanged where there is none.
pub open spec fn without(s: Listing, name: Seq<char>) -> Listing {
    if has_name(s, name) {
        s.remove(place_of(s, name))
    } else {
        s
    }
}

/// In a listing without repeated names, the entry at place `i` is the one
/// that its name finds.
pub proof fn lemma_place_of(s: Listing, i: int)
    requires
        names_distinct(s),
        0 <= i < s.len(),
    ensures
        has_name(s, s[i].0),
        place_of(s, s[i].0) == i,
        as_map(s).contains_key(s[i].0),
        as_map(s)[s[i].0] == s[i].1,
{
    let j = place_of(s, s[i].0);
    assert(0 <= j < s.len() && s[j].0 == s[i].0);
}

/// Giving a name a path keeps the names apart, and the mapping afterwards is
/// the old one with that one name set.
pub proof fn lemma_put(s: Listing, name: Seq<char>, path: Seq<char>)
    requires
        names_distinct(s),
    ensures
        names_distinct(put(s, name, path)),
        as_map(put(s, name, path)) == as_map(s).insert(name, path),
        put(s, name, path).len() == s.len() + if has_name(s, name) { 0int } else { 1int },
{
    let t = put(s, name, path);
    if has_name(s, name) {
        assert(forall|k: int| 0 <= k < s.len() ==> (#[trigger] t[k]).0 == s[k].0);
    } else {
        assert(forall|k: int| 0 <= k < s.len() ==> (#[trigger] t[k]) == s[k]);
    }
    assert(names_distinct(t));
    assert forall|k: Seq<char>| #[trigger]
        as_map(t).contains_key(k) == as_map(s).insert(name, path).contains_key(k) by {
        if has_name(t, k) {
            let i = place_of(t, k);
            if k != name {
                assert(s[i].0 == k);
            }
        }
        if has_name(s, k) {
            let i = place_of(s, k);
            assert(t[i].0 == k);
        }
        if k == name {
            if has_name(s, name) {
                assert(t[place_of(s, name)].0 == name);
            } else {
                assert(t[s.len() as int].0 == name);
            }
        }
    }
    assert forall|k: Seq<char>| #[trigger] as_map(t).contains_key(k) implies as_map(t)[k]
        == as_map(s).insert(name, path)[k] by {
        let i = place_of(t, k);
        lemma_place_of(t, i);
        if k != name {
            assert(s[i].0 == k);
            lemma_place_of(s, i);
        } else if has_name(s, name) {
            let p = place_of(s, name);
            lemma_place_of(t, p);
        } else {
            lemma_place_of(t, s.len() as int);
        }
    }
    assert(as_map(t) =~= as_map(s).insert(name, path));
}

/// Taking a name out keeps the names apart, and the mapping afterwards is the
/// old one without that name.
pub proof fn lemma_without(s: Listing, name: Seq<char>)
    requires
        names_distinct(s),
    ensures
        names_distinct(without(s, name)),
        !has_name(without(s, name), name),
        as_map(without(s, name)) == as_map(s).remove(name),
        without(s, name).len() == s.len() - if has_name(s, name) { 1int } else { 0int },
{
    let t = without(s, name);
    if has_name(s, name) {
        let p = place_of(s, name);
        assert(forall|k: int| 0 <= k < p ==> (#[trigger] t[k]) == s[k]);
        assert(forall|k: int| p <= k < t.len() ==> (#[trigger] t[k]) == s[k + 1]);
        assert(names_distinct(t));
        assert forall|k: Seq<char>| #[trigger]
            as_map(t).contains_key(k) == as_map(s).remove(name).contains_key(k) by {
            if has_name(t, k) {
                let i = place_of(t, k);
                if i < p {
                    assert(s[i].0 == k);
                } else {
                    assert(s[i + 1].0 == k);
                }
                if k == name {
                    lemma_place_of(s, p);
                    if i < p {
                        lemma_place_of(s, i);
                    } else {
                        lemma_place_of(s, i + 1);
                    }
                }
            }
            if has_name(s, k) && k != name {
                let i = place_of(s, k);
                if i < p {
                    assert(t[i].0 == k);
                } else {
                    assert(t[i - 1].0 == k);
                }
            }
        }
        assert forall|k: Seq<char>| #[trigger] as_map(t).contains_key(k) implies as_map(t)[k]
            == as_map(s).remove(name)[k] by {
            let i = place_of(t, k);
            lemma_place_of(t, i);
            if i < p {
                lemma_place_of(s, i);
            } else {
                lemma_place_of(s, i + 1);
            }
        }
        assert(as_map(t) =~= as_map(s).remove(name));
    } else {
        assert(as_map(t) =~= as_map(s).remove(name));
    }
}

/// The listing that comes of giving each name of `items` its path, one after
/// the other, starting from nothing. Where a name occurs twice, the later path
/// stays, at the place of the first.
pub open spec fn put_all(items: Listing) -> Listing
    decreases items.len(),
{
    if items.len() == 0 {
        Seq::empty()
    } else {
        put(put_all(items.drop_last()), items.last().0, items.last().1)
    }
}

/// Items without repeated names make the listing that they are.
pub proof fn lemma_put_all_same(items: Listing)
    requires
        names_distinct(items),
    ensures
        put_all(items) == items,
    decreases items.len(),
{
    if items.len() > 0 {
        let front = items.drop_last();
        lemma_put_all_same(front);
        if has_name(front, items.last().0) {
            let i = place_of(front, items.last().0);
            assert(items[i].0 == items[items.len() - 1].0);
        }
        assert(front.push(items.last()) =~= items);
    }
}

/// One shortcut: a name and the path it stands for.
#[derive(Debug, PartialEq, Eq)]
pub struct Entry {
    pub name: String,
    pub path: String,
}

impl View for Entry {
    type V = (Seq<char>, Seq<char>);

    open spec fn view(&self) -> (Seq<char>, Seq<char>) {
        (self.name@, self.path@)
    }
}

/// The table of shortcuts. No name occurs twice in it.
#[derive(Debug)]
pub struct Config {
    entries: Vec<Entry>,
}

impl View for Config {
    type V = Map<Seq<char>, Seq<char>>;

    /// The table as a mapping from names to paths.
    open spec fn view(&self) -> Map<Seq<char>, Seq<char>> {
        as_map(self.listing())
    }
}

impl Config {
    /// The entries in the order in which they are listed.
    pub closed spec fn listing(&self) -> Listing {
        self.entries@.map_values(|e: Entry| e@)
    }

    /// What holds of every table: no name occurs twice.
    #[verifier::type_invariant]
    pub open spec fn well_formed(&self) -> bool {
        names_distinct(self.listing())
    }

    /// The empty table.
    pub fn new() -> (config: Config)
        ensures
            config.listing() == Seq::<(Seq<char>, Seq<char>)>::empty(),
            config@ == Map::<Seq<char>, Seq<char>>::empty(),
    {
        let config = Config { entries: Vec::new() };
        assert(config.listing() =~= Seq::empty());
        assert(config@ =~= Map::empty());
        config
    }

    /// Where the entry of this name stands, if there is one.
    fn position(&self, name: &String) -> (at: Option<usize>)
        ensures
            names_distinct(self.listing()),
            at is Some == has_name(self.listing(), name@),
            at is Some ==> at->0 == place_of(self.listing(), name@),
    {
        proof {
            use_type_invariant(self);
        }
        let mut i: usize = 0;
        while i < self.entries.len()
            invariant
                i <= self.entries.len(),
                names_distinct(self.listing()),
                forall|k: int| 0 <= k < i ==> (#[trigger] self.listing()[k]).0 != name@,
            decreases self.entries.len() - i,
        {
            if self.entries[i].name == *name {
                proof {
                    lemma_place_of(self.listing(), i as int);
                }
                return Some(i);
            }
            i += 1;
        }
        None
    }

    /// The path that this name stands for, if the table has the name.
    pub fn get(&self, name: &String) -> (path: Option<&String>)
        ensures
            path is Some == self@.contains_key(name@),
            path is Some ==> path->0@ == self@[name@],
    {
        match self.position(name) {
            Some(i) => Some(&self.entries[i].path),
            None => None,
        }
    }

    /// Gives `name` the path `path`. A name that the table has keeps its place
    /// in the listing and takes the new path; a new name goes to the end.
    /// Returns the path that the name stood for before, if it had one.
    pub fn insert(&mut self, name: String, path: String) -> (before: Option<String>)
        ensures
            final(self).listing() == put(old(self).listing(), name@, path@),
            final(self)@ == old(self)@.insert(name@, path@),
            names_distinct(final(self).listing()),
            before is Some == old(self)@.contains_key(name@),
            before is Some ==> before->0@ == old(self)@[name@],
    {
        let at = self.position(&name);
        proof {
            lemma_put(self.listing(), name@, path@);
        }
        let ghost before_listing = self.listing();
        let mut entries = self.take_entries();
        let before = match at {
            Some(i) => {
                entries.push(Entry { name, path });
                let gone = entries.swap_remove(i);
                Some(gone.path)
            },
            None => {
                entries.push(Entry { name, path });
                None
            },
        };
        assert(entries@.map_values(|e: Entry| e@) =~= put(before_listing, name@, path@));
        self.entries = entries;
        before
    }

    /// Takes the entry of this name out of the table and returns its path; the
    /// entries behind it move up by one place. A table without the name is left
    /// as it is.
    pub fn remove(&mut self, name: &String) -> (gone: Option<String>)
        ensures
            final(self).listing() == without(old(self).listing(), name@),
            final(self)@ == old(self)@.remove(name@),
            names_distinct(final(self).listing()),
            gone is Some == old(self)@.contains_key(name@),
            gone is Some ==> gone->0@ == old(self)@[name@],
    {
        let at = self.position(name);
        proof {
            lemma_without(self.listing(), name@);
        }
        match at {
            Some(i) => {
                let ghost before_listing = self.listing();
                let mut entries = self.take_entries();
                let entry = entries.remove(i);
                assert(entries@.map_values(|e: Entry| e@) =~= without(before_listing, name@));
                self.entries = entries;
                Some(entry.path)
            },
            None => None,
        }
    }

    /// Moves the entries out and leaves the table empty.
    fn take_entries(&mut self) -> (entries: Vec<Entry>)
        ensures
            entries@.map_values(|e: Entry| e@) == old(self).listing(),
            final(self).listing().len() == 0,
    {
        let mut taken = Config { entries: Vec::new() };
        core::mem::swap(self, &mut taken);
        taken.entries
    }

    /// The table made of these entries, taken in turn as by `insert`.
    pub fn from_entries(entries: &Vec<Entry>) -> (config: Config)
        ensures
            config.listing() == put_all(entries@.map_values(|e: Entry| e@)),
    {
        let ghost items = entries@.map_values(|e: Entry| e@);
        let mut config = Config::new();
        let mut i: usize = 0;
        while i < entries.len()
            invariant
                i <= entries.len(),
                items == entries@.map_values(|e: Entry| e@),
                config.listing() == put_all(items.take(i as int)),
            decreases entries.len() - i,
        {
            let entry = &entries[i];
            config.insert(entry.name.clone(), entry.path.clone());
            i += 1;
            assert(items.take(i as int).drop_last() =~= items.take(i - 1));
        }
        assert(items.take(i as int) =~= items);
        config
    }

    /// A copy of the entries, in the order of the listing.
    pub fn entries(&self) -> (entries: Vec<Entry>)
        ensures
            entries@.map_values(|e: Entry| e@) == self.listing(),
    {
        let mut entries: Vec<Entry> = Vec::new();
        let mut i: usize = 0;
        while i < self.entries.len()
            invariant
                i <= self.entries.len(),
                entries.len() == i,
                forall|k: int| 0 <= k < i ==> (#[trigger] entries[k])@ == self.listing()[k],
            decreases self.entries.len() - i,
        {
            let entry = &self.entries[i];
            entries.push(Entry { name: entry.name.clone(), path: entry.path.clone() });
            i += 1;
        }
        assert(entries@.map_values(|e: Entry| e@) =~= self.listing());
        entries
    }

    /// How many shortcuts the table holds.
    pub fn len(&self) -> (n: usize)
        ensures
            n == self.listing().len(),
    {
        self.entries.len()
    }
}

/// The name of the file that keeps the table. It stands beside the program's
/// own file, wherever the program is started from.
pub open spec fn spec_config_file_name() -> Seq<char> {
    "config.json"@
}

/// The name of the file that keeps the table, as a string.
pub fn config_file_name() -> (name: String)
    ensures
        name@ == spec_config_file_name(),
{
    String::from_str("config.json")
}

/// What the program found where the table is kept.
#[derive(Debug, PartialEq, Eq)]
pub enum Found {
    /// There is no file.
    Nothing,
    /// The file was read and holds these entries.
    Entries(Vec<Entry>),
    /// The file could not be opened, or does not hold a table.
    Unreadable(String),
}

/// The table that the program starts with: empty where no file was found,
/// made of the file's entries where it was read. A file that is there and
/// cannot be read gives no table but the line that reports it, with the
/// reason.
pub fn load_config(found: Found) -> (loaded: Result<Config, String>)
    ensures
        match found {
            Found::Nothing => loaded is Ok && loaded->Ok_0.listing() == Seq::<
                (Seq<char>, Seq<char>),
            >::empty(),
            Found::Entries(entries) => loaded is Ok && loaded->Ok_0.listing() == put_all(
                entries@.map_values(|e: Entry| e@),
            ),
            Found::Unreadable(reason) => loaded is Err && loaded->Err_0@ == spec_load_error(
                reason@,
            ),
        },
{
    match found {
        Found::Nothing => Ok(Config::new()),
        Found::Entries(entries) => Ok(Config::from_entries(&entries)),
        Found::Unreadable(reason) => Err(load_error(&reason)),
    }
}

} // verus!

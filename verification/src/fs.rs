//! A snapshot of files and folders.
//!
//! Reading the disk is not done here. Whoever reads it builds the snapshot
//! with these types, entry by entry.

use vstd::prelude::*;
use vstd::std_specs::convert::FromSpecImpl;

verus! {

/// Why something on disk has no place in a snapshot.
#[derive(Debug, Clone, Copy, PartialEq, Eq, Structural)]
pub enum ReadError {
    /// Neither a folder nor a file.
    UnsupportedEntry,
}

impl ReadError {
    /// The text shown to the user for this error.
    pub fn message(&self) -> (text: String)
        ensures
            text@ == "UnsupportedEntry"@,
    {
        "UnsupportedEntry".to_owned()
    }
}

/// A file by its contents.
#[derive(Debug, Clone, PartialEq, Eq)]
pub struct File {
    contents: String,
}

impl File {
    /// The file's text.
    pub closed spec fn spec_contents(&self) -> Seq<char> {
        self.contents@
    }

    /// A file that holds `contents`.
    pub fn new(contents: String) -> (file: Self)
        ensures
            file.spec_contents() == contents@,
    {
        File { contents }
    }

    /// The file's text.
    pub fn contents(&self) -> (contents: &str)
        ensures
            contents@ == self.spec_contents(),
    {
        self.contents.as_str()
    }
}

/// What an entry of a folder is.
#[derive(Debug, Clone, Copy, PartialEq, Eq, Structural)]
pub enum Kind {
    Folder,
    File,
}

/// What to read something on disk as, given what the disk says it is. What
/// is a directory is read as a folder, what is a regular file as a file, and
/// anything else is not supported.
pub fn kind_of(is_dir: bool, is_file: bool) -> (r: Result<Kind, ReadError>)
    ensures
        r == (if is_dir {
            Ok::<Kind, ReadError>(Kind::Folder)
        } else if is_file {
            Ok::<Kind, ReadError>(Kind::File)
        } else {
            Err::<Kind, ReadError>(ReadError::UnsupportedEntry)
        }),
{
    if is_dir {
        Ok(Kind::Folder)
    } else if is_file {
        Ok(Kind::File)
    } else {
        Err(ReadError::UnsupportedEntry)
    }
}

/// A folder: entries by name. No name occurs twice.
#[derive(Debug)]
pub struct Folder {
    entries: Vec<(String, Entry)>,
}

/// A file or a folder.
#[derive(Debug)]
pub enum Entry {
    File(File),
    Folder(Folder),
}

impl From<File> for Entry {
    fn from(v: File) -> (entry: Entry) {
        Entry::File(v)
    }
}

impl FromSpecImpl<File> for Entry {
    open spec fn obeys_from_spec() -> bool {
        true
    }

    open spec fn from_spec(v: File) -> Entry {
        Entry::File(v)
    }
}

impl From<Folder> for Entry {
    fn from(v: Folder) -> (entry: Entry) {
        Entry::Folder(v)
    }
}

impl FromSpecImpl<Folder> for Entry {
    open spec fn obeys_from_spec() -> bool {
        true
    }

    open spec fn from_spec(v: Folder) -> Entry {
        Entry::Folder(v)
    }
}

impl Folder {
    /// The names of the entries, in the order in which the folder keeps them.
    pub closed spec fn names(&self) -> Seq<Seq<char>> {
        Seq::new(self.entries@.len(), |i: int| self.entries@[i].0@)
    }

    /// The entries, in the order of their names.
    pub closed spec fn items(&self) -> Seq<Entry> {
        Seq::new(self.entries@.len(), |i: int| self.entries@[i].1)
    }

    /// There is an entry for each name, and no name occurs twice.
    pub open spec fn wf(&self) -> bool {
        &&& self.names().len() == self.items().len()
        &&& forall|i: int, j: int|
            0 <= i < j < self.names().len() ==> self.names()[i] != self.names()[j]
    }

    /// The folder as a map from names to entries.
    pub open spec fn view(&self) -> Map<Seq<char>, Entry> {
        Map::new(
            |name: Seq<char>| self.names().contains(name),
            |name: Seq<char>| self.items()[self.names().index_of(name)],
        )
    }

    /// A folder without entries.
    pub fn new() -> (folder: Self)
        ensures
            folder.wf(),
            folder.names() == Seq::<Seq<char>>::empty(),
            folder.items() == Seq::<Entry>::empty(),
            folder@ == Map::<Seq<char>, Entry>::empty(),
    {
        let folder = Folder { entries: Vec::new() };
        assert(folder.names() =~= Seq::<Seq<char>>::empty());
        assert(folder.items() =~= Seq::<Entry>::empty());
        assert(folder@ =~= Map::<Seq<char>, Entry>::empty());
        folder
    }

    /// How many entries the folder has.
    pub fn len(&self) -> (n: usize)
        ensures
            n == self.names().len(),
    {
        self.entries.len()
    }

    /// The name and the entry at place `i`, for walking the folder.
    pub fn entry_at(&self, i: usize) -> (pair: (&str, &Entry))
        requires
            i < self.names().len(),
        ensures
            pair.0@ == self.names()[i as int],
            *pair.1 == self.items()[i as int],
    {
        (self.entries[i].0.as_str(), &self.entries[i].1)
    }

    /// Where the entry called `name` stands, if there is one.
    fn position(&self, name: &String) -> (place: Option<usize>)
        ensures
            match place {
                Some(i) => i < self.names().len() && self.names()[i as int] == name@,
                None => !self.names().contains(name@),
            },
    {
        let mut i: usize = 0;
        while i < self.entries.len()
            invariant
                i <= self.entries.len(),
                forall|j: int| 0 <= j < i ==> self.names()[j] != name@,
            decreases self.entries.len() - i,
        {
            if self.entries[i].0 == *name {
                return Some(i);
            }
            i += 1;
        }
        None
    }

    /// The entry called `name`, if there is one.
    pub fn get(&self, name: &str) -> (entry: Option<&Entry>)
        requires
            self.wf(),
        ensures
            match entry {
                Some(e) => self@.contains_key(name@) && *e == self@[name@],
                None => !self@.contains_key(name@),
            },
    {
        let wanted = name.to_owned();
        match self.position(&wanted) {
            Some(i) => {
                proof {
                    self.lemma_index_of(i as int);
                }
                Some(&self.entries[i].1)
            },
            None => None,
        }
    }

    /// In a well-formed folder a name is found at the place where it stands.
    proof fn lemma_index_of(&self, i: int)
        requires
            self.wf(),
            0 <= i < self.names().len(),
        ensures
            self.names().contains(self.names()[i]),
            self.names().index_of(self.names()[i]) == i,
    {
        let name = self.names()[i];
        assert(self.names().contains(name));
        let j = self.names().index_of(name);
        assert(0 <= j < self.names().len() && self.names()[j] == name);
        if j < i {
            assert(self.names()[j] != self.names()[i]);
        }
        if i < j {
            assert(self.names()[i] != self.names()[j]);
        }
    }

    /// Puts `entry` into the folder under `name`. An entry that had the name
    /// before gives way and is handed back.
    pub fn insert(&mut self, name: String, entry: Entry) -> (previous: Option<Entry>)
        requires
            old(self).wf(),
        ensures
            final(self).wf(),
            final(self)@ == old(self)@.insert(name@, entry),
            previous == (if old(self)@.contains_key(name@) {
                Some(old(self)@[name@])
            } else {
                None
            }),
    {
        let place = self.position(&name);
        let ghost before = *self;
        let previous = match place {
            Some(i) => {
                proof {
                    self.lemma_index_of(i as int);
                }
                let gone = self.entries.remove(i);
                Some(gone.1)
            },
            None => None,
        };
        let ghost between = *self;
        assert(!between.names().contains(name@)) by {
            if between.names().contains(name@) {
                let k = between.names().index_of(name@);
                assert(between.names()[k] == name@);
                match place {
                    Some(i) => {
                        if k < i {
                            assert(before.names()[k] == name@);
                        } else {
                            assert(before.names()[k + 1] == name@);
                        }
                    },
                    None => {
                        assert(before.names()[k] == name@);
                    },
                }
            }
        }
        assert(between.wf()) by {
            assert forall|a: int, b: int| 0 <= a < b < between.names().len() implies between.names()[a]
                != between.names()[b] by {
                match place {
                    Some(i) => {
                        let a0 = if a < i { a } else { a + 1 };
                        let b0 = if b < i { b } else { b + 1 };
                        assert(between.names()[a] == before.names()[a0]);
                        assert(between.names()[b] == before.names()[b0]);
                    },
                    None => {},
                }
            }
        }
        self.entries.push((name, entry));
        let ghost n = between.names().len() as int;
        assert(self.names() =~= between.names().push(name@));
        assert(self.items() =~= between.items().push(entry));
        assert(self.wf());
        proof {
            self.lemma_index_of(n);
            assert forall|other: Seq<char>| #[trigger] self@.contains_key(other) <==> (other == name@
                || before@.contains_key(other)) by {
                if other != name@ {
                    if before.names().contains(other) {
                        let k = before.names().index_of(other);
                        assert(before.names()[k] == other);
                        match place {
                            Some(i) => {
                                let k1 = if k < i { k } else { k - 1 };
                                assert(between.names()[k1] == other);
                                assert(self.names()[k1] == other);
                            },
                            None => {
                                assert(self.names()[k] == other);
                            },
                        }
                    }
                    if self.names().contains(other) {
                        let k = self.names().index_of(other);
                        assert(self.names()[k] == other);
                        assert(k < n);
                        match place {
                            Some(i) => {
                                let k0 = if k < i { k } else { k + 1 };
                                assert(before.names()[k0] == other);
                            },
                            None => {
                                assert(before.names()[k] == other);
                            },
                        }
                    }
                }
            }
            assert forall|other: Seq<char>| other != name@ && before@.contains_key(other) implies #[trigger] self@[other]
                == before@[other] by {
                let k = before.names().index_of(other);
                assert(before.names()[k] == other);
                before.lemma_index_of(k);
                match place {
                    Some(i) => {
                        let k1 = if k < i { k } else { k - 1 };
                        assert(self.names()[k1] == other);
                        self.lemma_index_of(k1);
                        assert(self.items()[k1] == before.items()[k]);
                    },
                    None => {
                        assert(self.names()[k] == other);
                        self.lemma_index_of(k);
                    },
                }
            }
            assert(self@ =~= before@.insert(name@, entry));
        }
        previous
    }
}

} // verus!

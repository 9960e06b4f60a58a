//! A notes tree held in memory: a map from file paths to file contents.
//! Opening a note against it runs the same decisions as against a real
//! file system.

use vstd::prelude::*;

verus! {

/// Files by path. A later entry for a path replaces an earlier one.
pub struct NoteStore {
    files: Vec<(String, String)>,
}

/// The map that a list of entries describes, later entries winning.
pub open spec fn entries_map(s: Seq<(String, String)>) -> Map<Seq<char>, Seq<char>>
    decreases s.len(),
{
    if s.len() == 0 {
        Map::empty()
    } else {
        entries_map(s.drop_last()).insert(s.last().0@, s.last().1@)
    }
}

proof fn lemma_absent(s: Seq<(String, String)>, k: Seq<char>)
    requires
        forall|j: int| 0 <= j < s.len() ==> s[j].0@ != k,
    ensures
        !entries_map(s).dom().contains(k),
    decreases s.len(),
{
    if s.len() > 0 {
        lemma_absent(s.drop_last(), k);
    }
}

proof fn lemma_last_match(s: Seq<(String, String)>, k: Seq<char>, j: int)
    requires
        0 <= j < s.len(),
        s[j].0@ == k,
        forall|l: int| j < l < s.len() ==> s[l].0@ != k,
    ensures
        entries_map(s).dom().contains(k),
        entries_map(s)[k] == s[j].1@,
    decreases s.len(),
{
    if j < s.len() - 1 {
        lemma_last_match(s.drop_last(), k, j);
    }
}

impl View for NoteStore {
    type V = Map<Seq<char>, Seq<char>>;

    closed spec fn view(&self) -> Map<Seq<char>, Seq<char>> {
        entries_map(self.files@)
    }
}

impl NoteStore {
    /// A store with no file.
    pub fn new() -> (r: NoteStore)
        ensures
            r@ == Map::<Seq<char>, Seq<char>>::empty(),
    {
        NoteStore { files: Vec::new() }
    }

    /// The contents of the file at `path`, if there is one.
    pub fn read(&self, path: &String) -> (r: Option<String>)
        ensures
            r.is_some() == self@.dom().contains(path@),
            r.is_some() ==> r.unwrap()@ == self@[path@],
    {
        let mut i: usize = self.files.len();
        while i > 0
            invariant
                i <= self.files@.len(),
                forall|l: int| i <= l < self.files@.len() ==> self.files@[l].0@ != path@,
            decreases i,
        {
            i = i - 1;
            if self.files[i].0 == *path {
                proof {
                    lemma_last_match(self.files@, path@, i as int);
                }
                return Some(self.files[i].1.clone());
            }
        }
        proof {
            lemma_absent(self.files@, path@);
        }
        None
    }

    /// Whether a file exists at `path`.
    pub fn contains(&self, path: &String) -> (r: bool)
        ensures
            r == self@.dom().contains(path@),
    {
        self.read(path).is_some()
    }

    /// Writes `content` to the file at `path`, replacing any earlier one.
    pub fn write(&mut self, path: String, content: String)
        ensures
            final(self)@ == old(self)@.insert(path@, content@),
    {
        self.files.push((path, content));
        proof {
            assert(self.files@.drop_last() =~= old(self).files@);
        }
    }
}

} // verus!

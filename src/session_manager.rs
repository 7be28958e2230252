use vstd::prelude::*;

use crate::paths::{file_stem, file_stem_spec};

verus! {

/// A session directory: one of those found, by its index, or the one to be created.
#[derive(Clone, Copy, Debug, PartialEq, Eq, Structural)]
pub enum SessionIdentifier {
    Old(usize),
    New,
}

/// The session directories of an output directory, and which of them is selected.
#[derive(Debug)]
pub struct SessionManager {
    pub output_dir: String,
    pub dirs: Vec<String>,
    pub new_dir: String,
    pub selected: Option<SessionIdentifier>,
}

/// The directory that an identifier stands for, if any.
pub open spec fn dir_of(
    dirs: Seq<String>,
    new_dir: String,
    selected: Option<SessionIdentifier>,
) -> Option<Seq<char>> {
    match selected {
        Some(SessionIdentifier::Old(i)) => if i < dirs.len() {
            Some(dirs[i as int]@)
        } else {
            None
        },
        Some(SessionIdentifier::New) => Some(new_dir@),
        None => None,
    }
}

/// The name under which a session directory is listed: its last component
/// without extension, or the whole path where it has none.
pub open spec fn listed_name(path: Seq<char>) -> Seq<char> {
    match file_stem_spec(path) {
        Some(s) => s,
        None => path,
    }
}

fn listed_name_of(path: &String) -> (r: String)
    ensures
        r@ == listed_name(path@),
{
    match file_stem(path.as_str()) {
        Some(s) => s,
        None => path.clone(),
    }
}

/// The listed names of `dirs`, each with its index.
fn list_dirs(dirs: &Vec<String>) -> (r: Vec<(usize, String)>)
    ensures
        r@.len() == dirs@.len(),
        forall|i: int|
            0 <= i < r@.len() ==> (#[trigger] r@[i]).0 == i && r@[i].1@ == listed_name(dirs@[i]@),
{
    let mut r: Vec<(usize, String)> = Vec::new();
    let mut i: usize = 0;
    while i < dirs.len()
        invariant
            i <= dirs@.len(),
            r@.len() == i,
            forall|k: int|
                0 <= k < i ==> (#[trigger] r@[k]).0 == k && r@[k].1@ == listed_name(dirs@[k]@),
        decreases dirs@.len() - i,
    {
        r.push((i, listed_name_of(&dirs[i])));
        i = i + 1;
    }
    r
}

impl SessionManager {
    /// The directories found, each with its identifier and listed name.
    pub fn iter_relative_paths_with_indices(&self) -> (r: Vec<(SessionIdentifier, String)>)
        ensures
            r@.len() == self.dirs@.len(),
            forall|i: int|
                0 <= i < r@.len() ==> (#[trigger] r@[i]).0 == SessionIdentifier::Old(i as usize)
                    && r@[i].1@ == listed_name(self.dirs@[i]@),
    {
        let listed = list_dirs(&self.dirs);
        let mut r: Vec<(SessionIdentifier, String)> = Vec::new();
        let mut listed = listed;
        let ghost all = listed@;
        let n = listed.len();
        let mut i: usize = 0;
        while i < n
            invariant
                n == all.len() == self.dirs@.len(),
                i <= n,
                listed@ == all.subrange(i as int, n as int),
                forall|k: int|
                    0 <= k < n ==> (#[trigger] all[k]).0 == k && all[k].1@ == listed_name(
                        self.dirs@[k]@,
                    ),
                r@.len() == i,
                forall|k: int|
                    0 <= k < i ==> (#[trigger] r@[k]).0 == SessionIdentifier::Old(k as usize)
                        && r@[k].1@ == listed_name(self.dirs@[k]@),
            decreases n - i,
        {
            let (index, name) = listed.remove(0);
            assert(listed@ =~= all.subrange(i + 1, n as int));
            r.push((SessionIdentifier::Old(index), name));
            i = i + 1;
        }
        r
    }

    /// A manager over the directories `dirs`, listed newest first, where
    /// `latest` is the index of the one changed last, if any.
    pub fn new(output_dir: String, dirs: Vec<String>, new_dir: String, latest: Option<usize>) -> (r:
        SessionManager)
        ensures
            r.output_dir == output_dir,
            r.dirs == dirs,
            r.new_dir == new_dir,
            r.selected == match latest {
                Some(i) => Some(SessionIdentifier::Old(i)),
                None => None::<SessionIdentifier>,
            },
    {
        let selected = match latest {
            Some(i) => Some(SessionIdentifier::Old(i)),
            None => None,
        };
        SessionManager { output_dir, dirs, new_dir, selected }
    }

    pub fn select(&mut self, identifier: SessionIdentifier)
        ensures
            final(self).selected == Some(identifier),
            final(self).dirs == old(self).dirs,
            final(self).new_dir == old(self).new_dir,
            final(self).output_dir == old(self).output_dir,
    {
        self.selected = Some(identifier);
    }

    pub fn select_new(&mut self)
        ensures
            final(self).selected == Some(SessionIdentifier::New),
            final(self).dirs == old(self).dirs,
            final(self).new_dir == old(self).new_dir,
            final(self).output_dir == old(self).output_dir,
    {
        self.selected = Some(SessionIdentifier::New);
    }

    pub fn is_currently_selected(&self, identifier: &SessionIdentifier) -> (r: bool)
        ensures
            r == (self.selected == Some(*identifier)),
    {
        match self.selected {
            Some(s) => s == *identifier,
            None => false,
        }
    }

    /// The selected directory; none where nothing, or an index past the
    /// directories, is selected.
    pub fn get_currently_selected(&self) -> (r: Option<String>)
        ensures
            r matches Some(d) ==> dir_of(self.dirs@, self.new_dir, self.selected) == Some(d@),
            r is None ==> dir_of(self.dirs@, self.new_dir, self.selected) is None,
    {
        match self.selected {
            Some(SessionIdentifier::Old(i)) => {
                if i < self.dirs.len() {
                    Some(self.dirs[i].clone())
                } else {
                    None
                }
            },
            Some(SessionIdentifier::New) => Some(self.new_dir.clone()),
            None => None,
        }
    }
}

/// A session directory: one of those found, by its index, or the one to be created.
#[derive(Clone, Copy, Debug, PartialEq, Eq, Structural)]
pub enum SessionDirIdentifier {
    Old(usize),
    New,
}

/// The session directories of an output directory, one of which is always selected.
#[derive(Debug)]
pub struct SessionDirManager {
    pub output_dir: String,
    pub dirs: Vec<String>,
    pub new_dir: String,
    pub selected: SessionDirIdentifier,
}

impl SessionDirManager {
    /// The directory to be created, then the directories found, each with its
    /// identifier and listed name.
    pub fn iter_relative_paths_with_indices(&self) -> (r: Vec<(SessionDirIdentifier, String)>)
        ensures
            r@.len() == self.dirs@.len() + 1,
            r@[0].0 == SessionDirIdentifier::New,
            r@[0].1@ == listed_name(self.new_dir@),
            forall|i: int|
                0 < i < r@.len() ==> (#[trigger] r@[i]).0 == SessionDirIdentifier::Old(
                    (i - 1) as usize,
                ) && r@[i].1@ == listed_name(self.dirs@[i - 1]@),
    {
        let mut listed = list_dirs(&self.dirs);
        let mut r: Vec<(SessionDirIdentifier, String)> = Vec::new();
        r.push((SessionDirIdentifier::New, listed_name_of(&self.new_dir)));
        let ghost all = listed@;
        let n = listed.len();
        let mut i: usize = 0;
        while i < n
            invariant
                n == all.len() == self.dirs@.len(),
                i <= n,
                listed@ == all.subrange(i as int, n as int),
                forall|k: int|
                    0 <= k < n ==> (#[trigger] all[k]).0 == k && all[k].1@ == listed_name(
                        self.dirs@[k]@,
                    ),
                r@.len() == i + 1,
                r@[0].0 == SessionDirIdentifier::New,
                r@[0].1@ == listed_name(self.new_dir@),
                forall|k: int|
                    0 < k <= i ==> (#[trigger] r@[k]).0 == SessionDirIdentifier::Old(
                        (k - 1) as usize,
                    ) && r@[k].1@ == listed_name(self.dirs@[k - 1]@),
            decreases n - i,
        {
            let (index, name) = listed.remove(0);
            assert(listed@ =~= all.subrange(i + 1, n as int));
            r.push((SessionDirIdentifier::Old(index), name));
            i = i + 1;
        }
        r
    }

    /// A manager over `dirs` that selects `latest`, the index of the directory
    /// changed last, or else the directory to be created.
    pub fn new(output_dir: String, dirs: Vec<String>, new_dir: String, latest: Option<usize>) -> (r:
        SessionDirManager)
        ensures
            r.output_dir == output_dir,
            r.dirs == dirs,
            r.new_dir == new_dir,
            r.selected == match latest {
                Some(i) => SessionDirIdentifier::Old(i),
                None => SessionDirIdentifier::New,
            },
    {
        let selected = match latest {
            Some(i) => SessionDirIdentifier::Old(i),
            None => SessionDirIdentifier::New,
        };
        SessionDirManager { output_dir, dirs, new_dir, selected }
    }

    pub fn select(&mut self, identifier: SessionDirIdentifier)
        ensures
            final(self).selected == identifier,
            final(self).dirs == old(self).dirs,
            final(self).new_dir == old(self).new_dir,
            final(self).output_dir == old(self).output_dir,
    {
        self.selected = identifier;
    }

    pub fn select_new(&mut self)
        ensures
            final(self).selected == SessionDirIdentifier::New,
            final(self).dirs == old(self).dirs,
            final(self).new_dir == old(self).new_dir,
            final(self).output_dir == old(self).output_dir,
    {
        self.selected = SessionDirIdentifier::New;
    }

    /// The selected directory; none where an index past the directories is selected.
    pub fn get_currently_selected(&self) -> (r: Option<String>)
        ensures
            r matches Some(d) ==> match self.selected {
                SessionDirIdentifier::Old(i) => i < self.dirs@.len() && d@ == self.dirs@[i as int]@,
                SessionDirIdentifier::New => d@ == self.new_dir@,
            },
            r is None ==> (self.selected matches SessionDirIdentifier::Old(i) && i
                >= self.dirs@.len()),
    {
        match self.selected {
            SessionDirIdentifier::Old(i) => {
                if i < self.dirs.len() {
                    Some(self.dirs[i].clone())
                } else {
                    None
                }
            },
            SessionDirIdentifier::New => Some(self.new_dir.clone()),
        }
    }
}

} // verus!

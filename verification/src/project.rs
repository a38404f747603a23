//! Project records and the bounded history of recently created projects.

use vstd::prelude::*;
use vstd::seq_lib::*;

verus! {

/// A base directory and a project name joined into one path, with `/` as the
/// separator. A name that is itself absolute — it begins with the separator —
/// replaces the base entirely; an empty base gives the bare name; a base that
/// already ends in the separator gets none added. Prefix forms of other
/// platforms are not modeled.
pub open spec fn joined_path(path: Seq<char>, name: Seq<char>) -> Seq<char> {
    if name.len() > 0 && name[0] == '/' {
        name
    } else if path.len() == 0 {
        name
    } else if path.last() == '/' {
        path + name
    } else {
        path + "/"@ + name
    }
}

/// One created project: its name and the directory it was created under.
#[derive(Clone, Debug)]
pub struct Project {
    pub name: String,
    pub path: String,
}

impl PartialEq for Project {
    fn eq(&self, other: &Project) -> (r: bool) {
        self.name == other.name && self.path == other.path
    }
}

impl vstd::std_specs::cmp::PartialEqSpecImpl for Project {
    open spec fn obeys_eq_spec() -> bool {
        true
    }

    open spec fn eq_spec(&self, other: &Project) -> bool {
        self.name@ == other.name@ && self.path@ == other.path@
    }
}

/// Relies on std::path::Path::exists: asks the file system whether the path
/// names an entry right now. The answer depends on the machine's disk, so
/// nothing is promised of it.
#[verifier::external_body]
fn path_exists(path: &str) -> bool {
    std::path::Path::new(path).exists()
}

impl Project {
    /// The project's full path: the base directory and the name, joined.
    pub fn get_path(&self) -> (r: String)
        ensures
            r@ == joined_path(self.path@, self.name@),
    {
        let name_len = self.name.as_str().unicode_len();
        if name_len > 0 && self.name.as_str().get_char(0) == '/' {
            return self.name.clone();
        }
        let n = self.path.as_str().unicode_len();
        if n == 0 {
            self.name.clone()
        } else if self.path.as_str().get_char(n - 1) == '/' {
            let mut r = self.path.clone();
            r.append(self.name.as_str());
            r
        } else {
            let mut r = self.path.clone();
            r.append("/");
            r.append(self.name.as_str());
            r
        }
    }

    /// Whether the project's folder exists on disk at this moment.
    pub fn is_folder_exists(&self) -> bool {
        path_exists(self.get_path().as_str())
    }
}

/// Whether the history already holds an entry with this name and path.
pub open spec fn history_has(h: Seq<Project>, name: Seq<char>, path: Seq<char>) -> bool {
    exists|i: int| 0 <= i < h.len() && #[trigger] h[i].name@ == name && h[i].path@ == path
}

fn history_contains(history: &Vec<Project>, name: &String, path: &String) -> (r: bool)
    ensures
        r == history_has(history@, name@, path@),
{
    let n = history.len();
    let mut i: usize = 0;
    while i < n
        invariant
            0 <= i <= n,
            n == history@.len(),
            forall|k: int|
                0 <= k < i ==> !(#[trigger] history@[k].name@ == name@ && history@[k].path@
                    == path@),
        decreases n - i,
    {
        if history[i].name == *name && history[i].path == *path {
            return true;
        }
        i += 1;
    }
    false
}

/// The form state for creating a project, with the bounded history of what
/// was created before.
pub struct NewProject {
    pub name: String,
    pub path: String,
    pub vscode_open_enabled: bool,
    /// Recently created projects, oldest first.
    pub history: Vec<Project>,
    /// How many entries the history keeps before the oldest is evicted.
    pub history_max: usize,
}

impl NewProject {
    /// Records the current name and path in the history: a pair already
    /// present is not recorded again, and when the history is full the oldest
    /// entry makes room. A history whose bound is zero stores nothing.
    /// Reports whether an entry was added.
    pub fn history_push(&mut self) -> (r: bool)
        ensures
            final(self).name == old(self).name,
            final(self).path == old(self).path,
            final(self).vscode_open_enabled == old(self).vscode_open_enabled,
            final(self).history_max == old(self).history_max,
            r == (old(self).history_max > 0 && !history_has(
                old(self).history@,
                old(self).name@,
                old(self).path@,
            )),
            !r ==> final(self).history@ == old(self).history@,
            r ==> ({
                let kept = if old(self).history@.len() == old(self).history_max {
                    old(self).history@.drop_first()
                } else {
                    old(self).history@
                };
                final(self).history@.len() == kept.len() + 1
                    && final(self).history@.drop_last() == kept
                    && final(self).history@.last().name@ == old(self).name@
                    && final(self).history@.last().path@ == old(self).path@
            }),
    {
        if self.history_max == 0 {
            return false;
        }
        if history_contains(&self.history, &self.name, &self.path) {
            return false;
        }
        let ghost kept = if old(self).history@.len() == old(self).history_max {
            old(self).history@.drop_first()
        } else {
            old(self).history@
        };
        if self.history.len() == self.history_max {
            self.history.remove(0);
            proof {
                assert(self.history@ =~= kept);
            }
        }
        let entry = Project { name: self.name.clone(), path: self.path.clone() };
        self.history.push(entry);
        proof {
            assert(self.history@.drop_last() =~= kept);
        }
        true
    }
}

impl Default for NewProject {
    /// A fresh form: a placeholder name, no directory yet, opening the editor
    /// enabled, and an empty history bounded at ten entries.
    fn default() -> (r: Self)
        ensures
            r.name@ == "myproject"@,
            r.path@ == Seq::<char>::empty(),
            r.vscode_open_enabled,
            r.history@ == Seq::<Project>::empty(),
            r.history_max == 10,
    {
        NewProject {
            name: String::from_str("myproject"),
            path: String::new(),
            vscode_open_enabled: true,
            history: Vec::new(),
            history_max: 10,
        }
    }
}

/// Recording keeps the history within its bound: a history that respects the
/// bound still respects it after a push, whichever way the push went.
pub proof fn lemma_history_stays_bounded(
    before: Seq<Project>,
    after: Seq<Project>,
    max: nat,
    kept: Seq<Project>,
)
    requires
        before.len() <= max,
        max >= 1,
        kept == if before.len() == max {
            before.drop_first()
        } else {
            before
        },
        after.len() == kept.len() + 1,
    ensures
        after.len() <= max,
{
}

} // verus!

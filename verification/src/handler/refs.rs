use crate::database::oid::SqlOid;
use crate::database::reference::{Reference, ReferenceModel};
use crate::text::push_char;
use vstd::prelude::*;
use vstd::string::*;

verus! {

/// The tip of a reference: the commit it leads to.
#[derive(Debug, Clone, Copy, PartialEq, Eq)]
pub struct RefTip {
    pub commit_hash: SqlOid,
    /// When the commit was committed, in seconds since the epoch.
    pub time: i64,
}

/// What a repository says of one reference.
#[derive(Debug, Clone, PartialEq)]
pub struct RefProbe {
    pub is_tag: bool,
    pub is_branch: bool,
    /// The full name, where it is text.
    pub full_name: Option<String>,
    /// The name without its namespace, where it is text.
    pub shorthand: Option<String>,
    /// The commit that the reference leads to, where it leads to one.
    pub tip: Option<RefTip>,
}

/// A name with each `/` written as `:`.
pub open spec fn flattened(name: Seq<char>) -> Seq<char> {
    Seq::new(
        name.len(),
        |i: int|
            if name[i] == '/' {
                ':'
            } else {
                name[i]
            },
    )
}

/// Writes a short name for display: namespaces are flattened, each `/`
/// becoming `:`.
pub fn flatten(name: &str) -> (flat: String)
    ensures
        flat@ == flattened(name@),
{
    let count = name.unicode_len();
    let mut flat = String::new();
    let mut i: usize = 0;
    while i < count
        invariant
            i <= count,
            count == name@.len(),
            flat@ == flattened(name@).take(i as int),
        decreases count - i,
    {
        let c = name.get_char(i);
        let d = if c == '/' {
            ':'
        } else {
            c
        };
        assert(flattened(name@).take(i + 1) =~= flattened(name@).take(i as int).push(d));
        push_char(&mut flat, d);
        i += 1;
    }
    assert(flattened(name@).take(count as int) =~= flattened(name@));
    flat
}

/// The row that a reference gives, if it gives one. A reference that the
/// repository does not have gives none; nor does one that is neither tag nor
/// branch, one whose names are not text, one whose short name is its full
/// name, or one that leads to no commit.
pub open spec fn spec_select(repo_id: i64, probe: Option<RefProbe>) -> Option<ReferenceModel> {
    match probe {
        None => None,
        Some(p) => if (p.is_tag || p.is_branch) && p.full_name is Some && p.shorthand is Some
            && p.shorthand->0@ != p.full_name->0@ && p.tip is Some {
            Some(
                ReferenceModel {
                    full_name: p.full_name->0@,
                    short_name: flattened(p.shorthand->0@),
                    commit_id: 0,
                    commit_hash: p.tip->0.commit_hash@,
                    time: p.tip->0.time,
                    repo_id,
                    is_tag: p.is_tag,
                },
            )
        } else {
            None
        },
    }
}

/// Whether what was selected is what the rule gives.
pub open spec fn selected_is(got: Option<Reference>, want: Option<ReferenceModel>) -> bool {
    match (got, want) {
        (None, None) => true,
        (Some(r), Some(m)) => r@ == m,
        _ => false,
    }
}

/// Walks the references of a repository: it hands out the names to look
/// up, last first, and turns what the repository says of each into a row.
#[derive(Debug)]
pub struct RefsExportIter {
    repo_id: i64,
    refs: Vec<String>,
}

impl RefsExportIter {
    /// The repository whose references are walked.
    pub closed spec fn repo_id(&self) -> i64 {
        self.repo_id
    }

    /// The names still to be looked up, the next one last.
    pub closed spec fn pending(&self) -> Seq<String> {
        self.refs@
    }

    /// A walk over the names asked for; where none is asked for, over all
    /// the names that the repository has.
    pub fn new(repo_id: i64, wanted: Vec<String>, live: Vec<String>) -> (iter: RefsExportIter)
        ensures
            iter.repo_id() == repo_id,
            iter.pending() == if wanted@.len() == 0 {
                live@
            } else {
                wanted@
            },
    {
        if wanted.len() == 0 {
            RefsExportIter { repo_id, refs: live }
        } else {
            RefsExportIter { repo_id, refs: wanted }
        }
    }

    /// The next name to look up, taken from the end; `None` when the walk is over.
    pub fn next_name(&mut self) -> (name: Option<String>)
        ensures
            final(self).repo_id() == old(self).repo_id(),
            old(self).pending().len() == 0 ==> name is None && final(self).pending() == old(
                self,
            ).pending(),
            old(self).pending().len() > 0 ==> name == Some(old(self).pending().last())
                && final(self).pending() == old(self).pending().drop_last(),
    {
        self.refs.pop()
    }

    /// Turns what the repository says of a reference into the row for the
    /// store, or into nothing where the reference is passed over.
    pub fn select(&self, probe: Option<RefProbe>) -> (row: Option<Reference>)
        ensures
            selected_is(row, spec_select(self.repo_id(), probe)),
    {
        let p = match probe {
            Some(p) => p,
            None => {
                return None;
            },
        };
        let is_tag = if p.is_tag {
            true
        } else if p.is_branch {
            false
        } else {
            return None;
        };
        let full_name = match p.full_name {
            Some(name) => name,
            None => {
                return None;
            },
        };
        let shorthand = match p.shorthand {
            Some(name) => name,
            None => {
                return None;
            },
        };
        if shorthand == full_name {
            return None;
        }
        match p.tip {
            Some(tip) => Some(
                Reference {
                    repo_id: self.repo_id,
                    full_name,
                    short_name: flatten(shorthand.as_str()),
                    is_tag,
                    commit_id: 0,
                    commit_hash: tip.commit_hash,
                    time: tip.time,
                },
            ),
            None => None,
        }
    }
}

} // verus!

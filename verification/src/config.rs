use vstd::prelude::*;

verus! {

/// The configuration of a site: where it works and which repositories it hosts.
#[derive(Debug)]
pub struct Config {
    pub web: Web,
    /// The working directory, which holds the store and the mark files.
    pub path: String,
    pub repo: Vec<Repo>,
}

/// How the site presents itself.
#[derive(Debug)]
pub struct Web {
    pub name: String,
    pub desc: String,
}

/// One hosted repository.
#[derive(Debug)]
pub struct Repo {
    /// The store's id of the repository; zero until it is assigned.
    pub repo_id: i64,
    pub name: String,
    pub desc: String,
    pub head: String,
    /// Where the repository lies on disk.
    pub path: String,
}

/// The id of a repository that the store has not seen yet.
pub fn default_zero() -> (id: i64)
    ensures
        id == 0,
{
    0
}

/// The repository that a name stands for: the last one configured under it.
pub open spec fn lookup(repos: Seq<Repo>, name: Seq<char>) -> Option<Repo>
    decreases repos.len(),
{
    if repos.len() == 0 {
        None
    } else if repos.last().name@ == name {
        Some(repos.last())
    } else {
        lookup(repos.drop_last(), name)
    }
}

/// No two repositories of the list share a name.
pub open spec fn distinct_names(repos: Seq<Repo>) -> bool {
    forall|i: int, j: int|
        0 <= i < j < repos.len() ==> (#[trigger] repos[i]).name@ != (#[trigger] repos[j]).name@
}

/// A name stands for a repository exactly where one of the list bears it.
proof fn lemma_lookup_some(repos: Seq<Repo>, name: Seq<char>)
    ensures
        lookup(repos, name) is Some <==> exists|k: int|
            0 <= k < repos.len() && (#[trigger] repos[k]).name@ == name,
        lookup(repos, name) matches Some(r) ==> r.name@ == name,
    decreases repos.len(),
{
    if repos.len() > 0 {
        let front = repos.drop_last();
        lemma_lookup_some(front, name);
        if repos.last().name@ != name {
            if lookup(front, name) is Some {
                let k = choose|k: int| 0 <= k < front.len() && (#[trigger] front[k]).name@ == name;
                assert(repos[k].name@ == name);
            }
            if exists|k: int| 0 <= k < repos.len() && (#[trigger] repos[k]).name@ == name {
                let k = choose|k: int| 0 <= k < repos.len() && (#[trigger] repos[k]).name@ == name;
                assert(front[k].name@ == name);
            }
        } else {
            assert(repos[repos.len() - 1].name@ == name);
        }
    }
}

/// A repository put before a list is found under its name only where the
/// list does not hold that name itself.
proof fn lemma_lookup_front(first: Repo, rest: Seq<Repo>, name: Seq<char>)
    ensures
        lookup(seq![first] + rest, name) == if lookup(rest, name) is Some {
            lookup(rest, name)
        } else if first.name@ == name {
            Some(first)
        } else {
            None
        },
    decreases rest.len(),
{
    let all = seq![first] + rest;
    if rest.len() == 0 {
        assert(all.drop_last() =~= Seq::<Repo>::empty());
        assert(all.last() == first);
        assert(lookup(all.drop_last(), name) is None);
        assert(lookup(rest, name) is None);
    } else {
        assert(all.last() == rest.last());
        assert(all.drop_last() =~= seq![first] + rest.drop_last());
        lemma_lookup_front(first, rest.drop_last(), name);
    }
}

/// Whether a list holds a repository of the given name.
fn has_name(repos: &Vec<Repo>, name: &String) -> (found: bool)
    ensures
        found == (lookup(repos@, name@) is Some),
{
    let mut i: usize = 0;
    while i < repos.len()
        invariant
            i <= repos@.len(),
            forall|k: int| 0 <= k < i ==> (#[trigger] repos@[k]).name@ != name@,
        decreases repos@.len() - i,
    {
        if repos[i].name == *name {
            proof {
                lemma_lookup_some(repos@, name@);
            }
            return true;
        }
        i += 1;
    }
    proof {
        lemma_lookup_some(repos@, name@);
    }
    false
}

impl Config {
    /// The repositories by name: one for each name, and for a name that is
    /// configured more than once the last one configured.
    pub fn into_hash(self) -> (table: Vec<Repo>)
        ensures
            distinct_names(table@),
            forall|name: Seq<char>| lookup(table@, name) == lookup(self.repo@, name),
    {
        let ghost all = self.repo@;
        let mut pending = self.repo;
        let mut table: Vec<Repo> = Vec::new();
        assert(all.skip(all.len() as int) =~= Seq::<Repo>::empty());
        while pending.len() > 0
            invariant
                pending@ == all.take(pending@.len() as int),
                pending@.len() <= all.len(),
                distinct_names(table@),
                forall|name: Seq<char>|
                    lookup(table@, name) == lookup(all.skip(pending@.len() as int), name),
            decreases pending@.len(),
        {
            let ghost count = pending@.len() as int;
            let ghost seen = all.skip(count);
            let repo = pending.pop().unwrap();
            proof {
                assert(repo == all[count - 1]);
                assert(all.skip(count - 1) =~= seq![repo] + seen);
                assert(pending@ =~= all.take(count - 1));
                assert forall|name: Seq<char>|
                    lookup(all.skip(count - 1), name) == if lookup(seen, name) is Some {
                        lookup(seen, name)
                    } else if repo.name@ == name {
                        Some(repo)
                    } else {
                        None
                    } by {
                    lemma_lookup_front(repo, seen, name);
                }
            }
            if !has_name(&table, &repo.name) {
                proof {
                    lemma_lookup_some(table@, repo.name@);
                    let grown = table@.push(repo);
                    assert(grown.drop_last() =~= table@);
                    assert(grown.last() == repo);
                    assert(distinct_names(grown));
                    assert forall|name: Seq<char>|
                        lookup(grown, name) == lookup(all.skip(count - 1), name) by {
                        assert(lookup(table@, name) == lookup(seen, name));
                        lemma_lookup_some(table@, name);
                    }
                }
                table.push(repo);
            } else {
                proof {
                    assert forall|name: Seq<char>|
                        lookup(table@, name) == lookup(all.skip(count - 1), name) by {
                        assert(lookup(table@, name) == lookup(seen, name));
                        assert(lookup(table@, repo.name@) == lookup(seen, repo.name@));
                    }
                }
            }
        }
        assert(all.skip(0) =~= all);
        table
    }
}

} // verus!

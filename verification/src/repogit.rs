//! A git repository reduced to what a version needs: its last tag and the
//! commit messages since.
//!
//! The history is read from newest to oldest commit and fed to a
//! [`HistoryScan`] one commit at a time; the scan says when to stop, which is
//! at the first commit that carries a tag.
use vstd::prelude::*;
use crate::version::{opt_text, texts};

verus! {

/// A tag of the repository and the id of the commit that it points at, if
/// it points at a commit at all.
pub struct TagTarget {
    /// The name of the tag.
    pub name: String,
    /// The raw id of the tagged commit.
    pub commit: Option<Vec<u8>>,
}

/// A tag as text, with the id of the commit it points at.
pub open spec fn tag_view(t: TagTarget) -> (Seq<char>, Option<Seq<u8>>) {
    (
        t.name@,
        match t.commit {
            Some(id) => Some(id@),
            None => None,
        },
    )
}

/// A list of tags as text.
pub open spec fn tags_view(tags: Seq<TagTarget>) -> Seq<(Seq<char>, Option<Seq<u8>>)> {
    tags.map_values(|t: TagTarget| tag_view(t))
}

/// The text of an optional message.
pub open spec fn opt_string(m: Option<String>) -> Option<Seq<char>> {
    match m {
        Some(s) => Some(s@),
        None => None,
    }
}

/// The tag that names the commit `id`: of several, the last in the list.
pub open spec fn tag_of(tags: Seq<(Seq<char>, Option<Seq<u8>>)>, id: Seq<u8>) -> Option<Seq<char>>
    decreases tags.len(),
{
    if tags.len() == 0 {
        None
    } else if tags.last().1 == Some(id) {
        Some(tags.last().0)
    } else {
        tag_of(tags.drop_last(), id)
    }
}

/// A commit id is named by a tag only if a listed tag points at exactly that
/// id, and then by the last such tag in the list; an id that no listed tag
/// points at is named by none.
pub proof fn tag_of_is_last_exact_match(tags: Seq<(Seq<char>, Option<Seq<u8>>)>, id: Seq<u8>)
    ensures
        tag_of(tags, id) matches Some(n) ==> exists|k: int|
            {
                &&& 0 <= k < tags.len()
                &&& #[trigger] tags[k] == (n, Some(id))
                &&& forall|m: int| k < m < tags.len() ==> #[trigger] tags[m].1 != Some(id)
            },
        tag_of(tags, id) is None <==> forall|k: int| 0 <= k < tags.len() ==> #[trigger] tags[k].1
            != Some(id),
    decreases tags.len(),
{
    if tags.len() > 0 {
        let prev = tags.drop_last();
        tag_of_is_last_exact_match(prev, id);
        let last = tags.len() - 1;
        if tags.last().1 == Some(id) {
            assert(tags[last] == (tags.last().0, Some(id)));
        } else {
            assert forall|k: int| 0 <= k < prev.len() implies #[trigger] tags[k] == prev[k] by {}
            if tag_of(prev, id) is Some {
                let n = tag_of(prev, id).unwrap();
                let k = choose|k: int|
                    {
                        &&& 0 <= k < prev.len()
                        &&& #[trigger] prev[k] == (n, Some(id))
                        &&& forall|m: int| k < m < prev.len() ==> #[trigger] prev[m].1 != Some(id)
                    };
                assert(tags[k] == prev[k]);
                assert forall|m: int| k < m < tags.len() implies #[trigger] tags[m].1 != Some(id) by {
                    if m < last {
                        assert(tags[m] == prev[m]);
                    }
                }
            } else {
                assert forall|k: int| 0 <= k < tags.len() implies #[trigger] tags[k].1 != Some(id) by {
                    if k < last {
                        assert(tags[k] == prev[k]);
                        assert(prev[k].1 != Some(id));
                    }
                }
            }
        }
    }
}

/// The message of a commit as a list of zero or one entries.
pub open spec fn message_list(m: Option<Seq<char>>) -> Seq<Seq<char>> {
    match m {
        Some(t) => seq![t],
        None => seq![],
    }
}

/// What a walk through the history, newest commit first, finds: the tag of
/// the first tagged commit, and the messages of the commits before it.
pub open spec fn scan(
    tags: Seq<(Seq<char>, Option<Seq<u8>>)>,
    walk: Seq<(Seq<u8>, Option<Seq<char>>)>,
) -> (Option<Seq<char>>, Seq<Seq<char>>)
    decreases walk.len(),
{
    if walk.len() == 0 {
        (None, seq![])
    } else {
        let before = scan(tags, walk.drop_last());
        if before.0 is Some {
            before
        } else {
            match tag_of(tags, walk.last().0) {
                Some(t) => (Some(t), before.1),
                None => (None, before.1 + message_list(walk.last().1)),
            }
        }
    }
}

/// The state of a walk through the history of a repository.
pub struct HistoryScan {
    tags: Vec<TagTarget>,
    last_tag: Option<String>,
    commits: Vec<String>,
    walked: Ghost<Seq<(Seq<u8>, Option<Seq<char>>)>>,
}

impl HistoryScan {
    /// What the scan holds is what the walk so far has found.
    pub closed spec fn wf(self) -> bool {
        (opt_string(self.last_tag), texts(self.commits@)) == scan(
            tags_view(self.tags@),
            self.walked@,
        )
    }

    /// The tags that the scan looks for.
    pub closed spec fn tags(self) -> Seq<(Seq<char>, Option<Seq<u8>>)> {
        tags_view(self.tags@)
    }

    /// The commits fed to the scan so far, in order, each with its id and
    /// message.
    pub closed spec fn walked(self) -> Seq<(Seq<u8>, Option<Seq<char>>)> {
        self.walked@
    }

    /// Starts a walk that looks for the given tags.
    pub fn new(tags: Vec<TagTarget>) -> (s: HistoryScan)
        ensures
            s.tags() == tags_view(tags@),
            s.walked() == Seq::<(Seq<u8>, Option<Seq<char>>)>::empty(),
            s.wf(),
    {
        let s = HistoryScan { tags, last_tag: None, commits: Vec::new(), walked: Ghost(Seq::empty()) };
        proof {
            assert(texts(s.commits@) =~= seq![]);
        }
        s
    }

    /// Whether the walk has reached a tagged commit, so that the commits
    /// after it no longer matter.
    pub fn is_done(&self) -> (r: bool)
        requires
            self.wf(),
        ensures
            r == (scan(self.tags(), self.walked()).0 is Some),
    {
        self.last_tag.is_some()
    }

    /// Feeds the next commit of the walk, and tells whether to go on: the
    /// walk stops at the first commit that a tag names.
    pub fn step(&mut self, commit: &Vec<u8>, message: Option<String>) -> (go_on: bool)
        requires
            old(self).wf(),
        ensures
            final(self).wf(),
            final(self).tags() == old(self).tags(),
            final(self).walked() == old(self).walked().push((commit@, opt_string(message))),
            go_on == (scan(final(self).tags(), final(self).walked()).0 is None),
    {
        let ghost new_walk = self.walked@.push((commit@, opt_string(message)));
        proof {
            assert(new_walk.drop_last() =~= self.walked@);
        }
        if self.last_tag.is_some() {
            self.walked = Ghost(new_walk);
            return false;
        }
        match find_tag(&self.tags, commit) {
            Some(name) => {
                self.last_tag = Some(name);
                self.walked = Ghost(new_walk);
                false
            },
            None => {
                let ghost before = self.commits@;
                match message {
                    Some(m) => {
                        self.commits.push(m);
                    },
                    None => {},
                }
                proof {
                    assert(texts(self.commits@) =~= texts(before) + message_list(
                        opt_string(message),
                    ));
                }
                self.walked = Ghost(new_walk);
                true
            },
        }
    }

    /// Ends the walk: the repository at `path` whose last tag and commits
    /// since are what the walk found.
    pub fn finish(self, path: String) -> (repo: GitRepo)
        requires
            self.wf(),
        ensures
            repo.path() == path@,
            repo.last_tag() == scan(self.tags(), self.walked()).0,
            repo.commits_since_last_tag() == scan(self.tags(), self.walked()).1,
    {
        GitRepo { path, last_tag: self.last_tag, commits_since_last_tag: self.commits }
    }
}

/// Whether two commit ids are the same.
fn same_id(a: &Vec<u8>, b: &Vec<u8>) -> (r: bool)
    ensures
        r == (a@ == b@),
{
    if a.len() != b.len() {
        return false;
    }
    let mut i: usize = 0;
    while i < a.len()
        invariant
            a@.len() == b@.len(),
            i <= a@.len(),
            forall|j: int| 0 <= j < i ==> a@[j] == b@[j],
        decreases a.len() - i,
    {
        if a[i] != b[i] {
            return false;
        }
        i += 1;
    }
    proof {
        assert(a@ =~= b@);
    }
    true
}

/// The name of the tag that names the commit `id`; of several, the last.
fn find_tag(tags: &Vec<TagTarget>, id: &Vec<u8>) -> (r: Option<String>)
    ensures
        opt_string(r) == tag_of(tags_view(tags@), id@),
{
    let ghost all = tags_view(tags@);
    let mut i: usize = tags.len();
    proof {
        assert(all.take(i as int) =~= all);
    }
    while i > 0
        invariant
            i <= tags@.len(),
            all == tags_view(tags@),
            tag_of(all, id@) == tag_of(all.take(i as int), id@),
        decreases i,
    {
        let t = &tags[i - 1];
        let ghost prefix = all.take(i as int);
        proof {
            assert(prefix.last() == tag_view(tags@[i - 1]));
            assert(prefix.drop_last() =~= all.take(i - 1));
        }
        match &t.commit {
            Some(c) => {
                if same_id(c, id) {
                    return Some(t.name.clone());
                }
            },
            None => {},
        }
        i -= 1;
    }
    proof {
        assert(all.take(0) =~= Seq::<(Seq<char>, Option<Seq<u8>>)>::empty());
    }
    None
}

/// How one more walked commit changes what the walk found: nothing, once a
/// tagged commit was reached; the tag, when no listed tag was reached before
/// and one points at this commit; and otherwise the commit's whole message,
/// unchanged, added after the messages found so far (nothing when it has no
/// message).
pub proof fn scan_one_more_commit(
    tags: Seq<(Seq<char>, Option<Seq<u8>>)>,
    walk: Seq<(Seq<u8>, Option<Seq<char>>)>,
    id: Seq<u8>,
    message: Option<Seq<char>>,
)
    ensures
        scan(tags, Seq::empty()) == (None::<Seq<char>>, Seq::<Seq<char>>::empty()),
        scan(tags, walk).0 is Some ==> scan(tags, walk.push((id, message))) == scan(tags, walk),
        scan(tags, walk).0 is None && (forall|k: int|
            0 <= k < tags.len() ==> #[trigger] tags[k].1 != Some(id)) ==> scan(
            tags,
            walk.push((id, message)),
        ) == (None::<Seq<char>>, match message {
            Some(m) => scan(tags, walk).1.push(m),
            None => scan(tags, walk).1,
        }),
        scan(tags, walk).0 is None && (exists|k: int|
            0 <= k < tags.len() && #[trigger] tags[k].1 == Some(id)) ==> {
            &&& scan(tags, walk.push((id, message))).0 is Some
            &&& scan(tags, walk.push((id, message))).1 == scan(tags, walk).1
        },
{
    let w = walk.push((id, message));
    assert(w.drop_last() =~= walk);
    tag_of_is_last_exact_match(tags, id);
    if scan(tags, walk).0 is None && tag_of(tags, id) is None {
        match message {
            Some(m) => {
                assert(scan(tags, walk).1 + seq![m] =~= scan(tags, walk).1.push(m));
            },
            None => {
                assert(scan(tags, walk).1 + Seq::<Seq<char>>::empty() =~= scan(tags, walk).1);
            },
        }
    }
}

/// Walking on past the first tagged commit changes nothing that the walk
/// found.
pub proof fn scan_stops_at_first_tag(
    tags: Seq<(Seq<char>, Option<Seq<u8>>)>,
    walk: Seq<(Seq<u8>, Option<Seq<char>>)>,
    more: Seq<(Seq<u8>, Option<Seq<char>>)>,
)
    requires
        scan(tags, walk).0 is Some,
    ensures
        scan(tags, walk + more) == scan(tags, walk),
    decreases more.len(),
{
    if more.len() == 0 {
        assert(walk + more =~= walk);
    } else {
        scan_stops_at_first_tag(tags, walk, more.drop_last());
        assert((walk + more).drop_last() =~= walk + more.drop_last());
    }
}

/// The messages of the walked commits, in walking order; commits without a
/// message contribute nothing.
pub open spec fn messages(walk: Seq<(Seq<u8>, Option<Seq<char>>)>) -> Seq<Seq<char>>
    decreases walk.len(),
{
    if walk.len() == 0 {
        seq![]
    } else {
        messages(walk.drop_last()) + message_list(walk.last().1)
    }
}

/// The walk finds the tag of the first walked commit that a tag names, with
/// the messages of the commits walked before it; where no walked commit is
/// named by a tag, it finds no tag and the messages of every walked commit.
pub proof fn scan_finds_first_tag(
    tags: Seq<(Seq<char>, Option<Seq<u8>>)>,
    walk: Seq<(Seq<u8>, Option<Seq<char>>)>,
)
    ensures
        match scan(tags, walk).0 {
            Some(t) => exists|i: int|
                {
                    &&& 0 <= i < walk.len()
                    &&& tag_of(tags, #[trigger] walk[i].0) == Some(t)
                    &&& forall|j: int| 0 <= j < i ==> tag_of(tags, #[trigger] walk[j].0) is None
                    &&& scan(tags, walk).1 == messages(walk.take(i))
                },
            None => {
                &&& forall|j: int| 0 <= j < walk.len() ==> tag_of(tags, #[trigger] walk[j].0) is None
                &&& scan(tags, walk).1 == messages(walk)
            },
        },
    decreases walk.len(),
{
    if walk.len() > 0 {
        let prev = walk.drop_last();
        scan_finds_first_tag(tags, prev);
        assert(prev.take(prev.len() as int) =~= prev);
        match scan(tags, prev).0 {
            Some(t) => {
                let i = choose|i: int|
                    {
                        &&& 0 <= i < prev.len()
                        &&& tag_of(tags, #[trigger] prev[i].0) == Some(t)
                        &&& forall|j: int| 0 <= j < i ==> tag_of(tags, #[trigger] prev[j].0) is None
                        &&& scan(tags, prev).1 == messages(prev.take(i))
                    };
                assert(walk[i].0 == prev[i].0);
                assert(walk.take(i) =~= prev.take(i));
                assert forall|j: int| 0 <= j < i implies tag_of(tags, #[trigger] walk[j].0) is None by {
                    assert(walk[j] == prev[j]);
                }
            },
            None => {
                let n = walk.len() - 1;
                assert(walk.take(n) =~= prev);
                assert forall|j: int| 0 <= j < n implies tag_of(tags, #[trigger] walk[j].0) is None by {
                    assert(walk[j] == prev[j]);
                }
            },
        }
    }
}

/// A git repository: where it lies, its last tag, and the messages of the
/// commits made since that tag, newest first.
pub struct GitRepo {
    path: String,
    last_tag: Option<String>,
    commits_since_last_tag: Vec<String>,
}

impl GitRepo {
    /// The directory of the repository.
    pub closed spec fn path(&self) -> Seq<char> {
        self.path@
    }

    /// The name of the last tag.
    pub closed spec fn last_tag(&self) -> Option<Seq<char>> {
        opt_string(self.last_tag)
    }

    /// The messages of the commits since the last tag.
    pub closed spec fn commits_since_last_tag(&self) -> Seq<Seq<char>> {
        texts(self.commits_since_last_tag@)
    }

    /// The directory of the repository.
    pub fn get_path(&self) -> (r: &str)
        ensures
            r@ == self.path(),
    {
        self.path.as_str()
    }

    /// The name of the last tag reachable from the current commit, if any.
    pub fn get_last_tag(&self) -> (r: Option<&str>)
        ensures
            opt_text(r) == self.last_tag(),
    {
        match &self.last_tag {
            Some(tag) => Some(tag.as_str()),
            None => None,
        }
    }

    /// The messages of the commits made since the last tag, newest first.
    pub fn get_commits_since_last_tag(&self) -> (r: &Vec<String>)
        ensures
            texts(r@) == self.commits_since_last_tag(),
    {
        &self.commits_since_last_tag
    }
}

} // verus!

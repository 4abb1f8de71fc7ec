//! Building the reference table from the release tags of the compiler's
//! repository.
//!
//! The tags are listed by a remote service, one page at a time. Asking for a
//! page is the caller's work; what to do with each reply is decided here.

use vstd::prelude::*;
use crate::versions::{pairs_map, VersionTable};

verus! {

/// How many tags the service is asked for on each page.
pub const TAGS_PER_PAGE: u64 = 100;

/// The commit that a tag points to.
#[derive(Debug, Clone)]
pub struct GitHubCommit {
    pub sha: String,
}

/// A release tag: its name and its commit.
#[derive(Debug, Clone)]
pub struct GitHubTag {
    pub name: String,
    pub commit: GitHubCommit,
}

/// Each tag as a pair: the hash of its commit, then its name.
pub open spec fn tag_pairs(tags: Seq<GitHubTag>) -> Seq<(Seq<char>, Seq<char>)> {
    tags.map_values(|t: GitHubTag| (t.commit.sha@, t.name@))
}

/// Builds the reference table from a list of tags: each commit hash leads to
/// the name of its tag, and to that of the later tag where two share a
/// commit.
pub fn process_tags(tags: Vec<GitHubTag>) -> (table: VersionTable)
    ensures
        table.wf(),
        table@ == pairs_map(tag_pairs(tags@)),
{
    let mut table = VersionTable::new();
    let mut i: usize = 0;
    assert(tag_pairs(tags@.take(0)) =~= Seq::<(Seq<char>, Seq<char>)>::empty());
    while i < tags.len()
        invariant
            i <= tags.len(),
            table.wf(),
            table@ == pairs_map(tag_pairs(tags@.take(i as int))),
        decreases tags.len() - i,
    {
        table.insert(tags[i].commit.sha.clone(), tags[i].name.clone());
        proof {
            let longer = tag_pairs(tags@.take(i + 1));
            assert(longer.drop_last() =~= tag_pairs(tags@.take(i as int)));
            assert(longer.last() == (tags@[i as int].commit.sha@, tags@[i as int].name@));
        }
        i += 1;
    }
    assert(tags@.take(tags@.len() as int) =~= tags@);
    table
}

/// What the service answered to the request for one page.
#[derive(Debug)]
pub enum PageReply {
    /// The request succeeded and the page held these tags.
    Tags(Vec<GitHubTag>),
    /// The service answered with this status, which is not a success.
    Refused(u16),
}

/// How the listing stands after a reply.
#[derive(Debug)]
pub enum FetchProgress {
    /// There may be more tags: ask for the next page.
    Continue(TagFetch),
    /// The listing is complete: these are all the tags, in the order in
    /// which they came.
    Done(Vec<GitHubTag>),
    /// The service refused a request with this status: the listing is given
    /// up.
    Failed(u16),
}

/// A listing of tags that is under way: the page to ask for next and the
/// tags received so far.
#[derive(Debug)]
pub struct TagFetch {
    page: u64,
    tags: Vec<GitHubTag>,
}

impl TagFetch {
    /// The number of the page to ask for next. Pages are counted from 1.
    pub closed spec fn spec_page(&self) -> u64 {
        self.page
    }

    /// The tags received so far.
    pub closed spec fn spec_tags(&self) -> Seq<GitHubTag> {
        self.tags@
    }

    /// A listing that has received nothing yet and asks for page 1.
    pub fn start() -> (fetch: TagFetch)
        ensures
            fetch.spec_page() == 1,
            fetch.spec_tags() == Seq::<GitHubTag>::empty(),
    {
        TagFetch { page: 1, tags: Vec::new() }
    }

    /// The number of the page to ask for next.
    pub fn page(&self) -> (page: u64)
        ensures
            page == self.spec_page(),
    {
        self.page
    }

    /// Takes the reply to the request for the current page. A refusal ends
    /// the listing with the status that came; an empty page completes it; any
    /// other page is added to the tags and the next page is due.
    pub fn advance(self, reply: PageReply) -> (progress: FetchProgress)
        requires
            self.spec_page() < u64::MAX,
        ensures
            match reply {
                PageReply::Refused(status) => progress == FetchProgress::Failed(status),
                PageReply::Tags(tags) => if tags@.len() == 0 {
                    &&& progress matches FetchProgress::Done(all)
                    &&& all@ == self.spec_tags()
                } else {
                    &&& progress matches FetchProgress::Continue(next)
                    &&& next.spec_page() == self.spec_page() + 1
                    &&& next.spec_tags() == self.spec_tags() + tags@
                },
            },
    {
        match reply {
            PageReply::Refused(status) => FetchProgress::Failed(status),
            PageReply::Tags(tags) => {
                if tags.len() == 0 {
                    FetchProgress::Done(self.tags)
                } else {
                    let mut all = self.tags;
                    let mut tags = tags;
                    all.append(&mut tags);
                    FetchProgress::Continue(TagFetch { page: self.page + 1, tags: all })
                }
            },
        }
    }
}

} // verus!

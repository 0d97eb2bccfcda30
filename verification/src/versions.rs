//! The list of a package's remote versions, and its memo.
//!
//! The hosting service lists releases newest first; the list of versions
//! runs the other way, oldest first, so that the latest release stands last.
//! The list is computed once: the memo keeps the first list it was given and
//! hands it out from then on.

use vstd::prelude::*;
use crate::text::{copy_texts, texts};

verus! {

/// What the memo holds after it was offered `newest_first`: what it held
/// before, or, where it held nothing, the offered tags in reverse.
pub open spec fn remembered(held: Option<Seq<Seq<char>>>, newest_first: Seq<Seq<char>>) -> Seq<
    Seq<char>,
> {
    match held {
        Some(versions) => versions,
        None => newest_first.reverse(),
    }
}

/// The latest stable version of a list that runs oldest first: its last
/// entry, by position.
pub open spec fn latest(versions: Seq<Seq<char>>) -> Option<Seq<char>> {
    if versions.len() == 0 {
        None
    } else {
        Some(versions.last())
    }
}

/// The release tags in reverse: oldest first where they came newest first.
pub fn ascending(newest_first: &Vec<String>) -> (r: Vec<String>)
    ensures
        texts(r@) == texts(newest_first@).reverse(),
{
    let mut out: Vec<String> = Vec::new();
    let n: usize = newest_first.len();
    let mut i: usize = n;
    while i > 0
        invariant
            i <= n == newest_first@.len(),
            out@.len() == n - i,
            forall|j: int| 0 <= j < out@.len() ==> out@[j]@ == newest_first@[n - 1 - j]@,
        decreases i,
    {
        i -= 1;
        out.push(newest_first[i].clone());
    }
    assert(texts(out@) =~= texts(newest_first@).reverse());
    out
}

/// The latest stable version of a list that runs oldest first: its last
/// entry, or nothing where the list is empty.
pub fn latest_stable_version(versions: &Vec<String>) -> (r: Option<String>)
    ensures
        match r {
            Some(version) => latest(texts(versions@)) == Some(version@),
            None => latest(texts(versions@)) is None,
        },
{
    if versions.len() == 0 {
        None
    } else {
        Some(versions[versions.len() - 1].clone())
    }
}

/// The memo of one package's remote versions.
#[derive(Debug)]
pub struct RemoteVersionCache {
    file_name: String,
    versions: Option<Vec<String>>,
}

impl RemoteVersionCache {
    /// What the memo holds: nothing, or the versions, oldest first.
    pub closed spec fn held(&self) -> Option<Seq<Seq<char>>> {
        match self.versions {
            Some(versions) => Some(texts(versions@)),
            None => None,
        }
    }

    /// The name of the file in which the list is kept between runs.
    pub closed spec fn file(&self) -> Seq<char> {
        self.file_name@
    }

    /// An empty memo that is kept in the file of that name.
    pub fn new(file_name: String) -> (r: Self)
        ensures
            r.held() is None,
            r.file() == file_name@,
    {
        RemoteVersionCache { file_name, versions: None }
    }

    /// The name of the file in which the list is kept between runs.
    pub fn file_name(&self) -> (r: &str)
        ensures
            r@ == self.file(),
    {
        self.file_name.as_str()
    }

    /// Whether the memo holds a list, so that nothing has to be fetched.
    pub fn is_filled(&self) -> (r: bool)
        ensures
            r == (self.held() is Some),
    {
        self.versions.is_some()
    }

    /// Fills an empty memo with a list that was kept from an earlier run;
    /// the list runs oldest first and is kept as it stands. A filled memo
    /// keeps what it holds.
    pub fn restore(&mut self, versions: &Vec<String>)
        ensures
            final(self).held() == Some(
                match old(self).held() {
                    Some(held) => held,
                    None => texts(versions@),
                },
            ),
            final(self).file() == old(self).file(),
    {
        if self.versions.is_none() {
            self.versions = Some(copy_texts(versions));
        }
    }

    /// The list of versions, oldest first.
    ///
    /// An empty memo takes the offered release tags, which come newest
    /// first, and keeps them in reverse. A filled memo keeps what it holds
    /// and does not read the offer. Either way the memo is filled afterwards
    /// and the list it holds is returned.
    pub fn get_or_init(&mut self, newest_first: &Vec<String>) -> (r: Vec<String>)
        ensures
            texts(r@) == remembered(old(self).held(), texts(newest_first@)),
            final(self).held() == Some(texts(r@)),
            final(self).file() == old(self).file(),
    {
        match &self.versions {
            Some(versions) => copy_texts(versions),
            None => {
                let versions = ascending(newest_first);
                let out = copy_texts(&versions);
                self.versions = Some(versions);
                out
            },
        }
    }
}

/// Once the memo was offered a list, it is filled, and what it hands out no
/// longer depends on what it is offered: a second fetch would change
/// nothing, so none is needed.
pub proof fn lemma_memo_is_filled_once(
    held: Option<Seq<Seq<char>>>,
    first: Seq<Seq<char>>,
    second: Seq<Seq<char>>,
)
    ensures
        remembered(Some(remembered(held, first)), second) == remembered(held, first),
{
}

/// What an empty memo hands out is the offered list in reverse, and its
/// latest version is the first of the offered tags.
pub proof fn lemma_first_fill_reverses(newest_first: Seq<Seq<char>>)
    ensures
        remembered(None, newest_first) == newest_first.reverse(),
        remembered(None, newest_first).len() == newest_first.len(),
        forall|i: int|
            0 <= i < newest_first.len() ==> remembered(None, newest_first)[i]
                == newest_first[newest_first.len() - 1 - i],
        newest_first.len() > 0 ==> latest(remembered(None, newest_first)) == Some(newest_first[0]),
{
}

} // verus!

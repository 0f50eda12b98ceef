//! The per-entry helper: one manifest entry together with its progress
//! indicator.
//!
//! The helper holds the entry as a named field and exposes its fields
//! through its own accessor surface. Built in stages, as a task starts:
//! `new` wraps the entry, `with_progress_bar` prepares the display (the
//! entry's file name, shortened to fit one terminal line), and
//! `with_multi_progress` attaches the indicator to the shared display
//! surface, keeping only the handle the task owns.

use vstd::prelude::*;

use crate::manifest::FileInner;
use crate::progress::{Indicator, ProgressAggregator};

verus! {

/// The file name of a destination path: everything after the last `/`,
/// the whole path when it has none, and empty when it ends in `/`.
pub open spec fn file_name_of(path: Seq<char>) -> Seq<char>
    decreases path.len(),
{
    if path.len() == 0 {
        path
    } else if path.last() == '/' {
        Seq::<char>::empty()
    } else {
        file_name_of(path.drop_last()).push(path.last())
    }
}

/// A name shortened for display: kept whole under 40 characters, else cut
/// to its first 36 with a trailing ellipsis.
pub open spec fn display_of(name: Seq<char>) -> Seq<char> {
    if name.len() < 40 {
        name
    } else {
        name.subrange(0, 36) + "..."@
    }
}

proof fn lemma_file_name_suffix(p: Seq<char>, cut: int)
    requires
        0 <= cut <= p.len(),
        forall|j: int| cut <= j < p.len() ==> p[j] != '/',
        cut > 0 ==> p[cut - 1] == '/',
    ensures
        file_name_of(p) == p.subrange(cut, p.len() as int),
    decreases p.len(),
{
    if p.len() == 0 {
        assert(p.subrange(0, 0) =~= p);
    } else if cut == p.len() {
        assert(p.last() == '/');
        assert(p.subrange(cut, p.len() as int) =~= Seq::<char>::empty());
    } else {
        assert(p[p.len() - 1] != '/');
        lemma_file_name_suffix(p.drop_last(), cut);
        assert(p.subrange(cut, p.len() as int) =~= p.drop_last().subrange(
            cut,
            p.len() - 1,
        ).push(p.last()));
    }
}

/// The file name of `path`: the suffix after its last `/`.
pub fn file_name(path: &str) -> (name: String)
    ensures
        name@ == file_name_of(path@),
{
    let n = path.unicode_len();
    let mut i: usize = 0;
    let mut cut: usize = 0;
    while i < n
        invariant
            n == path@.len(),
            cut <= i <= n,
            cut > 0 ==> path@[cut - 1] == '/',
            forall|j: int| cut <= j < i ==> path@[j] != '/',
        decreases n - i,
    {
        if path.get_char(i) == '/' {
            cut = i + 1;
        }
        i = i + 1;
    }
    proof {
        lemma_file_name_suffix(path@, cut as int);
    }
    let tail = path.substring_char(cut, n);
    String::from_str(tail)
}

/// Shorten a name for display: under 40 characters it stays as it is,
/// otherwise its first 36 characters carry a trailing ellipsis.
pub fn display_name(name: &str) -> (r: String)
    ensures
        r@ == display_of(name@),
{
    let n = name.unicode_len();
    if n < 40 {
        String::from_str(name)
    } else {
        let head = name.substring_char(0, 36);
        String::from_str(head).concat("...")
    }
}

/// One manifest entry bound to its progress display.
pub struct FileHelper {
    inner: FileInner,
    display_name: Option<String>,
    pb: Option<usize>,
}

impl FileHelper {
    /// The manifest entry the helper works on.
    pub closed spec fn spec_inner(&self) -> FileInner {
        self.inner
    }

    /// The prepared display name, once `with_progress_bar` ran.
    pub closed spec fn spec_display_name(&self) -> Option<Seq<char>> {
        match self.display_name {
            Some(name) => Some(name@),
            None => None,
        }
    }

    /// The handle of the attached indicator, once `with_multi_progress`
    /// ran.
    pub closed spec fn spec_pb(&self) -> Option<usize> {
        self.pb
    }

    /// Wrap a manifest entry; no display prepared, no indicator attached.
    pub fn new(inner: FileInner) -> (helper: Self)
        ensures
            helper.spec_inner() == inner,
            helper.spec_display_name() is None,
            helper.spec_pb() is None,
    {
        FileHelper { inner, display_name: None, pb: None }
    }

    /// Prepare the entry's progress display: its file name, shortened to
    /// fit one terminal line.
    pub fn with_progress_bar(self) -> (helper: Self)
        ensures
            helper.spec_inner() == self.spec_inner(),
            helper.spec_display_name() == Some(
                display_of(file_name_of(self.spec_inner().path@)),
            ),
            helper.spec_pb() == self.spec_pb(),
    {
        let name = file_name(self.inner.path.as_str());
        let display = display_name(name.as_str());
        FileHelper { display_name: Some(display), ..self }
    }

    /// Attach the prepared indicator to the shared display surface and keep
    /// the handle. Without a prepared display nothing is attached, as when
    /// a bar was never requested.
    pub fn with_multi_progress(self, mp: &mut ProgressAggregator) -> (helper: Self)
        ensures
            helper.spec_inner() == self.spec_inner(),
            helper.spec_display_name() == self.spec_display_name(),
            self.spec_display_name() is Some ==> final(mp).spec_bars() == old(
                mp,
            ).spec_bars().push(
                (Indicator { length: self.spec_inner().size, position: 0, finished: false }),
            ) && helper.spec_pb() == Some(old(mp).spec_bars().len() as usize),
            self.spec_display_name() is None ==> *final(mp) == *old(mp) && helper.spec_pb()
                == self.spec_pb(),
    {
        if self.display_name.is_some() {
            let h = mp.attach(Indicator::new(self.inner.size));
            FileHelper { pb: Some(h), ..self }
        } else {
            self
        }
    }

    /// The entry's expected content hash, a hex digest.
    pub fn md5(&self) -> (hash: &str)
        ensures
            hash@ == self.spec_inner().hash@,
    {
        self.inner.hash.as_str()
    }

    /// The entry's expected size in bytes.
    pub fn size(&self) -> (size: u64)
        ensures
            size == self.spec_inner().size,
    {
        self.inner.size
    }

    /// Where the entry's bytes come from.
    pub fn download_src(&self) -> (url: &str)
        ensures
            url@ == self.spec_inner().url@,
    {
        self.inner.url.as_str()
    }

    /// Where the entry's bytes go.
    pub fn download_dest(&self) -> (path: &str)
        ensures
            path@ == self.spec_inner().path@,
    {
        self.inner.path.as_str()
    }

    /// The handle of the attached indicator, if one is attached.
    pub fn pb(&self) -> (h: Option<usize>)
        ensures
            h == self.spec_pb(),
    {
        self.pb
    }
}

} // verus!

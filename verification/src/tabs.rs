//! Tabs: the unit of open content shown in a window's tab strip.
//!
//! A tab is either backed by a file (possibly one that failed to load), an
//! inline view such as the welcome page, the preferences view, or an empty
//! placeholder. File paths are carried as plain strings; the segment after the
//! last `/` is the file name used for display.

use vstd::prelude::*;
use vstd::string::StrSliceExecFns;
use vstd::string::StringExecFns;

verus! {

/// What a tab holds. File-backed variants carry the file's path; the error
/// variant additionally carries a message describing the failure.
#[derive(Clone, Debug, PartialEq, Eq)]
pub enum TabContent {
    File(String),
    FileError(String, String),
    Inline(String),
    Preferences,
    Empty,
}

/// A unit of open content. A tab is never shared between two collections: it
/// is moved, or copied and then removed from its source, never duplicated for
/// good.
#[derive(Clone, Debug, PartialEq, Eq)]
pub struct Tab {
    pub content: TabContent,
}

/// The empty placeholder tab, used to seed a fresh window and to replace the
/// sole tab of a window when it is closed.
pub open spec fn empty_tab() -> Tab {
    Tab { content: TabContent::Empty }
}

/// True of the tabs that represent file-backed content, the only kind that
/// may move between windows.
pub open spec fn is_file_backed_spec(t: Tab) -> bool {
    match t.content {
        TabContent::File(_) => true,
        TabContent::FileError(_, _) => true,
        _ => false,
    }
}

/// The path characters of a file-backed tab; nothing for the other kinds.
pub open spec fn file_of(t: Tab) -> Option<Seq<char>> {
    match t.content {
        TabContent::File(p) => Some(p@),
        TabContent::FileError(p, _) => Some(p@),
        _ => None,
    }
}

/// Index of the first character after the last `/` of `s` (0 when `s` has no
/// `/` at all, `s.len()` when `s` ends with one).
pub open spec fn file_name_start(s: Seq<char>) -> int
    decreases s.len(),
{
    if s.len() == 0 {
        0
    } else if s.last() == '/' {
        s.len() as int
    } else {
        file_name_start(s.drop_last())
    }
}

/// The file name of a path: everything after the last `/`.
pub open spec fn file_name_spec(s: Seq<char>) -> Seq<char> {
    s.subrange(file_name_start(s), s.len() as int)
}

/// The name shown on a tab: the file name of a file-backed tab (with a fixed
/// fallback when that name is empty), or a fixed label for the other kinds.
pub open spec fn display_name_spec(t: Tab) -> Seq<char> {
    match t.content {
        TabContent::File(p) => if file_name_spec(p@).len() == 0 {
            "Unnamed file"@
        } else {
            file_name_spec(p@)
        },
        TabContent::FileError(p, _) => if file_name_spec(p@).len() == 0 {
            "Unnamed file"@
        } else {
            file_name_spec(p@)
        },
        TabContent::Inline(_) => "Welcome"@,
        TabContent::Preferences => "Preferences"@,
        TabContent::Empty => "No file"@,
    }
}

impl Tab {
    /// A tab opened on the file at `path`.
    pub fn new(path: String) -> (r: Tab)
        ensures
            r == (Tab { content: TabContent::File(path) }),
    {
        Tab { content: TabContent::File(path) }
    }

    /// The empty placeholder tab.
    pub fn empty() -> (r: Tab)
        ensures
            r == empty_tab(),
    {
        Tab { content: TabContent::Empty }
    }

    /// The path of a file-backed tab.
    pub fn file(&self) -> (r: Option<&String>)
        ensures
            match r {
                Some(p) => file_of(*self) == Some(p@),
                None => file_of(*self) is None,
            },
    {
        match &self.content {
            TabContent::File(p) => Some(p),
            TabContent::FileError(p, _) => Some(p),
            _ => None,
        }
    }

    /// Whether this tab represents file-backed content.
    pub fn is_file_backed(&self) -> (r: bool)
        ensures
            r == is_file_backed_spec(*self),
    {
        match &self.content {
            TabContent::File(_) => true,
            TabContent::FileError(_, _) => true,
            _ => false,
        }
    }

    /// A value-copy of this tab, used by the transfer protocol's prepare step.
    pub fn duplicate(&self) -> (r: Tab)
        ensures
            r == *self,
    {
        match &self.content {
            TabContent::File(p) => Tab { content: TabContent::File(p.clone()) },
            TabContent::FileError(p, e) => Tab { content: TabContent::FileError(p.clone(), e.clone()) },
            TabContent::Inline(s) => Tab { content: TabContent::Inline(s.clone()) },
            TabContent::Preferences => Tab { content: TabContent::Preferences },
            TabContent::Empty => Tab { content: TabContent::Empty },
        }
    }
}

/// The start of a path's file name lies within the path.
pub proof fn lemma_file_name_start_bounds(s: Seq<char>)
    ensures
        0 <= file_name_start(s) <= s.len(),
    decreases s.len(),
{
    if s.len() == 0 {
    } else if s.last() == '/' {
    } else {
        lemma_file_name_start_bounds(s.drop_last());
    }
}

/// The file name of a path: everything after its last `/`.
pub fn file_name_of(s: &str) -> (r: &str)
    ensures
        r@ == file_name_spec(s@),
{
    let n: usize = s.unicode_len();
    let mut start: usize = n;
    proof {
        assert(s@.subrange(0, n as int) =~= s@);
        lemma_file_name_start_bounds(s@);
    }
    while start > 0 && s.get_char(start - 1) != '/'
        invariant
            start <= n,
            n == s@.len(),
            file_name_start(s@) == file_name_start(s@.subrange(0, start as int)),
            file_name_start(s@) <= start,
        decreases start,
    {
        proof {
            let pre = s@.subrange(0, start as int);
            assert(pre.last() == s@[start as int - 1]);
            assert(pre.drop_last() =~= s@.subrange(0, start as int - 1));
            lemma_file_name_start_bounds(pre.drop_last());
        }
        start = start - 1;
    }
    proof {
        let pre = s@.subrange(0, start as int);
        if start == 0 {
            assert(file_name_start(pre) == 0);
        } else {
            assert(pre.last() == s@[start as int - 1]);
        }
    }
    s.substring_char(start, n)
}

/// Extract display name from a tab's content: the file name for file-backed
/// tabs (or a fallback when that name is empty), a fixed label otherwise.
pub fn get_tab_display_name(tab: &Tab) -> (r: String)
    ensures
        r@ == display_name_spec(*tab),
{
    match &tab.content {
        TabContent::File(p) => {
            let name = file_name_of(p.as_str());
            if name.unicode_len() == 0 {
                String::from_str("Unnamed file")
            } else {
                String::from_str(name)
            }
        },
        TabContent::FileError(p, _) => {
            let name = file_name_of(p.as_str());
            if name.unicode_len() == 0 {
                String::from_str("Unnamed file")
            } else {
                String::from_str(name)
            }
        },
        TabContent::Inline(_) => String::from_str("Welcome"),
        TabContent::Preferences => String::from_str("Preferences"),
        TabContent::Empty => String::from_str("No file"),
    }
}

impl Default for Tab {
    /// A fresh window starts from the empty placeholder.
    fn default() -> (r: Tab)
        ensures
            r == empty_tab(),
    {
        Tab { content: TabContent::Empty }
    }
}

} // verus!

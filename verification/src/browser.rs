//! The issue browser's interactive state: quit flag, selection cursor,
//! search mode and query, and the filtered index list. Key handling and
//! list filtering are pure transitions on this state; drawing and the
//! terminal event loop live outside the crate and feed keys in as plain
//! values.

use vstd::prelude::*;
use vstd::string::StrSliceExecFns;
use crate::types::Issue;
use crate::encoding::push_char;

verus! {

/// A key press, reduced to what the browser reacts to.
#[derive(Debug, Clone, Copy, PartialEq, Eq)]
pub enum KeyInput {
    Up,
    Down,
    Enter,
    Esc,
    Backspace,
    CharKey { c: char },
    Other,
}

/// What the caller must do after a key is handled.
#[derive(Debug, Clone, Copy, PartialEq, Eq)]
pub enum BrowserCommand {
    /// Nothing beyond redrawing.
    Stay,
    /// Reload the issue list from the service.
    Refresh,
}

/// The case-folded text of a string.
///
/// Relies on str::to_lowercase: the result depends on the characters
/// alone, and an empty string stays empty.
pub uninterp spec fn lower_of(s: Seq<char>) -> Seq<char>;

#[verifier::external_body]
fn lowercase(s: &str) -> (r: String)
    ensures
        r@ == lower_of(s@),
        s@.len() == 0 ==> r@.len() == 0,
{
    s.to_lowercase()
}

/// Whether `needle` stands in `hay` starting at position `i`.
pub open spec fn is_substring_at(hay: Seq<char>, needle: Seq<char>, i: int) -> bool {
    0 <= i && i + needle.len() <= hay.len() && hay.subrange(i, i + needle.len()) == needle
}

/// Whether `needle` occurs anywhere in `hay`.
pub open spec fn contains_sub(hay: Seq<char>, needle: Seq<char>) -> bool {
    exists|i: int| is_substring_at(hay, needle, i)
}

/// Whether `needle` stands at position `i` of `hay`.
fn match_at(hay: &str, needle: &str, i: usize) -> (r: bool)
    requires
        i + needle@.len() <= hay@.len(),
    ensures
        r == is_substring_at(hay@, needle@, i as int),
{
    let hn = hay.unicode_len();
    let nn = needle.unicode_len();
    let mut j: usize = 0;
    while j < nn
        invariant
            j <= nn,
            nn == needle@.len(),
            hn == hay@.len(),
            i + nn <= hn,
            forall|k: int| 0 <= k < j ==> hay@[i + k] == needle@[k],
        decreases nn - j,
    {
        if hay.get_char(i + j) != needle.get_char(j) {
            proof {
                if is_substring_at(hay@, needle@, i as int) {
                    assert(hay@.subrange(i as int, i + needle@.len())[j as int]
                        == needle@[j as int]);
                }
            }
            return false;
        }
        j = j + 1;
    }
    proof {
        assert(hay@.subrange(i as int, i + needle@.len()) =~= needle@);
    }
    true
}

/// Executable substring search.
pub fn str_contains(hay: &str, needle: &str) -> (r: bool)
    ensures
        r == contains_sub(hay@, needle@),
{
    let hn = hay.unicode_len();
    let nn = needle.unicode_len();
    if nn > hn {
        return false;
    }
    let mut i: usize = 0;
    loop
        invariant
            nn <= hn,
            hn == hay@.len(),
            nn == needle@.len(),
            i <= hn - nn,
            forall|k: int| 0 <= k < i ==> !is_substring_at(hay@, needle@, k),
        decreases hn - nn - i,
    {
        if match_at(hay, needle, i) {
            return true;
        }
        if i == hn - nn {
            proof {
                assert forall|k: int| !is_substring_at(hay@, needle@, k) by {
                    if 0 <= k <= i as int {
                        assert(!is_substring_at(hay@, needle@, k));
                    }
                }
            }
            return false;
        }
        i = i + 1;
    }
}

/// Whether an issue matches a case-folded query: the query occurs in
/// the folded title, identifier, or description (when there is one).
pub open spec fn issue_matches(issue: Issue, q: Seq<char>) -> bool {
    ||| contains_sub(lower_of(issue.title@), q)
    ||| contains_sub(lower_of(issue.identifier@), q)
    ||| (issue.description matches Some(d) && contains_sub(lower_of(d@), q))
}

/// The indexes, in order, of the issues among the first `n` that match
/// the query.
pub open spec fn matching_indexes(issues: Seq<Issue>, q: Seq<char>, n: int) -> Seq<usize>
    decreases n,
{
    if n <= 0 {
        Seq::empty()
    } else {
        matching_indexes(issues, q, n - 1) + (if issue_matches(issues[n - 1], q) {
            seq![(n - 1) as usize]
        } else {
            Seq::<usize>::empty()
        })
    }
}

/// The filtered index list a query yields: no filter for an empty
/// query, otherwise the indexes of the issues matching the case-folded
/// query, in order.
pub open spec fn filtered_for(issues: Seq<Issue>, query: Seq<char>) -> Seq<usize> {
    if query.len() == 0 {
        Seq::empty()
    } else {
        matching_indexes(issues, lower_of(query), issues.len() as int)
    }
}

/// Where the selection lands after a filter pass: onto the last
/// filtered entry when it ran past the list, back to the top when the
/// filter is empty but issues exist, otherwise where it was.
pub open spec fn clamped_selection(old_sel: int, flen: int, ilen: int) -> int {
    if old_sel >= flen && flen > 0 {
        flen - 1
    } else if flen == 0 && ilen > 0 {
        0
    } else {
        old_sel
    }
}

/// The interactive state of the issue browser.
#[derive(Debug, Clone, PartialEq, Eq)]
pub struct BrowserState {
    pub should_quit: bool,
    pub selected_index: usize,
    pub search_mode: bool,
    pub search_query: String,
    pub filtered_issues: Vec<usize>,
}

/// Removes the last character of a string, if any.
///
/// Relies on std's `String::pop`: it removes exactly the last character.
#[verifier::external_body]
fn pop_char(s: &mut String)
    ensures
        old(s)@.len() == 0 ==> final(s)@ == old(s)@,
        old(s)@.len() > 0 ==> final(s)@ == old(s)@.drop_last(),
{
    s.pop();
}

impl BrowserState {
    /// A fresh browser over an empty issue list.
    pub fn new() -> (r: BrowserState)
        ensures
            !r.should_quit,
            r.selected_index == 0,
            !r.search_mode,
            r.search_query@.len() == 0,
            r.filtered_issues@.len() == 0,
    {
        BrowserState {
            should_quit: false,
            selected_index: 0,
            search_mode: false,
            search_query: String::new(),
            filtered_issues: Vec::new(),
        }
    }

    /// Recomputes the filtered index list for the current query — empty
    /// query means no filter — and clamps the selection: onto the last
    /// filtered entry when it ran past the list, back to the top when
    /// the filter is empty but issues exist.
    pub fn filter_issues(&mut self, issues: &Vec<Issue>)
        ensures
            final(self).should_quit == old(self).should_quit,
            final(self).search_mode == old(self).search_mode,
            final(self).search_query == old(self).search_query,
            final(self).filtered_issues@ == filtered_for(issues@, old(self).search_query@),
            final(self).selected_index as int == clamped_selection(
                old(self).selected_index as int,
                final(self).filtered_issues@.len() as int,
                issues@.len() as int,
            ),
    {
        if self.search_query.as_str().unicode_len() == 0 {
            self.filtered_issues = Vec::new();
        } else {
            let q = lowercase(self.search_query.as_str());
            let mut out: Vec<usize> = Vec::new();
            let mut i: usize = 0;
            while i < issues.len()
                invariant
                    i <= issues@.len(),
                    q@ == lower_of(old(self).search_query@),
                    out@ == matching_indexes(issues@, q@, i as int),
                decreases issues@.len() - i,
            {
                if issue_matches_exec_folded(&issues[i], q.as_str()) {
                    out.push(i);
                }
                i = i + 1;
            }
            self.filtered_issues = out;
        }
        if self.selected_index >= self.filtered_issues.len() && self.filtered_issues.len() > 0 {
            self.selected_index = self.filtered_issues.len() - 1;
        } else if self.filtered_issues.len() == 0 && issues.len() > 0 {
            self.selected_index = 0;
        }
    }

    /// Handles one key press against the current issue list. In search
    /// mode, escape clears the query and leaves the mode, enter only
    /// leaves it, and backspace and characters edit the query and
    /// re-filter. Outside it, `q` quits, `/` opens the search, the
    /// arrows (and `k`/`j`) move the selection within the visible list,
    /// and `r` asks the caller to reload the issues.
    pub fn on_key(&mut self, key: KeyInput, issues: &Vec<Issue>) -> (cmd: BrowserCommand)
        ensures
            cmd == BrowserCommand::Refresh <==> (!old(self).search_mode && key == (
            KeyInput::CharKey { c: 'r' })),
            final(self).should_quit == (old(self).should_quit || (!old(self).search_mode && key
                == (KeyInput::CharKey { c: 'q' }))),
            old(self).search_mode && key == KeyInput::Esc ==> {
                &&& !final(self).search_mode
                &&& final(self).search_query@.len() == 0
                &&& final(self).filtered_issues@ == Seq::<usize>::empty()
                &&& final(self).selected_index as int == clamped_selection(
                    old(self).selected_index as int,
                    0,
                    issues@.len() as int,
                )
            },
            old(self).search_mode && key == KeyInput::Enter ==> {
                &&& !final(self).search_mode
                &&& final(self).search_query == old(self).search_query
                &&& final(self).filtered_issues == old(self).filtered_issues
                &&& final(self).selected_index == old(self).selected_index
            },
            old(self).search_mode && key == KeyInput::Backspace ==> {
                let q2 = if old(self).search_query@.len() == 0 {
                    old(self).search_query@
                } else {
                    old(self).search_query@.drop_last()
                };
                &&& final(self).search_mode
                &&& final(self).search_query@ == q2
                &&& final(self).filtered_issues@ == filtered_for(issues@, q2)
                &&& final(self).selected_index as int == clamped_selection(
                    old(self).selected_index as int,
                    final(self).filtered_issues@.len() as int,
                    issues@.len() as int,
                )
            },
            old(self).search_mode ==> (key matches KeyInput::CharKey { c } ==> {
                let q2 = old(self).search_query@ + seq![c];
                &&& final(self).search_mode
                &&& final(self).search_query@ == q2
                &&& final(self).filtered_issues@ == filtered_for(issues@, q2)
                &&& final(self).selected_index as int == clamped_selection(
                    old(self).selected_index as int,
                    final(self).filtered_issues@.len() as int,
                    issues@.len() as int,
                )
            }),
            old(self).search_mode && (key == KeyInput::Up || key == KeyInput::Down || key
                == KeyInput::Other) ==> *final(self) == *old(self),
            !old(self).search_mode ==> final(self).search_query@ == (if key == (
            KeyInput::CharKey { c: '/' }) {
                Seq::<char>::empty()
            } else {
                old(self).search_query@
            }),
            !old(self).search_mode ==> final(self).search_mode == (key == (KeyInput::CharKey {
                c: '/',
            })),
            !old(self).search_mode ==> final(self).filtered_issues == old(
                self,
            ).filtered_issues,
            !old(self).search_mode ==> final(self).selected_index as int == (if key
                == KeyInput::Up || key == (KeyInput::CharKey { c: 'k' }) {
                if old(self).selected_index > 0 {
                    old(self).selected_index - 1
                } else {
                    0
                }
            } else if key == KeyInput::Down || key == (KeyInput::CharKey { c: 'j' }) {
                let vis = if old(self).filtered_issues@.len() == 0 {
                    issues@.len() as int
                } else {
                    old(self).filtered_issues@.len() as int
                };
                let maxi = if vis == 0 {
                    0
                } else {
                    vis - 1
                };
                if old(self).selected_index < maxi {
                    old(self).selected_index + 1
                } else {
                    old(self).selected_index as int
                }
            } else {
                old(self).selected_index as int
            }),
    {
        if self.search_mode {
            match key {
                KeyInput::Esc => {
                    self.search_mode = false;
                    self.search_query = String::new();
                    self.filter_issues(issues);
                    BrowserCommand::Stay
                },
                KeyInput::Enter => {
                    self.search_mode = false;
                    BrowserCommand::Stay
                },
                KeyInput::Backspace => {
                    pop_char(&mut self.search_query);
                    self.filter_issues(issues);
                    BrowserCommand::Stay
                },
                KeyInput::CharKey { c } => {
                    push_char(&mut self.search_query, c);
                    self.filter_issues(issues);
                    BrowserCommand::Stay
                },
                _ => BrowserCommand::Stay,
            }
        } else {
            match key {
                KeyInput::CharKey { c: 'q' } => {
                    self.should_quit = true;
                    BrowserCommand::Stay
                },
                KeyInput::CharKey { c: '/' } => {
                    self.search_mode = true;
                    self.search_query = String::new();
                    BrowserCommand::Stay
                },
                KeyInput::Up => {
                    if self.selected_index > 0 {
                        self.selected_index = self.selected_index - 1;
                    }
                    BrowserCommand::Stay
                },
                KeyInput::CharKey { c: 'k' } => {
                    if self.selected_index > 0 {
                        self.selected_index = self.selected_index - 1;
                    }
                    BrowserCommand::Stay
                },
                KeyInput::Down => {
                    self.move_down(issues);
                    BrowserCommand::Stay
                },
                KeyInput::CharKey { c: 'j' } => {
                    self.move_down(issues);
                    BrowserCommand::Stay
                },
                KeyInput::CharKey { c: 'r' } => BrowserCommand::Refresh,
                _ => BrowserCommand::Stay,
            }
        }
    }

    /// Moves the selection one entry down within the visible list.
    fn move_down(&mut self, issues: &Vec<Issue>)
        ensures
            final(self).should_quit == old(self).should_quit,
            final(self).search_mode == old(self).search_mode,
            final(self).search_query == old(self).search_query,
            final(self).filtered_issues == old(self).filtered_issues,
            final(self).selected_index as int == ({
                let vis = if old(self).filtered_issues@.len() == 0 {
                    issues@.len() as int
                } else {
                    old(self).filtered_issues@.len() as int
                };
                let maxi = if vis == 0 {
                    0
                } else {
                    vis - 1
                };
                if old(self).selected_index < maxi {
                    old(self).selected_index + 1
                } else {
                    old(self).selected_index as int
                }
            }),
    {
        let vis: usize = if self.filtered_issues.len() == 0 {
            issues.len()
        } else {
            self.filtered_issues.len()
        };
        let maxi: usize = if vis == 0 {
            0
        } else {
            vis - 1
        };
        if self.selected_index < maxi {
            self.selected_index = self.selected_index + 1;
        }
    }
}

/// Executable test of `issue_matches` against an already-folded query.
fn issue_matches_exec_folded(issue: &Issue, q: &str) -> (r: bool)
    ensures
        r == issue_matches(*issue, q@),
{
    let t = lowercase(issue.title.as_str());
    if str_contains(t.as_str(), q) {
        return true;
    }
    let idf = lowercase(issue.identifier.as_str());
    if str_contains(idf.as_str(), q) {
        return true;
    }
    match &issue.description {
        Some(d) => {
            let dl = lowercase(d.as_str());
            str_contains(dl.as_str(), q)
        },
        None => false,
    }
}

} // verus!

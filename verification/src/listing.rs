//! The list of the followed pull requests as it is shown to the user.

use crate::model::PullRequest;
use crate::report::{heading, heading_text, hyperlink, is_label_of};
use crate::text::{join, join_text};
use vstd::prelude::*;

verus! {

/// What the list shows of one followed pull request.
#[derive(Clone, Debug)]
pub struct TrackedPullRequest {
    pub id: u64,
    pub title: String,
    pub url: String,
}

/// `line` is the line of `entry`: its number in brackets and its title, bare
/// or as a hyperlink to its page.
pub open spec fn is_line_of(line: Seq<char>, entry: TrackedPullRequest) -> bool {
    exists|label: Seq<char>|
        is_label_of(label, entry.title@, entry.url@) && line == #[trigger] heading_text(
            entry.id,
            label,
        )
}

/// `lines` holds a line of each entry, in the order of the entries.
pub open spec fn are_lines_of(lines: Seq<Seq<char>>, entries: Seq<TrackedPullRequest>) -> bool {
    &&& lines.len() == entries.len()
    &&& forall|i: int| 0 <= i < entries.len() ==> is_line_of(#[trigger] lines[i], entries[i])
}

impl TrackedPullRequest {
    /// What is shown of the pull request `id`, taken from its description.
    pub fn new(id: u64, data: &PullRequest) -> (entry: TrackedPullRequest)
        ensures
            entry.id == id,
            entry.title@ == data.title@,
            entry.url@ == data.html_url@,
    {
        TrackedPullRequest { id, title: data.title.clone(), url: data.html_url.clone() }
    }

    /// The line of the pull request with its title shown as `label`.
    pub fn line(&self, label: &str) -> (s: String)
        ensures
            s@ == heading_text(self.id, label@),
    {
        heading(self.id, label)
    }

    /// The line of the pull request: its number in brackets, then its
    /// title, as a hyperlink to its page where the terminal styling is on and
    /// bare where it is off.
    pub fn to_string(&self) -> (s: String)
        ensures
            is_line_of(s@, *self),
    {
        let label = hyperlink(self.title.as_str(), self.url.as_str());
        self.line(label.as_str())
    }
}

/// The list as text: the line of each pull request, one below the other.
pub fn render_list(entries: &Vec<TrackedPullRequest>) -> (s: String)
    ensures
        exists|lines: Seq<Seq<char>>|
            are_lines_of(lines, entries@) && s@ == #[trigger] join_text(lines, "\n"@),
{
    let mut lines: Vec<String> = Vec::new();
    let mut i: usize = 0;
    while i < entries.len()
        invariant
            i <= entries.len(),
            lines.len() == i,
            forall|k: int| 0 <= k < i ==> is_line_of(#[trigger] lines[k]@, entries[k]),
        decreases entries.len() - i,
    {
        let line = entries[i].to_string();
        lines.push(line);
        i += 1;
    }
    let s = join(&lines, "\n");
    proof {
        let texts = lines.deep_view();
        assert(texts.len() == entries.len());
        assert forall|k: int| 0 <= k < entries.len() implies is_line_of(
            #[trigger] texts[k],
            entries[k],
        ) by {
            assert(texts[k] == lines[k]@);
        }
        assert(are_lines_of(texts, entries@));
    }
    s
}

} // verus!

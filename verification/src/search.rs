//! Fuzzy search over the titles of a list of notes.

use fuzzy_matcher::skim::SkimMatcherV2;
use fuzzy_matcher::FuzzyMatcher;
use vstd::prelude::*;

use crate::list::{spec_retain, spec_revalidated, StatefulList};
use crate::note::{note_views, Note, NoteView};

verus! {

/// What `SkimMatcherV2::default().fuzzy_indices(choice, pattern)` returns:
/// nothing where the pattern does not match the choice, else a score and the
/// indices of the characters of the choice that it matched.
pub uninterp spec fn skim_fuzzy_indices(choice: Seq<char>, pattern: Seq<char>) -> Option<
    (i64, Seq<usize>),
>;

/// What the matcher found, with the matched indices as a sequence.
pub open spec fn found_view(found: Option<(i64, Vec<usize>)>) -> Option<(i64, Seq<usize>)> {
    match found {
        Some((score, indices)) => Some((score, indices@)),
        None => None,
    }
}

/// Calls `fuzzy_indices` of the trait `FuzzyMatcher` on a `SkimMatcherV2`
/// with its default settings.
///
/// Trusted: the matcher is made anew for each call and keeps nothing
/// between calls, so what it returns depends on the two texts alone. The
/// contract gives that result its name and claims nothing else of it. The
/// call takes memory in proportion to the product of the two lengths.
#[verifier::external_body]
fn fuzzy_indices(choice: &str, pattern: &str) -> (found: Option<(i64, Vec<usize>)>)
    ensures
        found_view(found) == skim_fuzzy_indices(choice@, pattern@),
{
    SkimMatcherV2::default().fuzzy_indices(choice, pattern)
}

/// Whether the matcher finds `query` in `title`.
pub open spec fn spec_title_matches(title: Seq<char>, query: Seq<char>) -> bool {
    skim_fuzzy_indices(title, query).is_some()
}

/// For each note, whether the matcher finds `query` in its title.
pub open spec fn spec_title_flags(items: Seq<NoteView>, query: Seq<char>) -> Seq<bool> {
    Seq::new(items.len(), |i: int| spec_title_matches(items[i].title, query))
}

/// Whether the matcher finds `query` in `title`. The score and the matched
/// positions are not used.
pub fn title_matches(title: &str, query: &str) -> (matched: bool)
    ensures
        matched == spec_title_matches(title@, query@),
{
    fuzzy_indices(title, query).is_some()
}

impl StatefulList<Note> {
    /// Keeps the notes in whose title the matcher finds `query`, in the
    /// order they had, and forgets the others. A selection that no longer
    /// points at a note is dropped.
    pub fn filter_by_title(&mut self, query: &str)
        ensures
            final(self).items@ == spec_retain(
                old(self).items@,
                spec_title_flags(note_views(old(self).items@), query@),
            ),
            final(self).selected_num == spec_revalidated(
                old(self).selected_num,
                final(self).items@.len(),
            ),
            final(self).wf(),
    {
        let mut keep: Vec<bool> = Vec::new();
        let mut i: usize = 0;
        while i < self.items.len()
            invariant
                i <= self.items@.len(),
                *self == *old(self),
                keep@.len() == i,
                forall|k: int|
                    0 <= k < i ==> keep@[k] == spec_title_matches(
                        #[trigger] self.items@[k].title@,
                        query@,
                    ),
            decreases self.items@.len() - i,
        {
            let matched = title_matches(self.items[i].title.as_str(), query);
            keep.push(matched);
            i = i + 1;
        }
        assert(keep@ =~= spec_title_flags(note_views(self.items@), query@));
        self.retain_flagged(&keep);
    }
}

} // verus!

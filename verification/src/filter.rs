//! Which subjects a filter admits.

use vstd::prelude::*;

use crate::backend::ZendeskBackend;
use crate::protocol::{
    subject_views, Subject, SubjectFilter, SubjectFilterView, SubjectStatus, SubjectView,
};
use crate::text::{contains_str, strings};

verus! {

/// Those of the subjects that a filter admits, in order.
pub open spec fn admitted(subjects: Seq<SubjectView>, filter: SubjectFilterView) -> Seq<SubjectView> {
    subjects.filter(|subject: SubjectView| filter.admits(subject))
}

fn contains_status(list: &Vec<SubjectStatus>, status: SubjectStatus) -> (found: bool)
    ensures
        found == list@.contains(status),
{
    let mut i: usize = 0;
    while i < list.len()
        invariant
            i <= list@.len(),
            forall|j: int| 0 <= j < i ==> list@[j] != status,
        decreases list.len() - i,
    {
        if list[i] == status {
            return true;
        }
        i = i + 1;
    }
    false
}

/// Whether one of the wanted labels is there.
fn has_any_label(labels: &Vec<String>, wanted: &Vec<String>) -> (found: bool)
    ensures
        found == exists|i: int|
            0 <= i < wanted@.len() && strings(labels@).contains(#[trigger] strings(wanted@)[i]),
{
    let mut i: usize = 0;
    while i < wanted.len()
        invariant
            i <= wanted@.len(),
            forall|j: int|
                0 <= j < i ==> !strings(labels@).contains(#[trigger] strings(wanted@)[j]),
        decreases wanted.len() - i,
    {
        if contains_str(labels, wanted[i].as_str()) {
            assert(strings(labels@).contains(strings(wanted@)[i as int]));
            return true;
        }
        i = i + 1;
    }
    false
}

/// Whether all of the wanted labels are there.
fn has_all_labels(labels: &Vec<String>, wanted: &Vec<String>) -> (found: bool)
    ensures
        found ==> forall|i: int|
            0 <= i < wanted@.len() ==> strings(labels@).contains(#[trigger] strings(wanted@)[i]),
        !found ==> exists|i: int|
            0 <= i < wanted@.len() && !strings(labels@).contains(#[trigger] strings(wanted@)[i]),
{
    let mut i: usize = 0;
    while i < wanted.len()
        invariant
            i <= wanted@.len(),
            forall|j: int|
                0 <= j < i ==> strings(labels@).contains(#[trigger] strings(wanted@)[j]),
        decreases wanted.len() - i,
    {
        if !contains_str(labels, wanted[i].as_str()) {
            assert(!strings(labels@).contains(strings(wanted@)[i as int]));
            return false;
        }
        i = i + 1;
    }
    true
}

impl ZendeskBackend {
    /// Whether a filter admits a subject.
    pub fn subject_matches_filter(subject: &Subject, filter: &SubjectFilter) -> (matches: bool)
        ensures
            matches == filter@.admits(subject@),
    {
        if !filter.kind.is_empty() && !contains_str(&filter.kind, subject.kind.as_str()) {
            return false;
        }
        if !filter.status.is_empty() && !contains_status(&filter.status, subject.status) {
            return false;
        }
        if !filter.assignee.is_empty() {
            match &subject.assignee {
                Some(assignee) => if !contains_str(&filter.assignee, assignee.as_str()) {
                    return false;
                },
                None => return false,
            }
        }
        if !filter.labels_any.is_empty() && !has_any_label(&subject.labels, &filter.labels_any) {
            assert(forall|i: int|
                0 <= i < filter@.labels_any.len() ==> !subject@.labels.contains(
                    #[trigger] filter@.labels_any[i],
                ));
            return false;
        }
        if !has_all_labels(&subject.labels, &filter.labels_all) {
            proof {
                let i = choose|i: int|
                    0 <= i < filter.labels_all@.len() && !strings(subject.labels@).contains(
                        #[trigger] strings(filter.labels_all@)[i],
                    );
                assert(!subject@.labels.contains(filter@.labels_all[i]));
            }
            return false;
        }
        match &filter.updated_since {
            Some(since) => !subject.updated_at.is_before(since),
            None => true,
        }
    }

    /// Those of the subjects that a filter admits, in order.
    pub fn select(subjects: Vec<Subject>, filter: &SubjectFilter) -> (selected: Vec<Subject>)
        ensures
            subject_views(selected@) == admitted(subject_views(subjects@), filter@),
    {
        let ghost views = subject_views(subjects@);
        let ghost admits = |subject: SubjectView| filter@.admits(subject);
        let mut selected: Vec<Subject> = Vec::new();
        assert(subject_views(selected@) =~= views.take(0).filter(admits)) by {
            reveal(Seq::filter);
        }
        for subject in walk: subjects
            invariant
                views == subject_views(walk.seq()),
                admits == (|subject: SubjectView| filter@.admits(subject)),
                subject_views(selected@) == views.take(walk.index() as int).filter(admits),
        {
            let ghost i = walk.index() as int;
            let ghost before = selected@;
            let ghost view = subject@;
            assert(views[i] == view);
            assert(views.take(i + 1).drop_last() =~= views.take(i));
            assert(views.take(i + 1).filter(admits) == if admits(view) {
                views.take(i).filter(admits).push(view)
            } else {
                views.take(i).filter(admits)
            }) by {
                reveal(Seq::filter);
            }
            if Self::subject_matches_filter(&subject, filter) {
                selected.push(subject);
                assert(subject_views(selected@) =~= subject_views(before).push(view));
            }
        }
        assert(views.take(views.len() as int) =~= views);
        selected
    }
}

/// A filter that asks for nothing admits every subject.
pub proof fn lemma_empty_filter_admits_all(filter: SubjectFilterView, subject: SubjectView)
    requires
        filter.kind.len() == 0,
        filter.status.len() == 0,
        filter.assignee.len() == 0,
        filter.labels_any.len() == 0,
        filter.labels_all.len() == 0,
        filter.updated_since is None,
    ensures
        filter.admits(subject),
{
}

/// Every subject that comes through a filter is one of those that went in, and is admitted;
/// and every admitted subject that went in comes through.
pub proof fn lemma_admitted_are_the_admitted(
    subjects: Seq<SubjectView>,
    filter: SubjectFilterView,
    subject: SubjectView,
)
    ensures
        admitted(subjects, filter).contains(subject) <==> subjects.contains(subject)
            && filter.admits(subject),
{
    let admits = |subject: SubjectView| filter.admits(subject);
    let kept = subjects.filter(admits);
    if kept.contains(subject) {
        subjects.lemma_filter_contains_rev(admits, subject);
        let i = choose|i: int| 0 <= i < kept.len() && kept[i] == subject;
        subjects.lemma_filter_pred(admits, i);
    }
    if subjects.contains(subject) && filter.admits(subject) {
        let i = choose|i: int| 0 <= i < subjects.len() && subjects[i] == subject;
        subjects.lemma_filter_contains(admits, i);
    }
}

} // verus!

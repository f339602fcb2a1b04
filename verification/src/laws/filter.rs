//! What holds of filters.

use vstd::prelude::*;

use crate::filter::admitted;
use crate::protocol::{SubjectFilterView, SubjectView};

verus! {

/// A filter admits a subject if and only if the subject meets each criterion that is given,
/// whatever the others are.
pub proof fn lemma_each_criterion_must_hold(filter: SubjectFilterView, subject: SubjectView)
    ensures
        filter.admits(subject) <==> {
            &&& filter.kind.len() > 0 ==> filter.kind.contains(subject.kind)
            &&& filter.status.len() > 0 ==> filter.status.contains(subject.status)
            &&& filter.assignee.len() > 0 ==> subject.assignee is Some && filter.assignee.contains(
                subject.assignee->0,
            )
            &&& filter.labels_any.len() > 0 ==> exists|label: Seq<char>|
                #[trigger] filter.labels_any.contains(label) && subject.labels.contains(label)
            &&& forall|label: Seq<char>| #[trigger]
                filter.labels_all.contains(label) ==> subject.labels.contains(label)
            &&& filter.updated_since matches Some(since) ==> since.seconds * 0x1_0000_0000
                + since.nanos <= subject.updated_at.seconds * 0x1_0000_0000
                + subject.updated_at.nanos
        },
{
    if exists|i: int|
        0 <= i < filter.labels_any.len() && subject.labels.contains(#[trigger] filter.labels_any[i]) {
        let i = choose|i: int|
            0 <= i < filter.labels_any.len() && subject.labels.contains(
                #[trigger] filter.labels_any[i],
            );
        assert(filter.labels_any.contains(filter.labels_any[i]));
    }
    if exists|label: Seq<char>| #[trigger]
        filter.labels_any.contains(label) && subject.labels.contains(label) {
        let label = choose|label: Seq<char>| #[trigger]
            filter.labels_any.contains(label) && subject.labels.contains(label);
        let i = choose|i: int| 0 <= i < filter.labels_any.len() && filter.labels_any[i] == label;
        assert(subject.labels.contains(filter.labels_any[i]));
    }
    if forall|label: Seq<char>| #[trigger]
        filter.labels_all.contains(label) ==> subject.labels.contains(label) {
        assert forall|i: int| 0 <= i < filter.labels_all.len() implies subject.labels.contains(
            #[trigger] filter.labels_all[i],
        ) by {
            assert(filter.labels_all.contains(filter.labels_all[i]));
        }
    }
    if forall|i: int|
        0 <= i < filter.labels_all.len() ==> subject.labels.contains(
            #[trigger] filter.labels_all[i],
        ) {
        assert forall|label: Seq<char>| #[trigger] filter.labels_all.contains(label) implies
            subject.labels.contains(label) by {
            let i = choose|i: int|
                0 <= i < filter.labels_all.len() && filter.labels_all[i] == label;
            assert(subject.labels.contains(filter.labels_all[i]));
        }
    }
}

/// A subject that a filter admits is admitted without any one of its criteria too, and by any
/// limit.
pub proof fn lemma_less_is_asked_more_is_admitted(
    filter: SubjectFilterView,
    subject: SubjectView,
    limit: Option<u32>,
)
    requires
        filter.admits(subject),
    ensures
        (SubjectFilterView { kind: Seq::empty(), ..filter }).admits(subject),
        (SubjectFilterView { status: Seq::empty(), ..filter }).admits(subject),
        (SubjectFilterView { assignee: Seq::empty(), ..filter }).admits(subject),
        (SubjectFilterView { labels_any: Seq::empty(), ..filter }).admits(subject),
        (SubjectFilterView { labels_all: Seq::empty(), ..filter }).admits(subject),
        (SubjectFilterView { updated_since: None, ..filter }).admits(subject),
        (SubjectFilterView { limit, ..filter }).admits(subject),
{
}

/// A filter passes over subjects one by one: each that it admits stays where it is, as often as
/// it comes, and each other goes.
pub proof fn lemma_subjects_pass_one_by_one(
    subjects: Seq<SubjectView>,
    subject: SubjectView,
    filter: SubjectFilterView,
)
    ensures
        admitted(Seq::empty(), filter) == Seq::<SubjectView>::empty(),
        filter.admits(subject) ==> admitted(subjects.push(subject), filter) == admitted(
            subjects,
            filter,
        ).push(subject),
        !filter.admits(subject) ==> admitted(subjects.push(subject), filter) == admitted(
            subjects,
            filter,
        ),
{
    reveal(Seq::filter);
    assert(subjects.push(subject).drop_last() =~= subjects);
}

} // verus!

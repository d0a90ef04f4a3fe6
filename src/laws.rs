//! Properties of lock acquisition and release that hold for every target and
//! every outcome of the outside operations.
use vstd::prelude::*;

use crate::location::{folder_for, parent_of, sentinel_in};
use crate::lock::{next, start, AcquisitionView, Exclusivity, LockView, SetupError};

verus! {

/// The stage reached from `a` when the operations have the given outcomes, in
/// order.
pub open spec fn run(a: AcquisitionView, outcomes: Seq<Result<(), String>>) -> AcquisitionView
    decreases outcomes.len(),
{
    if outcomes.len() == 0 {
        a
    } else {
        run(next(a, outcomes[0]), outcomes.drop_first())
    }
}

/// The guard's exclusivity after a lock request with `outcome`.
pub open spec fn exclusivity_of(outcome: Result<(), String>) -> Exclusivity {
    match outcome {
        Ok(_) => Exclusivity::Locked,
        Err(m) => Exclusivity::Unavailable(m),
    }
}

/// Both setup operations succeed, then the lock request has `lock_outcome`.
pub open spec fn setup_succeeds(lock_outcome: Result<(), String>) -> Seq<Result<(), String>> {
    seq![Ok(()), Ok(()), lock_outcome]
}

proof fn lemma_run_three(a: AcquisitionView, o: Seq<Result<(), String>>)
    requires
        o.len() == 3,
    ensures
        run(a, o) == next(next(next(a, o[0]), o[1]), o[2]),
{
    let o1 = o.drop_first();
    let o2 = o1.drop_first();
    let o3 = o2.drop_first();
    assert(o3.len() == 0);
    assert(o1[0] == o[1]);
    assert(o2[0] == o[2]);
    let a1 = next(a, o[0]);
    let a2 = next(a1, o[1]);
    let a3 = next(a2, o[2]);
    assert(run(a3, o3) == a3);
    assert(run(a2, o2) == run(a3, o3));
    assert(run(a1, o1) == run(a2, o2));
}

/// Once an acquisition has ended, further outcomes change nothing.
pub proof fn lemma_finished_is_final(a: AcquisitionView, outcomes: Seq<Result<(), String>>)
    requires
        a is Acquired || a is Failed,
    ensures
        run(a, outcomes) == a,
    decreases outcomes.len(),
{
    if outcomes.len() > 0 {
        lemma_finished_is_final(next(a, outcomes[0]), outcomes.drop_first());
    }
}

/// A folder target gets its folder created and a sentinel inside it; once the
/// folder and the sentinel are made, a held (unreleased) guard on that
/// sentinel results, whatever the lock request returned.
pub proof fn lemma_folder_target(target: Seq<char>, lock_outcome: Result<(), String>)
    ensures
        start(target, false) == (AcquisitionView::MakeFolder {
            folder: target,
            sentinel: sentinel_in(target),
        }),
        run(start(target, false), setup_succeeds(lock_outcome)) == AcquisitionView::Acquired(
            LockView::held(sentinel_in(target), exclusivity_of(lock_outcome)),
        ),
{
    lemma_run_three(start(target, false), setup_succeeds(lock_outcome));
}

/// A single-file target with a parent folder gets that parent created and a
/// sentinel inside it; once the folder and the sentinel are made, a held
/// guard on that sentinel results, whatever the lock request returned.
pub proof fn lemma_single_file_target(file: Seq<char>, lock_outcome: Result<(), String>)
    requires
        parent_of(file) is Some,
    ensures
        start(file, true) == (AcquisitionView::MakeFolder {
            folder: parent_of(file)->0,
            sentinel: sentinel_in(parent_of(file)->0),
        }),
        run(start(file, true), setup_succeeds(lock_outcome)) == AcquisitionView::Acquired(
            LockView::held(sentinel_in(parent_of(file)->0), exclusivity_of(lock_outcome)),
        ),
{
    lemma_run_three(start(file, true), setup_succeeds(lock_outcome));
}

/// When the lock folder cannot be created, acquisition ends with that setup
/// error and never yields a guard, whatever comes after.
pub proof fn lemma_folder_failure(
    target: Seq<char>,
    single_file: bool,
    message: String,
    rest: Seq<Result<(), String>>,
)
    requires
        folder_for(target, single_file) is Some,
    ensures
        run(start(target, single_file), seq![Err(message)] + rest) == AcquisitionView::Failed(
            SetupError::CreateFolder(message),
        ),
{
    let o = seq![Err(message)] + rest;
    assert(o.drop_first() =~= rest);
    lemma_finished_is_final(AcquisitionView::Failed(SetupError::CreateFolder(message)), rest);
}

/// After a release the guard reads as released, keeps its sentinel, and a
/// second release leaves it as the first did.
pub proof fn lemma_release_settles(l: LockView)
    ensures
        l.after_release().released,
        l.after_release().sentinel == l.sentinel,
        l.after_release().after_release() == l.after_release(),
{
}

/// Two acquisitions of the same target, one after the other, each yield a
/// held guard on the same sentinel once their setup succeeds; nothing of the
/// first cycle enters the second.
pub proof fn lemma_repeated_cycles(
    target: Seq<char>,
    single_file: bool,
    first: Result<(), String>,
    second: Result<(), String>,
)
    requires
        folder_for(target, single_file) is Some,
    ensures
        ({
            let f = folder_for(target, single_file)->0;
            &&& run(start(target, single_file), setup_succeeds(first))
                == AcquisitionView::Acquired(LockView::held(sentinel_in(f), exclusivity_of(first)))
            &&& run(start(target, single_file), setup_succeeds(second))
                == AcquisitionView::Acquired(LockView::held(sentinel_in(f), exclusivity_of(second)))
        }),
{
    lemma_run_three(start(target, single_file), setup_succeeds(first));
    lemma_run_three(start(target, single_file), setup_succeeds(second));
}

} // verus!

//! The lock guard and the steps that acquire it.
//!
//! Acquisition is a short sequence of outside operations: make the lock
//! folder, create the sentinel file, take the exclusive lock on it. The caller
//! performs each operation that the current [`Acquisition`] names and hands its
//! outcome to [`Acquisition::advance`]. A failure to set up the folder or the
//! sentinel is fatal; a failure of the lock request is not, and is recorded in
//! the guard as [`Exclusivity::Unavailable`].
use vstd::prelude::*;

use crate::location::{folder_for, lock_folder, sentinel_in, sentinel_path};

verus! {

/// Why a lock could not be set up. Each message comes from the failed
/// operation.
#[derive(Debug, PartialEq, Eq)]
pub enum SetupError {
    /// The target is a single file and its path has no parent folder.
    NoParent,
    /// The lock folder could not be created.
    CreateFolder(String),
    /// The sentinel file could not be created.
    CreateSentinel(String),
}

/// Whether the guard obtained the exclusive lock on its sentinel.
#[derive(Debug, PartialEq, Eq)]
pub enum Exclusivity {
    /// The exclusive lock is held.
    Locked,
    /// The lock request failed with this message; the guard exists but
    /// excludes nobody.
    Unavailable(String),
}

/// What must be undone on the file system when a guard is torn down.
#[derive(Debug, Clone, Copy, PartialEq, Eq, Structural)]
pub struct Teardown {
    /// Delete the sentinel file.
    pub remove_sentinel: bool,
    /// Release the OS lock on the sentinel's handle.
    pub unlock: bool,
}

/// A lock acquired on a sentinel file. The open handle on which the OS lock
/// is held belongs to whoever performed the acquisition steps.
pub struct Lock {
    sentinel: String,
    exclusivity: Exclusivity,
    released: bool,
}

/// The mathematical value of a [`Lock`].
pub struct LockView {
    pub sentinel: Seq<char>,
    pub exclusivity: Exclusivity,
    pub released: bool,
}

impl LockView {
    /// A guard just acquired on `sentinel`.
    pub open spec fn held(sentinel: Seq<char>, exclusivity: Exclusivity) -> LockView {
        LockView { sentinel, exclusivity, released: false }
    }

    /// The same guard after a release.
    pub open spec fn after_release(self) -> LockView {
        LockView { released: true, ..self }
    }
}

impl View for Lock {
    type V = LockView;

    closed spec fn view(&self) -> LockView {
        LockView { sentinel: self.sentinel@, exclusivity: self.exclusivity, released: self.released }
    }
}

impl Lock {
    /// The path of the sentinel file.
    pub fn sentinel(&self) -> (r: &str)
        ensures
            r@ == self@.sentinel,
    {
        self.sentinel.as_str()
    }

    /// The outcome of the lock request made at acquisition.
    pub fn exclusivity(&self) -> (r: &Exclusivity)
        ensures
            *r == self@.exclusivity,
    {
        &self.exclusivity
    }

    /// Whether the exclusive lock was obtained.
    pub fn is_exclusive(&self) -> (r: bool)
        ensures
            r == (self@.exclusivity is Locked),
    {
        match &self.exclusivity {
            Exclusivity::Locked => true,
            Exclusivity::Unavailable(_) => false,
        }
    }

    /// Whether the guard has been released.
    pub fn is_released(&self) -> (r: bool)
        ensures
            r == self@.released,
    {
        self.released
    }

    /// Releases the guard: the sentinel file is deleted and the OS lock
    /// released, every time it is called. Failures of either are to be
    /// ignored, so a release may be repeated at will.
    pub fn release(&mut self) -> (r: Teardown)
        ensures
            final(self)@ == old(self)@.after_release(),
            r == (Teardown { remove_sentinel: true, unlock: true }),
    {
        self.released = true;
        Teardown { remove_sentinel: true, unlock: true }
    }

    /// What must be undone when the guard goes out of scope: the OS lock is
    /// always released, the sentinel deleted only if no release has done so.
    pub fn on_drop(&self) -> (r: Teardown)
        ensures
            r == (Teardown { remove_sentinel: !self@.released, unlock: true }),
    {
        Teardown { remove_sentinel: !self.released, unlock: true }
    }
}

/// One stage of acquiring a lock. Each stage before the last two names the
/// outside operation to perform next.
pub enum Acquisition {
    /// Create `folder` and any missing ancestors.
    MakeFolder { folder: String, sentinel: String },
    /// Create (or truncate) the sentinel file and keep its handle open.
    OpenSentinel { sentinel: String },
    /// Request an exclusive, blocking lock on the sentinel's handle.
    TakeLock { sentinel: String },
    /// The guard is acquired.
    Acquired(Lock),
    /// Setup failed; no guard exists.
    Failed(SetupError),
}

/// The mathematical value of an [`Acquisition`].
pub enum AcquisitionView {
    MakeFolder { folder: Seq<char>, sentinel: Seq<char> },
    OpenSentinel { sentinel: Seq<char> },
    TakeLock { sentinel: Seq<char> },
    Acquired(LockView),
    Failed(SetupError),
}

impl View for Acquisition {
    type V = AcquisitionView;

    open spec fn view(&self) -> AcquisitionView {
        match self {
            Acquisition::MakeFolder { folder, sentinel } => AcquisitionView::MakeFolder {
                folder: folder@,
                sentinel: sentinel@,
            },
            Acquisition::OpenSentinel { sentinel } => AcquisitionView::OpenSentinel {
                sentinel: sentinel@,
            },
            Acquisition::TakeLock { sentinel } => AcquisitionView::TakeLock { sentinel: sentinel@ },
            Acquisition::Acquired(l) => AcquisitionView::Acquired(l@),
            Acquisition::Failed(e) => AcquisitionView::Failed(*e),
        }
    }
}

/// The first stage of acquiring a lock on `target`: make the folder that
/// will hold the sentinel, or fail if a single-file target has no parent.
pub open spec fn start(target: Seq<char>, single_file: bool) -> AcquisitionView {
    match folder_for(target, single_file) {
        None => AcquisitionView::Failed(SetupError::NoParent),
        Some(f) => AcquisitionView::MakeFolder { folder: f, sentinel: sentinel_in(f) },
    }
}

/// The stage that follows `a` once its operation has had `outcome`. A setup
/// failure ends the acquisition with an error; the outcome of the lock
/// request only decides whether the guard is exclusive. The last two stages
/// stay as they are.
pub open spec fn next(a: AcquisitionView, outcome: Result<(), String>) -> AcquisitionView {
    match a {
        AcquisitionView::MakeFolder { folder, sentinel } => match outcome {
            Ok(_) => AcquisitionView::OpenSentinel { sentinel },
            Err(m) => AcquisitionView::Failed(SetupError::CreateFolder(m)),
        },
        AcquisitionView::OpenSentinel { sentinel } => match outcome {
            Ok(_) => AcquisitionView::TakeLock { sentinel },
            Err(m) => AcquisitionView::Failed(SetupError::CreateSentinel(m)),
        },
        AcquisitionView::TakeLock { sentinel } => AcquisitionView::Acquired(
            LockView::held(
                sentinel,
                match outcome {
                    Ok(_) => Exclusivity::Locked,
                    Err(m) => Exclusivity::Unavailable(m),
                },
            ),
        ),
        _ => a,
    }
}

impl Acquisition {
    /// Begins acquiring a lock on `target`. With `single_file` the target is
    /// a file and the sentinel goes into its parent folder; otherwise the
    /// target is the folder itself.
    pub fn begin(target: &str, single_file: bool) -> (r: Acquisition)
        ensures
            r@ == start(target@, single_file),
    {
        match lock_folder(target, single_file) {
            None => Acquisition::Failed(SetupError::NoParent),
            Some(folder) => {
                let sentinel = sentinel_path(folder.as_str());
                Acquisition::MakeFolder { folder, sentinel }
            },
        }
    }

    /// Moves on once the operation of the current stage has had `outcome`.
    pub fn advance(self, outcome: Result<(), String>) -> (r: Acquisition)
        ensures
            r@ == next(self@, outcome),
    {
        match self {
            Acquisition::MakeFolder { folder: _, sentinel } => match outcome {
                Ok(_) => Acquisition::OpenSentinel { sentinel },
                Err(m) => Acquisition::Failed(SetupError::CreateFolder(m)),
            },
            Acquisition::OpenSentinel { sentinel } => match outcome {
                Ok(_) => Acquisition::TakeLock { sentinel },
                Err(m) => Acquisition::Failed(SetupError::CreateSentinel(m)),
            },
            Acquisition::TakeLock { sentinel } => {
                let exclusivity = match outcome {
                    Ok(_) => Exclusivity::Locked,
                    Err(m) => Exclusivity::Unavailable(m),
                };
                Acquisition::Acquired(Lock { sentinel, exclusivity, released: false })
            },
            other => other,
        }
    }

    /// Whether the acquisition has ended, with a guard or with an error.
    pub fn is_finished(&self) -> (r: bool)
        ensures
            r == (self@ is Acquired || self@ is Failed),
    {
        match self {
            Acquisition::Acquired(_) | Acquisition::Failed(_) => true,
            _ => false,
        }
    }
}

} // verus!

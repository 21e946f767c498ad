//! The lifecycle state of a single download and the transition graph it
//! must follow, together with the closed set of content-source
//! environments a download can be started against.

use vstd::prelude::*;

verus! {

/// The lifecycle state of one download.
///
/// `Completed` and `Error` are terminal: no transition leaves them.
#[derive(Debug, Clone, PartialEq, Eq)]
pub enum DownloadState {
    Waiting,
    Downloading,
    Paused,
    Completed,
    Error(String),
}

impl DownloadState {
    /// A terminal state admits no further transition.
    pub open spec fn is_terminal(self) -> bool {
        match self {
            DownloadState::Completed => true,
            DownloadState::Error(_) => true,
            _ => false,
        }
    }

    /// The transition graph: `Waiting -> Downloading`,
    /// `Downloading <-> Paused`, `Downloading -> Completed`, and any
    /// non-terminal state may fail directly to `Error`.
    pub open spec fn step_allowed(self, post: DownloadState) -> bool {
        ||| (self is Waiting && post is Downloading)
        ||| (self is Downloading && post is Paused)
        ||| (self is Paused && post is Downloading)
        ||| (self is Downloading && post is Completed)
        ||| (!self.is_terminal() && post is Error)
    }

    /// Reachability along the transition graph: `post` lies on some
    /// path from `self` through zero or more allowed steps.
    pub open spec fn reachable(self, post: DownloadState) -> bool {
        ||| self == post
        ||| (self is Waiting && (post is Downloading || post is Paused || post is Completed
            || post is Error))
        ||| (self is Downloading && (post is Paused || post is Completed || post is Error))
        ||| (self is Paused && (post is Downloading || post is Completed || post is Error))
    }

    /// One allowed step stays within reachability.
    pub proof fn lemma_step_reachable(self, post: DownloadState)
        requires
            self.step_allowed(post),
        ensures
            self.reachable(post),
    {
    }

    /// Reachability is transitive.
    pub proof fn lemma_reachable_trans(self, mid: DownloadState, post: DownloadState)
        requires
            self.reachable(mid),
            mid.reachable(post),
        ensures
            self.reachable(post),
    {
    }

    /// Executable test for a terminal state.
    pub fn terminal(&self) -> (b: bool)
        ensures
            b == self.is_terminal(),
    {
        match self {
            DownloadState::Completed => true,
            DownloadState::Error(_) => true,
            _ => false,
        }
    }
}

/// The closed set of deployment targets a content-source session can be
/// opened against.
#[derive(Debug, Clone, Copy, PartialEq, Eq, Structural)]
pub enum Environment {
    Mainnet,
    Alpha,
    Local,
}

impl Default for Environment {
    /// `Mainnet` is the designated default target.
    fn default() -> (e: Environment)
        ensures
            e == Environment::Mainnet,
    {
        Environment::Mainnet
    }
}

impl Environment {
    /// The display name of this environment.
    pub fn name(&self) -> (s: &'static str)
        ensures
            *self is Mainnet ==> s@ == "mainnet"@,
            *self is Alpha ==> s@ == "alpha"@,
            *self is Local ==> s@ == "local"@,
    {
        match self {
            Environment::Mainnet => "mainnet",
            Environment::Alpha => "alpha",
            Environment::Local => "local",
        }
    }

    /// Every selectable environment, in display order.
    pub fn all() -> (v: Vec<Environment>)
        ensures
            v@ =~= seq![Environment::Mainnet, Environment::Alpha, Environment::Local],
    {
        let mut v: Vec<Environment> = Vec::new();
        v.push(Environment::Mainnet);
        v.push(Environment::Alpha);
        v.push(Environment::Local);
        v
    }
}

} // verus!

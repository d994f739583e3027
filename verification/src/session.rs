//! The tray session as a state machine.
//!
//! A phase names the one operation that the host must perform now. The host
//! performs it, reports what came of it as a [`Reply`], and the session moves
//! to the next phase. The session itself touches nothing outside its own state.

use vstd::prelude::*;
use crate::layout::Layout;
use crate::menu::MenuAction;

verus! {

/// An error that ends the session and is handed back to the caller.
#[derive(Clone, Copy, Debug, PartialEq, Eq, Structural)]
pub enum Failure {
    /// The working directory could not be determined.
    WorkingDirectory,
    /// The resource directory could not be created.
    ResourceDirectory,
    /// The icon file, or a directory above it, could not be written.
    IconWrite,
    /// The background process could not be killed after the tray closed.
    Kill,
}

/// A bootstrap error that aborts the process.
#[derive(Clone, Copy, Debug, PartialEq, Eq, Structural)]
pub enum Fatal {
    /// The tray surface could not be created.
    TrayInit,
    /// The menu entry for this action could not be registered.
    MenuRegistration(MenuAction),
    /// The event loop returned an error.
    EventLoop,
}

/// Where a session stands: the operation it is waiting for, or how it ended.
#[derive(Clone, Copy, Debug, PartialEq, Eq, Structural)]
pub enum Phase {
    /// Create the tray surface.
    CreatingTray,
    /// Look for the development marker under the working directory.
    ProbingMarker,
    /// Look for the resource directory.
    ProbingResourceDir,
    /// Create the resource directory and any missing directory above it.
    CreatingResourceDir,
    /// Look for the icon file of this layout.
    ProbingIcon(Layout),
    /// Create the icon's directory if missing, then write the placeholder icon.
    WritingIcon(Layout),
    /// Hand the icon file of this layout to the tray.
    ApplyingIcon(Layout),
    /// Print the warning that the icon was not applied.
    Warning,
    /// Register the menu entry for this action.
    Registering(MenuAction),
    /// Run the event loop; clicks are reported while it runs.
    Waiting,
    /// Open the user interface in the browser.
    OpeningBrowser,
    /// Tell the background environment to stop.
    StoppingEnvironment,
    /// Ask the tray window to close, which lets the event loop return.
    ClosingWindow,
    /// Kill the background process by name.
    Killing,
    /// The session ended normally.
    Completed,
    /// The session ended with an error for the caller.
    Failed(Failure),
    /// The session hit a fatal bootstrap error.
    Aborted(Fatal),
}

/// What the host reports about the operation of the current phase.
#[derive(Clone, Copy, Debug, PartialEq, Eq, Structural)]
pub enum Reply {
    /// The operation completed.
    Done,
    /// The operation failed.
    Failed,
    /// The probe found what it looked for.
    Found,
    /// The probe found nothing.
    Missing,
    /// A menu entry was clicked while the event loop was running.
    Clicked(MenuAction),
}

/// The phase that follows `phase` on `reply`, or `None` where `reply` does
/// not answer the operation of `phase`.
pub open spec fn step(phase: Phase, reply: Reply) -> Option<Phase> {
    match (phase, reply) {
        (Phase::CreatingTray, Reply::Done) => Some(Phase::ProbingMarker),
        (Phase::CreatingTray, Reply::Failed) => Some(Phase::Aborted(Fatal::TrayInit)),
        (Phase::ProbingMarker, Reply::Found) => Some(Phase::ProbingResourceDir),
        (Phase::ProbingMarker, Reply::Missing) => Some(Phase::ProbingIcon(Layout::Packaged)),
        (Phase::ProbingMarker, Reply::Failed) => Some(Phase::Failed(Failure::WorkingDirectory)),
        (Phase::ProbingResourceDir, Reply::Found) => Some(Phase::ProbingIcon(Layout::Development)),
        (Phase::ProbingResourceDir, Reply::Missing) => Some(Phase::CreatingResourceDir),
        (Phase::CreatingResourceDir, Reply::Done) => Some(Phase::ProbingIcon(Layout::Development)),
        (Phase::CreatingResourceDir, Reply::Failed) => Some(
            Phase::Failed(Failure::ResourceDirectory),
        ),
        (Phase::ProbingIcon(layout), Reply::Found) => Some(Phase::ApplyingIcon(layout)),
        (Phase::ProbingIcon(layout), Reply::Missing) => Some(Phase::WritingIcon(layout)),
        (Phase::WritingIcon(layout), Reply::Done) => Some(Phase::ApplyingIcon(layout)),
        (Phase::WritingIcon(_), Reply::Failed) => Some(Phase::Failed(Failure::IconWrite)),
        (Phase::ApplyingIcon(_), Reply::Done) => Some(Phase::Registering(MenuAction::Launch)),
        (Phase::ApplyingIcon(_), Reply::Failed) => Some(Phase::Warning),
        (Phase::Warning, Reply::Done) => Some(Phase::Registering(MenuAction::Launch)),
        (Phase::Registering(MenuAction::Launch), Reply::Done) => Some(
            Phase::Registering(MenuAction::Quit),
        ),
        (Phase::Registering(MenuAction::Quit), Reply::Done) => Some(Phase::Waiting),
        (Phase::Registering(action), Reply::Failed) => Some(
            Phase::Aborted(Fatal::MenuRegistration(action)),
        ),
        (Phase::Waiting, Reply::Clicked(MenuAction::Launch)) => Some(Phase::OpeningBrowser),
        (Phase::Waiting, Reply::Clicked(MenuAction::Quit)) => Some(Phase::StoppingEnvironment),
        (Phase::Waiting, Reply::Done) => Some(Phase::Killing),
        (Phase::Waiting, Reply::Failed) => Some(Phase::Aborted(Fatal::EventLoop)),
        (Phase::OpeningBrowser, Reply::Done) => Some(Phase::Waiting),
        (Phase::OpeningBrowser, Reply::Failed) => Some(Phase::Waiting),
        (Phase::StoppingEnvironment, Reply::Done) => Some(Phase::ClosingWindow),
        (Phase::ClosingWindow, Reply::Done) => Some(Phase::Waiting),
        (Phase::Killing, Reply::Done) => Some(Phase::Completed),
        (Phase::Killing, Reply::Failed) => Some(Phase::Failed(Failure::Kill)),
        _ => None,
    }
}

/// Whether a session in `phase` has ended.
pub open spec fn is_terminal(phase: Phase) -> bool {
    phase is Completed || phase is Failed || phase is Aborted
}

impl Phase {
    /// Computes the phase that follows on `reply`, if `reply` answers this phase.
    pub fn next(self, reply: Reply) -> (following: Option<Phase>)
        ensures
            following == step(self, reply),
    {
        match self {
            Phase::CreatingTray => match reply {
                Reply::Done => Some(Phase::ProbingMarker),
                Reply::Failed => Some(Phase::Aborted(Fatal::TrayInit)),
                _ => None,
            },
            Phase::ProbingMarker => match reply {
                Reply::Found => Some(Phase::ProbingResourceDir),
                Reply::Missing => Some(Phase::ProbingIcon(Layout::Packaged)),
                Reply::Failed => Some(Phase::Failed(Failure::WorkingDirectory)),
                _ => None,
            },
            Phase::ProbingResourceDir => match reply {
                Reply::Found => Some(Phase::ProbingIcon(Layout::Development)),
                Reply::Missing => Some(Phase::CreatingResourceDir),
                _ => None,
            },
            Phase::CreatingResourceDir => match reply {
                Reply::Done => Some(Phase::ProbingIcon(Layout::Development)),
                Reply::Failed => Some(Phase::Failed(Failure::ResourceDirectory)),
                _ => None,
            },
            Phase::ProbingIcon(layout) => match reply {
                Reply::Found => Some(Phase::ApplyingIcon(layout)),
                Reply::Missing => Some(Phase::WritingIcon(layout)),
                _ => None,
            },
            Phase::WritingIcon(layout) => match reply {
                Reply::Done => Some(Phase::ApplyingIcon(layout)),
                Reply::Failed => Some(Phase::Failed(Failure::IconWrite)),
                _ => None,
            },
            Phase::ApplyingIcon(_) => match reply {
                Reply::Done => Some(Phase::Registering(MenuAction::Launch)),
                Reply::Failed => Some(Phase::Warning),
                _ => None,
            },
            Phase::Warning => match reply {
                Reply::Done => Some(Phase::Registering(MenuAction::Launch)),
                _ => None,
            },
            Phase::Registering(action) => match reply {
                Reply::Done => match action {
                    MenuAction::Launch => Some(Phase::Registering(MenuAction::Quit)),
                    MenuAction::Quit => Some(Phase::Waiting),
                },
                Reply::Failed => Some(Phase::Aborted(Fatal::MenuRegistration(action))),
                _ => None,
            },
            Phase::Waiting => match reply {
                Reply::Clicked(MenuAction::Launch) => Some(Phase::OpeningBrowser),
                Reply::Clicked(MenuAction::Quit) => Some(Phase::StoppingEnvironment),
                Reply::Done => Some(Phase::Killing),
                Reply::Failed => Some(Phase::Aborted(Fatal::EventLoop)),
                _ => None,
            },
            Phase::OpeningBrowser => match reply {
                Reply::Done | Reply::Failed => Some(Phase::Waiting),
                _ => None,
            },
            Phase::StoppingEnvironment => match reply {
                Reply::Done => Some(Phase::ClosingWindow),
                _ => None,
            },
            Phase::ClosingWindow => match reply {
                Reply::Done => Some(Phase::Waiting),
                _ => None,
            },
            Phase::Killing => match reply {
                Reply::Done => Some(Phase::Completed),
                Reply::Failed => Some(Phase::Failed(Failure::Kill)),
                _ => None,
            },
            Phase::Completed | Phase::Failed(_) | Phase::Aborted(_) => None,
        }
    }

    /// Tells whether the session has ended in this phase.
    pub fn is_finished(self) -> (finished: bool)
        ensures
            finished == is_terminal(self),
    {
        match self {
            Phase::Completed | Phase::Failed(_) | Phase::Aborted(_) => true,
            _ => false,
        }
    }
}

/// Whether some reply takes a session from `before` to `after`.
pub open spec fn follows(before: Phase, after: Phase) -> bool {
    exists|reply: Reply| step(before, reply) == Some(after)
}

/// Whether `phases` is a run: it begins where every session begins, and each
/// later phase follows the one before it.
pub open spec fn is_run(phases: Seq<Phase>) -> bool {
    &&& phases.len() > 0
    &&& phases[0] == Phase::CreatingTray
    &&& forall|i: int| 0 < i < phases.len() ==> follows(phases[i - 1], #[trigger] phases[i])
}

/// A tray session: its current phase, and in ghost state every phase it has
/// passed through.
pub struct Session {
    phase: Phase,
    trail: Ghost<Seq<Phase>>,
}

impl View for Session {
    type V = Phase;

    /// The current phase.
    closed spec fn view(&self) -> Phase {
        self.phase
    }
}

impl Session {
    #[verifier::type_invariant]
    spec fn well_formed(self) -> bool {
        is_run(self.trail@) && self.trail@.last() == self.phase
    }

    /// The phases passed through so far, the current one last.
    pub closed spec fn history(self) -> Seq<Phase> {
        self.trail@
    }

    /// Begins a session: the first thing to do is to create the tray.
    pub fn new() -> (session: Session)
        ensures
            session@ == Phase::CreatingTray,
            session.history() == seq![Phase::CreatingTray],
    {
        let ghost start = seq![Phase::CreatingTray];
        Session { phase: Phase::CreatingTray, trail: Ghost(start) }
    }

    /// The current phase. Whatever replies were given, the history is a run
    /// that ends in it.
    pub fn phase(&self) -> (phase: Phase)
        ensures
            phase == self@,
            is_run(self.history()),
            self.history().last() == phase,
    {
        proof {
            use_type_invariant(self);
        }
        self.phase
    }

    /// Takes the host's report on the operation of the current phase.
    ///
    /// A reply that answers the operation moves the session to the phase that
    /// `step` gives and is recorded in the history; any other reply is
    /// refused and changes nothing.
    pub fn advance(&mut self, reply: Reply) -> (accepted: bool)
        ensures
            accepted == step(old(self)@, reply).is_some(),
            accepted ==> final(self)@ == step(old(self)@, reply).unwrap(),
            accepted ==> final(self).history() == old(self).history().push(final(self)@),
            !accepted ==> *final(self) == *old(self),
    {
        proof {
            use_type_invariant(&*self);
        }
        match self.phase.next(reply) {
            Some(following) => {
                let ghost before = self.trail@;
                proof {
                    let after = before.push(following);
                    assert(step(before.last(), reply) == Some(following));
                    assert forall|i: int| 0 < i < after.len() implies follows(
                        after[i - 1],
                        #[trigger] after[i],
                    ) by {
                        if i < before.len() {
                            assert(follows(before[i - 1], before[i]));
                        }
                    }
                }
                let ghost after = before.push(following);
                *self = Session { phase: following, trail: Ghost(after) };
                true
            },
            None => false,
        }
    }
}

} // verus!

//! What holds of every run of a session, whatever the host replies.

use vstd::prelude::*;
use crate::menu::MenuAction;
use crate::menu::menu_entries;
use crate::session::Failure;
use crate::session::Fatal;
use crate::session::Phase;
use crate::session::Reply;
use crate::session::follows;
use crate::session::is_run;
use crate::session::is_terminal;
use crate::session::step;

verus! {

/// The menu entries that a session in `phase` has registered, top to bottom.
pub open spec fn menu_in(phase: Phase) -> Seq<MenuAction> {
    match phase {
        Phase::CreatingTray
        | Phase::ProbingMarker
        | Phase::ProbingResourceDir
        | Phase::CreatingResourceDir
        | Phase::ProbingIcon(_)
        | Phase::WritingIcon(_)
        | Phase::ApplyingIcon(_)
        | Phase::Warning
        | Phase::Registering(MenuAction::Launch)
        | Phase::Failed(Failure::WorkingDirectory)
        | Phase::Failed(Failure::ResourceDirectory)
        | Phase::Failed(Failure::IconWrite)
        | Phase::Aborted(Fatal::TrayInit)
        | Phase::Aborted(Fatal::MenuRegistration(MenuAction::Launch)) => Seq::empty(),
        Phase::Registering(MenuAction::Quit)
        | Phase::Aborted(Fatal::MenuRegistration(MenuAction::Quit)) => seq![MenuAction::Launch],
        _ => menu_entries(),
    }
}

/// The entries whose registration succeeded along `phases`, in the order in
/// which they were registered.
pub open spec fn registered(phases: Seq<Phase>) -> Seq<MenuAction>
    decreases phases.len(),
{
    if phases.len() < 2 {
        Seq::empty()
    } else {
        let earlier = registered(phases.drop_last());
        match phases[phases.len() - 2] {
            Phase::Registering(action) => if phases.last() is Aborted {
                earlier
            } else {
                earlier.push(action)
            },
            _ => earlier,
        }
    }
}

/// A run without its last phase is still a run.
pub proof fn lemma_run_prefix(phases: Seq<Phase>)
    requires
        is_run(phases),
        phases.len() >= 2,
    ensures
        is_run(phases.drop_last()),
        follows(phases[phases.len() - 2], phases.last()),
{
    let shorter = phases.drop_last();
    assert forall|i: int| 0 < i < shorter.len() implies follows(
        shorter[i - 1],
        #[trigger] shorter[i],
    ) by {
        assert(follows(phases[i - 1], phases[i]));
    }
    assert(follows(phases[phases.len() - 2], phases[phases.len() - 1]));
}

/// The menu is registered in its fixed order: along every run the entries
/// registered so far are exactly those that the current phase stands for,
/// which is never anything but a prefix of launch, then quit.
pub proof fn lemma_menu_order(phases: Seq<Phase>)
    requires
        is_run(phases),
    ensures
        registered(phases) == menu_in(phases.last()),
        registered(phases).is_prefix_of(menu_entries()),
    decreases phases.len(),
{
    if phases.len() >= 2 {
        lemma_run_prefix(phases);
        lemma_menu_order(phases.drop_last());
        let before = phases[phases.len() - 2];
        let after = phases.last();
        assert(phases.drop_last().last() == before);
        let reply = choose|reply: Reply| step(before, reply) == Some(after);
        assert(step(before, reply) == Some(after));
        assert(registered(phases) =~= menu_in(after));
    } else {
        assert(phases.last() == phases[0]);
        assert(registered(phases) =~= menu_in(phases.last()));
    }
    assert(menu_in(phases.last()).is_prefix_of(menu_entries())) by {
        let m = menu_in(phases.last());
        assert(m =~= menu_entries().subrange(0, m.len() as int));
    }
}

/// Once the event loop runs, both entries are registered, launch above quit.
pub proof fn lemma_menu_complete_when_waiting(phases: Seq<Phase>)
    requires
        is_run(phases),
        phases.last() == Phase::Waiting,
    ensures
        registered(phases) == seq![MenuAction::Launch, MenuAction::Quit],
{
    lemma_menu_order(phases);
}

/// The quit entry is registered directly after the launch entry, and the
/// event loop is first entered directly after the quit entry.
pub proof fn lemma_registration_is_consecutive(phases: Seq<Phase>, i: int)
    requires
        is_run(phases),
        0 <= i < phases.len(),
        phases[i] == Phase::Registering(MenuAction::Quit),
    ensures
        i >= 1,
        phases[i - 1] == Phase::Registering(MenuAction::Launch),
        i + 1 < phases.len() && !(phases[i + 1] is Aborted) ==> phases[i + 1] == Phase::Waiting,
{
    assert(follows(phases[i - 1], phases[i]));
    if i + 1 < phases.len() {
        assert(follows(phases[i], phases[i + 1]));
    }
}

/// A click on quit stops the environment before it closes the window: the
/// window is asked to close only directly after the environment was told to
/// stop, and that only directly after a click on quit in the event loop.
pub proof fn lemma_stop_precedes_close(phases: Seq<Phase>, i: int)
    requires
        is_run(phases),
        0 <= i < phases.len(),
        phases[i] == Phase::ClosingWindow,
    ensures
        i >= 2,
        phases[i - 1] == Phase::StoppingEnvironment,
        phases[i - 2] == Phase::Waiting,
        step(phases[i - 2], Reply::Clicked(MenuAction::Quit)) == Some(phases[i - 1]),
{
    assert(follows(phases[i - 1], phases[i]));
    assert(phases[i - 1] == Phase::StoppingEnvironment);
    assert(follows(phases[i - 2], phases[i - 1]));
}

/// Whatever comes of opening the browser, the session goes back to waiting
/// for clicks: a failure ends nothing and is reported nowhere.
pub proof fn lemma_browser_outcome_is_ignored(reply: Reply)
    requires
        step(Phase::OpeningBrowser, reply).is_some(),
    ensures
        step(Phase::OpeningBrowser, reply) == Some(Phase::Waiting),
        step(Phase::OpeningBrowser, Reply::Failed) == step(Phase::OpeningBrowser, Reply::Done),
{
}

/// A failure to apply the icon costs one warning and nothing else: with or
/// without it the launch entry is registered next.
pub proof fn lemma_icon_failure_is_tolerated(phases: Seq<Phase>, i: int)
    requires
        is_run(phases),
        0 <= i < phases.len(),
        phases[i] is ApplyingIcon,
        i + 1 < phases.len(),
    ensures
        phases[i + 1] == Phase::Registering(MenuAction::Launch) || (phases[i + 1] == Phase::Warning
            && (i + 2 < phases.len() ==> phases[i + 2] == Phase::Registering(
            MenuAction::Launch,
        ))),
{
    assert(follows(phases[i], phases[i + 1]));
    if i + 2 < phases.len() {
        assert(follows(phases[i + 1], phases[i + 2]));
    }
}

/// The background process is killed only when the event loop has returned,
/// and the session ends normally only when that kill succeeded; a kill that
/// fails is what the session ends with.
pub proof fn lemma_kill_decides_the_result(phases: Seq<Phase>, i: int)
    requires
        is_run(phases),
        0 <= i < phases.len(),
    ensures
        phases[i] == Phase::Killing ==> i >= 1 && phases[i - 1] == Phase::Waiting,
        phases[i] == Phase::Completed ==> i >= 1 && phases[i - 1] == Phase::Killing,
        phases[i] == Phase::Failed(Failure::Kill) ==> i >= 1 && phases[i - 1] == Phase::Killing,
        step(Phase::Killing, Reply::Failed) == Some(Phase::Failed(Failure::Kill)),
        step(Phase::Killing, Reply::Done) == Some(Phase::Completed),
{
    if i >= 1 {
        assert(follows(phases[i - 1], phases[i]));
    }
}

/// A phase that ends the session accepts no reply, and every other phase
/// accepts at least one.
pub proof fn lemma_terminal_iff_stuck(phase: Phase)
    ensures
        is_terminal(phase) <==> forall|reply: Reply| step(phase, reply) is None,
{
    if !is_terminal(phase) {
        assert(step(phase, Reply::Done).is_some() || step(phase, Reply::Found).is_some());
    }
}

/// Nothing follows the end of a session: a terminal phase is the last of its run.
pub proof fn lemma_terminal_is_last(phases: Seq<Phase>, i: int)
    requires
        is_run(phases),
        0 <= i < phases.len(),
        is_terminal(phases[i]),
    ensures
        i == phases.len() - 1,
{
    if i + 1 < phases.len() {
        assert(follows(phases[i], phases[i + 1]));
    }
}

/// Number of replies after which the bootstrap is over at the latest.
pub open spec fn bootstrap_bound() -> int {
    10
}

/// How far `phase` is into the bootstrap, counted in operations of the
/// longest way there; the bound itself once the bootstrap is over.
pub open spec fn progress(phase: Phase) -> int {
    match phase {
        Phase::CreatingTray => 0,
        Phase::ProbingMarker => 1,
        Phase::ProbingResourceDir => 2,
        Phase::CreatingResourceDir => 3,
        Phase::ProbingIcon(_) => 4,
        Phase::WritingIcon(_) => 5,
        Phase::ApplyingIcon(_) => 6,
        Phase::Warning => 7,
        Phase::Registering(MenuAction::Launch) => 8,
        Phase::Registering(MenuAction::Quit) => 9,
        _ => bootstrap_bound(),
    }
}

/// The bootstrap never goes back and never stalls: each reply takes the
/// session further, so after ten replies at the latest the event loop is
/// running or the session has ended.
pub proof fn lemma_bootstrap_is_bounded(phases: Seq<Phase>, i: int)
    requires
        is_run(phases),
        0 <= i < phases.len(),
    ensures
        progress(phases[i]) >= i || progress(phases[i]) == bootstrap_bound(),
        i >= bootstrap_bound() ==> progress(phases[i]) == bootstrap_bound(),
    decreases i,
{
    if i >= 1 {
        lemma_bootstrap_is_bounded(phases, i - 1);
        assert(follows(phases[i - 1], phases[i]));
    }
}

} // verus!

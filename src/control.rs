//! The control loop's decisions: one tick takes what the foreground resolver
//! reported, keeps the last observed executable path, and says whether the
//! layout has to be read and switched.
use vstd::prelude::*;
use crate::locale::LayoutId;
use crate::policy::{PolicyMap, desired_layout_of, file_name_of, first_language, app_language};
use crate::system::{Foreground, LayoutQueryError, QueryError, WindowHandle};

verus! {

/// What a tick does after resolving the foreground application.
#[derive(Clone, Copy, Debug, PartialEq, Eq, Structural)]
pub enum TickAction {
    /// The foreground could not be resolved: the tick ends here.
    Skip(QueryError),
    /// The same executable as last time: nothing is queried.
    Unchanged,
    /// A new executable that the policy gives no layout.
    NoPolicy,
    /// A new executable that wants `desired`: read the layout of `thread`
    /// and decide on a switch of `window`.
    CheckLayout { window: WindowHandle, thread: u32, desired: LayoutId },
}

/// What to do once the current layout has been read.
#[derive(Clone, Copy, Debug, PartialEq, Eq, Structural)]
pub enum SwitchDecision {
    /// The current layout could not be read: the tick ends here.
    LayoutUnreadable(LayoutQueryError),
    /// The wanted layout is already active.
    AlreadyActive,
    /// Switch `window` to `layout`.
    Switch { window: WindowHandle, layout: LayoutId },
}

/// Whether `curr` is a new foreground executable after `prev`.
pub open spec fn is_new_path(prev: Option<Seq<char>>, curr: Seq<char>) -> bool {
    match prev {
        Some(p) => p != curr,
        None => true,
    }
}

/// The last observed path after a tick that resolved `observed`.
pub open spec fn next_observed(last: Option<Seq<char>>, observed: Result<Foreground, QueryError>) -> Option<
    Seq<char>,
> {
    match observed {
        Ok(fg) => if is_new_path(last, fg.path@) {
            Some(fg.path@)
        } else {
            last
        },
        Err(_) => last,
    }
}

/// What a tick does after it resolved `observed`, with `last` observed before.
pub open spec fn tick_action(
    last: Option<Seq<char>>,
    observed: Result<Foreground, QueryError>,
    policy: Seq<(Seq<char>, Seq<Seq<char>>)>,
) -> TickAction {
    match observed {
        Err(e) => TickAction::Skip(e),
        Ok(fg) => if !is_new_path(last, fg.path@) {
            TickAction::Unchanged
        } else {
            match desired_layout_of(fg.path@, policy) {
                None => TickAction::NoPolicy,
                Some(l) => TickAction::CheckLayout { window: fg.window, thread: fg.thread, desired: l },
            }
        },
    }
}

/// The decision once the current layout was read: switch only on a mismatch.
pub open spec fn switch_decision(
    window: WindowHandle,
    desired: LayoutId,
    current: Result<LayoutId, LayoutQueryError>,
) -> SwitchDecision {
    match current {
        Err(e) => SwitchDecision::LayoutUnreadable(e),
        Ok(c) => if c == desired {
            SwitchDecision::AlreadyActive
        } else {
            SwitchDecision::Switch { window, layout: desired }
        },
    }
}

/// Whether `curr` differs from the previously observed path; true when
/// nothing was observed before.
pub fn path_changed(prev: Option<&String>, curr: &String) -> (r: bool)
    ensures
        r == match prev {
            Some(p) => p@ != curr@,
            None => true,
        },
{
    match prev {
        Some(p) => !(*p == *curr),
        None => true,
    }
}

/// Decides on a switch of `window` to `desired` from the layout read for its
/// thread.
pub fn decide_switch(
    window: WindowHandle,
    desired: LayoutId,
    current: Result<LayoutId, LayoutQueryError>,
) -> (r: SwitchDecision)
    ensures
        r == switch_decision(window, desired, current),
{
    match current {
        Err(e) => SwitchDecision::LayoutUnreadable(e),
        Ok(c) => if c == desired {
            SwitchDecision::AlreadyActive
        } else {
            SwitchDecision::Switch { window, layout: desired }
        },
    }
}

/// The loop's state: the executable path of the last foreground application
/// it observed.
pub struct ControlLoop {
    pub last: Option<String>,
}

impl View for ControlLoop {
    type V = Option<Seq<char>>;

    open spec fn view(&self) -> Option<Seq<char>> {
        match self.last {
            Some(p) => Some(p@),
            None => None,
        }
    }
}

impl ControlLoop {
    /// A loop that has observed nothing yet.
    pub fn new() -> (r: ControlLoop)
        ensures
            r@ is None,
    {
        ControlLoop { last: None }
    }

    /// The first half of a tick: takes what the foreground resolver reported,
    /// records a new executable path, and says what comes next. A failed
    /// resolution changes nothing.
    pub fn on_foreground(&mut self, observed: Result<Foreground, QueryError>, policy: &PolicyMap) -> (r:
        TickAction)
        ensures
            final(self)@ == next_observed(old(self)@, observed),
            r == tick_action(old(self)@, observed, policy@),
    {
        match observed {
            Err(e) => TickAction::Skip(e),
            Ok(fg) => {
                if !path_changed(self.last.as_ref(), &fg.path) {
                    return TickAction::Unchanged;
                }
                let desired = crate::policy::find_app_lang(&fg.path, policy);
                let window = fg.window;
                let thread = fg.thread;
                self.last = Some(fg.path);
                match desired {
                    None => TickAction::NoPolicy,
                    Some(l) => TickAction::CheckLayout { window, thread, desired: l },
                }
            },
        }
    }
}

/// Two consecutive ticks that resolve the same executable path: the second
/// neither reads a layout nor switches, and keeps the state.
pub proof fn lemma_stable_focus_is_quiet(
    last: Option<Seq<char>>,
    first: Foreground,
    second: Foreground,
    policy: Seq<(Seq<char>, Seq<Seq<char>>)>,
)
    requires
        first.path@ == second.path@,
    ensures
        tick_action(next_observed(last, Ok(first)), Ok(second), policy) == TickAction::Unchanged,
        next_observed(next_observed(last, Ok(first)), Ok(second)) == next_observed(last, Ok(first)),
{
}

proof fn lemma_unlisted_has_no_language(entries: Seq<(Seq<char>, Seq<Seq<char>>)>, app: Seq<char>)
    requires
        forall|i: int| 0 <= i < entries.len() ==> !(#[trigger] entries[i]).1.contains(app),
    ensures
        first_language(entries, app) is None,
    decreases entries.len(),
{
    if entries.len() > 0 {
        assert(!entries[0].1.contains(app));
        assert forall|i: int| 0 <= i < entries.drop_first().len() implies !(
        #[trigger] entries.drop_first()[i]).1.contains(app) by {
            assert(entries.drop_first()[i] == entries[i + 1]);
        }
        lemma_unlisted_has_no_language(entries.drop_first(), app);
    }
}

/// An executable whose file name no policy entry lists is never switched:
/// its tick asks for no layout check.
pub proof fn lemma_unlisted_app_never_switches(
    last: Option<Seq<char>>,
    fg: Foreground,
    policy: Seq<(Seq<char>, Seq<Seq<char>>)>,
)
    requires
        forall|i: int|
            0 <= i < policy.len() ==> !(#[trigger] policy[i]).1.contains(file_name_of(fg.path@)),
    ensures
        !(tick_action(last, Ok(fg), policy) is CheckLayout),
{
    lemma_unlisted_has_no_language(policy, file_name_of(fg.path@));
    assert(app_language(fg.path@, policy) is None);
}

/// A new executable whose wanted layout is already the current one: the tick
/// checks the layout and issues no switch.
pub proof fn lemma_matching_layout_is_kept(
    last: Option<Seq<char>>,
    fg: Foreground,
    policy: Seq<(Seq<char>, Seq<Seq<char>>)>,
    current: LayoutId,
)
    requires
        is_new_path(last, fg.path@),
        desired_layout_of(fg.path@, policy) == Some(current),
    ensures
        tick_action(last, Ok(fg), policy) == (TickAction::CheckLayout {
            window: fg.window,
            thread: fg.thread,
            desired: current,
        }),
        switch_decision(fg.window, current, Ok(current)) == SwitchDecision::AlreadyActive,
{
}

/// A new executable whose wanted layout differs from the current one: the
/// tick issues exactly one switch, of this tick's window, to the wanted
/// layout.
pub proof fn lemma_mismatch_switches_to_policy(
    last: Option<Seq<char>>,
    fg: Foreground,
    policy: Seq<(Seq<char>, Seq<Seq<char>>)>,
    desired: LayoutId,
    current: LayoutId,
)
    requires
        is_new_path(last, fg.path@),
        desired_layout_of(fg.path@, policy) == Some(desired),
        current != desired,
    ensures
        tick_action(last, Ok(fg), policy) == (TickAction::CheckLayout {
            window: fg.window,
            thread: fg.thread,
            desired,
        }),
        switch_decision(fg.window, desired, Ok(current)) == (SwitchDecision::Switch {
            window: fg.window,
            layout: desired,
        }),
{
}

/// Three ticks in a row whose resolution fails each end at once and leave
/// the observed path as it was.
pub proof fn lemma_failed_ticks_keep_state(
    last: Option<Seq<char>>,
    e1: QueryError,
    e2: QueryError,
    e3: QueryError,
    policy: Seq<(Seq<char>, Seq<Seq<char>>)>,
)
    ensures
        tick_action(last, Err(e1), policy) == TickAction::Skip(e1),
        tick_action(next_observed(last, Err(e1)), Err(e2), policy) == TickAction::Skip(e2),
        tick_action(
            next_observed(next_observed(last, Err(e1)), Err(e2)),
            Err(e3),
            policy,
        ) == TickAction::Skip(e3),
        next_observed(next_observed(next_observed(last, Err(e1)), Err(e2)), Err(e3)) == last,
{
}

} // verus!

//! Chooses which window a close request is delivered to.
use vstd::prelude::*;

use crate::resource::XResourceId;

verus! {

#[derive(Clone, Copy, Debug, PartialEq, Eq, Structural)]
pub struct XCloseTargetDecision {
    pub window: XResourceId,
    pub exact_advertises_delete: bool,
    pub fallback_used: bool,
    pub protocol_window_count: usize,
}

/// The windows that advertise `WM_DELETE_WINDOW`, in the order given.
pub open spec fn delete_windows(protocol_windows: Seq<(XResourceId, bool)>) -> Seq<XResourceId>
    decreases protocol_windows.len(),
{
    if protocol_windows.len() == 0 {
        Seq::empty()
    } else {
        let rest = delete_windows(protocol_windows.drop_last());
        if protocol_windows.last().1 {
            rest.push(protocol_windows.last().0)
        } else {
            rest
        }
    }
}

/// The nearest ancestor that is among `eligible`.
pub open spec fn first_eligible(ancestors: Seq<XResourceId>, eligible: Seq<XResourceId>) -> Option<
    XResourceId,
>
    decreases ancestors.len(),
{
    if ancestors.len() == 0 {
        None
    } else if eligible.contains(ancestors[0]) {
        Some(ancestors[0])
    } else {
        first_eligible(ancestors.drop_first(), eligible)
    }
}

/// The window a close request is delivered to: the exact window if it takes
/// `WM_DELETE_WINDOW`; otherwise its nearest ancestor that does; otherwise
/// the only window of the client that does, if there is exactly one.
pub open spec fn close_target_decision(
    exact: XResourceId,
    ancestors: Seq<XResourceId>,
    protocol_windows: Seq<(XResourceId, bool)>,
) -> XCloseTargetDecision {
    let eligible = delete_windows(protocol_windows);
    let exact_advertises_delete = eligible.contains(exact);
    let ancestor = if exact_advertises_delete {
        None
    } else {
        first_eligible(ancestors, eligible)
    };
    let fallback = if ancestor is Some {
        ancestor
    } else if !exact_advertises_delete && eligible.len() == 1 {
        Some(eligible[0])
    } else {
        None
    };
    XCloseTargetDecision {
        window: match fallback {
            Some(w) => w,
            None => exact,
        },
        exact_advertises_delete,
        fallback_used: fallback is Some,
        protocol_window_count: eligible.len() as usize,
    }
}

/// A window that itself takes `WM_DELETE_WINDOW` is always the target.
pub proof fn law_exact_window_wins(
    exact: XResourceId,
    ancestors: Seq<XResourceId>,
    protocol_windows: Seq<(XResourceId, bool)>,
)
    requires
        delete_windows(protocol_windows).contains(exact),
    ensures
        close_target_decision(exact, ancestors, protocol_windows).window == exact,
        close_target_decision(exact, ancestors, protocol_windows).exact_advertises_delete,
        !close_target_decision(exact, ancestors, protocol_windows).fallback_used,
{
}

/// With no window taking `WM_DELETE_WINDOW`, the request goes to the exact
/// window, as a forced close.
pub proof fn law_no_delete_window_keeps_exact(
    exact: XResourceId,
    ancestors: Seq<XResourceId>,
    protocol_windows: Seq<(XResourceId, bool)>,
)
    requires
        delete_windows(protocol_windows).len() == 0,
    ensures
        close_target_decision(exact, ancestors, protocol_windows).window == exact,
        !close_target_decision(exact, ancestors, protocol_windows).fallback_used,
    decreases ancestors.len(),
{
    if ancestors.len() > 0 {
        law_no_delete_window_keeps_exact(exact, ancestors.drop_first(), protocol_windows);
    }
}

fn contains_window(windows: &Vec<XResourceId>, window: XResourceId) -> (found: bool)
    ensures
        found == windows@.contains(window),
{
    let mut i: usize = 0;
    while i < windows.len()
        invariant
            i <= windows@.len(),
            forall|j: int| 0 <= j < i ==> windows@[j] != window,
        decreases windows@.len() - i,
    {
        if windows[i] == window {
            assert(windows@[i as int] == window);
            return true;
        }
        i = i + 1;
    }
    false
}

pub fn select_x_close_target(
    exact: XResourceId,
    ancestors: &[XResourceId],
    protocol_windows: &[(XResourceId, bool)],
) -> (decision: XCloseTargetDecision)
    ensures
        decision == close_target_decision(exact, ancestors@, protocol_windows@),
{
    let mut eligible: Vec<XResourceId> = Vec::new();
    let mut i: usize = 0;
    while i < protocol_windows.len()
        invariant
            i <= protocol_windows@.len(),
            eligible@ == delete_windows(protocol_windows@.subrange(0, i as int)),
            eligible@.len() <= i,
        decreases protocol_windows@.len() - i,
    {
        let (window, advertises_delete) = protocol_windows[i];
        assert(protocol_windows@.subrange(0, i + 1).drop_last() =~= protocol_windows@.subrange(
            0,
            i as int,
        ));
        if advertises_delete {
            eligible.push(window);
        }
        i = i + 1;
    }
    assert(protocol_windows@.subrange(0, protocol_windows@.len() as int) =~= protocol_windows@);
    let exact_advertises_delete = contains_window(&eligible, exact);
    let mut ancestor: Option<XResourceId> = None;
    if !exact_advertises_delete {
        let mut k: usize = 0;
        assert(ancestors@.subrange(0, ancestors@.len() as int) =~= ancestors@);
        while k < ancestors.len() && ancestor.is_none()
            invariant
                k <= ancestors@.len(),
                ancestor is None ==> first_eligible(ancestors@, eligible@) == first_eligible(
                    ancestors@.subrange(k as int, ancestors@.len() as int),
                    eligible@,
                ),
                ancestor is Some ==> ancestor == first_eligible(ancestors@, eligible@),
            decreases ancestors@.len() - k,
        {
            assert(ancestors@.subrange(k as int, ancestors@.len() as int).drop_first()
                =~= ancestors@.subrange(k + 1, ancestors@.len() as int));
            if contains_window(&eligible, ancestors[k]) {
                ancestor = Some(ancestors[k]);
            }
            k = k + 1;
        }
    }
    let fallback = if ancestor.is_some() {
        ancestor
    } else if !exact_advertises_delete && eligible.len() == 1 {
        Some(eligible[0])
    } else {
        None
    };
    XCloseTargetDecision {
        window: match fallback {
            Some(w) => w,
            None => exact,
        },
        exact_advertises_delete,
        fallback_used: fallback.is_some(),
        protocol_window_count: eligible.len(),
    }
}

} // verus!

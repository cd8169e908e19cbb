use vstd::prelude::*;

verus! {

use crate::coordinator::icon_state_step;
use crate::coordinator::title_step;
use crate::coordinator::TrayErrorView;
use crate::coordinator::TrayView;
use crate::resolver::spec_parse_state;
use crate::resolver::spec_resource_path;
use crate::resolver::VisualState;

/// Applying a known state name with a successful resource load, on a host
/// with tray operations and an existing tray icon, succeeds, and afterwards
/// the tray displays exactly the requested state — its resolved resource
/// path is the requested state's path; nothing else changes.
pub proof fn lemma_icon_state_applied(pre: TrayView, state: Seq<char>, v: VisualState)
    requires
        pre.supports_tray_ops,
        pre.tray_exists,
        spec_parse_state(state) == Some(v),
    ensures
        icon_state_step(pre, state, Ok(())).1 == Ok::<(), TrayErrorView>(()),
        icon_state_step(pre, state, Ok(())).0 == (TrayView { visual: v, ..pre }),
        spec_resource_path(icon_state_step(pre, state, Ok(())).0.visual) == spec_resource_path(v),
{
}

/// Applying the same state name twice, from any starting state and with the
/// same load outcome, leaves the same state and returns the same result as
/// applying it once: every state-mutating command is idempotent.
pub proof fn lemma_icon_state_idempotent(pre: TrayView, state: Seq<char>, load: Result<
    (),
    Seq<char>,
>)
    ensures
        ({
            let (s1, r1) = icon_state_step(pre, state, load);
            let (s2, r2) = icon_state_step(s1, state, load);
            s2 == s1 && r2 == r1
        }),
{
}

/// A state name outside the known set succeeds without any change, from
/// every starting state and whatever the load outcome: unknown states are
/// deliberately ignored, not rejected.
pub proof fn lemma_unknown_state_ignored(pre: TrayView, state: Seq<char>, load: Result<
    (),
    Seq<char>,
>)
    requires
        spec_parse_state(state) is None,
    ensures
        icon_state_step(pre, state, load) == (pre, Ok::<(), TrayErrorView>(())),
{
}

/// Setting any title and then the empty string ends in the "no title"
/// state, not in a literal empty title, on a host with tray operations and
/// an existing tray icon; both commands succeed.
pub proof fn lemma_title_clear(pre: TrayView, t: Seq<char>)
    requires
        pre.supports_tray_ops,
        pre.tray_exists,
    ensures
        ({
            let (mid, r1) = title_step(pre, t);
            let (post, r2) = title_step(mid, Seq::<char>::empty());
            r1 == Ok::<(), TrayErrorView>(()) && r2 == Ok::<(), TrayErrorView>(()) && post.title
                is None
        }),
{
}

/// While no tray icon exists — before a successful `initialize`, or after a
/// failed one — every tray-mutating command on a host with tray operations
/// fails with `TrayNotFound` and changes nothing. The state name is taken
/// known and the load successful, so that only the missing tray decides.
pub proof fn lemma_mutation_without_tray(pre: TrayView, state: Seq<char>, title: Seq<char>, v: VisualState)
    requires
        pre.supports_tray_ops,
        !pre.tray_exists,
        spec_parse_state(state) == Some(v),
    ensures
        icon_state_step(pre, state, Ok(())) == (
            pre,
            Err::<(), TrayErrorView>(TrayErrorView::TrayNotFound),
        ),
        title_step(pre, title) == (pre, Err::<(), TrayErrorView>(TrayErrorView::TrayNotFound)),
{
}

} // verus!

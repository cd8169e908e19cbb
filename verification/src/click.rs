use vstd::prelude::*;

verus! {

/// A pointing-device button on the tray icon, as the host reports it.
#[derive(Clone, Copy, PartialEq, Eq, Structural, Debug)]
pub enum TrayButton {
    /// The default (left) activation button.
    Primary,
    /// The secondary (context-menu) button.
    Secondary,
    /// The middle button.
    Middle,
}

/// A user interaction with the tray icon, as the host delivers it.
#[derive(Clone, Copy, PartialEq, Eq, Structural, Debug)]
pub enum TrayInteraction {
    Click(TrayButton),
    DoubleClick(TrayButton),
    Enter,
    Move,
    Leave,
}

/// A best-effort request the click handler issues against the main window.
#[derive(Clone, Copy, PartialEq, Eq, Structural, Debug)]
pub enum WindowRequest {
    /// Ask the host to show the window.
    Show,
    /// Ask the host to give the window keyboard focus.
    Focus,
}

/// The requests a tray interaction gives rise to: a primary-button click
/// while the main window exists asks for exactly one show and then one
/// focus; every other interaction, and any interaction while the window
/// is absent, asks for nothing.
pub open spec fn spec_restore_requests(e: TrayInteraction, window_exists: bool) -> Seq<
    WindowRequest,
> {
    if e == TrayInteraction::Click(TrayButton::Primary) && window_exists {
        seq![WindowRequest::Show, WindowRequest::Focus]
    } else {
        Seq::empty()
    }
}

/// Decides what the click handler does with one tray interaction.
/// `window_exists` is the host's answer to looking the main window up by
/// its fixed logical name at this moment. The requests returned are
/// best-effort: the caller issues them and discards their outcomes.
pub fn restore_requests(e: &TrayInteraction, window_exists: bool) -> (r: Vec<WindowRequest>)
    ensures
        r@ == spec_restore_requests(*e, window_exists),
{
    match *e {
        TrayInteraction::Click(TrayButton::Primary) => {
            if window_exists {
                let mut r: Vec<WindowRequest> = Vec::new();
                r.push(WindowRequest::Show);
                r.push(WindowRequest::Focus);
                proof {
                    assert(r@ =~= seq![WindowRequest::Show, WindowRequest::Focus]);
                }
                r
            } else {
                Vec::new()
            }
        },
        _ => Vec::new(),
    }
}

} // verus!

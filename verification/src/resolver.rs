use vstd::prelude::*;

verus! {

use vstd::string::StrSliceExecFns;

/// The two visual states the tray icon can display.
#[derive(Clone, Copy, PartialEq, Eq, Structural, Debug)]
pub enum VisualState {
    Playing,
    Paused,
}

/// How a raw state name from the command surface is read: the two known
/// names map to their states, every other string to `None` (a deliberate
/// no-op signal, not an error).
pub open spec fn spec_parse_state(s: Seq<char>) -> Option<VisualState> {
    if s == "play"@ {
        Some(VisualState::Playing)
    } else if s == "pause"@ {
        Some(VisualState::Paused)
    } else {
        None
    }
}

/// The fixed relative resource path each visual state resolves to.
pub open spec fn spec_resource_path(v: VisualState) -> Seq<char> {
    match v {
        VisualState::Playing => "tray-icons/play.png"@,
        VisualState::Paused => "tray-icons/pause.png"@,
    }
}

/// Character-by-character string comparison.
pub fn str_eq(a: &str, b: &str) -> (r: bool)
    ensures
        r == (a@ == b@),
{
    let alen: usize = a.unicode_len();
    let blen: usize = b.unicode_len();
    if alen != blen {
        return false;
    }
    let mut i: usize = 0;
    while i < alen
        invariant
            alen == a@.len(),
            alen == b@.len(),
            i <= alen,
            forall|j: int| 0 <= j < i ==> a@[j] == b@[j],
        decreases alen - i,
    {
        if a.get_char(i) != b.get_char(i) {
            return false;
        }
        i += 1;
    }
    proof {
        assert(a@ =~= b@);
    }
    true
}

/// Reads a raw state name; returns the matching visual state, or `None`
/// for any name this version does not know.
pub fn parse_state(state: &str) -> (r: Option<VisualState>)
    ensures
        r == spec_parse_state(state@),
{
    if str_eq(state, "play") {
        Some(VisualState::Playing)
    } else if str_eq(state, "pause") {
        Some(VisualState::Paused)
    } else {
        None
    }
}

/// Resolves a visual state to its packaged icon's relative path.
pub fn resource_path(state: VisualState) -> (r: &'static str)
    ensures
        r@ == spec_resource_path(state),
{
    match state {
        VisualState::Playing => "tray-icons/play.png",
        VisualState::Paused => "tray-icons/pause.png",
    }
}

} // verus!

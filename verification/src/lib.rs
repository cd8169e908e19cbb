use vstd::prelude::*;

mod click;
mod coordinator;
mod laws;
mod resolver;

pub use laws::lemma_icon_state_applied;
pub use laws::lemma_icon_state_idempotent;
pub use laws::lemma_mutation_without_tray;
pub use laws::lemma_title_clear;
pub use laws::lemma_unknown_state_ignored;

pub use click::restore_requests;
pub use click::spec_restore_requests;
pub use click::TrayButton;
pub use click::TrayInteraction;
pub use click::WindowRequest;

pub use coordinator::cmd_view;
pub use coordinator::icon_state_step;
pub use coordinator::init_step;
pub use coordinator::load_view;
pub use coordinator::spec_message;
pub use coordinator::title_step;
pub use coordinator::TrayCoordinator;
pub use coordinator::TrayError;
pub use coordinator::TrayErrorView;
pub use coordinator::TrayView;

pub use resolver::parse_state;
pub use resolver::resource_path;
pub use resolver::spec_parse_state;
pub use resolver::spec_resource_path;
pub use resolver::str_eq;
pub use resolver::VisualState;

verus! {

use vstd::string::StringExecFns;

/// Formats the fixed greeting for `name`.
pub fn greet(name: &str) -> (r: String)
    ensures
        r@ == "Hello, "@ + name@ + "! You've been greeted from Rust!"@,
{
    let mut r = String::new();
    r.append("Hello, ");
    r.append(name);
    r.append("! You've been greeted from Rust!");
    r
}

} // verus!

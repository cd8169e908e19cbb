use vstd::prelude::*;

verus! {

use crate::resolver::spec_parse_state;
use crate::resolver::spec_resource_path;
use crate::resolver::parse_state;
use crate::resolver::resource_path;
use crate::resolver::VisualState;

/// A failure surfaced to the command caller.
pub enum TrayError {
    /// A tray-mutating command ran while no tray icon exists (for example
    /// before a successful `initialize`).
    TrayNotFound,
    /// The icon resource could not be resolved or loaded; carries the
    /// host's description of the failure.
    ResourceResolution(String),
}

/// The abstract value of a [`TrayError`].
pub ghost enum TrayErrorView {
    TrayNotFound,
    ResourceResolution(Seq<char>),
}

impl View for TrayError {
    type V = TrayErrorView;

    open spec fn view(&self) -> TrayErrorView {
        match self {
            TrayError::TrayNotFound => TrayErrorView::TrayNotFound,
            TrayError::ResourceResolution(m) => TrayErrorView::ResourceResolution(m@),
        }
    }
}

/// The message text a given error surfaces.
pub open spec fn spec_message(e: TrayErrorView) -> Seq<char> {
    match e {
        TrayErrorView::TrayNotFound => "tray icon not found"@,
        TrayErrorView::ResourceResolution(m) => m,
    }
}

impl TrayError {
    /// The human-readable description handed to the front-end.
    pub fn message(&self) -> (r: String)
        ensures
            r@ == spec_message(self@),
    {
        match self {
            TrayError::TrayNotFound => "tray icon not found".to_owned(),
            TrayError::ResourceResolution(m) => m.clone(),
        }
    }
}

/// The abstract state of the tray subsystem as the coordinator drives it.
pub ghost struct TrayView {
    /// Whether title/icon mutation is a meaningful operation on this host
    /// platform; where it is not, mutating commands succeed without effect.
    pub supports_tray_ops: bool,
    /// Whether the single tray icon identity currently exists.
    pub tray_exists: bool,
    /// The visual state the tray icon currently displays.
    pub visual: VisualState,
    /// The title text currently attached to the icon; `None` means no title.
    pub title: Option<Seq<char>>,
}

/// Owns all interaction with the single tray icon instance: its creation at
/// startup, and the state-mutating commands issued by the front-end. The
/// host's contributions (platform capability, the outcome of loading an icon
/// resource) enter as plain values; every decision taken on them lives here.
pub struct TrayCoordinator {
    supports_tray_ops: bool,
    tray_exists: bool,
    visual: VisualState,
    title: Option<String>,
}

impl View for TrayCoordinator {
    type V = TrayView;

    closed spec fn view(&self) -> TrayView {
        TrayView {
            supports_tray_ops: self.supports_tray_ops,
            tray_exists: self.tray_exists,
            visual: self.visual,
            title: match self.title {
                Some(t) => Some(t@),
                None => None,
            },
        }
    }
}

/// The abstract value of a load outcome handed in by the host.
pub open spec fn load_view(r: Result<(), String>) -> Result<(), Seq<char>> {
    match r {
        Ok(u) => Ok(u),
        Err(m) => Err(m@),
    }
}

/// The abstract value of a command's result.
pub open spec fn cmd_view(r: Result<(), TrayError>) -> Result<(), TrayErrorView> {
    match r {
        Ok(u) => Ok(u),
        Err(e) => Err(e@),
    }
}

/// What `initialize` does: on a successful icon construction the tray icon
/// comes to exist, displaying the default Paused state with no title; a
/// failed construction is swallowed and the tray icon is simply not created.
pub open spec fn init_step(pre: TrayView, construction: Result<(), Seq<char>>) -> (TrayView, bool) {
    match construction {
        Ok(u) => (
            TrayView {
                supports_tray_ops: pre.supports_tray_ops,
                tray_exists: true,
                visual: VisualState::Paused,
                title: None,
            },
            true,
        ),
        Err(m) => (pre, false),
    }
}

/// What `set_tray_icon_state` does. In order: on a host without meaningful
/// tray operations the command succeeds unchanged; an unknown state name
/// succeeds unchanged; a failed resource load surfaces the host's message;
/// a missing tray icon surfaces `TrayNotFound`; otherwise the requested
/// state is applied.
pub open spec fn icon_state_step(
    pre: TrayView,
    state: Seq<char>,
    load: Result<(), Seq<char>>,
) -> (TrayView, Result<(), TrayErrorView>) {
    if !pre.supports_tray_ops {
        (pre, Ok(()))
    } else {
        match spec_parse_state(state) {
            None => (pre, Ok(())),
            Some(v) => match load {
                Err(m) => (pre, Err(TrayErrorView::ResourceResolution(m))),
                Ok(u) => {
                    if !pre.tray_exists {
                        (pre, Err(TrayErrorView::TrayNotFound))
                    } else {
                        (
                            TrayView {
                                supports_tray_ops: pre.supports_tray_ops,
                                tray_exists: pre.tray_exists,
                                visual: v,
                                title: pre.title,
                            },
                            Ok(()),
                        )
                    }
                },
            },
        }
    }
}

/// What `set_tray_title` does: a no-op success on hosts without tray
/// operations; `TrayNotFound` while no tray icon exists; otherwise the
/// empty string clears the title and any other text becomes the title.
pub open spec fn title_step(pre: TrayView, title: Seq<char>) -> (TrayView, Result<
    (),
    TrayErrorView,
>) {
    if !pre.supports_tray_ops {
        (pre, Ok(()))
    } else if !pre.tray_exists {
        (pre, Err(TrayErrorView::TrayNotFound))
    } else {
        (
            TrayView {
                supports_tray_ops: pre.supports_tray_ops,
                tray_exists: pre.tray_exists,
                visual: pre.visual,
                title: if title.len() == 0 {
                    None
                } else {
                    Some(title)
                },
            },
            Ok(()),
        )
    }
}

impl TrayCoordinator {
    /// A coordinator for a host whose capability for tray title/icon
    /// mutation is `supports_tray_ops`; no tray icon exists yet.
    pub fn new(supports_tray_ops: bool) -> (c: TrayCoordinator)
        ensures
            c@ == (TrayView {
                supports_tray_ops,
                tray_exists: false,
                visual: VisualState::Paused,
                title: None,
            }),
    {
        TrayCoordinator {
            supports_tray_ops,
            tray_exists: false,
            visual: VisualState::Paused,
            title: None,
        }
    }

    /// Creates the single tray icon at application setup. `construction`
    /// is the host's outcome of resolving the default (Paused) icon and
    /// building the tray icon from it. Failure is swallowed here and only
    /// here: the tray icon is not created, nothing is reported, and the
    /// application goes on without one.
    pub fn initialize(&mut self, construction: Result<(), String>) -> (created: bool)
        requires
            !old(self)@.tray_exists,
        ensures
            final(self)@ == init_step(old(self)@, load_view(construction)).0,
            created == init_step(old(self)@, load_view(construction)).1,
    {
        match construction {
            Ok(()) => {
                self.tray_exists = true;
                self.visual = VisualState::Paused;
                self.title = None;
                true
            },
            Err(_) => false,
        }
    }

    /// Applies a raw state name from the command surface. `icon_load` is
    /// the host's outcome of loading the resolved icon resource; it is
    /// consulted only when the name is known and the host supports tray
    /// operations.
    pub fn set_tray_icon_state(&mut self, state: &str, icon_load: Result<(), String>) -> (r: Result<
        (),
        TrayError,
    >)
        ensures
            final(self)@ == icon_state_step(old(self)@, state@, load_view(icon_load)).0,
            cmd_view(r) == icon_state_step(old(self)@, state@, load_view(icon_load)).1,
    {
        if !self.supports_tray_ops {
            return Ok(());
        }
        match parse_state(state) {
            None => Ok(()),
            Some(v) => match icon_load {
                Err(m) => Err(TrayError::ResourceResolution(m)),
                Ok(()) => {
                    if !self.tray_exists {
                        Err(TrayError::TrayNotFound)
                    } else {
                        self.visual = v;
                        Ok(())
                    }
                },
            },
        }
    }

    /// Attaches `title` to the tray icon; the empty string clears any
    /// previously set title.
    pub fn set_tray_title(&mut self, title: String) -> (r: Result<(), TrayError>)
        ensures
            final(self)@ == title_step(old(self)@, title@).0,
            cmd_view(r) == title_step(old(self)@, title@).1,
    {
        if !self.supports_tray_ops {
            return Ok(());
        }
        if !self.tray_exists {
            return Err(TrayError::TrayNotFound);
        }
        if title.as_str().is_empty() {
            self.title = None;
        } else {
            self.title = Some(title);
        }
        Ok(())
    }

    /// Whether title/icon mutation is meaningful on this host.
    pub fn supports_tray_ops(&self) -> (r: bool)
        ensures
            r == self@.supports_tray_ops,
    {
        self.supports_tray_ops
    }

    /// Whether the single tray icon identity currently exists.
    pub fn tray_exists(&self) -> (r: bool)
        ensures
            r == self@.tray_exists,
    {
        self.tray_exists
    }

    /// The relative resource path of the icon the tray currently displays,
    /// or `None` while no tray icon exists.
    pub fn current_icon_resource(&self) -> (r: Option<&'static str>)
        ensures
            match r {
                Some(p) => self@.tray_exists && p@ == spec_resource_path(self@.visual),
                None => !self@.tray_exists,
            },
    {
        if self.tray_exists {
            Some(resource_path(self.visual))
        } else {
            None
        }
    }

    /// The title currently attached to the tray icon; `None` means no title.
    pub fn current_title(&self) -> (r: Option<&str>)
        ensures
            match r {
                Some(t) => self@.title == Some(t@),
                None => self@.title is None,
            },
    {
        match &self.title {
            Some(t) => Some(t.as_str()),
            None => None,
        }
    }
}

} // verus!

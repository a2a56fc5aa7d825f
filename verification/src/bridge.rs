//! The command bridge: from an event of the user interface to operations on
//! the window manager.
//!
//! The user interface sends two kinds of event. One asks to confine the
//! cursor to the focused window or to release it, the other asks for an
//! overlay window that shows one model. This module touches no window. Like
//! the asset server it is a step machine: [`receive`] turns a delivered event
//! into the first step, a step is a window operation to perform or the end of
//! the event, and [`proceed`] turns the success or failure of an operation
//! into the next step.
//!
//! Nothing is reported back to the user interface. An event whose payload
//! could not be read is dropped, a missing focused window, a refused grab and
//! a window that could not be created or shown end the event, and no failure
//! touches the events that follow: each is taken up on its own.

use vstd::prelude::*;

verus! {

/// Name of the event that asks to grab or release the cursor.
pub const CURSOR_GRAB_EVENT: &'static str = "cursor_grab";

/// Name of the event that asks for an overlay window.
pub const MODEL_VIEW_EVENT: &'static str = "modelView";

/// Label under which the window manager knows an overlay window.
pub const OVERLAY_LABEL: &'static str = "modelView";

/// Title of an overlay window.
pub const OVERLAY_TITLE: &'static str = "deskvrm";

/// What the address of an overlay window's content starts with; the model's
/// name follows.
pub const OVERLAY_URL_PREFIX: &'static str = "/model-view/";

/// Width of an overlay window, in logical units.
pub const OVERLAY_WIDTH: u32 = 300;

/// Height of an overlay window, in logical units.
pub const OVERLAY_HEIGHT: u32 = 500;

/// What an event asks for, once its payload has been read.
#[derive(Clone, Debug, PartialEq, Eq)]
pub enum WindowCommand {
    /// Confine the cursor to the focused window, or release it.
    GrabCursor { grab: bool },
    /// Open an overlay window that shows the model of this name.
    OpenModelView { model_name: String },
}

/// How an overlay window is to be made.
#[derive(Clone, Debug, PartialEq, Eq)]
pub struct OverlayWindow {
    /// Address of the window's content, inside the application.
    pub url: String,
    /// Inner width, in logical units.
    pub width: u32,
    /// Inner height, in logical units.
    pub height: u32,
    /// Whether the window has a frame and a title bar.
    pub decorations: bool,
    /// Whether the user can resize the window.
    pub resizable: bool,
    /// Whether the window's background is transparent.
    pub transparent: bool,
    /// Whether the window stays above all others.
    pub always_on_top: bool,
}

/// An operation on the window manager.
#[derive(Clone, Debug, PartialEq, Eq)]
pub enum WindowOp {
    /// Look up the window that holds the input focus, and keep it at hand.
    /// It succeeds if there is one.
    FindFocusedWindow,
    /// Confine the cursor to the window at hand, or release it.
    SetCursorGrab { grab: bool },
    /// Create this window, and keep it at hand.
    CreateOverlay(OverlayWindow),
    /// Show the window at hand.
    ShowWindow,
}

/// What an event waits for while one of its window operations is under way.
#[derive(Clone, Copy, Debug, PartialEq, Eq, Structural)]
pub enum Waiting {
    /// For the focused window, to set the cursor grab on it to `grab`.
    ForFocus { grab: bool },
    /// For the cursor grab to be set.
    ForGrab,
    /// For the overlay window to be created.
    ForOverlay,
    /// For the overlay window to be shown.
    ForShow,
}

/// What the driver of the bridge does next.
#[derive(Clone, Debug, PartialEq, Eq)]
pub enum BridgeStep {
    /// Perform `op`, then call [`proceed`] with `then` and whether the
    /// operation succeeded.
    Perform { op: WindowOp, then: Waiting },
    /// Nothing more: the event is dealt with.
    Done,
}

/// [`WindowCommand`] as a mathematical value.
pub enum WindowCommandView {
    GrabCursor { grab: bool },
    OpenModelView { model_name: Seq<char> },
}

/// [`OverlayWindow`] as a mathematical value.
pub struct OverlayWindowView {
    pub url: Seq<char>,
    pub width: u32,
    pub height: u32,
    pub decorations: bool,
    pub resizable: bool,
    pub transparent: bool,
    pub always_on_top: bool,
}

/// [`WindowOp`] as a mathematical value.
pub enum WindowOpView {
    FindFocusedWindow,
    SetCursorGrab { grab: bool },
    CreateOverlay(OverlayWindowView),
    ShowWindow,
}

/// [`BridgeStep`] as a mathematical value.
pub enum BridgeStepView {
    Perform { op: WindowOpView, then: Waiting },
    Done,
}

impl View for WindowCommand {
    type V = WindowCommandView;

    open spec fn view(&self) -> WindowCommandView {
        match *self {
            WindowCommand::GrabCursor { grab } => WindowCommandView::GrabCursor { grab },
            WindowCommand::OpenModelView { model_name } => WindowCommandView::OpenModelView {
                model_name: model_name@,
            },
        }
    }
}

impl View for OverlayWindow {
    type V = OverlayWindowView;

    open spec fn view(&self) -> OverlayWindowView {
        OverlayWindowView {
            url: self.url@,
            width: self.width,
            height: self.height,
            decorations: self.decorations,
            resizable: self.resizable,
            transparent: self.transparent,
            always_on_top: self.always_on_top,
        }
    }
}

impl View for WindowOp {
    type V = WindowOpView;

    open spec fn view(&self) -> WindowOpView {
        match *self {
            WindowOp::FindFocusedWindow => WindowOpView::FindFocusedWindow,
            WindowOp::SetCursorGrab { grab } => WindowOpView::SetCursorGrab { grab },
            WindowOp::CreateOverlay(window) => WindowOpView::CreateOverlay(window@),
            WindowOp::ShowWindow => WindowOpView::ShowWindow,
        }
    }
}

impl View for BridgeStep {
    type V = BridgeStepView;

    open spec fn view(&self) -> BridgeStepView {
        match *self {
            BridgeStep::Perform { op, then } => BridgeStepView::Perform { op: op@, then },
            BridgeStep::Done => BridgeStepView::Done,
        }
    }
}

impl Waiting {
    /// An upper bound on the window operations still to come, the one under
    /// way included.
    pub open spec fn steps_left(self) -> nat {
        match self {
            Waiting::ForFocus { grab } => 2,
            Waiting::ForGrab => 1,
            Waiting::ForOverlay => 2,
            Waiting::ForShow => 1,
        }
    }
}

impl BridgeStepView {
    /// An upper bound on the window operations still to come.
    pub open spec fn steps_left(self) -> nat {
        match self {
            BridgeStepView::Perform { op, then } => then.steps_left(),
            BridgeStepView::Done => 0,
        }
    }
}

/// The overlay window for a model: its content is addressed by the prefix
/// followed by the model's name as it came, it is 300 by 500 logical units,
/// and it has no decorations, cannot be resized, is transparent and stays on
/// top.
pub open spec fn overlay_for(model_name: Seq<char>) -> OverlayWindowView {
    OverlayWindowView {
        url: OVERLAY_URL_PREFIX@ + model_name,
        width: OVERLAY_WIDTH,
        height: OVERLAY_HEIGHT,
        decorations: false,
        resizable: false,
        transparent: true,
        always_on_top: true,
    }
}

/// The first step for a delivered event. `None` stands for an event without
/// a payload, or with one that could not be read as what its kind carries:
/// it is dropped. A cursor grab starts by looking for the focused window, a
/// model view by creating the overlay window.
pub open spec fn receive_model(command: Option<WindowCommandView>) -> BridgeStepView {
    match command {
        None => BridgeStepView::Done,
        Some(WindowCommandView::GrabCursor { grab }) => BridgeStepView::Perform {
            op: WindowOpView::FindFocusedWindow,
            then: Waiting::ForFocus { grab },
        },
        Some(WindowCommandView::OpenModelView { model_name }) => BridgeStepView::Perform {
            op: WindowOpView::CreateOverlay(overlay_for(model_name)),
            then: Waiting::ForOverlay,
        },
    }
}

/// The step that follows a window operation. The grab is set on the focused
/// window once there is one, the overlay window is shown once it is created,
/// and the event ends there, whether or not the last operation succeeded. An
/// operation that fails before that ends the event at once.
pub open spec fn proceed_model(waiting: Waiting, succeeded: bool) -> BridgeStepView {
    match waiting {
        Waiting::ForFocus { grab } => if succeeded {
            BridgeStepView::Perform { op: WindowOpView::SetCursorGrab { grab }, then: Waiting::ForGrab }
        } else {
            BridgeStepView::Done
        },
        Waiting::ForGrab => BridgeStepView::Done,
        Waiting::ForOverlay => if succeeded {
            BridgeStepView::Perform { op: WindowOpView::ShowWindow, then: Waiting::ForShow }
        } else {
            BridgeStepView::Done
        },
        Waiting::ForShow => BridgeStepView::Done,
    }
}

/// Event tolerance: an event that could not be read leads to no window
/// operation and to nothing else, and every event that could be read leads
/// to a window operation. What was delivered before plays no part: the step
/// for an event is a function of that event alone.
pub proof fn lemma_events_stand_alone(command: WindowCommandView)
    ensures
        receive_model(None) == BridgeStepView::Done,
        receive_model(Some(command)) is Perform,
{
}

/// Progress: every event is dealt with after at most two window operations.
pub proof fn lemma_events_end(command: Option<WindowCommandView>, waiting: Waiting, succeeded: bool)
    ensures
        receive_model(command).steps_left() <= 2,
        proceed_model(waiting, succeeded).steps_left() < waiting.steps_left(),
{
}

/// How the overlay window for a model is to be made.
pub fn overlay_window(model_name: &str) -> (window: OverlayWindow)
    ensures
        window@ == overlay_for(model_name@),
{
    let mut url = OVERLAY_URL_PREFIX.to_owned();
    url.append(model_name);
    OverlayWindow {
        url,
        width: OVERLAY_WIDTH,
        height: OVERLAY_HEIGHT,
        decorations: false,
        resizable: false,
        transparent: true,
        always_on_top: true,
    }
}

/// Takes up a delivered event: the window operation to perform first, or
/// nothing where the event is dropped.
pub fn receive(command: Option<WindowCommand>) -> (step: BridgeStep)
    ensures
        step@ == receive_model(
            match command {
                Some(c) => Some(c@),
                None => None,
            },
        ),
{
    match command {
        None => BridgeStep::Done,
        Some(WindowCommand::GrabCursor { grab }) => BridgeStep::Perform {
            op: WindowOp::FindFocusedWindow,
            then: Waiting::ForFocus { grab },
        },
        Some(WindowCommand::OpenModelView { model_name }) => BridgeStep::Perform {
            op: WindowOp::CreateOverlay(overlay_window(model_name.as_str())),
            then: Waiting::ForOverlay,
        },
    }
}

/// Goes on with an event after a window operation: the next operation to
/// perform, or nothing more.
pub fn proceed(waiting: Waiting, succeeded: bool) -> (step: BridgeStep)
    ensures
        step@ == proceed_model(waiting, succeeded),
        step@.steps_left() < waiting.steps_left(),
{
    match waiting {
        Waiting::ForFocus { grab } => if succeeded {
            BridgeStep::Perform { op: WindowOp::SetCursorGrab { grab }, then: Waiting::ForGrab }
        } else {
            BridgeStep::Done
        },
        Waiting::ForGrab => BridgeStep::Done,
        Waiting::ForOverlay => if succeeded {
            BridgeStep::Perform { op: WindowOp::ShowWindow, then: Waiting::ForShow }
        } else {
            BridgeStep::Done
        },
        Waiting::ForShow => BridgeStep::Done,
    }
}

} // verus!

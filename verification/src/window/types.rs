//! Values exchanged between the window logic and the windowing system.

use vstd::prelude::*;

use crate::text::concat;

verus! {

/// Identity of one live window. Two windows never share a handle, not even
/// when they carry the same label one after the other.
#[derive(Debug, Clone, Copy, PartialEq, Eq, Structural)]
pub struct WindowHandle {
    pub id: u64,
}

/// What the registry records of a live window.
#[derive(Debug, Clone, Copy, PartialEq, Eq, Structural)]
pub struct WindowState {
    pub handle: WindowHandle,
    pub visible: bool,
    pub focused: bool,
    pub minimized: bool,
}

/// How a window is to be constructed. Sizes are in logical pixels.
#[derive(Debug, PartialEq, Eq)]
pub struct WindowSpec {
    pub title: String,
    pub url: String,
    pub width: u32,
    pub height: u32,
    pub min_size: Option<(u32, u32)>,
    pub resizable: bool,
    pub decorations: bool,
    pub center: bool,
    pub visible: bool,
}

pub struct WindowSpecView {
    pub title: Seq<char>,
    pub url: Seq<char>,
    pub width: u32,
    pub height: u32,
    pub min_size: Option<(u32, u32)>,
    pub resizable: bool,
    pub decorations: bool,
    pub center: bool,
    pub visible: bool,
}

impl View for WindowSpec {
    type V = WindowSpecView;

    open spec fn view(&self) -> WindowSpecView {
        WindowSpecView {
            title: self.title@,
            url: self.url@,
            width: self.width,
            height: self.height,
            min_size: self.min_size,
            resizable: self.resizable,
            decorations: self.decorations,
            center: self.center,
            visible: self.visible,
        }
    }
}

impl Clone for WindowSpec {
    fn clone(&self) -> (copy: Self)
        ensures
            copy@ == self@,
    {
        WindowSpec {
            title: self.title.clone(),
            url: self.url.clone(),
            width: self.width,
            height: self.height,
            min_size: self.min_size,
            resizable: self.resizable,
            decorations: self.decorations,
            center: self.center,
            visible: self.visible,
        }
    }
}

/// Label of the sign-in window.
pub open spec fn auth_label() -> Seq<char> {
    "auth"@
}

/// Label of the main window.
pub open spec fn main_label() -> Seq<char> {
    "main"@
}

pub const AUTH_LABEL: &'static str = "auth";

pub const MAIN_LABEL: &'static str = "main";

/// The construction parameters of the main window.
pub open spec fn main_window_spec_view() -> WindowSpecView {
    WindowSpecView {
        title: "Smart School"@,
        url: "/dashboard"@,
        width: 1200,
        height: 800,
        min_size: Some((800u32, 600u32)),
        resizable: true,
        decorations: true,
        center: true,
        visible: false,
    }
}

/// The construction parameters of the sign-in window.
pub open spec fn auth_window_spec_view() -> WindowSpecView {
    WindowSpecView {
        title: "Smart School - Login"@,
        url: "/"@,
        width: 450,
        height: 600,
        min_size: None,
        resizable: false,
        decorations: false,
        center: true,
        visible: true,
    }
}

/// The main window: the dashboard, created hidden and shown once it exists.
pub fn main_window_spec() -> (spec: WindowSpec)
    ensures
        spec@ == main_window_spec_view(),
{
    WindowSpec {
        title: "Smart School".to_string(),
        url: "/dashboard".to_string(),
        width: 1200,
        height: 800,
        min_size: Some((800, 600)),
        resizable: true,
        decorations: true,
        center: true,
        visible: false,
    }
}

/// The sign-in window: fixed size, undecorated.
pub fn auth_window_spec() -> (spec: WindowSpec)
    ensures
        spec@ == auth_window_spec_view(),
{
    WindowSpec {
        title: "Smart School - Login".to_string(),
        url: "/".to_string(),
        width: 450,
        height: 600,
        min_size: None,
        resizable: false,
        decorations: false,
        center: true,
        visible: true,
    }
}

/// Why a window operation did not complete.
#[derive(Debug, PartialEq, Eq)]
pub enum WindowError {
    /// No live window carries the label.
    NotFound { label: String },
    /// The windowing system refused or failed the call made for the label.
    OperationFailed { label: String, cause: String },
}

pub enum WindowErrorView {
    NotFound { label: Seq<char> },
    OperationFailed { label: Seq<char>, cause: Seq<char> },
}

impl View for WindowError {
    type V = WindowErrorView;

    open spec fn view(&self) -> WindowErrorView {
        match self {
            WindowError::NotFound { label } => WindowErrorView::NotFound { label: label@ },
            WindowError::OperationFailed { label, cause } => WindowErrorView::OperationFailed {
                label: label@,
                cause: cause@,
            },
        }
    }
}

impl Clone for WindowError {
    fn clone(&self) -> (copy: Self)
        ensures
            copy@ == self@,
    {
        match self {
            WindowError::NotFound { label } => WindowError::NotFound { label: label.clone() },
            WindowError::OperationFailed { label, cause } => WindowError::OperationFailed {
                label: label.clone(),
                cause: cause.clone(),
            },
        }
    }
}

impl WindowErrorView {
    /// The message shown to the caller of a command.
    pub open spec fn message(self) -> Seq<char> {
        match self {
            WindowErrorView::NotFound { label } => "window not found: "@ + label,
            WindowErrorView::OperationFailed { cause, .. } => cause,
        }
    }
}

impl WindowError {
    /// The message shown to the caller of a command: the windowing system's
    /// own words where it failed a call.
    pub fn to_string(&self) -> (message: String)
        ensures
            message@ == self@.message(),
    {
        match self {
            WindowError::NotFound { label } => concat("window not found: ", label.as_str()),
            WindowError::OperationFailed { cause, .. } => cause.clone(),
        }
    }
}

/// One operation of the registry, as a transition lists it.
#[derive(Debug, PartialEq, Eq)]
pub enum WindowOp {
    /// Reuse the live window under the label, or construct one.
    OpenOrReuse { label: String, spec: WindowSpec },
    /// Construct a new window under the label, whatever is live there.
    OpenFresh { label: String, spec: WindowSpec },
    /// Make the window visible.
    Show { label: String },
    /// Give the window the focus.
    Focus { label: String },
    /// Close the window, if one is live.
    Close { label: String },
    /// Minimize the window, if one is live.
    Minimize { label: String },
}

pub enum WindowOpView {
    OpenOrReuse { label: Seq<char>, spec: WindowSpecView },
    OpenFresh { label: Seq<char>, spec: WindowSpecView },
    Show { label: Seq<char> },
    Focus { label: Seq<char> },
    Close { label: Seq<char> },
    Minimize { label: Seq<char> },
}

impl View for WindowOp {
    type V = WindowOpView;

    open spec fn view(&self) -> WindowOpView {
        match self {
            WindowOp::OpenOrReuse { label, spec } => WindowOpView::OpenOrReuse {
                label: label@,
                spec: spec@,
            },
            WindowOp::OpenFresh { label, spec } => WindowOpView::OpenFresh {
                label: label@,
                spec: spec@,
            },
            WindowOp::Show { label } => WindowOpView::Show { label: label@ },
            WindowOp::Focus { label } => WindowOpView::Focus { label: label@ },
            WindowOp::Close { label } => WindowOpView::Close { label: label@ },
            WindowOp::Minimize { label } => WindowOpView::Minimize { label: label@ },
        }
    }
}

impl WindowOpView {
    /// The label the operation is about.
    pub open spec fn label(self) -> Seq<char> {
        match self {
            WindowOpView::OpenOrReuse { label, .. } => label,
            WindowOpView::OpenFresh { label, .. } => label,
            WindowOpView::Show { label } => label,
            WindowOpView::Focus { label } => label,
            WindowOpView::Close { label } => label,
            WindowOpView::Minimize { label } => label,
        }
    }
}

impl WindowOp {
    /// The label the operation is about.
    pub fn label(&self) -> (label: &String)
        ensures
            label@ == self@.label(),
    {
        match self {
            WindowOp::OpenOrReuse { label, .. } => label,
            WindowOp::OpenFresh { label, .. } => label,
            WindowOp::Show { label } => label,
            WindowOp::Focus { label } => label,
            WindowOp::Close { label } => label,
            WindowOp::Minimize { label } => label,
        }
    }
}

/// One call for the host to make on the windowing system.
#[derive(Debug, PartialEq, Eq)]
pub enum WindowAction {
    /// Construct a window under the label. A window that the windowing
    /// system still holds under the label is superseded by the new one.
    Create { label: String, spec: WindowSpec },
    Show { label: String },
    Focus { label: String },
    Close { label: String },
    Minimize { label: String },
}

pub enum WindowActionView {
    Create { label: Seq<char>, spec: WindowSpecView },
    Show { label: Seq<char> },
    Focus { label: Seq<char> },
    Close { label: Seq<char> },
    Minimize { label: Seq<char> },
}

impl View for WindowAction {
    type V = WindowActionView;

    open spec fn view(&self) -> WindowActionView {
        match self {
            WindowAction::Create { label, spec } => WindowActionView::Create {
                label: label@,
                spec: spec@,
            },
            WindowAction::Show { label } => WindowActionView::Show { label: label@ },
            WindowAction::Focus { label } => WindowActionView::Focus { label: label@ },
            WindowAction::Close { label } => WindowActionView::Close { label: label@ },
            WindowAction::Minimize { label } => WindowActionView::Minimize { label: label@ },
        }
    }
}

/// What the windowing system answered to a call.
#[derive(Debug, PartialEq, Eq)]
pub enum WindowReply {
    Done,
    /// The call failed; the text is the windowing system's own.
    Failed(String),
}

pub enum WindowReplyView {
    Done,
    Failed(Seq<char>),
}

impl View for WindowReply {
    type V = WindowReplyView;

    open spec fn view(&self) -> WindowReplyView {
        match self {
            WindowReply::Done => WindowReplyView::Done,
            WindowReply::Failed(cause) => WindowReplyView::Failed(cause@),
        }
    }
}

/// Where an operation stands: a call to make, or its end.
#[derive(Debug, PartialEq, Eq)]
pub enum WindowStep {
    /// Make the call, then hand its outcome to `resume`.
    Perform(WindowAction),
    /// The operation is over.
    Finished(Result<(), WindowError>),
}

pub enum WindowStepView {
    Perform(WindowActionView),
    Finished(Result<(), WindowErrorView>),
}

impl View for WindowStep {
    type V = WindowStepView;

    open spec fn view(&self) -> WindowStepView {
        match self {
            WindowStep::Perform(action) => WindowStepView::Perform(action@),
            WindowStep::Finished(Ok(())) => WindowStepView::Finished(Ok(())),
            WindowStep::Finished(Err(e)) => WindowStepView::Finished(Err(e@)),
        }
    }
}

} // verus!

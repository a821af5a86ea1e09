//! The session state machine: one native window with an embedded browser
//! control, at most one at a time. Every operation of the shim is a verified
//! decision over this state; the outcomes of the outside windowing and
//! browser-engine calls enter as plain values.

use vstd::prelude::*;

use crate::style::{
    apply_click_through, extended_style_for, is_click_through, is_layered,
    lemma_click_through_round_trip, spec_extended_style, with_click_through, WS_EX_TRANSPARENT,
};

verus! {

/// Window message: the window is being destroyed.
pub const WM_DESTROY: u32 = 0x0002;

/// Window message: the window was resized.
pub const WM_SIZE: u32 = 0x0005;

/// How far the embedded browser control's initialization chain got. The
/// environment object comes first, then the controller bound to the window,
/// then the content/navigation interface; each step is attempted only after
/// all earlier ones succeeded.
#[derive(Clone, Copy, PartialEq, Eq, Structural, Debug)]
pub enum InitState {
    /// No handle was obtained (or initialization was never run).
    Uninitialized,
    /// The environment object exists, the controller does not.
    EnvironmentReady,
    /// Environment and controller exist, the browser interface does not.
    ControllerReady,
    /// All three handles exist: content operations can be served.
    FullyReady,
}

/// Whether the environment handle is present in this initialization state.
pub open spec fn has_environment(s: InitState) -> bool {
    !(s is Uninitialized)
}

/// Whether the controller handle is present in this initialization state.
pub open spec fn has_controller(s: InitState) -> bool {
    s is ControllerReady || s is FullyReady
}

/// Whether the browser (content/navigation) interface is present.
pub open spec fn has_browser(s: InitState) -> bool {
    s is FullyReady
}

/// Law: the handles form a strict chain — the browser interface is present
/// only if the controller is, and the controller only if the environment is.
pub proof fn lemma_init_chain(s: InitState)
    ensures
        has_browser(s) ==> has_controller(s),
        has_controller(s) ==> has_environment(s),
{
}

/// Decides the initialization outcome from the reported success of each
/// outside step: creating the environment, creating the controller, and
/// retrieving the browser interface. A flag is false both when the step
/// failed and when it was never attempted because an earlier one failed.
pub fn initialize_webview2(env_ok: bool, controller_ok: bool, webview_ok: bool) -> (s: InitState)
    ensures
        s is FullyReady <==> (env_ok && controller_ok && webview_ok),
        !env_ok ==> s is Uninitialized,
        (env_ok && !controller_ok) ==> s is EnvironmentReady,
        (env_ok && controller_ok && !webview_ok) ==> s is ControllerReady,
        has_environment(s) <==> env_ok,
        has_controller(s) <==> (env_ok && controller_ok),
{
    if !env_ok {
        InitState::Uninitialized
    } else if !controller_ok {
        InitState::EnvironmentReady
    } else if !webview_ok {
        InitState::ControllerReady
    } else {
        InitState::FullyReady
    }
}

/// Whether the fallback solid background must be installed: initialization
/// failure is non-fatal, the window degrades to a plain background instead.
pub fn needs_fallback(s: InitState) -> (fallback: bool)
    ensures
        fallback <==> !(s is FullyReady),
{
    match s {
        InitState::FullyReady => false,
        _ => true,
    }
}

/// The model of one created native window and its embedded control.
#[derive(Clone, Copy, PartialEq, Eq, Structural, Debug)]
pub struct WindowState {
    /// The native window handle as the windowing system reported it; nonzero.
    pub handle: i32,
    /// The current extended style bits of the window.
    pub ex_style: u32,
    /// How far the embedded control's initialization got.
    pub init: InitState,
    /// The layered alpha last applied to the window; opaque until set.
    pub alpha: u8,
}

/// The window state recorded for a freshly created window.
pub open spec fn created_window(handle: i32, transparent: bool, init: InitState) -> WindowState {
    WindowState { handle, ex_style: spec_extended_style(transparent), init, alpha: 255 }
}

/// The session: owner of at most one window at a time. Every exported
/// operation of the shim is a method on this type.
#[derive(Clone, Copy, Debug)]
pub struct WebViewInstance {
    /// The window currently owned by the session, if one was created and not
    /// yet closed.
    pub window: Option<WindowState>,
}

impl WebViewInstance {
    /// Whether the session currently owns a window.
    pub open spec fn has_window(self) -> bool {
        self.window is Some
    }

    /// The state of the owned window.
    pub open spec fn win(self) -> WindowState
        recommends
            self.has_window(),
    {
        self.window->Some_0
    }

    /// Whether the embedded browser interface is available, so that content
    /// operations can be served.
    pub open spec fn browser_active(self) -> bool {
        self.has_window() && has_browser(self.win().init)
    }

    /// Whether the embedded control's controller is available, so that a
    /// resize can be forwarded to it.
    pub open spec fn controller_present(self) -> bool {
        self.has_window() && has_controller(self.win().init)
    }

    /// The status a content operation reports: success (1) exactly when the
    /// browser is active, the argument is present, and the outside delivery
    /// call succeeded; failure (0) otherwise.
    pub open spec fn content_op_status(self, arg_present: bool, toolkit_ok: bool) -> i32 {
        if self.browser_active() && arg_present && toolkit_ok {
            1
        } else {
            0
        }
    }

    /// The status loading a file reports, given whether the read succeeded
    /// and whether the delivery of its contents succeeded.
    pub open spec fn load_file_status(self, read_ok: bool, toolkit_ok: bool) -> i32 {
        self.content_op_status(read_ok, toolkit_ok)
    }

    /// The session after a click-through toggle: only the click-through bit
    /// of the window's extended style changes, and nothing at all when no
    /// window exists.
    pub open spec fn after_click_through(self, enabled: bool) -> WebViewInstance {
        if self.has_window() {
            WebViewInstance {
                window: Some(
                    WindowState {
                        handle: self.win().handle,
                        ex_style: apply_click_through(self.win().ex_style, enabled),
                        init: self.win().init,
                        alpha: self.win().alpha,
                    },
                ),
            }
        } else {
            self
        }
    }

    /// The session after the layered alpha is set: only the recorded alpha
    /// changes, and nothing at all when no window exists.
    pub open spec fn after_set_transparency(self, alpha: u8) -> WebViewInstance {
        if self.has_window() {
            WebViewInstance {
                window: Some(
                    WindowState {
                        handle: self.win().handle,
                        ex_style: self.win().ex_style,
                        init: self.win().init,
                        alpha,
                    },
                ),
            }
        } else {
            self
        }
    }

    /// A fresh session that owns no window.
    pub fn new() -> (inst: WebViewInstance)
        ensures
            !inst.has_window(),
    {
        WebViewInstance { window: None }
    }

    /// Records the outcome of window creation. `handle` is what the
    /// windowing system returned (0 on failure), `transparent` the flag the
    /// window was requested with, `init` the outcome of the embedded
    /// control's initialization. Returns the handle on success and 0 when
    /// creation failed or a window already exists (at most one window at a
    /// time). On success the recorded extended style carries the layered bit
    /// if and only if the transparent flag was set.
    pub fn create_webview_window(&mut self, handle: i32, transparent: bool, init: InitState) -> (r:
        i32)
        ensures
            r == 0 <==> (old(self).has_window() || handle == 0),
            (old(self).has_window() || handle == 0) ==> *final(self) == *old(self),
            (!old(self).has_window() && handle != 0) ==> r == handle && final(self).window == Some(
                created_window(handle, transparent, init),
            ),
            (!old(self).has_window() && handle != 0) ==> (is_layered(final(self).win().ex_style)
                <==> transparent),
    {
        if self.window.is_some() {
            return 0;
        }
        if handle == 0 {
            return 0;
        }
        let ex_style = extended_style_for(transparent);
        self.window = Some(WindowState { handle, ex_style, init, alpha: 255 });
        handle
    }

    /// Whether content operations can currently reach the embedded browser.
    pub fn browser_ready(&self) -> (b: bool)
        ensures
            b == self.browser_active(),
    {
        match &self.window {
            Some(w) => match w.init {
                InitState::FullyReady => true,
                _ => false,
            },
            None => false,
        }
    }

    /// Reports the outcome of rendering the given markup directly.
    /// `toolkit_ok` is whether the outside delivery call succeeded (false
    /// when it was never attempted). Returns 1 exactly when the browser is
    /// active, the markup is present, and delivery succeeded; 0 otherwise —
    /// in particular whenever no window or browser exists, or the argument
    /// is absent. The session itself never changes.
    pub fn set_html_content(&self, html: Option<&str>, toolkit_ok: bool) -> (r: i32)
        ensures
            r == self.content_op_status(html is Some, toolkit_ok),
            !self.browser_active() ==> r == 0,
            html is None ==> r == 0,
    {
        if self.browser_ready() && html.is_some() && toolkit_ok {
            1
        } else {
            0
        }
    }

    /// Reports the outcome of navigating to the given address; the same
    /// preconditions and status as `set_html_content`.
    pub fn navigate_to_url(&self, url: Option<&str>, toolkit_ok: bool) -> (r: i32)
        ensures
            r == self.content_op_status(url is Some, toolkit_ok),
            !self.browser_active() ==> r == 0,
            url is None ==> r == 0,
    {
        if self.browser_ready() && url.is_some() && toolkit_ok {
            1
        } else {
            0
        }
    }

    /// Reports the outcome of running the given script (fire-and-forget: any
    /// result of the script is discarded); the same preconditions and status
    /// as `set_html_content`.
    pub fn execute_javascript(&self, script: Option<&str>, toolkit_ok: bool) -> (r: i32)
        ensures
            r == self.content_op_status(script is Some, toolkit_ok),
            !self.browser_active() ==> r == 0,
            script is None ==> r == 0,
    {
        if self.browser_ready() && script.is_some() && toolkit_ok {
            1
        } else {
            0
        }
    }

    /// Reports the outcome of loading a file as markup. `contents` is what
    /// was read from the file, `None` when the path was absent or the read
    /// failed. The outcome is exactly the outcome of setting the same
    /// contents directly.
    pub fn load_html_file(&self, contents: Option<&str>, toolkit_ok: bool) -> (r: i32)
        ensures
            r == self.load_file_status(contents is Some, toolkit_ok),
            contents is None ==> r == 0,
    {
        self.set_html_content(contents, toolkit_ok)
    }

    /// Sets the window's layered alpha (0 fully transparent, 255 opaque).
    /// Succeeds (1) exactly when a window exists; only the recorded alpha
    /// changes. Visible effect requires the window to have been created with
    /// the layered style — a caller responsibility that is not checked here.
    pub fn set_window_transparency(&mut self, alpha: u8) -> (r: i32)
        ensures
            r == 1 <==> old(self).has_window(),
            r == 0 <==> !old(self).has_window(),
            *final(self) == old(self).after_set_transparency(alpha),
    {
        match self.window {
            Some(w) => {
                self.window = Some(
                    WindowState { handle: w.handle, ex_style: w.ex_style, init: w.init, alpha },
                );
                1
            },
            None => 0,
        }
    }

    /// Adds or removes the click-through bit of the window's extended style,
    /// leaving every other bit untouched. Succeeds (1) exactly when a window
    /// exists.
    pub fn set_click_through(&mut self, enabled: bool) -> (r: i32)
        ensures
            r == 1 <==> old(self).has_window(),
            r == 0 <==> !old(self).has_window(),
            *final(self) == old(self).after_click_through(enabled),
            old(self).has_window() ==> (is_click_through(final(self).win().ex_style) <==> enabled),
            old(self).has_window() ==> final(self).win().ex_style & !WS_EX_TRANSPARENT == old(
                self,
            ).win().ex_style & !WS_EX_TRANSPARENT,
    {
        match self.window {
            Some(w) => {
                let updated = with_click_through(w.ex_style, enabled);
                self.window = Some(
                    WindowState {
                        handle: w.handle,
                        ex_style: updated,
                        init: w.init,
                        alpha: w.alpha,
                    },
                );
                1
            },
            None => 0,
        }
    }

    /// Closes the window: succeeds (1) and forgets the window exactly when
    /// one exists, after which no content operation can succeed; returns 0
    /// on a session that never created a window or already closed it.
    pub fn close_window(&mut self) -> (r: i32)
        ensures
            r == 1 <==> old(self).has_window(),
            r == 0 <==> !old(self).has_window(),
            !final(self).has_window(),
            !final(self).browser_active(),
            !old(self).has_window() ==> *final(self) == *old(self),
    {
        match self.window {
            Some(_) => {
                self.window = None;
                1
            },
            None => 0,
        }
    }

    /// The decision of the window procedure for one message: destruction
    /// posts the quit signal; a resize adjusts the embedded control when a
    /// controller is present and is otherwise ignored; every other message
    /// goes to the system's default handling.
    pub fn window_proc(&self, msg: u32) -> (action: WindowAction)
        ensures
            msg == WM_DESTROY ==> action is PostQuit,
            (msg == WM_SIZE && self.controller_present()) ==> action is ResizeControl,
            (msg == WM_SIZE && !self.controller_present()) ==> action is NoAction,
            (msg != WM_DESTROY && msg != WM_SIZE) ==> action is ForwardToSystem,
    {
        if msg == WM_DESTROY {
            WindowAction::PostQuit
        } else if msg == WM_SIZE {
            match &self.window {
                Some(w) => match w.init {
                    InitState::ControllerReady => WindowAction::ResizeControl,
                    InitState::FullyReady => WindowAction::ResizeControl,
                    _ => WindowAction::NoAction,
                },
                None => WindowAction::NoAction,
            }
        } else {
            WindowAction::ForwardToSystem
        }
    }

    /// The handle of the owned window, or 0 when none exists.
    pub fn window_handle(&self) -> (h: i32)
        ensures
            self.has_window() ==> h == self.win().handle,
            !self.has_window() ==> h == 0,
    {
        match &self.window {
            Some(w) => w.handle,
            None => 0,
        }
    }

    /// The current extended style of the owned window, when one exists.
    pub fn window_ex_style(&self) -> (s: Option<u32>)
        ensures
            self.has_window() ==> s == Some(self.win().ex_style),
            !self.has_window() ==> s is None,
    {
        match &self.window {
            Some(w) => Some(w.ex_style),
            None => None,
        }
    }

    /// The layered alpha last applied to the owned window, when one exists.
    pub fn window_alpha(&self) -> (a: Option<u8>)
        ensures
            self.has_window() ==> a == Some(self.win().alpha),
            !self.has_window() ==> a is None,
    {
        match &self.window {
            Some(w) => Some(w.alpha),
            None => None,
        }
    }
}

/// What the window procedure decides to do for one incoming message.
#[derive(Clone, Copy, PartialEq, Eq, Structural, Debug)]
pub enum WindowAction {
    /// Post the quit signal: the window is being destroyed.
    PostQuit,
    /// Resize the embedded control to the window's client area.
    ResizeControl,
    /// Handled with no effect (a resize with no control to resize).
    NoAction,
    /// Hand the message to the system's default handling.
    ForwardToSystem,
}

/// The window title actually used: the given one, or the default when none
/// was supplied.
pub fn effective_title(title: Option<String>) -> (t: String)
    ensures
        title matches Some(given) ==> t@ == given@,
        title is None ==> t@ == "Nebulabun App"@,
{
    match title {
        Some(given) => given,
        None => {
            let t = "Nebulabun App".to_string();
            proof {
                vstd::string::to_string_from_display_ensures_for_str("Nebulabun App", t);
            }
            t
        },
    }
}

/// Law: loading a file's contents gives exactly the outcome that setting the
/// same contents directly as markup gives, success and failure alike.
pub proof fn lemma_load_file_matches_set_html(
    inst: WebViewInstance,
    read_ok: bool,
    toolkit_ok: bool,
)
    ensures
        inst.load_file_status(read_ok, toolkit_ok) == inst.content_op_status(read_ok, toolkit_ok),
{
}

/// Law: once the session owns no window — in particular right after a close —
/// every content operation reports failure.
pub proof fn lemma_no_content_after_close(
    inst: WebViewInstance,
    arg_present: bool,
    toolkit_ok: bool,
)
    requires
        !inst.has_window(),
    ensures
        inst.content_op_status(arg_present, toolkit_ok) == 0,
{
}

/// Law: enabling click-through and then disabling it restores the session
/// exactly, whenever the window's extended style did not already carry the
/// click-through bit. (A window created with the transparent flag already
/// carries it, and the toggle then ends with the bit cleared.)
pub proof fn lemma_session_click_through_round_trip(inst: WebViewInstance)
    requires
        inst.has_window() ==> !is_click_through(inst.win().ex_style),
    ensures
        inst.after_click_through(true).after_click_through(false) == inst,
{
    if inst.has_window() {
        lemma_click_through_round_trip(inst.win().ex_style);
    }
}

} // verus!

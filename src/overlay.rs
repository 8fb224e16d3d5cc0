//! The single overlay slot and the decisions taken on it.
//!
//! The caller owns the windowing toolkit. For each request it asks the
//! controller what to do, does it, and reports how it went; the controller
//! keeps track of what is on screen.
use vstd::prelude::*;
use vstd::string::StringExecFns;
use crate::geometry::{anchored_frame, card_frame, follow_origin, follow_origin_of, Frame, Origin};
use crate::markup::{card_document, card_markup, injection_script, write_script};

verus! {

/// What the overlay shows, as seen by the contracts: its label and its frame.
pub type Shown = (Seq<char>, Frame);

/// The window settings that keep the overlay out of the user's way.
#[derive(Clone, Copy, Debug, PartialEq, Eq, Structural)]
pub struct WindowStyle {
    pub decorations: bool,
    pub transparent: bool,
    pub shadow: bool,
    pub always_on_top: bool,
    pub skip_taskbar: bool,
    pub resizable: bool,
    /// Whether the window takes the input focus when it is built.
    pub focused: bool,
    /// Whether the window is visible as soon as it is built, before its
    /// content is written.
    pub visible_at_build: bool,
    /// Whether pointer events pass through the window to what lies beneath.
    pub click_through: bool,
}

/// An undecorated, transparent, shadowless, always-on-top window, absent
/// from the taskbar, of fixed size, that never takes the focus, stays hidden
/// until its content is written and lets the pointer through.
pub open spec fn overlay_style() -> WindowStyle {
    WindowStyle {
        decorations: false,
        transparent: true,
        shadow: false,
        always_on_top: true,
        skip_taskbar: true,
        resizable: false,
        focused: false,
        visible_at_build: false,
        click_through: true,
    }
}

/// The slot after a create attempt for `label` in `frame` that succeeded
/// (`ok`) or failed. The slot before it does not matter: any earlier overlay
/// was closed first.
pub open spec fn after_create(label: Seq<char>, frame: Frame, ok: bool) -> Option<Shown> {
    if ok {
        Some((label, frame))
    } else {
        None
    }
}

/// The slot after an attempt to move the overlay to `to` that succeeded
/// (`ok`) or failed: only the position changes, and only on success.
pub open spec fn after_move(slot: Option<Shown>, to: Origin, ok: bool) -> Option<Shown> {
    match slot {
        Some((label, f)) => if ok {
            Some((label, Frame { left: to.left, top: to.top, width: f.width, height: f.height }))
        } else {
            slot
        },
        None => None,
    }
}

/// The slot after the overlay is closed.
pub open spec fn after_destroy(slot: Option<Shown>) -> Option<Shown> {
    None
}

/// Why a request on the overlay failed, with the toolkit's own message.
#[derive(Clone, Debug, PartialEq, Eq)]
pub enum OverlayError {
    /// The toolkit refused to build, configure, fill or show the window.
    WindowCreationFailed(String),
    /// The toolkit refused to move the window.
    WindowMoveFailed(String),
}

impl OverlayError {
    /// The toolkit's message.
    pub fn message(&self) -> (r: String)
        ensures
            r@ == match self {
                OverlayError::WindowCreationFailed(m) => m@,
                OverlayError::WindowMoveFailed(m) => m@,
            },
    {
        match self {
            OverlayError::WindowCreationFailed(m) => m.clone(),
            OverlayError::WindowMoveFailed(m) => m.clone(),
        }
    }
}

/// What to do to show a new overlay.
pub struct CreatePlan {
    /// Whether an overlay is on screen and is to be closed first; a failure
    /// to close it is of no consequence.
    pub close_existing: bool,
    /// Where the new window goes and how large it is.
    pub frame: Frame,
    pub style: WindowStyle,
    /// The script to run in the new window to write its content.
    pub script: String,
    /// The label that the new overlay shows.
    pub label: String,
}

/// The overlay slot: at most one overlay at any time.
pub struct OverlayController {
    shown: Option<(String, Frame)>,
}

impl View for OverlayController {
    type V = Option<Shown>;

    closed spec fn view(&self) -> Option<Shown> {
        match self.shown {
            Some((label, frame)) => Some((label@, frame)),
            None => None,
        }
    }
}

impl OverlayController {
    /// An empty slot.
    pub fn new() -> (r: OverlayController)
        ensures
            r@ is None,
    {
        OverlayController { shown: None }
    }

    /// Whether an overlay is on screen.
    pub fn is_present(&self) -> (r: bool)
        ensures
            r == self@ is Some,
    {
        self.shown.is_some()
    }

    /// The frame of the overlay on screen, if any.
    pub fn frame(&self) -> (r: Option<Frame>)
        ensures
            r == match self@ {
                Some((_, f)) => Some(f),
                None => None::<Frame>,
            },
    {
        match &self.shown {
            Some((_, f)) => Some(*f),
            None => None,
        }
    }

    /// The label of the overlay on screen, if any.
    pub fn label(&self) -> (r: Option<String>)
        ensures
            match (r, self@) {
                (Some(l), Some((label, _))) => l@ == label,
                (None, None) => true,
                _ => false,
            },
    {
        match &self.shown {
            Some((l, _)) => Some(l.clone()),
            None => None,
        }
    }

    /// Starts showing an overlay with `label`, anchored at `(x, y)` and of
    /// size `width` by `height`. Any overlay on screen is to be closed first,
    /// so the slot is empty until the attempt is reported.
    pub fn begin_create(&mut self, label: &str, x: i32, y: i32, width: u32, height: u32) -> (r:
        CreatePlan)
        ensures
            final(self)@ is None,
            r.close_existing == old(self)@ is Some,
            r.frame == anchored_frame(x, y, width, height),
            r.style == overlay_style(),
            r.script@ == write_script(card_document(label@)),
            r.label@ == label@,
    {
        let close_existing = self.shown.is_some();
        self.shown = None;
        let document = card_markup(label);
        let script = injection_script(document.as_str());
        CreatePlan {
            close_existing,
            frame: card_frame(x, y, width, height),
            style: WindowStyle {
                decorations: false,
                transparent: true,
                shadow: false,
                always_on_top: true,
                skip_taskbar: true,
                resizable: false,
                focused: false,
                visible_at_build: false,
                click_through: true,
            },
            script,
            label: String::from_str(label),
        }
    }

    /// Records how carrying out `plan` went. On success the overlay of the
    /// plan is on screen. On failure the slot is empty, whatever the attempt
    /// left behind is to be closed, and the toolkit's message is returned.
    pub fn finish_create(&mut self, plan: CreatePlan, outcome: Result<(), String>) -> (r: Result<
        (),
        OverlayError,
    >)
        ensures
            final(self)@ == after_create(plan.label@, plan.frame, outcome is Ok),
            match outcome {
                Ok(()) => r is Ok,
                Err(e) => r == Err::<(), OverlayError>(OverlayError::WindowCreationFailed(e)),
            },
    {
        match outcome {
            Ok(()) => {
                self.shown = Some((plan.label, plan.frame));
                Ok(())
            },
            Err(e) => {
                self.shown = None;
                Err(OverlayError::WindowCreationFailed(e))
            },
        }
    }

    /// Where to move the overlay so that it follows the anchor `(x, y)`,
    /// given the height read back from the window (`None` where it could not
    /// be read). `None` where no overlay is on screen: there is nothing to do.
    pub fn plan_move(&self, x: i32, y: i32, observed_height: Option<u32>) -> (r: Option<Origin>)
        ensures
            match self@ {
                Some(_) => r == Some(follow_origin_of(x, y, observed_height)),
                None => r is None,
            },
    {
        if self.shown.is_some() {
            Some(follow_origin(x, y, observed_height))
        } else {
            None
        }
    }

    /// Records how moving the overlay to `to` went. A failure leaves the
    /// slot as it was and returns the toolkit's message.
    pub fn finish_move(&mut self, to: Origin, outcome: Result<(), String>) -> (r: Result<
        (),
        OverlayError,
    >)
        ensures
            final(self)@ == after_move(old(self)@, to, outcome is Ok),
            match outcome {
                Ok(()) => r is Ok,
                Err(e) => r == Err::<(), OverlayError>(OverlayError::WindowMoveFailed(e)),
            },
    {
        match outcome {
            Ok(()) => {
                match &mut self.shown {
                    Some((_, f)) => {
                        f.left = to.left;
                        f.top = to.top;
                    },
                    None => {},
                }
                Ok(())
            },
            Err(e) => Err(OverlayError::WindowMoveFailed(e)),
        }
    }

    /// Empties the slot. Returns whether an overlay was on screen and is to
    /// be closed; closing it is best effort and reports nothing.
    pub fn destroy(&mut self) -> (r: bool)
        ensures
            r == old(self)@ is Some,
            final(self)@ == after_destroy(old(self)@),
    {
        let was_present = self.shown.is_some();
        self.shown = None;
        was_present
    }
}

} // verus!

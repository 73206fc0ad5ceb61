//! The fullscreen flags and the titlebar. The titlebar is hidden whenever the
//! window, the page content or the video player is fullscreen; in window
//! fullscreen it also hides and reappears with the pointer, except in player
//! fullscreen, which shows no application chrome at all.
use vstd::prelude::*;

verus! {

/// What is fullscreen and whether the titlebar is hidden.
#[derive(Clone, Copy, Debug, PartialEq, Eq, Structural)]
pub struct DisplayState {
    /// The video player fills the screen.
    pub player_fullscreen: bool,
    /// Page content other than the player fills the screen.
    pub content_fullscreen: bool,
    /// The application window is fullscreen.
    pub window_fullscreen: bool,
    /// The titlebar is hidden.
    pub titlebar_hidden: bool,
}

impl DisplayState {
    /// Player and content fullscreen exclude each other.
    pub open spec fn wf(self) -> bool {
        !(self.player_fullscreen && self.content_fullscreen)
    }

    /// Whether any kind of fullscreen is on, which hides the titlebar.
    pub open spec fn any_fullscreen(self) -> bool {
        self.window_fullscreen || self.content_fullscreen || self.player_fullscreen
    }

    /// The titlebar is hidden exactly when something is fullscreen.
    pub open spec fn titlebar_matches_fullscreen(self) -> bool {
        self.titlebar_hidden == self.any_fullscreen()
    }

    /// Nothing fullscreen and the titlebar shown.
    pub fn new() -> (r: DisplayState)
        ensures
            r.wf(),
            r.titlebar_matches_fullscreen(),
            !r.player_fullscreen,
            !r.content_fullscreen,
            !r.window_fullscreen,
            !r.titlebar_hidden,
    {
        DisplayState {
            player_fullscreen: false,
            content_fullscreen: false,
            window_fullscreen: false,
            titlebar_hidden: false,
        }
    }

    /// Hides or shows the titlebar. Returns whether that changed anything;
    /// the host re-lays out the tabs only then, and reports the titlebar
    /// state either way.
    pub fn set_titlebar_hidden(&mut self, hidden: bool) -> (changed: bool)
        ensures
            changed == (old(self).titlebar_hidden != hidden),
            *final(self) == (DisplayState { titlebar_hidden: hidden, ..*old(self) }),
    {
        if self.titlebar_hidden == hidden {
            false
        } else {
            self.titlebar_hidden = hidden;
            true
        }
    }

    /// A page reports that it entered or left fullscreen, and whether the
    /// fullscreen element is the video player. Returns whether the titlebar
    /// changed.
    pub fn webview_fullscreen_changed(&mut self, fullscreen: bool, player_fullscreen: bool) -> (changed: bool)
        ensures
            final(self).player_fullscreen == (fullscreen && player_fullscreen),
            final(self).content_fullscreen == (fullscreen && !player_fullscreen),
            final(self).window_fullscreen == old(self).window_fullscreen,
            final(self).titlebar_hidden == (old(self).window_fullscreen || fullscreen),
            changed == (final(self).titlebar_hidden != old(self).titlebar_hidden),
            final(self).wf(),
            final(self).titlebar_matches_fullscreen(),
    {
        self.player_fullscreen = fullscreen && player_fullscreen;
        self.content_fullscreen = fullscreen && !player_fullscreen;
        let hide = self.window_fullscreen || self.content_fullscreen || self.player_fullscreen;
        self.set_titlebar_hidden(hide)
    }

    /// A request to show the titlebar, as the pointer reaching the top edge
    /// of a tab makes. It is honoured only in window fullscreen outside
    /// player fullscreen; `None` means it was ignored, `Some` whether the
    /// titlebar changed.
    pub fn show_titlebar(&mut self) -> (r: Option<bool>)
        ensures
            (!old(self).window_fullscreen || old(self).player_fullscreen) ==> (r is None
                && *final(self) == *old(self)),
            (old(self).window_fullscreen && !old(self).player_fullscreen) ==> (r == Some(
                old(self).titlebar_hidden,
            ) && *final(self) == (DisplayState { titlebar_hidden: false, ..*old(self) })),
    {
        if !self.window_fullscreen || self.player_fullscreen {
            return None;
        }
        Some(self.set_titlebar_hidden(false))
    }

    /// The window was put into or out of fullscreen. Returns whether the
    /// titlebar changed.
    pub fn window_fullscreen_set(&mut self, fullscreen: bool) -> (changed: bool)
        ensures
            final(self).window_fullscreen == fullscreen,
            final(self).player_fullscreen == old(self).player_fullscreen,
            final(self).content_fullscreen == old(self).content_fullscreen,
            final(self).titlebar_matches_fullscreen(),
            old(self).wf() ==> final(self).wf(),
            changed == (final(self).titlebar_hidden != old(self).titlebar_hidden),
    {
        self.window_fullscreen = fullscreen;
        let hide = fullscreen || self.content_fullscreen || self.player_fullscreen;
        self.set_titlebar_hidden(hide)
    }

    /// The window was resized, and `fullscreen` is whether it is fullscreen
    /// now. When that differs from what was known, the flag and the
    /// titlebar follow and the result says whether the titlebar changed;
    /// `None` means nothing changed.
    pub fn window_resized(&mut self, fullscreen: bool) -> (r: Option<bool>)
        ensures
            old(self).window_fullscreen == fullscreen ==> (r is None && *final(self) == *old(self)),
            old(self).window_fullscreen != fullscreen ==> {
                &&& r == Some(final(self).titlebar_hidden != old(self).titlebar_hidden)
                &&& final(self).window_fullscreen == fullscreen
                &&& final(self).player_fullscreen == old(self).player_fullscreen
                &&& final(self).content_fullscreen == old(self).content_fullscreen
                &&& final(self).titlebar_matches_fullscreen()
            },
            old(self).wf() ==> final(self).wf(),
    {
        if self.window_fullscreen == fullscreen {
            return None;
        }
        Some(self.window_fullscreen_set(fullscreen))
    }

    /// Whether the pointer position matters for the titlebar: only in window
    /// fullscreen outside player fullscreen.
    pub fn pointer_tracking_active(&self) -> (r: bool)
        ensures
            r == (self.window_fullscreen && !self.player_fullscreen),
            !r ==> forall|a: bool, b: bool| (#[trigger] self.pointer_decision(a, b)) is None,
    {
        self.window_fullscreen && !self.player_fullscreen
    }

    /// The titlebar state that a pointer position asks for, if any (see
    /// [`DisplayState::pointer_titlebar_decision`]).
    pub open spec fn pointer_decision(self, in_reveal_zone: bool, below_titlebar: bool) -> Option<
        bool,
    > {
        if !self.window_fullscreen || self.player_fullscreen {
            None
        } else if self.titlebar_hidden && in_reveal_zone {
            Some(false)
        } else if !self.titlebar_hidden && below_titlebar {
            Some(true)
        } else {
            None
        }
    }

    /// While the window is fullscreen (and the player is not), the pointer
    /// reveals a hidden titlebar when it enters the reveal zone at the top
    /// edge and hides a shown one when it moves below the titlebar. Returns
    /// the titlebar state to set, or `None` to leave it.
    pub fn pointer_titlebar_decision(&self, in_reveal_zone: bool, below_titlebar: bool) -> (r:
        Option<bool>)
        ensures
            r == self.pointer_decision(in_reveal_zone, below_titlebar),
    {
        if !self.window_fullscreen || self.player_fullscreen {
            None
        } else if self.titlebar_hidden && in_reveal_zone {
            Some(false)
        } else if !self.titlebar_hidden && below_titlebar {
            Some(true)
        } else {
            None
        }
    }
}

/// In player fullscreen the pointer never changes the titlebar, wherever it
/// is.
pub proof fn law_player_fullscreen_ignores_pointer(
    s: DisplayState,
    in_reveal_zone: bool,
    below_titlebar: bool,
)
    requires
        s.player_fullscreen,
    ensures
        s.pointer_decision(in_reveal_zone, below_titlebar) is None,
{
}

/// The pointer rules in window fullscreen outside player fullscreen: a shown
/// titlebar is hidden exactly when the pointer moves below it, and a hidden
/// one is shown exactly when the pointer enters the reveal zone; nothing
/// else changes the titlebar.
pub proof fn law_pointer_hides_and_reveals(
    s: DisplayState,
    in_reveal_zone: bool,
    below_titlebar: bool,
)
    requires
        s.window_fullscreen,
        !s.player_fullscreen,
    ensures
        !s.titlebar_hidden ==> (s.pointer_decision(in_reveal_zone, below_titlebar) == if below_titlebar {
            Some(true)
        } else {
            None
        }),
        s.titlebar_hidden ==> (s.pointer_decision(in_reveal_zone, below_titlebar) == if in_reveal_zone {
            Some(false)
        } else {
            None
        }),
{
}

/// Every fullscreen report, of the page or of the window, leaves the
/// titlebar hidden exactly when something is fullscreen, and player and
/// content fullscreen never both on.
pub proof fn law_fullscreen_reports_settle_titlebar(
    s: DisplayState,
    fullscreen: bool,
    player_fullscreen: bool,
)
    requires
        s.wf(),
    ensures
        ({
            let t = DisplayState {
                player_fullscreen: fullscreen && player_fullscreen,
                content_fullscreen: fullscreen && !player_fullscreen,
                titlebar_hidden: s.window_fullscreen || fullscreen,
                ..s
            };
            t.wf() && t.titlebar_matches_fullscreen()
        }),
        ({
            let w = DisplayState {
                window_fullscreen: fullscreen,
                titlebar_hidden: fullscreen || s.content_fullscreen || s.player_fullscreen,
                ..s
            };
            w.wf() && w.titlebar_matches_fullscreen()
        }),
{
}

} // verus!

use vstd::prelude::*;

verus! {

/// Third-person (orbiting, with zoom) or first-person (from eye level) view.
#[derive(PartialEq, Eq, Structural, Clone, Copy, Debug)]
pub enum CameraMode {
    TPS,
    FPS,
}

impl CameraMode {
    pub open spec fn spec_toggled(self) -> CameraMode {
        match self {
            CameraMode::TPS => CameraMode::FPS,
            CameraMode::FPS => CameraMode::TPS,
        }
    }

    /// The other view mode.
    pub fn toggled(&self) -> (m: CameraMode)
        ensures
            m == self.spec_toggled(),
            m != *self,
    {
        match self {
            CameraMode::TPS => CameraMode::FPS,
            CameraMode::FPS => CameraMode::TPS,
        }
    }
}

/// The view mode after one update: the toggle key switches between the two
/// modes, otherwise the mode stays.
pub fn next_mode(mode: CameraMode, toggle_pressed: bool) -> (m: CameraMode)
    ensures
        m == (if toggle_pressed {
            mode.spec_toggled()
        } else {
            mode
        }),
{
    if toggle_pressed {
        mode.toggled()
    } else {
        mode
    }
}

/// The scroll wheel zooms only the third-person view; the first-person view
/// has no distance to change.
pub fn zoom_applies(mode: CameraMode) -> (b: bool)
    ensures
        b == (mode == CameraMode::TPS),
{
    match mode {
        CameraMode::TPS => true,
        CameraMode::FPS => false,
    }
}

/// Pressing the toggle key twice returns to the mode one started from.
pub proof fn lemma_toggle_twice(mode: CameraMode)
    ensures
        mode.spec_toggled().spec_toggled() == mode,
        mode.spec_toggled() != mode,
{
}

/// What to do with the cursor: lock (grab and hide) it, or release (free
/// and show) it.
#[derive(PartialEq, Eq, Structural, Clone, Copy, Debug)]
pub enum CursorGrab {
    Lock,
    Release,
}

/// The cursor rule: a click into the focused window locks the cursor, and
/// losing focus releases it; otherwise it is left as it is.
pub fn cursor_update(window_focused: bool, clicked: bool) -> (g: Option<CursorGrab>)
    ensures
        g == (if window_focused && clicked {
            Some(CursorGrab::Lock)
        } else if !window_focused {
            Some(CursorGrab::Release)
        } else {
            None::<CursorGrab>
        }),
{
    if window_focused && clicked {
        Some(CursorGrab::Lock)
    } else if !window_focused {
        Some(CursorGrab::Release)
    } else {
        None
    }
}

} // verus!

use vstd::prelude::*;

verus! {

/// What a view's settings panel reported this frame.
#[derive(Clone, Copy, Debug, PartialEq, Eq, Structural)]
pub struct SettingsUiResponse {
    /// The panel is still open (its close button was not pressed).
    pub is_settings_open: bool,
    /// The view asked to trade places with the main view.
    pub swap_main: bool,
}

/// Abstract state of a [`WindowSet`].
pub struct WindowsModel<F> {
    /// The view that fills the background.
    pub main: F,
    /// Whether the main view's settings panel is shown.
    pub main_settings: bool,
    /// The secondary views, each in a window of its own.
    pub windows: Seq<F>,
    /// Whether each secondary view's settings panel is shown, by position.
    pub settings: Seq<bool>,
    /// Number that the next secondary view is created with.
    pub next_id: usize,
    /// Whether the windows and panels are drawn over the main view.
    pub show_overlay: bool,
}

/// The set of open fractal views: one main view, and any number of
/// secondary views, each with a flag that says whether its settings panel
/// is shown.
pub struct WindowSet<F> {
    main: F,
    main_settings: bool,
    windows: Vec<F>,
    settings: Vec<bool>,
    next_id: usize,
    show_overlay: bool,
}

impl<F> View for WindowSet<F> {
    type V = WindowsModel<F>;

    closed spec fn view(&self) -> WindowsModel<F> {
        WindowsModel {
            main: self.main,
            main_settings: self.main_settings,
            windows: self.windows@,
            settings: self.settings@,
            next_id: self.next_id,
            show_overlay: self.show_overlay,
        }
    }
}

impl<F> WindowSet<F> {
    /// Every secondary view has exactly one settings flag.
    pub open spec fn wf(&self) -> bool {
        self@.windows.len() == self@.settings.len()
    }

    /// Only `main`, with its panel closed and the overlay shown; the first
    /// secondary view will be number 1.
    pub fn new(main: F) -> (r: WindowSet<F>)
        ensures
            r.wf(),
            r@.main == main,
            !r@.main_settings,
            r@.windows.len() == 0,
            r@.next_id == 1,
            r@.show_overlay,
    {
        WindowSet {
            main,
            main_settings: false,
            windows: Vec::new(),
            settings: Vec::new(),
            next_id: 1,
            show_overlay: true,
        }
    }

    pub fn main(&self) -> (r: &F)
        ensures
            *r == self@.main,
    {
        &self.main
    }

    pub fn main_mut(&mut self) -> (r: &mut F)
        ensures
            *r == old(self)@.main,
            final(self)@ == (WindowsModel { main: *final(r), ..old(self)@ }),
    {
        &mut self.main
    }

    /// Number of secondary views.
    pub fn len(&self) -> (r: usize)
        requires
            self.wf(),
        ensures
            r == self@.windows.len(),
    {
        self.windows.len()
    }

    pub fn window(&self, i: usize) -> (r: &F)
        requires
            i < self@.windows.len(),
        ensures
            *r == self@.windows[i as int],
    {
        &self.windows[i]
    }

    pub fn window_mut(&mut self, i: usize) -> (r: &mut F)
        requires
            i < old(self)@.windows.len(),
        ensures
            *r == old(self)@.windows[i as int],
            final(self)@ == (WindowsModel {
                windows: old(self)@.windows.update(i as int, *final(r)),
                ..old(self)@
            }),
    {
        &mut self.windows[i]
    }

    pub fn main_settings_open(&self) -> (r: bool)
        ensures
            r == self@.main_settings,
    {
        self.main_settings
    }

    pub fn settings_open(&self, i: usize) -> (r: bool)
        requires
            self.wf(),
            i < self@.windows.len(),
        ensures
            r == self@.settings[i as int],
    {
        self.settings[i]
    }

    pub fn show_overlay(&self) -> (r: bool)
        ensures
            r == self@.show_overlay,
    {
        self.show_overlay
    }

    pub fn next_id(&self) -> (r: usize)
        ensures
            r == self@.next_id,
    {
        self.next_id
    }

    /// Shows the overlay if it was hidden and hides it if it was shown.
    pub fn toggle_overlay(&mut self)
        ensures
            final(self)@ == (WindowsModel { show_overlay: !old(self)@.show_overlay, ..old(self)@ }),
    {
        self.show_overlay = !self.show_overlay;
    }

    /// Appends a secondary view, with its panel closed, and moves on to the
    /// next number.
    pub fn add_window(&mut self, window: F)
        requires
            old(self).wf(),
            old(self)@.next_id < usize::MAX,
        ensures
            final(self).wf(),
            final(self)@ == (WindowsModel {
                windows: old(self)@.windows.push(window),
                settings: old(self)@.settings.push(false),
                next_id: (old(self)@.next_id + 1) as usize,
                ..old(self)@
            }),
    {
        self.windows.push(window);
        self.settings.push(false);
        self.next_id = self.next_id + 1;
    }

    /// Opens the main view's panel if `requested`; an open panel stays open.
    pub fn request_main_settings(&mut self, requested: bool)
        ensures
            final(self)@ == (WindowsModel {
                main_settings: old(self)@.main_settings || requested,
                ..old(self)@
            }),
    {
        self.main_settings = self.main_settings || requested;
    }

    /// Applies what the main view's panel reported. The main view has no
    /// one to trade places with, so only whether the panel stays open counts.
    pub fn apply_main_settings(&mut self, response: SettingsUiResponse)
        ensures
            final(self)@ == (WindowsModel {
                main_settings: response.is_settings_open,
                ..old(self)@
            }),
    {
        self.main_settings = response.is_settings_open;
    }

    /// Opens the panel of secondary view `i` if `requested`, and says
    /// whether that panel is to be shown.
    pub fn request_settings(&mut self, i: usize, requested: bool) -> (shown: bool)
        requires
            old(self).wf(),
            i < old(self)@.windows.len(),
        ensures
            final(self).wf(),
            shown == (old(self)@.settings[i as int] || requested),
            final(self)@ == (WindowsModel {
                settings: old(self)@.settings.update(i as int, shown),
                ..old(self)@
            }),
    {
        let shown = self.settings[i] || requested;
        self.settings.set(i, shown);
        shown
    }

    /// Trades secondary view `i` and the main view, together with their
    /// settings flags.
    pub fn swap_main(&mut self, i: usize)
        requires
            old(self).wf(),
            i < old(self)@.windows.len(),
        ensures
            final(self).wf(),
            final(self)@ == (WindowsModel {
                main: old(self)@.windows[i as int],
                main_settings: old(self)@.settings[i as int],
                windows: old(self)@.windows.update(i as int, old(self)@.main),
                settings: old(self)@.settings.update(i as int, old(self)@.main_settings),
                ..old(self)@
            }),
    {
        std::mem::swap(&mut self.main, &mut self.windows[i]);
        let flag = self.settings[i];
        self.settings.set(i, self.main_settings);
        self.main_settings = flag;
    }

    /// Applies what the panel of secondary view `i` reported: the panel
    /// stays open or closes, and then, if asked, the view trades places with
    /// the main view.
    pub fn apply_settings(&mut self, i: usize, response: SettingsUiResponse)
        requires
            old(self).wf(),
            i < old(self)@.windows.len(),
        ensures
            final(self).wf(),
            !response.swap_main ==> final(self)@ == (WindowsModel {
                settings: old(self)@.settings.update(i as int, response.is_settings_open),
                ..old(self)@
            }),
            response.swap_main ==> final(self)@ == (WindowsModel {
                main: old(self)@.windows[i as int],
                main_settings: response.is_settings_open,
                windows: old(self)@.windows.update(i as int, old(self)@.main),
                settings: old(self)@.settings.update(i as int, old(self)@.main_settings),
                ..old(self)@
            }),
    {
        self.settings.set(i, response.is_settings_open);
        if response.swap_main {
            self.swap_main(i);
            assert(self@.settings =~= old(self)@.settings.update(i as int, old(self)@.main_settings));
        }
    }

    /// Removes secondary view `i` and its flag; the last view takes its
    /// place, so the others keep their positions.
    pub fn close_window(&mut self, i: usize) -> (closed: F)
        requires
            old(self).wf(),
            i < old(self)@.windows.len(),
        ensures
            final(self).wf(),
            closed == old(self)@.windows[i as int],
            final(self)@ == (WindowsModel {
                windows: old(self)@.windows.update(i as int, old(self)@.windows.last()).drop_last(),
                settings: old(self)@.settings.update(i as int, old(self)@.settings.last()).drop_last(),
                ..old(self)@
            }),
    {
        self.settings.swap_remove(i);
        self.windows.swap_remove(i)
    }

    /// Ends the frame's visit of secondary view `i`: a window that was closed
    /// is removed and the same position is visited next, as it now holds
    /// another view; otherwise the next position is.
    pub fn finish_window(&mut self, i: usize, still_open: bool) -> (next: usize)
        requires
            old(self).wf(),
            i < old(self)@.windows.len(),
        ensures
            final(self).wf(),
            still_open ==> next == i + 1 && final(self)@ == old(self)@,
            !still_open ==> next == i && final(self)@ == (WindowsModel {
                windows: old(self)@.windows.update(i as int, old(self)@.windows.last()).drop_last(),
                settings: old(self)@.settings.update(i as int, old(self)@.settings.last()).drop_last(),
                ..old(self)@
            }),
    {
        let n = self.windows.len();
        if still_open {
            assert(i < n);
            i + 1
        } else {
            self.close_window(i);
            i
        }
    }
}

} // verus!

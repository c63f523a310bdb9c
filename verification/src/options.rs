//! The options menu: a main page and a video page, driven by single keys.
//!
//! The menu changes its own state and hands back the name of an action for
//! the game to carry out.

use vstd::prelude::*;
use crate::input::Key;

verus! {

/// Entries of the main page: Video, Return to Game, Exit to Desktop.
pub const MAIN_ENTRIES: usize = 3;

/// Entries of the video page: Resolution, Fullscreen, FPS Counter, GBA
/// Refresh Rate, Back.
pub const VIDEO_ENTRIES: usize = 5;

/// Entries of the video page that are shown at once.
pub const VISIBLE_ENTRIES: usize = 3;

/// The page of the menu that is shown.
#[derive(Clone, Copy, Debug, PartialEq, Eq, Structural)]
pub enum OptionsView {
    Main,
    Video,
}

/// What the menu asks the game to do.
#[derive(Clone, Copy, Debug, PartialEq, Eq, Structural)]
pub enum MenuAction {
    /// Go back to the game; the menu has hidden itself.
    Return,
    /// End the program.
    Exit,
    /// Switch the window between fullscreen and windowed.
    ToggleFullscreen,
    /// The FPS counter was switched.
    ToggleFps,
    /// The refresh rate of the handheld was switched.
    ToggleGbaRefresh,
}

impl MenuAction {
    /// The name of the action.
    pub open spec fn name(self) -> &'static str {
        match self {
            MenuAction::Return => "return",
            MenuAction::Exit => "exit",
            MenuAction::ToggleFullscreen => "toggle_fullscreen",
            MenuAction::ToggleFps => "toggle_fps",
            MenuAction::ToggleGbaRefresh => "toggle_gba_refresh",
        }
    }

    /// Computes [`MenuAction::name`].
    pub fn as_name(self) -> (n: &'static str)
        ensures
            n == self.name(),
    {
        match self {
            MenuAction::Return => "return",
            MenuAction::Exit => "exit",
            MenuAction::ToggleFullscreen => "toggle_fullscreen",
            MenuAction::ToggleFps => "toggle_fps",
            MenuAction::ToggleGbaRefresh => "toggle_gba_refresh",
        }
    }
}

/// The name of an action, if there is one.
pub open spec fn name_of(action: Option<MenuAction>) -> Option<&'static str> {
    match action {
        Some(a) => Some(a.name()),
        None => None,
    }
}

/// The options menu and the settings it edits.
pub struct Options {
    /// Whether the menu is shown; a hidden menu ignores keys.
    pub visible: bool,
    pub view: OptionsView,
    /// Index of the selected entry of the page.
    pub selected: usize,
    /// Index of the first entry of the video page that is shown.
    pub scroll_offset: usize,
    pub fullscreen: bool,
    pub show_fps: bool,
    pub gba_refresh_rate: bool,
    /// The resolution, which is shown and cannot be changed.
    pub resolution: &'static str,
}

impl Options {
    /// The menu on its main page with the first entry selected.
    pub open spec fn at_top(self) -> Options {
        Options { view: OptionsView::Main, selected: 0, scroll_offset: 0, ..self }
    }

    /// The selection is an entry of the page, and on the video page it is
    /// one of the entries shown.
    pub open spec fn selection_in_view(self) -> bool {
        match self.view {
            OptionsView::Main => self.selected < MAIN_ENTRIES,
            OptionsView::Video => self.selected < VIDEO_ENTRIES && self.scroll_offset
                <= self.selected < self.scroll_offset + VISIBLE_ENTRIES,
        }
    }

    /// The entries of the video page that are shown: those from
    /// `scroll_offset` up to, and without, the returned end, at most
    /// [`VISIBLE_ENTRIES`] of them.
    pub open spec fn shown_end(self) -> int {
        if self.scroll_offset >= VIDEO_ENTRIES {
            self.scroll_offset as int
        } else if self.scroll_offset + VISIBLE_ENTRIES >= VIDEO_ENTRIES {
            VIDEO_ENTRIES as int
        } else {
            self.scroll_offset + VISIBLE_ENTRIES
        }
    }

    /// The menu after the entry `selected` of the video page was switched:
    /// entry 1 is fullscreen, 2 the FPS counter, 3 the GBA refresh rate.
    pub open spec fn switched(self) -> Options {
        if self.selected == 1 {
            Options { fullscreen: !self.fullscreen, ..self }
        } else if self.selected == 2 {
            Options { show_fps: !self.show_fps, ..self }
        } else if self.selected == 3 {
            Options { gba_refresh_rate: !self.gba_refresh_rate, ..self }
        } else {
            self
        }
    }

    /// The action that switching the entry `selected` of the video page
    /// asks of the game.
    pub open spec fn switch_action(self) -> Option<MenuAction> {
        if self.selected == 1 {
            Some(MenuAction::ToggleFullscreen)
        } else if self.selected == 2 {
            Some(MenuAction::ToggleFps)
        } else if self.selected == 3 {
            Some(MenuAction::ToggleGbaRefresh)
        } else {
            None
        }
    }

    /// The menu after `key` was pressed. A hidden menu does not change.
    ///
    /// On the main page Up and Down move the selection and stop at the
    /// ends; a confirming key opens the video page from entry 0 and hides
    /// the menu from entry 1; Escape hides the menu.
    ///
    /// On the video page Up and Down move the selection and scroll so that
    /// it stays in view; Left, Right and a confirming key switch the
    /// setting of entries 1 to 3; a confirming key on entry 4, and Escape,
    /// go back to the main page.
    pub open spec fn after_key(self, key: Key) -> Options {
        if !self.visible {
            self
        } else {
            match self.view {
                OptionsView::Main => match key {
                    Key::Up => if self.selected > 0 {
                        Options { selected: (self.selected - 1) as usize, ..self }
                    } else {
                        self
                    },
                    Key::Down => Options {
                        selected: if self.selected >= MAIN_ENTRIES - 1 {
                            (MAIN_ENTRIES - 1) as usize
                        } else {
                            (self.selected + 1) as usize
                        },
                        ..self
                    },
                    Key::Return | Key::Space | Key::Z => if self.selected == 0 {
                        Options { view: OptionsView::Video, selected: 0, scroll_offset: 0, ..self }
                    } else if self.selected == 1 {
                        Options { visible: false, ..self }
                    } else {
                        self
                    },
                    Key::Escape => Options { visible: false, ..self },
                    _ => self,
                },
                OptionsView::Video => match key {
                    Key::Up => if self.selected > 0 {
                        Options {
                            selected: (self.selected - 1) as usize,
                            scroll_offset: if self.selected - 1 < self.scroll_offset {
                                (self.selected - 1) as usize
                            } else {
                                self.scroll_offset
                            },
                            ..self
                        }
                    } else {
                        self
                    },
                    Key::Down => if self.selected < VIDEO_ENTRIES - 1 {
                        Options {
                            selected: (self.selected + 1) as usize,
                            scroll_offset: if self.selected + 1 >= self.scroll_offset
                                + VISIBLE_ENTRIES {
                                (self.selected + 2 - VISIBLE_ENTRIES) as usize
                            } else {
                                self.scroll_offset
                            },
                            ..self
                        }
                    } else {
                        self
                    },
                    Key::Left | Key::Right => self.switched(),
                    Key::Return | Key::Space | Key::Z => if self.selected == 4 {
                        self.at_top()
                    } else {
                        self.switched()
                    },
                    Key::Escape => self.at_top(),
                    _ => self,
                },
            }
        }
    }

    /// The action that pressing `key` asks of the game, if any: to return
    /// when the menu hides itself, to exit for the last entry of the main
    /// page, and the switch of a setting of the video page.
    pub open spec fn action_of(self, key: Key) -> Option<MenuAction> {
        if !self.visible {
            None
        } else {
            match self.view {
                OptionsView::Main => match key {
                    Key::Return | Key::Space | Key::Z => if self.selected == 1 {
                        Some(MenuAction::Return)
                    } else if self.selected == 2 {
                        Some(MenuAction::Exit)
                    } else {
                        None
                    },
                    Key::Escape => Some(MenuAction::Return),
                    _ => None,
                },
                OptionsView::Video => match key {
                    Key::Left | Key::Right => self.switch_action(),
                    Key::Return | Key::Space | Key::Z => self.switch_action(),
                    _ => None,
                },
            }
        }
    }

    /// A hidden menu on its main page, with every setting off.
    pub open spec fn new_menu() -> Options {
        Options {
            visible: false,
            view: OptionsView::Main,
            selected: 0,
            scroll_offset: 0,
            fullscreen: false,
            show_fps: false,
            gba_refresh_rate: false,
            resolution: "1024x768 (4:3)",
        }
    }

    /// A hidden menu on its main page, with every setting off.
    pub fn new() -> (o: Options)
        ensures
            o == Self::new_menu(),
            o.selection_in_view(),
    {
        Options {
            visible: false,
            view: OptionsView::Main,
            selected: 0,
            scroll_offset: 0,
            fullscreen: false,
            show_fps: false,
            gba_refresh_rate: false,
            resolution: "1024x768 (4:3)",
        }
    }

    /// Shows a hidden menu or hides a shown one, and puts it on its main
    /// page with the first entry selected. The settings stay.
    pub fn toggle(&mut self)
        ensures
            *final(self) == (Options { visible: !old(self).visible, ..old(self).at_top() }),
            final(self).selection_in_view(),
    {
        self.visible = !self.visible;
        self.view = OptionsView::Main;
        self.selected = 0;
        self.scroll_offset = 0;
    }

    /// Computes [`Options::shown_end`]: entry `i` of the video page is
    /// shown when `scroll_offset <= i` and `i` is less than the result.
    pub fn shown_entries_end(&self) -> (end: usize)
        ensures
            end == self.shown_end(),
            self.scroll_offset <= end,
            end - self.scroll_offset <= VISIBLE_ENTRIES,
    {
        if self.scroll_offset >= VIDEO_ENTRIES {
            self.scroll_offset
        } else if self.scroll_offset >= VIDEO_ENTRIES - VISIBLE_ENTRIES {
            VIDEO_ENTRIES
        } else {
            self.scroll_offset + VISIBLE_ENTRIES
        }
    }

    /// Switches the setting of the selected entry of the video page.
    fn switch_selected(&mut self) -> (action: Option<MenuAction>)
        ensures
            *final(self) == old(self).switched(),
            action == old(self).switch_action(),
    {
        if self.selected == 1 {
            self.fullscreen = !self.fullscreen;
            Some(MenuAction::ToggleFullscreen)
        } else if self.selected == 2 {
            self.show_fps = !self.show_fps;
            Some(MenuAction::ToggleFps)
        } else if self.selected == 3 {
            self.gba_refresh_rate = !self.gba_refresh_rate;
            Some(MenuAction::ToggleGbaRefresh)
        } else {
            None
        }
    }

    /// Goes to the main page with the first entry selected.
    fn go_to_top(&mut self)
        ensures
            *final(self) == old(self).at_top(),
    {
        self.view = OptionsView::Main;
        self.selected = 0;
        self.scroll_offset = 0;
    }

    /// Handles a key on the main page.
    fn handle_main_key(&mut self, key: Key) -> (action: Option<MenuAction>)
        requires
            old(self).visible,
            old(self).view == OptionsView::Main,
        ensures
            *final(self) == old(self).after_key(key),
            action == old(self).action_of(key),
    {
        match key {
            Key::Up => {
                if self.selected > 0 {
                    self.selected -= 1;
                }
                None
            },
            Key::Down => {
                if self.selected >= MAIN_ENTRIES - 1 {
                    self.selected = MAIN_ENTRIES - 1;
                } else {
                    self.selected += 1;
                }
                None
            },
            Key::Return | Key::Space | Key::Z => {
                if self.selected == 0 {
                    self.view = OptionsView::Video;
                    self.selected = 0;
                    self.scroll_offset = 0;
                    None
                } else if self.selected == 1 {
                    self.visible = false;
                    Some(MenuAction::Return)
                } else if self.selected == 2 {
                    Some(MenuAction::Exit)
                } else {
                    None
                }
            },
            Key::Escape => {
                self.visible = false;
                Some(MenuAction::Return)
            },
            _ => None,
        }
    }

    /// Handles a key on the video page.
    fn handle_video_key(&mut self, key: Key) -> (action: Option<MenuAction>)
        requires
            old(self).visible,
            old(self).view == OptionsView::Video,
        ensures
            *final(self) == old(self).after_key(key),
            action == old(self).action_of(key),
    {
        match key {
            Key::Up => {
                if self.selected > 0 {
                    self.selected -= 1;
                    if self.selected < self.scroll_offset {
                        self.scroll_offset = self.selected;
                    }
                }
                None
            },
            Key::Down => {
                if self.selected < VIDEO_ENTRIES - 1 {
                    self.selected += 1;
                    if self.selected >= VISIBLE_ENTRIES && self.selected - VISIBLE_ENTRIES
                        >= self.scroll_offset {
                        self.scroll_offset = self.selected - VISIBLE_ENTRIES + 1;
                    }
                }
                None
            },
            Key::Left | Key::Right => self.switch_selected(),
            Key::Return | Key::Space | Key::Z => {
                if self.selected == 4 {
                    self.go_to_top();
                    None
                } else {
                    self.switch_selected()
                }
            },
            Key::Escape => {
                self.go_to_top();
                None
            },
            _ => None,
        }
    }

    /// Handles a key while the menu is shown and returns the action the
    /// game is to carry out, if any. The selection stays in view.
    pub fn press(&mut self, key: Key) -> (action: Option<MenuAction>)
        ensures
            *final(self) == old(self).after_key(key),
            action == old(self).action_of(key),
            old(self).selection_in_view() ==> final(self).selection_in_view(),
    {
        if !self.visible {
            return None;
        }
        match self.view {
            OptionsView::Main => self.handle_main_key(key),
            OptionsView::Video => self.handle_video_key(key),
        }
    }

    /// Handles a key while the menu is shown and returns the name of the
    /// action the game is to carry out, if any.
    pub fn handle_key(&mut self, key: Key) -> (action: Option<&'static str>)
        ensures
            *final(self) == old(self).after_key(key),
            action == name_of(old(self).action_of(key)),
            old(self).selection_in_view() ==> final(self).selection_in_view(),
    {
        match self.press(key) {
            Some(a) => Some(a.as_name()),
            None => None,
        }
    }
}

} // verus!

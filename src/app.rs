use vstd::prelude::*;
use crate::constants::{DisplayMode, Pages, Popups};
use crate::game::Game;
use crate::pieces::PieceColor;
use crate::ui::UI;

verus! {

/// The application around a game: pages, popups and the menu cursor.
pub struct App {
    /// Is the application running?
    pub running: bool,
    /// The game
    pub game: Game,
    /// Current page to render
    pub current_page: Pages,
    /// Current popup to render
    pub current_popup: Option<Popups>,
    /// Selected color when playing against the bot
    pub selected_color: Option<PieceColor>,
    /// Menu cursor
    pub menu_cursor: u8,
}

impl App {
    /// Opens the help popup, or closes it when it is open.
    pub fn toggle_help_popup(&mut self)
        ensures
            *final(self) == (App {
                current_popup: if old(self).current_popup == Some(Popups::Help) {
                    None
                } else {
                    Some(Popups::Help)
                },
                ..*old(self)
            }),
    {
        let open = match self.current_popup {
            Some(Popups::Help) => true,
            _ => false,
        };
        if open {
            self.current_popup = None;
        } else {
            self.current_popup = Some(Popups::Help);
        }
    }

    /// Switches between the home page and the credit page.
    pub fn toggle_credit_popup(&mut self)
        ensures
            *final(self) == (App {
                current_page: if old(self).current_page == Pages::Home { Pages::Credit } else { Pages::Home },
                ..*old(self)
            }),
    {
        if self.current_page == Pages::Home {
            self.current_page = Pages::Credit;
        } else {
            self.current_page = Pages::Home;
        }
    }

    /// Back to the home page with a fresh game.
    pub fn go_to_home(&mut self)
        ensures
            final(self).game.fresh(),
            *final(self) == (App {
                current_page: Pages::Home,
                game: final(self).game,
                current_popup: None,
                ..*old(self)
            }),
    {
        self.current_page = Pages::Home;
        self.restart();
    }

    /// Handles the tick event of the terminal: nothing to do.
    pub fn tick(&self) {
    }

    /// Set running to false to quit the application.
    pub fn quit(&mut self)
        ensures
            *final(self) == (App { running: false, ..*old(self) }),
    {
        self.running = false;
    }

    /// Moves the menu cursor back by one among `l` entries, wrapping to the last.
    pub fn menu_cursor_up(&mut self, l: u8)
        requires
            l > 0,
        ensures
            *final(self) == (App {
                menu_cursor: if old(self).menu_cursor > 0 { (old(self).menu_cursor - 1) as u8 } else { (l - 1) as u8 },
                ..*old(self)
            }),
    {
        if self.menu_cursor > 0 {
            self.menu_cursor -= 1;
        } else {
            self.menu_cursor = l - 1;
        }
    }

    /// Moves the menu cursor on by one among `l` entries, wrapping to the first.
    pub fn menu_cursor_right(&mut self, l: u8)
        requires
            l > 0,
        ensures
            *final(self) == (App {
                menu_cursor: if old(self).menu_cursor < l - 1 { (old(self).menu_cursor + 1) as u8 } else { 0 },
                ..*old(self)
            }),
    {
        if self.menu_cursor < l - 1 {
            self.menu_cursor += 1;
        } else {
            self.menu_cursor = 0;
        }
    }

    /// Moves the menu cursor back by one among `l` entries, wrapping to the last.
    pub fn menu_cursor_left(&mut self, l: u8)
        requires
            l > 0,
        ensures
            *final(self) == (App {
                menu_cursor: if old(self).menu_cursor > 0 { (old(self).menu_cursor - 1) as u8 } else { (l - 1) as u8 },
                ..*old(self)
            }),
    {
        if self.menu_cursor > 0 {
            self.menu_cursor -= 1;
        } else {
            self.menu_cursor = l - 1;
        }
    }

    /// Moves the menu cursor on by one among `l` entries, wrapping to the first.
    pub fn menu_cursor_down(&mut self, l: u8)
        requires
            l > 0,
        ensures
            *final(self) == (App {
                menu_cursor: if old(self).menu_cursor < l - 1 { (old(self).menu_cursor + 1) as u8 } else { 0 },
                ..*old(self)
            }),
    {
        if self.menu_cursor < l - 1 {
            self.menu_cursor += 1;
        } else {
            self.menu_cursor = 0;
        }
    }

    /// Takes the color under the menu cursor (0 White, 1 Black) and closes the popup.
    pub fn color_selection(&mut self)
        requires
            old(self).menu_cursor < 2,
        ensures
            *final(self) == (App {
                current_popup: None,
                selected_color: Some(if old(self).menu_cursor == 0 { PieceColor::White } else { PieceColor::Black }),
                ..*old(self)
            }),
    {
        self.current_popup = None;
        let color = if self.menu_cursor == 0 { PieceColor::White } else { PieceColor::Black };
        self.selected_color = Some(color);
    }

    /// A fresh game, with no popup.
    pub fn restart(&mut self)
        ensures
            final(self).game.fresh(),
            *final(self) == (App { game: final(self).game, current_popup: None, ..*old(self) }),
    {
        self.game = Game::default();
        self.current_popup = None;
    }

    /// Acts on the home menu entry under the cursor: play, switch the display mode,
    /// help, credits.
    pub fn menu_select(&mut self)
        ensures
            old(self).menu_cursor == 0 ==> *final(self) == (App { current_page: Pages::Solo, ..*old(self) }),
            old(self).menu_cursor == 1 ==> *final(self) == (App {
                game: Game {
                    ui: UI {
                        display_mode: match old(self).game.ui.display_mode {
                            DisplayMode::ASCII => DisplayMode::DEFAULT,
                            DisplayMode::DEFAULT => DisplayMode::ASCII,
                        },
                        ..old(self).game.ui
                    },
                    ..old(self).game
                },
                ..*old(self)
            }),
            old(self).menu_cursor == 2 ==> *final(self) == (App {
                current_popup: if old(self).current_popup == Some(Popups::Help) {
                    None
                } else {
                    Some(Popups::Help)
                },
                ..*old(self)
            }),
            old(self).menu_cursor == 3 ==> *final(self) == (App { current_page: Pages::Credit, ..*old(self) }),
            old(self).menu_cursor > 3 ==> *final(self) == *old(self),
    {
        if self.menu_cursor == 0 {
            self.current_page = Pages::Solo;
        } else if self.menu_cursor == 1 {
            self.game.ui.display_mode = match self.game.ui.display_mode {
                DisplayMode::ASCII => DisplayMode::DEFAULT,
                DisplayMode::DEFAULT => DisplayMode::ASCII,
            };
        } else if self.menu_cursor == 2 {
            self.toggle_help_popup();
        } else if self.menu_cursor == 3 {
            self.current_page = Pages::Credit;
        }
    }

    /// A fresh game, no popup, no selected color, cursor on the first entry.
    pub fn reset(&mut self)
        ensures
            final(self).game.fresh(),
            *final(self) == (App {
                game: final(self).game,
                current_popup: None,
                selected_color: None,
                menu_cursor: 0,
                ..*old(self)
            }),
    {
        self.game = Game::default();
        self.current_popup = None;
        self.selected_color = None;
        self.menu_cursor = 0;
    }
}

impl Default for App {
    fn default() -> (r: App)
        ensures
            r.running,
            r.game.fresh(),
            r.current_page == Pages::Home,
            r.current_popup is None,
            r.selected_color is None,
            r.menu_cursor == 0,
    {
        App {
            running: true,
            game: Game::default(),
            current_page: Pages::Home,
            current_popup: None,
            selected_color: None,
            menu_cursor: 0,
        }
    }
}

} // verus!

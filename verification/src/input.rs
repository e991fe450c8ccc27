//! What a key press does on each screen.

use vstd::prelude::*;
use crate::app::App;
use crate::app::AppView;
use crate::app::Screen;
use crate::report::running_text;
use crate::text::count_lines;
use crate::text::line_count;

verus! {

/// A key press, as far as the launcher tells keys apart.
#[derive(Clone, Copy, Debug, PartialEq, Eq, Structural)]
pub enum Key {
    Up,
    Down,
    Enter,
    Esc,
    /// A character key.
    Char(char),
    /// Any key that has no meaning of its own here.
    Other,
}

/// What the caller has to do after a key press.
#[derive(Debug)]
pub enum Action {
    /// Nothing.
    Idle,
    /// Run the script at this path and hand the result back.
    Launch(String),
}

/// Mathematical value of an [`Action`].
pub enum ActionView {
    Idle,
    Launch(Seq<char>),
}

impl View for Action {
    type V = ActionView;

    open spec fn view(&self) -> ActionView {
        match self {
            Action::Idle => ActionView::Idle,
            Action::Launch(path) => ActionView::Launch(path@),
        }
    }
}

/// Whether `key` asks to go up.
pub open spec fn goes_up(key: Key) -> bool {
    key == Key::Up || key == Key::Char('k')
}

/// Whether `key` asks to go down.
pub open spec fn goes_down(key: Key) -> bool {
    key == Key::Down || key == Key::Char('j')
}

/// How far a text can scroll while `visible_height` lines of it are shown:
/// the number of lines that do not fit.
pub open spec fn max_scroll(text: Seq<char>, visible_height: nat) -> nat {
    if line_count(text) > visible_height {
        (line_count(text) - visible_height) as nat
    } else {
        0
    }
}

impl AppView {
    /// Whether the cursor points at a script.
    pub open spec fn has_selection(self) -> bool {
        self.selected_index < self.scripts.len()
    }

    /// The state after `key` is pressed while `visible_height` lines of
    /// output fit on the screen.
    pub open spec fn press(self, key: Key, visible_height: nat) -> AppView {
        match self.screen() {
            Screen::Help => self.hide_help(),
            Screen::Output => if goes_up(key) {
                self.scroll_output_up()
            } else if goes_down(key) {
                self.scroll_output_down(max_scroll(self.output_text, visible_height))
            } else {
                self.back_to_list()
            },
            Screen::List => if key == Key::Char('?') {
                self.show_help()
            } else if key == Key::Char('q') || key == Key::Esc {
                self.quit()
            } else if goes_down(key) {
                self.next()
            } else if goes_up(key) {
                self.previous()
            } else if key == Key::Enter && self.has_selection() {
                self.show_output(running_text())
            } else {
                self
            },
        }
    }

    /// What pressing `key` asks of the caller: Enter on the list launches
    /// the selected script, nothing else asks for anything.
    pub open spec fn action_on(self, key: Key) -> ActionView {
        if self.screen() == Screen::List && key == Key::Enter && self.has_selection() {
            ActionView::Launch(self.scripts[self.selected_index as int].path)
        } else {
            ActionView::Idle
        }
    }
}

/// No key press takes the cursor off the list: where it points at a
/// script, or rests at 0 on an empty list, it still does so afterwards.
pub proof fn lemma_press_keeps_cursor_in_range(app: AppView, key: Key, visible_height: nat)
    requires
        app.cursor_in_range(),
    ensures
        app.press(key, visible_height).cursor_in_range(),
        app.press(key, visible_height).scripts == app.scripts,
{
}

/// While the output is on screen and within the limit for the lines that
/// fit, no key press takes it beyond that limit.
pub proof fn lemma_press_keeps_scroll_in_range(app: AppView, key: Key, visible_height: nat)
    requires
        app.screen() == Screen::Output,
        app.output_scroll <= max_scroll(app.output_text, visible_height),
    ensures
        app.press(key, visible_height).output_scroll <= max_scroll(
            app.press(key, visible_height).output_text,
            visible_height,
        ),
{
}

/// Once the request to leave is recorded, no key press takes it back.
pub proof fn lemma_press_keeps_quit(app: AppView, key: Key, visible_height: nat)
    requires
        app.should_quit,
    ensures
        app.press(key, visible_height).should_quit,
{
}

/// Computes how far `text` can scroll.
pub fn scroll_limit(text: &str, visible_height: usize) -> (limit: usize)
    ensures
        limit == max_scroll(text@, visible_height as nat),
{
    let total = count_lines(text);
    if total > visible_height {
        total - visible_height
    } else {
        0
    }
}

impl App {
    /// Applies one key press. `visible_height` is the number of output
    /// lines that fit on the screen.
    pub fn handle_key(&mut self, key: Key, visible_height: usize) -> (action: Action)
        ensures
            final(self)@ == old(self)@.press(key, visible_height as nat),
            final(self).scripts == old(self).scripts,
            action@ == old(self)@.action_on(key),
            old(self)@.cursor_in_range() ==> final(self)@.cursor_in_range(),
    {
        match self.screen() {
            Screen::Help => {
                self.hide_help();
                Action::Idle
            },
            Screen::Output => {
                match key {
                    Key::Up | Key::Char('k') => {
                        self.scroll_output_up();
                    },
                    Key::Down | Key::Char('j') => {
                        let limit = scroll_limit(self.output_text.as_str(), visible_height);
                        self.scroll_output_down(limit);
                    },
                    _ => {
                        self.back_to_list();
                    },
                }
                Action::Idle
            },
            Screen::List => {
                match key {
                    Key::Char('?') => {
                        self.show_help();
                        Action::Idle
                    },
                    Key::Char('q') | Key::Esc => {
                        self.quit();
                        Action::Idle
                    },
                    Key::Down | Key::Char('j') => {
                        self.next();
                        Action::Idle
                    },
                    Key::Up | Key::Char('k') => {
                        self.previous();
                        Action::Idle
                    },
                    Key::Enter => {
                        if self.selected_index < self.scripts.len() {
                            Action::Launch(self.start_run())
                        } else {
                            Action::Idle
                        }
                    },
                    _ => Action::Idle,
                }
            },
        }
    }
}

} // verus!

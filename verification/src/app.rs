//! The launcher's state and its transitions.

use vstd::prelude::*;
use vstd::string::StringExecFns;
use vstd::utf8::decode_utf8;
use vstd::utf8::valid_utf8;
use crate::report::launch_failure_text;
use crate::report::report_on;
use crate::report::report_text;
use crate::report::exit_code;
use crate::report::lossy_text;
use crate::report::running_text;
use crate::report::RunOutput;
use crate::script::Script;
use crate::script::ScriptView;

verus! {

/// Everything the interface shows and reacts to.
pub struct App {
    /// Scripts in discovery order.
    pub scripts: Vec<Script>,
    /// Cursor into `scripts`.
    pub selected_index: usize,
    /// Set once the user has asked to leave.
    pub should_quit: bool,
    /// Whether the output of a run is on screen.
    pub viewing_output: bool,
    /// Report of the most recent run.
    pub output_text: String,
    /// First line of `output_text` that is shown.
    pub output_scroll: usize,
    /// Whether the key reference is on screen.
    pub showing_help: bool,
}

/// Mathematical value of an [`App`].
pub struct AppView {
    pub scripts: Seq<ScriptView>,
    pub selected_index: nat,
    pub should_quit: bool,
    pub viewing_output: bool,
    pub output_text: Seq<char>,
    pub output_scroll: nat,
    pub showing_help: bool,
}

impl View for App {
    type V = AppView;

    open spec fn view(&self) -> AppView {
        AppView {
            scripts: self.scripts.deep_view(),
            selected_index: self.selected_index as nat,
            should_quit: self.should_quit,
            viewing_output: self.viewing_output,
            output_text: self.output_text@,
            output_scroll: self.output_scroll as nat,
            showing_help: self.showing_help,
        }
    }
}

/// The three screens; exactly one is shown at a time.
#[derive(Clone, Copy, Debug, PartialEq, Eq, Structural)]
pub enum Screen {
    /// The list of scripts.
    List,
    /// The report of the last run.
    Output,
    /// The key reference.
    Help,
}

impl AppView {
    /// The state a fresh launcher starts in.
    pub open spec fn initial(scripts: Seq<ScriptView>) -> AppView {
        AppView {
            scripts,
            selected_index: 0,
            should_quit: false,
            viewing_output: false,
            output_text: Seq::empty(),
            output_scroll: 0,
            showing_help: false,
        }
    }

    /// The cursor points at a script, or rests at 0 while there is none.
    pub open spec fn cursor_in_range(self) -> bool {
        if self.scripts.len() == 0 {
            self.selected_index == 0
        } else {
            self.selected_index < self.scripts.len()
        }
    }

    /// The screen that is shown; the key reference covers the output.
    pub open spec fn screen(self) -> Screen {
        if self.showing_help {
            Screen::Help
        } else if self.viewing_output {
            Screen::Output
        } else {
            Screen::List
        }
    }

    /// The cursor moves down one script unless it is on the last one.
    pub open spec fn next(self) -> AppView {
        if self.selected_index + 1 < self.scripts.len() {
            AppView { selected_index: self.selected_index + 1, ..self }
        } else {
            self
        }
    }

    /// The cursor moves up one script unless it is on the first one.
    pub open spec fn previous(self) -> AppView {
        if self.selected_index > 0 {
            AppView { selected_index: (self.selected_index - 1) as nat, ..self }
        } else {
            self
        }
    }

    /// The request to leave is recorded.
    pub open spec fn quit(self) -> AppView {
        AppView { should_quit: true, ..self }
    }

    /// The output scrolls up one line unless it shows its first line.
    pub open spec fn scroll_output_up(self) -> AppView {
        if self.output_scroll > 0 {
            AppView { output_scroll: (self.output_scroll - 1) as nat, ..self }
        } else {
            self
        }
    }

    /// The output scrolls down one line unless it has reached `max_scroll`.
    pub open spec fn scroll_output_down(self, max_scroll: nat) -> AppView {
        if self.output_scroll < max_scroll {
            AppView { output_scroll: self.output_scroll + 1, ..self }
        } else {
            self
        }
    }

    /// The key reference comes up.
    pub open spec fn show_help(self) -> AppView {
        AppView { showing_help: true, ..self }
    }

    /// The key reference goes away.
    pub open spec fn hide_help(self) -> AppView {
        AppView { showing_help: false, ..self }
    }

    /// The output is dropped and the list comes back.
    pub open spec fn back_to_list(self) -> AppView {
        AppView { viewing_output: false, output_text: Seq::empty(), output_scroll: 0, ..self }
    }

    /// The output screen comes up with `text` on it.
    pub open spec fn show_output(self, text: Seq<char>) -> AppView {
        AppView { viewing_output: true, output_text: text, ..self }
    }

    /// The state after the cursor has been moved down `n` times.
    pub open spec fn next_times(self, n: nat) -> AppView
        decreases n,
    {
        if n == 0 {
            self
        } else {
            self.next_times((n - 1) as nat).next()
        }
    }

    /// The state after the cursor has been moved up `n` times.
    pub open spec fn previous_times(self, n: nat) -> AppView
        decreases n,
    {
        if n == 0 {
            self
        } else {
            self.previous_times((n - 1) as nat).previous()
        }
    }
}

/// Moving the cursor down any number of times never takes it past the
/// last script: it advances by one per move until it reaches the last
/// script and stays there. On an empty list it stays at 0. Nothing but the
/// cursor changes.
pub proof fn lemma_next_never_passes_last(app: AppView, n: nat)
    requires
        app.cursor_in_range(),
    ensures
        app.next_times(n).cursor_in_range(),
        app.next_times(n).selected_index as int <= if app.scripts.len() > 0 {
            app.scripts.len() - 1
        } else {
            0
        },
        app.scripts.len() > 0 ==> app.next_times(n).selected_index as int == if app.selected_index
            + n <= app.scripts.len() - 1 {
            (app.selected_index + n) as int
        } else {
            app.scripts.len() - 1
        },
        app.next_times(n) == (AppView { selected_index: app.next_times(n).selected_index, ..app }),
    decreases n,
{
    if n > 0 {
        lemma_next_never_passes_last(app, (n - 1) as nat);
    }
}

/// Moving the cursor up any number of times never takes it below the
/// first script: it goes back by one per move until it reaches 0 and stays
/// there. Nothing but the cursor changes.
pub proof fn lemma_previous_never_passes_first(app: AppView, n: nat)
    ensures
        app.previous_times(n).selected_index >= 0,
        app.previous_times(n).selected_index as int == if n <= app.selected_index {
            app.selected_index - n
        } else {
            0
        },
        app.cursor_in_range() ==> app.previous_times(n).cursor_in_range(),
        app.previous_times(n) == (AppView {
            selected_index: app.previous_times(n).selected_index,
            ..app
        }),
    decreases n,
{
    if n > 0 {
        lemma_previous_never_passes_first(app, (n - 1) as nat);
    }
}

/// Scrolling up and then down again, with a limit of at least the offset
/// that the output had, brings the output back to that offset. At offset 0
/// scrolling up does nothing, so the way down must be barred there: the
/// limit has to be 0 as well.
pub proof fn lemma_scroll_up_then_down(app: AppView, max_scroll: nat)
    requires
        max_scroll >= app.output_scroll,
        app.output_scroll > 0 || max_scroll == 0,
    ensures
        app.scroll_output_up().scroll_output_down(max_scroll) == app,
{
}

/// Going back to the list clears the output, rewinds it and leaves the
/// output screen, whatever the state was.
pub proof fn lemma_back_to_list_resets(app: AppView)
    ensures
        app.back_to_list().output_text == Seq::<char>::empty(),
        app.back_to_list().output_scroll == 0,
        !app.back_to_list().viewing_output,
{
}

impl App {
    /// Starts on the list with the cursor on the first script.
    pub fn new(scripts: Vec<Script>) -> (app: App)
        ensures
            app@ == AppView::initial(scripts.deep_view()),
            app.scripts == scripts,
            app@.cursor_in_range(),
    {
        App {
            scripts,
            selected_index: 0,
            should_quit: false,
            viewing_output: false,
            output_text: String::new(),
            output_scroll: 0,
            showing_help: false,
        }
    }

    /// Tells which screen is shown.
    pub fn screen(&self) -> (screen: Screen)
        ensures
            screen == self@.screen(),
    {
        if self.showing_help {
            Screen::Help
        } else if self.viewing_output {
            Screen::Output
        } else {
            Screen::List
        }
    }

    /// Moves the cursor to the next script; stays on the last one.
    pub fn next(&mut self)
        ensures
            final(self)@ == old(self)@.next(),
            final(self).scripts == old(self).scripts,
            old(self)@.cursor_in_range() ==> final(self)@.cursor_in_range(),
    {
        if self.scripts.len() > 0 && self.selected_index < self.scripts.len() - 1 {
            self.selected_index += 1;
        }
    }

    /// Moves the cursor to the previous script; stays on the first one.
    pub fn previous(&mut self)
        ensures
            final(self)@ == old(self)@.previous(),
            final(self).scripts == old(self).scripts,
            old(self)@.cursor_in_range() ==> final(self)@.cursor_in_range(),
    {
        if self.selected_index > 0 {
            self.selected_index -= 1;
        }
    }

    /// Records that the user wants to leave.
    pub fn quit(&mut self)
        ensures
            final(self)@ == old(self)@.quit(),
            final(self).scripts == old(self).scripts,
            final(self).should_quit,
    {
        self.should_quit = true;
    }

    /// Scrolls the output up one line; stays at the top.
    pub fn scroll_output_up(&mut self)
        ensures
            final(self)@ == old(self)@.scroll_output_up(),
            final(self).scripts == old(self).scripts,
    {
        if self.output_scroll > 0 {
            self.output_scroll -= 1;
        }
    }

    /// Scrolls the output down one line; stops at `max_scroll`.
    pub fn scroll_output_down(&mut self, max_scroll: usize)
        ensures
            final(self)@ == old(self)@.scroll_output_down(max_scroll as nat),
            final(self).scripts == old(self).scripts,
            old(self).output_scroll <= max_scroll ==> final(self).output_scroll <= max_scroll,
    {
        if self.output_scroll < max_scroll {
            self.output_scroll += 1;
        }
    }

    /// Brings up the key reference.
    pub fn show_help(&mut self)
        ensures
            final(self)@ == old(self)@.show_help(),
            final(self).scripts == old(self).scripts,
    {
        self.showing_help = true;
    }

    /// Closes the key reference.
    pub fn hide_help(&mut self)
        ensures
            final(self)@ == old(self)@.hide_help(),
            final(self).scripts == old(self).scripts,
    {
        self.showing_help = false;
    }

    /// Drops the output and goes back to the list.
    pub fn back_to_list(&mut self)
        ensures
            final(self)@ == old(self)@.back_to_list(),
            final(self).scripts == old(self).scripts,
            final(self).output_text@.len() == 0,
            final(self).output_scroll == 0,
            !final(self).viewing_output,
    {
        self.viewing_output = false;
        self.output_text = String::new();
        self.output_scroll = 0;
    }

    /// Puts up the notice that the selected script is running and hands
    /// out the path to launch.
    pub fn start_run(&mut self) -> (path: String)
        requires
            old(self).selected_index < old(self).scripts.len(),
        ensures
            final(self)@ == old(self)@.show_output(running_text()),
            final(self).scripts == old(self).scripts,
            path@ == old(self)@.scripts[old(self).selected_index as int].path,
    {
        self.output_text = "Running script...\n\nPlease wait...".to_owned();
        self.viewing_output = true;
        self.scripts[self.selected_index].path.clone()
    }

    /// Puts up the report on the finished run.
    pub fn finish_run(&mut self, output: &RunOutput)
        ensures
            final(self)@ == old(self)@.show_output(
                report_text(
                    exit_code(output.code),
                    lossy_text(output.stdout@),
                    lossy_text(output.stderr@),
                ),
            ),
            valid_utf8(output.stdout@) && valid_utf8(output.stderr@) ==> final(self)@ == old(
                self,
            )@.show_output(
                report_text(
                    exit_code(output.code),
                    decode_utf8(output.stdout@),
                    decode_utf8(output.stderr@),
                ),
            ),
            final(self).scripts == old(self).scripts,
    {
        self.output_text = report_on(output);
        self.viewing_output = true;
    }

    /// Puts up the reason why the script could not be started.
    pub fn fail_run(&mut self, message: &str)
        ensures
            final(self)@ == old(self)@.show_output(launch_failure_text(message@)),
            final(self).scripts == old(self).scripts,
    {
        let mut text = "✗ Error running script:\n".to_owned();
        text.append(message);
        self.output_text = text;
        self.viewing_output = true;
    }
}

} // verus!

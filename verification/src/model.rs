//! The application model and its event routing: the two interaction
//! modes, the current page, the exit flag, and the rule that maps one
//! key event to the next state.

use vstd::prelude::*;
use crate::command_line::{spec_feed, CommandLine};
use crate::dispatch::{dispatch, spec_trim, Action};
use crate::input::{Key, KeyEvent};
use crate::ui::{Page, PageV, spec_intro_lines};

verus! {

/// The interpretation regime for input events.
#[derive(Clone, Copy, Debug, PartialEq, Eq, Structural)]
pub enum Mode {
    /// Keys are not fed to the command line; only the mode-entry key is
    /// interpreted.
    Normal,
    /// The command line receives the keys until the entry is submitted
    /// or canceled.
    CommandEntry,
}

/// The root application state: current mode, command-line widget,
/// current page and exit flag.
#[derive(Debug)]
pub struct Model {
    pub mode: Mode,
    pub command_input: CommandLine,
    pub page: Page,
    pub exit: bool,
}

/// How one input event changes the model.
///
/// In normal mode only `:` is interpreted, entering command mode. In
/// command-entry mode: escape cancels and keeps the typed text, the
/// reserved control combination is consumed without effect, enter
/// submits — the line is trimmed and dispatched, then unconditionally
/// cleared, with the mode reverted to normal — and any other key edits
/// the line. Only the unimplemented `help` command yields a fatal
/// reason.
pub open spec fn handle_post(pre: Model, post: Model, ev: KeyEvent, fatal: Option<String>) -> bool {
    if pre.mode is Normal {
        &&& post.mode == if ev.key == (Key::Char(':')) {
            Mode::CommandEntry
        } else {
            Mode::Normal
        }
        &&& post.command_input@ == pre.command_input@
        &&& post.command_input.spec_cursor() == pre.command_input.spec_cursor()
        &&& post.page@ == pre.page@
        &&& post.exit == pre.exit
        &&& fatal is None
    } else if ev.key == (Key::Esc) {
        &&& post.mode == Mode::Normal
        &&& post.command_input@ == pre.command_input@
        &&& post.command_input.spec_cursor() == pre.command_input.spec_cursor()
        &&& post.page@ == pre.page@
        &&& post.exit == pre.exit
        &&& fatal is None
    } else if ev.key == (Key::Char('m')) && ev.ctrl {
        &&& post.mode == Mode::CommandEntry
        &&& post.command_input@ == pre.command_input@
        &&& post.command_input.spec_cursor() == pre.command_input.spec_cursor()
        &&& post.page@ == pre.page@
        &&& post.exit == pre.exit
        &&& fatal is None
    } else if ev.key == (Key::Enter) {
        let t = spec_trim(pre.command_input@);
        &&& post.mode == Mode::Normal
        &&& post.command_input@ == Seq::<char>::empty()
        &&& post.command_input.spec_cursor() == 0
        &&& (fatal is Some <==> t == "help"@)
        &&& (fatal matches Some(m) ==> m@ == "no help available"@)
        &&& post.exit == (pre.exit || (t.len() > 0 && t[0] == 'q'))
        &&& post.page@ == if t == "example"@ {
            PageV::Example
        } else if t == "prostite_please"@ {
            PageV::ForgiveMePlease
        } else {
            pre.page@
        }
    } else {
        &&& post.mode == Mode::CommandEntry
        &&& (post.command_input@, post.command_input.spec_cursor()) == spec_feed(
            pre.command_input@,
            pre.command_input.spec_cursor(),
            ev,
        )
        &&& post.page@ == pre.page@
        &&& post.exit == pre.exit
        &&& fatal is None
    }
}

/// Law: any submission clears the command line and reverts the mode to
/// normal, whatever text was entered and whatever the command resolved
/// to.
pub proof fn lemma_submission_resets(pre: Model, post: Model, ev: KeyEvent, fatal: Option<String>)
    requires
        pre.mode is CommandEntry,
        ev.key == (Key::Enter),
        handle_post(pre, post, ev, fatal),
    ensures
        post.mode == Mode::Normal,
        post.command_input@ == Seq::<char>::empty(),
        post.command_input.spec_cursor() == 0,
{
}

impl Model {
    /// Well-formed: the command line is well-formed.
    pub open spec fn wf(&self) -> bool {
        self.command_input.wf()
    }

    /// The startup state: normal mode, the default page, an empty
    /// command line, no exit requested.
    pub fn new() -> (m: Model)
        ensures
            m.wf(),
            m.mode == Mode::Normal,
            m.command_input@ == Seq::<char>::empty(),
            m.command_input.spec_cursor() == 0,
            m.page@ == PageV::Text(spec_intro_lines()),
            !m.exit,
    {
        Model {
            mode: Mode::Normal,
            command_input: CommandLine::new(),
            page: Page::default(),
            exit: false,
        }
    }

    /// Routes one input event through the state machine, exactly as
    /// `handle_post` states. The caller stops its loop when `exit` is
    /// set, and terminates abnormally — after terminal teardown — when
    /// a fatal reason comes back.
    pub fn handle_input(&mut self, ev: KeyEvent) -> (fatal: Option<String>)
        requires
            old(self).wf(),
        ensures
            final(self).wf(),
            handle_post(*old(self), *final(self), ev, fatal),
    {
        match self.mode {
            Mode::Normal => {
                if let Key::Char(c) = ev.key {
                    if c == ':' {
                        self.mode = Mode::CommandEntry;
                    }
                }
                None
            },
            Mode::CommandEntry => match ev.key {
                Key::Esc => {
                    self.mode = Mode::Normal;
                    None
                },
                Key::Char(c) if c == 'm' && ev.ctrl => None,
                Key::Enter => {
                    let raw = self.command_input.current_text();
                    let act = dispatch(&raw);
                    self.command_input.clear();
                    self.mode = Mode::Normal;
                    proof {
                        reveal_strlit("help");
                    }
                    match act {
                        Action::Quit => {
                            self.exit = true;
                            None
                        },
                        Action::Navigate(p) => {
                            self.page = p;
                            None
                        },
                        Action::Abort(m) => Some(m),
                        Action::NoOp => None,
                    }
                },
                _ => {
                    self.command_input.feed(ev);
                    None
                },
            },
        }
    }
}

} // verus!

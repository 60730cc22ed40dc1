//! The passphrase prompt: it collects the passphrase, hides or shows it, and
//! reports when the safe has been unlocked with it.

use vstd::prelude::*;
use vstd::string::StringExecFns;
use crate::contracts::TuiPwSafeErrors;
use crate::keys::{KeyCode, KeyEvent};
use crate::layout::{
    centered_rect, centered_shares, cursor_behind, cursor_position, display_width, inside,
    lemma_inside_splittable, lemma_inside_transitive, split, splittable, width_of, Direction,
    Rect,
};
use crate::text::{pop_char, push_char};

verus! {

/// The glyph that stands for one hidden character.
pub const MASK: char = '*';

/// The state of the prompt as plain values.
pub struct PasswordState {
    /// The passphrase typed so far.
    pub input: Seq<char>,
    /// The words of the last failure.
    pub error: Seq<char>,
    /// A failure is being shown.
    pub has_error: bool,
    /// The passphrase was submitted and waits to be tried.
    pub enter_done: bool,
    /// The passphrase is shown as placeholder glyphs.
    pub hidden: bool,
    /// The safe was unlocked.
    pub done: bool,
}

/// A fresh prompt: empty, hidden, nothing submitted.
pub open spec fn initial_state() -> PasswordState {
    PasswordState {
        input: Seq::empty(),
        error: Seq::empty(),
        has_error: false,
        enter_done: false,
        hidden: true,
        done: false,
    }
}

/// The state after a key press. The key itself is handled first: backspace
/// drops the last character, a character is appended, enter submits. Then the
/// passphrase is shown if control is held with this key, and hidden if not.
pub open spec fn key_step(state: PasswordState, key: KeyEvent) -> PasswordState {
    let edited = match key.code {
        KeyCode::Backspace => PasswordState {
            input: if state.input.len() > 0 {
                state.input.drop_last()
            } else {
                state.input
            },
            ..state
        },
        KeyCode::Char(c) => PasswordState { input: state.input.push(c), ..state },
        KeyCode::Enter => PasswordState { enter_done: true, ..state },
        _ => state,
    };
    PasswordState { hidden: !key.modifiers.has_control(), ..edited }
}

/// The state after one attempt to unlock the safe has ended with `outcome`.
/// Nothing changes unless a passphrase was submitted. A failure is shown and
/// leaves the prompt open; success completes it.
pub open spec fn unlock_step(
    state: PasswordState,
    outcome: Result<(), TuiPwSafeErrors>,
) -> PasswordState {
    if !state.enter_done {
        state
    } else {
        match outcome {
            Err(e) => PasswordState {
                has_error: true,
                error: "Error in unlock pwsafe: "@ + e.message_spec(),
                ..state
            },
            Ok(_) => PasswordState { done: true, ..state },
        }
    }
}

/// The passphrase as it is displayed: one placeholder glyph per character
/// while hidden, the characters themselves while shown.
pub open spec fn displayed(state: PasswordState) -> Seq<char> {
    if state.hidden {
        Seq::new(state.input.len(), |i: int| MASK)
    } else {
        state.input
    }
}

/// The line under the passphrase: the last failure if there is one, else the
/// hint.
pub open spec fn help_line(state: PasswordState) -> Seq<char> {
    if state.has_error {
        state.error
    } else {
        "Left-Ctrl to unhide"@
    }
}

/// What the prompt shows: the passphrase pane with its text and cursor, and
/// the help pane below it.
#[derive(Debug)]
pub struct PasswordFrame {
    pub input_area: Rect,
    pub input_text: String,
    pub cursor: (u16, u16),
    pub help_area: Rect,
    pub help_text: String,
}

/// The frame shows the state: the passphrase as it is displayed, the help
/// line, and the cursor right behind the passphrase, one cell inside the
/// passphrase pane.
pub open spec fn shows(frame: PasswordFrame, state: PasswordState) -> bool {
    &&& frame.input_text@ == displayed(state)
    &&& frame.help_text@ == help_line(state)
    &&& Some(frame.cursor) == cursor_behind(
        frame.input_area,
        display_width(displayed(state)) as int,
    )
}

/// Share of the width of the screen that the prompt takes, in hundredths.
pub const POPUP_WIDTH: u16 = 60;

/// Share of the height of the screen that the prompt takes, in hundredths.
pub const POPUP_HEIGHT: u16 = 40;

/// Shares of the prompt that the passphrase pane and the help pane take.
pub open spec fn pane_shares() -> Seq<u16> {
    seq![70u16, 30u16]
}

/// Shares of the prompt that the passphrase pane and the help pane take.
pub fn prompt_shares() -> (shares: Vec<u16>)
    ensures
        shares@ == pane_shares(),
{
    let mut shares: Vec<u16> = Vec::new();
    shares.push(70);
    shares.push(30);
    assert(shares@ =~= pane_shares());
    shares
}

/// Divides the box of the prompt from top to bottom, by `prompt_shares`, into
/// the passphrase pane and the help pane below it, both within the box. A box
/// that cannot be divided gives nothing.
pub fn panes(popup: Rect) -> (found: Option<(Rect, Rect)>)
    ensures
        found is Some == splittable(Direction::Vertical, pane_shares(), popup),
        match found {
            Some((input_area, help_area)) => inside(input_area, popup) && inside(
                help_area,
                popup,
            ),
            None => true,
        },
{
    match split(Direction::Vertical, &prompt_shares(), popup) {
        Some(rows) => Some((rows[0], rows[1])),
        None => None,
    }
}

/// The screen has room for the prompt: it can be divided into the box of the
/// prompt and its margins, the box can be divided into its two panes, and the
/// cell behind the passphrase has coordinates wherever on the screen the
/// passphrase pane lies.
pub open spec fn fits(state: PasswordState, area: Rect) -> bool {
    &&& splittable(Direction::Vertical, centered_shares(POPUP_HEIGHT), area)
    &&& splittable(Direction::Horizontal, centered_shares(POPUP_WIDTH), area)
    &&& splittable(Direction::Vertical, pane_shares(), area)
    &&& area.x + area.width + display_width(displayed(state)) + 1 <= u16::MAX
    &&& area.y + area.height + 1 <= u16::MAX
}

/// While control is held with the last key the passphrase is displayed as it
/// was typed; after any other key it is displayed as one placeholder glyph for
/// each of its characters.
pub proof fn lemma_masking_follows_control(state: PasswordState, key: KeyEvent)
    ensures
        key.modifiers.has_control() ==> displayed(key_step(state, key)) == key_step(
            state,
            key,
        ).input,
        !key.modifiers.has_control() ==> displayed(key_step(state, key)) == Seq::new(
            key_step(state, key).input.len(),
            |i: int| MASK,
        ),
        displayed(key_step(state, key)).len() == key_step(state, key).input.len(),
{
}

/// Holding or releasing control changes how the passphrase is displayed and
/// never the passphrase: a key that is neither a character nor backspace
/// leaves it as it was.
pub proof fn lemma_only_edits_change_passphrase(state: PasswordState, key: KeyEvent)
    requires
        !(key.code is Char),
        key.code != KeyCode::Backspace,
    ensures
        key_step(state, key).input == state.input,
{
}

/// A failed attempt leaves the prompt open, with the passphrase as it was, so
/// that the user can try again; only a successful one completes it.
pub proof fn lemma_failure_keeps_prompt_open(state: PasswordState, error: TuiPwSafeErrors)
    requires
        !state.done,
    ensures
        !unlock_step(state, Err(error)).done,
        unlock_step(state, Err(error)).input == state.input,
        state.enter_done ==> unlock_step(state, Err(error)).has_error,
        state.enter_done ==> unlock_step(state, Ok(())).done,
        !state.enter_done ==> unlock_step(state, Ok(())) == state,
{
}

/// The passphrase prompt.
pub struct PasswordWidget {
    key_input: String,
    error: String,
    has_error: bool,
    enter_done: bool,
    hide_pw: bool,
    is_done: bool,
}

impl View for PasswordWidget {
    type V = PasswordState;

    closed spec fn view(&self) -> PasswordState {
        PasswordState {
            input: self.key_input@,
            error: self.error@,
            has_error: self.has_error,
            enter_done: self.enter_done,
            hidden: self.hide_pw,
            done: self.is_done,
        }
    }
}

impl PasswordWidget {
    /// A fresh prompt.
    pub fn new() -> (widget: PasswordWidget)
        ensures
            widget@ == initial_state(),
    {
        PasswordWidget {
            enter_done: false,
            has_error: false,
            error: String::new(),
            hide_pw: true,
            key_input: String::new(),
            is_done: false,
        }
    }

    /// Takes one key press.
    pub fn capture_key(&mut self, key: KeyEvent)
        ensures
            final(self)@ == key_step(old(self)@, key),
    {
        match key.code {
            KeyCode::Backspace => {
                pop_char(&mut self.key_input);
            },
            KeyCode::Char(c) => {
                push_char(&mut self.key_input, c);
            },
            KeyCode::Enter => {
                self.enter_done = true;
            },
            _ => {},
        }
        self.hide_pw = !key.modifiers.holds_control();
    }

    /// The passphrase to try, if one was submitted.
    pub fn unlock_request(&self) -> (phrase: Option<String>)
        ensures
            phrase is Some == self@.enter_done,
            phrase is Some ==> phrase->0@ == self@.input,
    {
        if self.enter_done {
            Some(self.key_input.clone())
        } else {
            None
        }
    }

    /// Takes the outcome of the attempt to unlock the safe with the passphrase
    /// that `unlock_request` gave.
    pub fn update_model(&mut self, outcome: Result<(), TuiPwSafeErrors>)
        ensures
            final(self)@ == unlock_step(old(self)@, outcome),
    {
        if !self.enter_done {
            return ;
        }
        match outcome {
            Err(e) => {
                self.has_error = true;
                self.error = String::from_str("Error in unlock pwsafe: ").concat(
                    e.message().as_str(),
                );
            },
            Ok(_) => {
                self.is_done = true;
            },
        }
    }

    /// Tells whether the safe was unlocked, so that the prompt can go.
    pub fn is_done(&self) -> (done: bool)
        ensures
            done == self@.done,
    {
        self.is_done
    }

    /// The passphrase as it is to be displayed.
    pub fn displayed_text(&self) -> (text: String)
        ensures
            text@ == displayed(self@),
    {
        if self.hide_pw {
            let n: usize = self.key_input.as_str().unicode_len();
            let mut text = String::new();
            let mut i: usize = 0;
            while i < n
                invariant
                    i <= n,
                    text@ == Seq::new(i as nat, |k: int| MASK),
                decreases n - i,
            {
                push_char(&mut text, MASK);
                i += 1;
                assert(text@ =~= Seq::new(i as nat, |k: int| MASK));
            }
            text
        } else {
            self.key_input.clone()
        }
    }

    /// The frame with the panes given. There is none where the cell behind
    /// the passphrase has no coordinates.
    pub fn frame_in(&self, input_area: Rect, help_area: Rect) -> (frame: Option<PasswordFrame>)
        ensures
            frame is Some == cursor_behind(
                input_area,
                display_width(displayed(self@)) as int,
            ) is Some,
            frame is Some ==> {
                &&& frame->0.input_area == input_area
                &&& frame->0.help_area == help_area
                &&& shows(frame->0, self@)
            },
    {
        let input_text = self.displayed_text();
        match cursor_position(input_area, width_of(input_text.as_str())) {
            Some(cursor) => Some(
                PasswordFrame {
                    input_area,
                    input_text,
                    cursor,
                    help_area,
                    help_text: self.help_text(),
                },
            ),
            None => None,
        }
    }

    /// The frame for a screen of the given area: a box in the middle of it,
    /// the passphrase pane above the help pane, both within the screen. The
    /// frame is there whenever the screen has room for the prompt, and it is
    /// not where the screen cannot be divided from top to bottom.
    pub fn draw(&self, area: Rect) -> (frame: Option<PasswordFrame>)
        ensures
            frame is Some ==> {
                &&& shows(frame->0, self@)
                &&& inside(frame->0.input_area, area)
                &&& inside(frame->0.help_area, area)
            },
            !splittable(Direction::Vertical, centered_shares(POPUP_HEIGHT), area)
                ==> frame is None,
            fits(self@, area) ==> frame is Some,
    {
        let popup = match centered_rect(POPUP_WIDTH, POPUP_HEIGHT, area) {
            Some(popup) => popup,
            None => {
                return None;
            },
        };
        proof {
            if splittable(Direction::Vertical, pane_shares(), area) {
                lemma_inside_splittable(Direction::Vertical, pane_shares(), popup, area);
            }
        }
        match panes(popup) {
            Some((input_area, help_area)) => {
                proof {
                    lemma_inside_transitive(input_area, popup, area);
                    lemma_inside_transitive(help_area, popup, area);
                }
                self.frame_in(input_area, help_area)
            },
            None => None,
        }
    }

    /// The line to be displayed under the passphrase.
    pub fn help_text(&self) -> (text: String)
        ensures
            text@ == help_line(self@),
    {
        if !self.has_error {
            String::from_str("Left-Ctrl to unhide")
        } else {
            self.error.clone()
        }
    }
}

} // verus!

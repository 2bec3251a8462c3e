//! The client's state and its modal compose editor.
//!
//! `App` holds the inbox list, the overlay state, and the compose session:
//! three text fields edited with vim-style motions in three modes (Normal,
//! Insert, Visual).  Field text is a sequence of code points and the
//! cursor an offset into it, so every position the editor produces lies on
//! a code-point boundary.  For the body field a derived (line, column)
//! pair is kept; it is recomputed from the cursor after every mutation, so
//! the two views of the position never drift apart.

use vstd::prelude::*;

use crate::backend::EmailSummary;
use crate::position::{
    col_of, count_lines, cursor_from_line_col, cursor_of, is_space_char, lemma_count_nl_le_len,
    line_col_from_cursor, line_of, num_lines, right_target, skip_space, trim_end_idx, trimmed,
    word_backward, word_backward_from, word_forward, word_forward_from,
};
use crate::strutil::{chars_to_string, remove_range};

verus! {

/// Which screen of the client is active.
#[derive(Debug, Clone, Copy, PartialEq, Eq, Structural)]
pub enum Mode {
    Normal,
    Command,
    Help,
    Viewing,
    Compose,
    DeleteConfirm,
}

/// The three fields of a draft under composition.
#[derive(Debug, Clone, Copy, PartialEq, Eq, Structural)]
pub enum ComposeField {
    To,
    Subject,
    Body,
}

/// The editing mode of the compose editor.
#[derive(Debug, Clone, Copy, PartialEq, Eq, Structural)]
pub enum ComposeMode {
    Normal,
    Insert,
    Visual,
}

/// The field after `f` in the forward cycle To -> Subject -> Body -> To.
pub open spec fn next_field_spec(f: ComposeField) -> ComposeField {
    match f {
        ComposeField::To => ComposeField::Subject,
        ComposeField::Subject => ComposeField::Body,
        ComposeField::Body => ComposeField::To,
    }
}

/// The field before `f` in that cycle.
pub open spec fn prev_field_spec(f: ComposeField) -> ComposeField {
    match f {
        ComposeField::To => ComposeField::Body,
        ComposeField::Subject => ComposeField::To,
        ComposeField::Body => ComposeField::Subject,
    }
}

/// Going forward three times, or back and forth once, returns to the
/// starting field: the cycle over the three fields is circular.
pub proof fn lemma_field_cycle(f: ComposeField)
    ensures
        next_field_spec(next_field_spec(next_field_spec(f))) == f,
        prev_field_spec(next_field_spec(f)) == f,
        next_field_spec(prev_field_spec(f)) == f,
{
}

/// Inserting a character at a position and then removing at that same
/// position restores the text.  With `compose_push_char` ensuring the
/// insertion at the cursor and an advance by one, and `compose_pop_char`
/// ensuring the removal before the cursor and a step back by one, this
/// says that a character insertion followed by a backspace restores both
/// the field text and the cursor.
pub proof fn lemma_insert_backspace_inverse(s: Seq<char>, i: int, c: char)
    requires
        0 <= i <= s.len(),
    ensures
        s.insert(i, c).remove(i) == s,
{
    assert(s.insert(i, c).remove(i) =~= s);
}

/// The whole state of the client.
#[derive(Debug)]
pub struct App {
    pub inbox: Vec<EmailSummary>,
    pub selected: usize,
    pub should_quit: bool,
    pub mode: Mode,
    pub command_buf: Vec<char>,
    pub view_offset: usize,
    pub view_height: usize,
    pub compose_to: Vec<char>,
    pub compose_subject: Vec<char>,
    pub compose_body: Vec<char>,
    pub compose_field: ComposeField,
    pub compose_mode: ComposeMode,
    pub compose_cursor: usize,
    pub compose_line: usize,
    pub compose_col: usize,
    pub compose_visual_start: Option<usize>,
    pub needs_refresh: bool,
    pub email_to_delete: Option<EmailSummary>,
}

impl App {
    /// The text of the currently active field.
    pub open spec fn field_text(self) -> Seq<char> {
        match self.compose_field {
            ComposeField::To => self.compose_to@,
            ComposeField::Subject => self.compose_subject@,
            ComposeField::Body => self.compose_body@,
        }
    }

    /// The compose invariant: the cursor addresses a position of the
    /// active field's text (so, with code-point addressing, it always lies
    /// on a code-point boundary and within bounds), and for the body field
    /// the stored (line, column) pair is the projection of the cursor.
    /// Every compose operation preserves it, so it holds after any
    /// sequence of operations on a well-formed state.
    pub open spec fn wf(self) -> bool {
        &&& self.compose_cursor <= self.field_text().len()
        &&& self.compose_field is Body ==> {
            &&& self.compose_line == line_of(self.compose_body@, self.compose_cursor as int)
            &&& self.compose_col == col_of(self.compose_body@, self.compose_cursor as int)
        }
    }

    pub fn new(inbox: Vec<EmailSummary>) -> (r: Self)
        ensures
            r.inbox == inbox,
            r.selected == 0,
            !r.should_quit,
            r.mode is Normal,
            r.command_buf@.len() == 0,
            r.view_offset == 0,
            r.view_height == 0,
            r.compose_to@.len() == 0,
            r.compose_subject@.len() == 0,
            r.compose_body@.len() == 0,
            r.compose_field is To,
            r.compose_mode is Normal,
            r.compose_cursor == 0,
            r.compose_line == 0,
            r.compose_col == 0,
            r.compose_visual_start is None,
            !r.needs_refresh,
            r.email_to_delete is None,
            r.wf(),
    {
        App {
            inbox,
            selected: 0,
            should_quit: false,
            mode: Mode::Normal,
            command_buf: Vec::new(),
            view_offset: 0,
            view_height: 0,
            compose_to: Vec::new(),
            compose_subject: Vec::new(),
            compose_body: Vec::new(),
            compose_field: ComposeField::To,
            compose_mode: ComposeMode::Normal,
            compose_cursor: 0,
            compose_line: 0,
            compose_col: 0,
            compose_visual_start: None,
            needs_refresh: false,
            email_to_delete: None,
        }
    }

    /// Moves the inbox selection up by one, stopping at the first entry.
    pub fn on_up(&mut self)
        ensures
            *final(self) == (App {
                selected: if old(self).selected > 0 {
                    (old(self).selected - 1) as usize
                } else {
                    0
                },
                ..*old(self)
            }),
    {
        if self.selected > 0 {
            self.selected = self.selected - 1;
        }
    }

    /// Moves the inbox selection down by one, stopping at the last entry.
    pub fn on_down(&mut self)
        ensures
            *final(self) == (App {
                selected: if old(self).selected + 1 < old(self).inbox@.len() {
                    (old(self).selected + 1) as usize
                } else {
                    old(self).selected
                },
                ..*old(self)
            }),
    {
        let len = self.inbox.len();
        if self.selected < len && self.selected + 1 < len {
            self.selected = self.selected + 1;
        }
    }

    pub fn quit(&mut self)
        ensures
            *final(self) == (App { should_quit: true, ..*old(self) }),
    {
        self.should_quit = true;
    }

    /// Opens the selected message, if the selection is in range.
    pub fn open_selected(&mut self)
        ensures
            *final(self) == if old(self).selected < old(self).inbox@.len() {
                (App { mode: Mode::Viewing, view_offset: 0, ..*old(self) })
            } else {
                *old(self)
            },
    {
        if self.selected < self.inbox.len() {
            self.mode = Mode::Viewing;
            self.view_offset = 0;
        }
    }

    /// Returns to the inbox, discarding any overlay state.
    pub fn close_overlay(&mut self)
        ensures
            *final(self) == (App {
                mode: Mode::Normal,
                command_buf: final(self).command_buf,
                view_offset: 0,
                email_to_delete: None,
                ..*old(self)
            }),
            final(self).command_buf@.len() == 0,
    {
        self.mode = Mode::Normal;
        self.command_buf = Vec::new();
        self.view_offset = 0;
        self.email_to_delete = None;
    }

    pub fn view_scroll_up(&mut self)
        ensures
            *final(self) == (App {
                view_offset: if old(self).view_offset > 0 {
                    (old(self).view_offset - 1) as usize
                } else {
                    0
                },
                ..*old(self)
            }),
    {
        if self.view_offset > 0 {
            self.view_offset = self.view_offset - 1;
        }
    }

    /// Scrolls the open message down, stopping once the last line reaches
    /// the bottom of the view.
    pub fn view_scroll_down(&mut self, total_lines: usize, visible_height: usize)
        ensures
            *final(self) == (App {
                view_offset: ({
                    let max_offset: int = if total_lines >= visible_height {
                        total_lines - visible_height
                    } else {
                        0
                    };
                    if total_lines == 0 || visible_height == 0 {
                        old(self).view_offset as int
                    } else if old(self).view_offset < max_offset {
                        old(self).view_offset + 1
                    } else {
                        old(self).view_offset as int
                    }
                }) as usize,
                ..*old(self)
            }),
    {
        if total_lines == 0 || visible_height == 0 {
            return;
        }
        let max_offset = if total_lines >= visible_height {
            total_lines - visible_height
        } else {
            0
        };
        if self.view_offset < max_offset {
            self.view_offset = self.view_offset + 1;
        }
    }

    pub fn start_command(&mut self)
        ensures
            *final(self) == (App {
                mode: Mode::Command,
                command_buf: final(self).command_buf,
                ..*old(self)
            }),
            final(self).command_buf@.len() == 0,
    {
        self.mode = Mode::Command;
        self.command_buf = Vec::new();
    }

    pub fn push_command_char(&mut self, ch: char)
        ensures
            *final(self) == (App { command_buf: final(self).command_buf, ..*old(self) }),
            final(self).command_buf@ == old(self).command_buf@.push(ch),
    {
        self.command_buf.push(ch);
    }

    pub fn pop_command_char(&mut self)
        ensures
            *final(self) == (App { command_buf: final(self).command_buf, ..*old(self) }),
            final(self).command_buf@ == if old(self).command_buf@.len() > 0 {
                old(self).command_buf@.drop_last()
            } else {
                old(self).command_buf@
            },
    {
        if self.command_buf.len() > 0 {
            self.command_buf.pop();
        }
    }

    /// Runs the typed command: `help` (with surrounding whitespace
    /// ignored) opens the help overlay, anything else returns to the
    /// inbox; the command buffer is cleared either way.
    pub fn submit_command(&mut self)
        ensures
            *final(self) == (App {
                mode: final(self).mode,
                command_buf: final(self).command_buf,
                ..*old(self)
            }),
            trimmed(old(self).command_buf@) == seq!['h', 'e', 'l', 'p'] ==> final(self).mode
                is Help,
            trimmed(old(self).command_buf@) != seq!['h', 'e', 'l', 'p'] ==> final(self).mode
                is Normal,
            final(self).command_buf@.len() == 0,
    {
        let n = self.command_buf.len();
        let mut a: usize = 0;
        while a < n && is_space_char(self.command_buf[a])
            invariant
                a <= n == self.command_buf@.len(),
                skip_space(self.command_buf@, 0) == skip_space(self.command_buf@, a as int),
                *self == *old(self),
            decreases n - a,
        {
            a = a + 1;
        }
        let mut b: usize = n;
        while b > 0 && is_space_char(self.command_buf[b - 1])
            invariant
                b <= n == self.command_buf@.len(),
                trim_end_idx(self.command_buf@, n as int) == trim_end_idx(
                    self.command_buf@,
                    b as int,
                ),
                *self == *old(self),
            decreases b,
        {
            b = b - 1;
        }
        let is_help = a <= b && b - a == 4 && self.command_buf[a] == 'h'
            && self.command_buf[a + 1] == 'e' && self.command_buf[a + 2] == 'l'
            && self.command_buf[a + 3] == 'p';
        proof {
            let buf = self.command_buf@;
            let t = trimmed(buf);
            let h = seq!['h', 'e', 'l', 'p'];
            assert(h.len() == 4 && h[0] == 'h' && h[1] == 'e' && h[2] == 'l' && h[3] == 'p');
            if a <= b {
                assert(t =~= buf.subrange(a as int, b as int));
                if b - a == 4 {
                    assert(t[0] == buf[a as int] && t[1] == buf[a + 1] && t[2] == buf[a + 2]
                        && t[3] == buf[a + 3]);
                    if is_help {
                        assert(t =~= h);
                    }
                } else {
                    assert(t.len() != 4);
                }
            } else {
                assert(t.len() == 0);
            }
        }
        if is_help {
            self.mode = Mode::Help;
        } else {
            self.mode = Mode::Normal;
        }
        self.command_buf.clear();
    }

    /// Shows the delete confirmation for the selected message, remembering
    /// which message is to be deleted.
    pub fn show_delete_confirm(&mut self)
        ensures
            old(self).selected < old(self).inbox@.len() ==> {
                &&& *final(self) == (App {
                    mode: Mode::DeleteConfirm,
                    email_to_delete: final(self).email_to_delete,
                    ..*old(self)
                })
                &&& (final(self).email_to_delete matches Some(e) && e@ == old(self).inbox@[old(self).selected as int]@)
            },
            old(self).selected >= old(self).inbox@.len() ==> *final(self) == *old(self),
    {
        if self.selected < self.inbox.len() {
            self.email_to_delete = Some(self.inbox[self.selected].clone());
            self.mode = Mode::DeleteConfirm;
        }
    }

    /// Removes the selected message from the inbox list, pulling the
    /// selection back if it fell off the end, and flags a refresh.
    pub fn confirm_delete(&mut self)
        ensures
            final(self).mode is Normal,
            old(self).selected < old(self).inbox@.len() ==> {
                &&& final(self).inbox@ == old(self).inbox@.remove(old(self).selected as int)
                &&& final(self).needs_refresh
                &&& final(self).selected == if old(self).selected >= final(self).inbox@.len()
                    && old(self).selected > 0 {
                    (old(self).selected - 1) as usize
                } else {
                    old(self).selected
                }
                &&& *final(self) == (App {
                    mode: Mode::Normal,
                    inbox: final(self).inbox,
                    selected: final(self).selected,
                    needs_refresh: true,
                    ..*old(self)
                })
            },
            old(self).selected >= old(self).inbox@.len() ==> *final(self) == (App {
                mode: Mode::Normal,
                ..*old(self)
            }),
    {
        if self.selected < self.inbox.len() {
            self.inbox.remove(self.selected);
            if self.selected >= self.inbox.len() && self.selected > 0 {
                self.selected = self.selected - 1;
            }
            self.needs_refresh = true;
        }
        self.mode = Mode::Normal;
    }

    /// Begins a compose session: all three fields empty, the recipient
    /// field active, Normal mode, the cursor at 0.
    pub fn start_compose(&mut self)
        ensures
            *final(self) == (App {
                mode: Mode::Compose,
                compose_to: final(self).compose_to,
                compose_subject: final(self).compose_subject,
                compose_body: final(self).compose_body,
                compose_field: ComposeField::To,
                compose_mode: ComposeMode::Normal,
                compose_cursor: 0,
                compose_line: 0,
                compose_col: 0,
                compose_visual_start: None,
                ..*old(self)
            }),
            final(self).compose_to@.len() == 0,
            final(self).compose_subject@.len() == 0,
            final(self).compose_body@.len() == 0,
            final(self).wf(),
    {
        self.mode = Mode::Compose;
        self.compose_to = Vec::new();
        self.compose_subject = Vec::new();
        self.compose_body = Vec::new();
        self.compose_field = ComposeField::To;
        self.compose_mode = ComposeMode::Normal;
        self.compose_cursor = 0;
        self.compose_line = 0;
        self.compose_col = 0;
        self.compose_visual_start = None;
    }

    /// The active field's text, for reading.
    fn get_current_field_text(&self) -> (r: &Vec<char>)
        ensures
            r@ == self.field_text(),
    {
        match self.compose_field {
            ComposeField::To => &self.compose_to,
            ComposeField::Subject => &self.compose_subject,
            ComposeField::Body => &self.compose_body,
        }
    }

    /// Recomputes the stored (line, column) pair from the cursor.  For the
    /// single-line fields the pair is unused and left alone.
    fn update_line_col_from_cursor(&mut self)
        requires
            old(self).compose_field is Body ==> old(self).compose_cursor <= old(self).compose_body@.len(),
        ensures
            *final(self) == (App {
                compose_line: final(self).compose_line,
                compose_col: final(self).compose_col,
                ..*old(self)
            }),
            old(self).compose_field is Body ==> {
                &&& final(self).compose_line == line_of(
                    old(self).compose_body@,
                    old(self).compose_cursor as int,
                )
                &&& final(self).compose_col == col_of(
                    old(self).compose_body@,
                    old(self).compose_cursor as int,
                )
            },
            !(old(self).compose_field is Body) ==> *final(self) == *old(self),
            final(self).wf() == (final(self).compose_cursor <= final(self).field_text().len()),
    {
        if matches!(self.compose_field, ComposeField::Body) {
            let (l, c) = line_col_from_cursor(&self.compose_body, self.compose_cursor);
            self.compose_line = l;
            self.compose_col = c;
        }
    }

    /// Clamps the cursor into the active field's text and, for the body,
    /// recomputes (line, column) from it.
    fn clamp_cursor(&mut self)
        ensures
            *final(self) == (App {
                compose_cursor: final(self).compose_cursor,
                compose_line: final(self).compose_line,
                compose_col: final(self).compose_col,
                ..*old(self)
            }),
            final(self).compose_cursor == if old(self).compose_cursor
                <= old(self).field_text().len() {
                old(self).compose_cursor as int
            } else {
                old(self).field_text().len() as int
            },
            !(old(self).compose_field is Body) ==> {
                &&& final(self).compose_line == old(self).compose_line
                &&& final(self).compose_col == old(self).compose_col
            },
            final(self).wf(),
    {
        let len = self.get_current_field_text().len();
        if self.compose_cursor > len {
            self.compose_cursor = len;
        }
        self.update_line_col_from_cursor();
    }

    /// Switches the active field forward in the cycle (Normal or Visual
    /// mode only), placing the cursor at the field's start.
    pub fn compose_next_field(&mut self)
        ensures
            (old(self).compose_mode is Normal || old(self).compose_mode is Visual) ==> {
                &&& *final(self) == (App {
                    compose_field: next_field_spec(old(self).compose_field),
                    compose_cursor: 0,
                    compose_line: final(self).compose_line,
                    compose_col: final(self).compose_col,
                    ..*old(self)
                })
                &&& final(self).wf()
            },
            old(self).compose_mode is Insert ==> *final(self) == *old(self),
    {
        if matches!(self.compose_mode, ComposeMode::Normal | ComposeMode::Visual) {
            self.compose_field = match self.compose_field {
                ComposeField::To => ComposeField::Subject,
                ComposeField::Subject => ComposeField::Body,
                ComposeField::Body => ComposeField::To,
            };
            self.compose_cursor = 0;
            proof {
                assert(self.compose_body@.take(0) =~= Seq::<char>::empty());
            }
            self.clamp_cursor();
        }
    }

    /// Switches the active field backward in the cycle (Normal or Visual
    /// mode only), placing the cursor at the field's start.
    pub fn compose_prev_field(&mut self)
        ensures
            (old(self).compose_mode is Normal || old(self).compose_mode is Visual) ==> {
                &&& *final(self) == (App {
                    compose_field: prev_field_spec(old(self).compose_field),
                    compose_cursor: 0,
                    compose_line: final(self).compose_line,
                    compose_col: final(self).compose_col,
                    ..*old(self)
                })
                &&& final(self).wf()
            },
            old(self).compose_mode is Insert ==> *final(self) == *old(self),
    {
        if matches!(self.compose_mode, ComposeMode::Normal | ComposeMode::Visual) {
            self.compose_field = match self.compose_field {
                ComposeField::To => ComposeField::Body,
                ComposeField::Subject => ComposeField::To,
                ComposeField::Body => ComposeField::Subject,
            };
            self.compose_cursor = 0;
            proof {
                assert(self.compose_body@.take(0) =~= Seq::<char>::empty());
            }
            self.clamp_cursor();
        }
    }

    /// Enters Insert mode; any visual anchor is dropped.
    pub fn compose_enter_insert(&mut self)
        ensures
            *final(self) == (App {
                compose_mode: ComposeMode::Insert,
                compose_visual_start: None,
                ..*old(self)
            }),
    {
        self.compose_mode = ComposeMode::Insert;
        self.compose_visual_start = None;
    }

    /// Enters Visual mode, anchoring the selection at the cursor.
    pub fn compose_enter_visual(&mut self)
        ensures
            *final(self) == (App {
                compose_mode: ComposeMode::Visual,
                compose_visual_start: Some(old(self).compose_cursor),
                ..*old(self)
            }),
    {
        self.compose_mode = ComposeMode::Visual;
        self.compose_visual_start = Some(self.compose_cursor);
    }

    /// Leaves Insert mode for Normal mode; the cursor stays where it is.
    pub fn compose_exit_insert(&mut self)
        ensures
            *final(self) == (App { compose_mode: ComposeMode::Normal, ..*old(self) }),
    {
        self.compose_mode = ComposeMode::Normal;
    }

    /// Leaves Visual mode for Normal mode, clearing the anchor.
    pub fn compose_exit_visual(&mut self)
        ensures
            *final(self) == (App {
                compose_mode: ComposeMode::Normal,
                compose_visual_start: None,
                ..*old(self)
            }),
    {
        self.compose_mode = ComposeMode::Normal;
        self.compose_visual_start = None;
    }

    /// Moves the cursor one code point left.  In the body this walks from
    /// the start of a line to the end of the previous one; in a
    /// single-line field it stops at the start.
    pub fn compose_move_left(&mut self)
        requires
            old(self).wf(),
        ensures
            *final(self) == (App {
                compose_cursor: final(self).compose_cursor,
                compose_line: final(self).compose_line,
                compose_col: final(self).compose_col,
                ..*old(self)
            }),
            final(self).compose_cursor == if old(self).compose_cursor > 0 {
                old(self).compose_cursor - 1
            } else {
                0
            },
            !(old(self).compose_field is Body) ==> final(self).compose_line == old(self).compose_line && final(self).compose_col == old(self).compose_col,
            final(self).wf(),
    {
        if self.compose_cursor > 0 {
            self.compose_cursor = self.compose_cursor - 1;
            self.update_line_col_from_cursor();
        }
    }

    /// Moves the cursor one code point right.  In the body this stays
    /// within the text's lines, wrapping to the start of the next line
    /// from a line's end; in a single-line field it stops at the end.
    pub fn compose_move_right(&mut self)
        requires
            old(self).wf(),
        ensures
            *final(self) == (App {
                compose_cursor: final(self).compose_cursor,
                compose_line: final(self).compose_line,
                compose_col: final(self).compose_col,
                ..*old(self)
            }),
            old(self).compose_field is Body ==> final(self).compose_cursor == right_target(
                old(self).compose_body@,
                old(self).compose_cursor as int,
            ),
            !(old(self).compose_field is Body) ==> {
                &&& final(self).compose_cursor == if old(self).compose_cursor < old(self).field_text().len() {
                    old(self).compose_cursor + 1
                } else {
                    old(self).compose_cursor as int
                }
                &&& final(self).compose_line == old(self).compose_line
                &&& final(self).compose_col == old(self).compose_col
            },
            final(self).wf(),
    {
        if matches!(self.compose_field, ComposeField::Body) {
            let len = self.compose_body.len();
            if self.compose_cursor < len {
                proof {
                    lemma_count_nl_le_len(self.compose_body@.take(self.compose_cursor as int));
                }
                let advance = if self.compose_body[self.compose_cursor] != '\n' {
                    true
                } else {
                    let n = count_lines(&self.compose_body);
                    self.compose_line + 1 < n
                };
                if advance {
                    self.compose_cursor = self.compose_cursor + 1;
                    self.update_line_col_from_cursor();
                }
            }
        } else {
            let len = self.get_current_field_text().len();
            if self.compose_cursor < len {
                self.compose_cursor = self.compose_cursor + 1;
            }
        }
    }

    /// Moves up one body line, keeping the column where the new line is
    /// long enough and clamping it otherwise.  On the first body line it
    /// switches to the previous field instead; outside the body it does
    /// nothing.
    pub fn compose_move_up(&mut self)
        requires
            old(self).wf(),
        ensures
            *final(self) == (App {
                compose_field: final(self).compose_field,
                compose_cursor: final(self).compose_cursor,
                compose_line: final(self).compose_line,
                compose_col: final(self).compose_col,
                ..*old(self)
            }),
            !(old(self).compose_field is Body) ==> *final(self) == *old(self),
            old(self).compose_field is Body && old(self).compose_line > 0 ==> {
                &&& final(self).compose_field == old(self).compose_field
                &&& final(self).compose_cursor == cursor_of(
                    old(self).compose_body@,
                    old(self).compose_line - 1,
                    old(self).compose_col as int,
                )
            },
            old(self).compose_field is Body && old(self).compose_line == 0 ==> {
                &&& (old(self).compose_mode is Normal || old(self).compose_mode is Visual) ==> {
                    &&& final(self).compose_field == prev_field_spec(old(self).compose_field)
                    &&& final(self).compose_cursor == 0
                }
                &&& old(self).compose_mode is Insert ==> *final(self) == *old(self)
            },
            final(self).wf(),
    {
        if matches!(self.compose_field, ComposeField::Body) {
            if self.compose_line > 0 {
                let c = cursor_from_line_col(
                    &self.compose_body,
                    self.compose_line - 1,
                    self.compose_col,
                );
                self.compose_cursor = c;
                self.update_line_col_from_cursor();
            } else {
                self.compose_prev_field();
            }
        }
    }

    /// Moves down one body line, clamping the column to the new line's
    /// length; past the last line, and outside the body, it does nothing.
    pub fn compose_move_down(&mut self)
        requires
            old(self).wf(),
        ensures
            *final(self) == (App {
                compose_cursor: final(self).compose_cursor,
                compose_line: final(self).compose_line,
                compose_col: final(self).compose_col,
                ..*old(self)
            }),
            !(old(self).compose_field is Body) ==> *final(self) == *old(self),
            old(self).compose_field is Body ==> final(self).compose_cursor == if old(self).compose_line + 1 < num_lines(old(self).compose_body@) {
                cursor_of(
                    old(self).compose_body@,
                    old(self).compose_line + 1,
                    old(self).compose_col as int,
                )
            } else {
                old(self).compose_cursor as int
            },
            final(self).wf(),
    {
        if matches!(self.compose_field, ComposeField::Body) {
            let n = count_lines(&self.compose_body);
            if self.compose_line < n && self.compose_line + 1 < n {
                let c = cursor_from_line_col(
                    &self.compose_body,
                    self.compose_line + 1,
                    self.compose_col,
                );
                self.compose_cursor = c;
                self.update_line_col_from_cursor();
            }
        }
    }

    /// Moves to the start of the next word: past the current run of
    /// non-whitespace, then past the whitespace after it.
    pub fn compose_move_word_forward(&mut self)
        requires
            old(self).wf(),
        ensures
            *final(self) == (App {
                compose_cursor: final(self).compose_cursor,
                compose_line: final(self).compose_line,
                compose_col: final(self).compose_col,
                ..*old(self)
            }),
            final(self).compose_cursor == word_forward(
                old(self).field_text(),
                old(self).compose_cursor as int,
            ),
            !(old(self).compose_field is Body) ==> final(self).compose_line == old(self).compose_line && final(self).compose_col == old(self).compose_col,
            final(self).wf(),
    {
        let c = word_forward_from(self.get_current_field_text(), self.compose_cursor);
        self.compose_cursor = c;
        self.update_line_col_from_cursor();
    }

    /// Moves back to the start of the current or previous word; position
    /// 0 stays put.
    pub fn compose_move_word_backward(&mut self)
        requires
            old(self).wf(),
        ensures
            *final(self) == (App {
                compose_cursor: final(self).compose_cursor,
                compose_line: final(self).compose_line,
                compose_col: final(self).compose_col,
                ..*old(self)
            }),
            final(self).compose_cursor == word_backward(
                old(self).field_text(),
                old(self).compose_cursor as int,
            ),
            !(old(self).compose_field is Body) ==> final(self).compose_line == old(self).compose_line && final(self).compose_col == old(self).compose_col,
            final(self).wf(),
    {
        if self.compose_cursor == 0 {
            return;
        }
        let c = word_backward_from(self.get_current_field_text(), self.compose_cursor);
        self.compose_cursor = c;
        self.update_line_col_from_cursor();
    }

    /// Moves to the start of the current line (cursor 0 in a single-line
    /// field).
    pub fn compose_move_line_start(&mut self)
        requires
            old(self).wf(),
        ensures
            *final(self) == (App {
                compose_cursor: final(self).compose_cursor,
                compose_line: final(self).compose_line,
                compose_col: final(self).compose_col,
                ..*old(self)
            }),
            old(self).compose_field is Body ==> final(self).compose_cursor == cursor_of(
                old(self).compose_body@,
                old(self).compose_line as int,
                0,
            ),
            !(old(self).compose_field is Body) ==> {
                &&& final(self).compose_cursor == 0
                &&& final(self).compose_line == old(self).compose_line
                &&& final(self).compose_col == old(self).compose_col
            },
            final(self).wf(),
    {
        if matches!(self.compose_field, ComposeField::Body) {
            let c = cursor_from_line_col(&self.compose_body, self.compose_line, 0);
            self.compose_cursor = c;
            self.update_line_col_from_cursor();
        } else {
            self.compose_cursor = 0;
        }
    }

    /// Moves to the end of the current line (cursor at the text's length
    /// in a single-line field).
    pub fn compose_move_line_end(&mut self)
        requires
            old(self).wf(),
        ensures
            *final(self) == (App {
                compose_cursor: final(self).compose_cursor,
                compose_line: final(self).compose_line,
                compose_col: final(self).compose_col,
                ..*old(self)
            }),
            old(self).compose_field is Body ==> final(self).compose_cursor == if (old(self).compose_line as int) < num_lines(old(self).compose_body@) {
                cursor_of(
                    old(self).compose_body@,
                    old(self).compose_line as int,
                    old(self).compose_body@.len() as int,
                )
            } else {
                old(self).compose_cursor as int
            },
            !(old(self).compose_field is Body) ==> {
                &&& final(self).compose_cursor == old(self).field_text().len()
                &&& final(self).compose_line == old(self).compose_line
                &&& final(self).compose_col == old(self).compose_col
            },
            final(self).wf(),
    {
        if matches!(self.compose_field, ComposeField::Body) {
            let n = count_lines(&self.compose_body);
            if self.compose_line < n {
                let len = self.compose_body.len();
                let c = cursor_from_line_col(&self.compose_body, self.compose_line, len);
                self.compose_cursor = c;
                self.update_line_col_from_cursor();
            }
        } else {
            self.compose_cursor = self.get_current_field_text().len();
        }
    }

    /// Removes the code point under the cursor, if any; the cursor stays.
    pub fn compose_delete_char(&mut self)
        requires
            old(self).wf(),
        ensures
            *final(self) == (App {
                compose_to: final(self).compose_to,
                compose_subject: final(self).compose_subject,
                compose_body: final(self).compose_body,
                compose_line: final(self).compose_line,
                compose_col: final(self).compose_col,
                ..*old(self)
            }),
            old(self).compose_cursor < old(self).field_text().len() ==> final(self).field_text()
                == old(self).field_text().remove(old(self).compose_cursor as int),
            old(self).compose_cursor >= old(self).field_text().len() ==> *final(self) == *old(self),
            !(old(self).compose_field is To) ==> final(self).compose_to == old(self).compose_to,
            !(old(self).compose_field is Subject) ==> final(self).compose_subject == old(self).compose_subject,
            !(old(self).compose_field is Body) ==> final(self).compose_body == old(self).compose_body && final(self).compose_line == old(self).compose_line && final(self).compose_col == old(self).compose_col,
            final(self).wf(),
    {
        let cursor = self.compose_cursor;
        let len = self.get_current_field_text().len();
        if cursor < len {
            match self.compose_field {
                ComposeField::To => {
                    self.compose_to.remove(cursor);
                },
                ComposeField::Subject => {
                    self.compose_subject.remove(cursor);
                },
                ComposeField::Body => {
                    self.compose_body.remove(cursor);
                },
            }
            self.update_line_col_from_cursor();
        }
    }

    /// Clears the whole active field and puts the cursor at 0.
    pub fn compose_delete_line(&mut self)
        requires
            old(self).wf(),
        ensures
            *final(self) == (App {
                compose_to: final(self).compose_to,
                compose_subject: final(self).compose_subject,
                compose_body: final(self).compose_body,
                compose_cursor: 0,
                compose_line: final(self).compose_line,
                compose_col: final(self).compose_col,
                ..*old(self)
            }),
            final(self).field_text().len() == 0,
            !(old(self).compose_field is To) ==> final(self).compose_to == old(self).compose_to,
            !(old(self).compose_field is Subject) ==> final(self).compose_subject == old(self).compose_subject,
            !(old(self).compose_field is Body) ==> final(self).compose_body == old(self).compose_body && final(self).compose_line == old(self).compose_line && final(self).compose_col == old(self).compose_col,
            final(self).wf(),
    {
        match self.compose_field {
            ComposeField::To => self.compose_to.clear(),
            ComposeField::Subject => self.compose_subject.clear(),
            ComposeField::Body => self.compose_body.clear(),
        }
        self.compose_cursor = 0;
        proof {
            assert(self.compose_body@.take(0) =~= Seq::<char>::empty());
        }
        self.update_line_col_from_cursor();
    }

    /// Prefixes the whole body with two spaces and shifts the cursor
    /// right by two; a two-space indent of the buffer, not of one line.
    pub fn compose_indent_right(&mut self)
        requires
            old(self).wf(),
        ensures
            !(old(self).compose_field is Body) ==> *final(self) == *old(self),
            old(self).compose_field is Body ==> {
                &&& *final(self) == (App {
                    compose_body: final(self).compose_body,
                    compose_cursor: final(self).compose_cursor,
                    compose_line: final(self).compose_line,
                    compose_col: final(self).compose_col,
                    ..*old(self)
                })
                &&& final(self).compose_body@ == seq![' ', ' '] + old(self).compose_body@
                &&& final(self).compose_cursor == old(self).compose_cursor + 2
            },
            final(self).wf(),
    {
        if matches!(self.compose_field, ComposeField::Body) {
            self.compose_body.insert(0, ' ');
            self.compose_body.insert(0, ' ');
            proof {
                assert(self.compose_body@ =~= seq![' ', ' '] + old(self).compose_body@);
            }
            let _grown = self.compose_body.len();
            self.compose_cursor = self.compose_cursor + 2;
            self.update_line_col_from_cursor();
        }
    }

    /// Removes a two-space prefix from the body, if it has one, pulling
    /// the cursor left by two but not below 0.
    pub fn compose_indent_left(&mut self)
        requires
            old(self).wf(),
        ensures
            !(old(self).compose_field is Body && old(self).compose_body@.len() >= 2 && old(self).compose_body@[0] == ' ' && old(self).compose_body@[1] == ' ') ==> *final(self)
                == *old(self),
            (old(self).compose_field is Body && old(self).compose_body@.len() >= 2 && old(self).compose_body@[0] == ' ' && old(self).compose_body@[1] == ' ') ==> {
                &&& *final(self) == (App {
                    compose_body: final(self).compose_body,
                    compose_cursor: final(self).compose_cursor,
                    compose_line: final(self).compose_line,
                    compose_col: final(self).compose_col,
                    ..*old(self)
                })
                &&& final(self).compose_body@ == old(self).compose_body@.skip(2)
                &&& final(self).compose_cursor == if old(self).compose_cursor >= 2 {
                    old(self).compose_cursor - 2
                } else {
                    0
                }
            },
            final(self).wf(),
    {
        if matches!(self.compose_field, ComposeField::Body) {
            if self.compose_body.len() >= 2 {
                let c0 = self.compose_body[0];
                let c1 = self.compose_body[1];
                if c0 == ' ' && c1 == ' ' {
                    self.compose_body.remove(0);
                    self.compose_body.remove(0);
                    proof {
                        assert(self.compose_body@ =~= old(self).compose_body@.skip(2));
                    }
                    self.compose_cursor = if self.compose_cursor >= 2 {
                        self.compose_cursor - 2
                    } else {
                        0
                    };
                    self.update_line_col_from_cursor();
                }
            }
        }
    }

    /// Moves right one position, then enters Insert mode.
    pub fn compose_append(&mut self)
        requires
            old(self).wf(),
        ensures
            *final(self) == (App {
                compose_mode: ComposeMode::Insert,
                compose_visual_start: None,
                compose_cursor: final(self).compose_cursor,
                compose_line: final(self).compose_line,
                compose_col: final(self).compose_col,
                ..*old(self)
            }),
            old(self).compose_field is Body ==> final(self).compose_cursor == right_target(
                old(self).compose_body@,
                old(self).compose_cursor as int,
            ),
            !(old(self).compose_field is Body) ==> final(self).compose_cursor == (if old(self).compose_cursor < old(self).field_text().len() {
                old(self).compose_cursor + 1
            } else {
                old(self).compose_cursor as int
            }) && final(self).compose_line == old(self).compose_line && final(self).compose_col
                == old(self).compose_col,
            final(self).wf(),
    {
        self.compose_move_right();
        self.compose_enter_insert();
    }

    /// Moves to the line's end, then enters Insert mode.
    pub fn compose_append_end(&mut self)
        requires
            old(self).wf(),
        ensures
            *final(self) == (App {
                compose_mode: ComposeMode::Insert,
                compose_visual_start: None,
                compose_cursor: final(self).compose_cursor,
                compose_line: final(self).compose_line,
                compose_col: final(self).compose_col,
                ..*old(self)
            }),
            old(self).compose_field is Body ==> final(self).compose_cursor == if (old(self).compose_line as int) < num_lines(old(self).compose_body@) {
                cursor_of(
                    old(self).compose_body@,
                    old(self).compose_line as int,
                    old(self).compose_body@.len() as int,
                )
            } else {
                old(self).compose_cursor as int
            },
            !(old(self).compose_field is Body) ==> final(self).compose_cursor == old(self).field_text().len() && final(self).compose_line == old(self).compose_line && final(self).compose_col == old(self).compose_col,
            final(self).wf(),
    {
        self.compose_move_line_end();
        self.compose_enter_insert();
    }

    /// Moves to the line's start, then enters Insert mode.
    pub fn compose_insert_start(&mut self)
        requires
            old(self).wf(),
        ensures
            *final(self) == (App {
                compose_mode: ComposeMode::Insert,
                compose_visual_start: None,
                compose_cursor: final(self).compose_cursor,
                compose_line: final(self).compose_line,
                compose_col: final(self).compose_col,
                ..*old(self)
            }),
            old(self).compose_field is Body ==> final(self).compose_cursor == cursor_of(
                old(self).compose_body@,
                old(self).compose_line as int,
                0,
            ),
            !(old(self).compose_field is Body) ==> final(self).compose_cursor == 0 && final(self).compose_line == old(self).compose_line && final(self).compose_col == old(self).compose_col,
            final(self).wf(),
    {
        self.compose_move_line_start();
        self.compose_enter_insert();
    }

    /// Opens a new empty line at the very end of the body, places the
    /// cursor on it, and enters Insert mode.
    pub fn compose_open_below(&mut self)
        requires
            old(self).wf(),
        ensures
            !(old(self).compose_field is Body) ==> *final(self) == *old(self),
            old(self).compose_field is Body ==> {
                &&& *final(self) == (App {
                    compose_mode: ComposeMode::Insert,
                    compose_visual_start: None,
                    compose_body: final(self).compose_body,
                    compose_cursor: final(self).compose_cursor,
                    compose_line: final(self).compose_line,
                    compose_col: final(self).compose_col,
                    ..*old(self)
                })
                &&& final(self).compose_body@ == old(self).compose_body@.push('\n')
                &&& final(self).compose_cursor == old(self).compose_body@.len() + 1
            },
            final(self).wf(),
    {
        if matches!(self.compose_field, ComposeField::Body) {
            self.compose_move_line_end();
            self.compose_body.push('\n');
            let n = self.compose_body.len();
            self.compose_cursor = n;
            self.update_line_col_from_cursor();
            self.compose_enter_insert();
        }
    }

    /// Opens a new empty line above the current one: a newline goes in at
    /// the line's start and the cursor stays there, in Insert mode.
    pub fn compose_open_above(&mut self)
        requires
            old(self).wf(),
        ensures
            !(old(self).compose_field is Body) ==> *final(self) == *old(self),
            old(self).compose_field is Body ==> {
                &&& *final(self) == (App {
                    compose_mode: ComposeMode::Insert,
                    compose_visual_start: None,
                    compose_body: final(self).compose_body,
                    compose_cursor: final(self).compose_cursor,
                    compose_line: final(self).compose_line,
                    compose_col: final(self).compose_col,
                    ..*old(self)
                })
                &&& final(self).compose_cursor == cursor_of(
                    old(self).compose_body@,
                    old(self).compose_line as int,
                    0,
                )
                &&& final(self).compose_body@ == old(self).compose_body@.insert(
                    final(self).compose_cursor as int,
                    '\n',
                )
            },
            final(self).wf(),
    {
        if matches!(self.compose_field, ComposeField::Body) {
            self.compose_move_line_start();
            let cur = self.compose_cursor;
            self.compose_body.insert(cur, '\n');
            self.update_line_col_from_cursor();
            self.compose_enter_insert();
        }
    }

    /// Inserts a newline at the cursor (body only).
    pub fn compose_insert_newline(&mut self)
        requires
            old(self).wf(),
        ensures
            !(old(self).compose_field is Body) ==> *final(self) == *old(self),
            old(self).compose_field is Body ==> {
                &&& *final(self) == (App {
                    compose_body: final(self).compose_body,
                    compose_cursor: final(self).compose_cursor,
                    compose_line: final(self).compose_line,
                    compose_col: final(self).compose_col,
                    ..*old(self)
                })
                &&& final(self).compose_body@ == old(self).compose_body@.insert(
                    old(self).compose_cursor as int,
                    '\n',
                )
                &&& final(self).compose_cursor == old(self).compose_cursor + 1
            },
            final(self).wf(),
    {
        if matches!(self.compose_field, ComposeField::Body) {
            self.compose_push_char('\n');
        }
    }

    /// Deletes the visual selection: the range between the anchor and the
    /// cursor (its end clamped to the text), leaves the cursor at the
    /// range's start, and returns to Normal mode with the anchor cleared.
    pub fn compose_delete_visual(&mut self)
        requires
            old(self).wf(),
        ensures
            *final(self) == (App {
                compose_mode: ComposeMode::Normal,
                compose_visual_start: None,
                compose_to: final(self).compose_to,
                compose_subject: final(self).compose_subject,
                compose_body: final(self).compose_body,
                compose_cursor: final(self).compose_cursor,
                compose_line: final(self).compose_line,
                compose_col: final(self).compose_col,
                ..*old(self)
            }),
            old(self).compose_visual_start is None ==> final(self).compose_to == old(self).compose_to && final(self).compose_subject == old(self).compose_subject && final(self).compose_body == old(self).compose_body && final(self).compose_cursor == old(self).compose_cursor,
            old(self).compose_visual_start matches Some(a) ==> {
                let cur = old(self).compose_cursor as int;
                let len = old(self).field_text().len() as int;
                let lo = if a < old(self).compose_cursor {
                    a as int
                } else {
                    cur
                };
                let hi0 = if a < old(self).compose_cursor {
                    cur
                } else {
                    a as int
                };
                let hi = if hi0 <= len {
                    hi0
                } else {
                    len
                };
                &&& final(self).field_text() == old(self).field_text().take(lo) + old(self).field_text().skip(hi)
                &&& final(self).compose_cursor == lo
                &&& !(old(self).compose_field is To) ==> final(self).compose_to == old(self).compose_to
                &&& !(old(self).compose_field is Subject) ==> final(self).compose_subject == old(self).compose_subject
                &&& !(old(self).compose_field is Body) ==> final(self).compose_body == old(self).compose_body
            },
            !(old(self).compose_field is Body) ==> final(self).compose_line == old(self).compose_line && final(self).compose_col == old(self).compose_col,
            final(self).wf(),
    {
        let cursor = self.compose_cursor;
        match self.compose_visual_start {
            Some(start) => {
                let (begin, end) = if start < cursor {
                    (start, cursor)
                } else {
                    (cursor, start)
                };
                match self.compose_field {
                    ComposeField::To => {
                        let len = self.compose_to.len();
                        let e = if end < len {
                            end
                        } else {
                            len
                        };
                        remove_range(&mut self.compose_to, begin, e);
                    },
                    ComposeField::Subject => {
                        let len = self.compose_subject.len();
                        let e = if end < len {
                            end
                        } else {
                            len
                        };
                        remove_range(&mut self.compose_subject, begin, e);
                    },
                    ComposeField::Body => {
                        let len = self.compose_body.len();
                        let e = if end < len {
                            end
                        } else {
                            len
                        };
                        remove_range(&mut self.compose_body, begin, e);
                    },
                }
                self.compose_cursor = begin;
                self.update_line_col_from_cursor();
            },
            None => {},
        }
        self.compose_exit_visual();
    }

    /// Inserts one code point at the cursor and advances past it.
    pub fn compose_push_char(&mut self, ch: char)
        requires
            old(self).wf(),
        ensures
            *final(self) == (App {
                compose_to: final(self).compose_to,
                compose_subject: final(self).compose_subject,
                compose_body: final(self).compose_body,
                compose_cursor: final(self).compose_cursor,
                compose_line: final(self).compose_line,
                compose_col: final(self).compose_col,
                ..*old(self)
            }),
            final(self).field_text() == old(self).field_text().insert(
                old(self).compose_cursor as int,
                ch,
            ),
            final(self).compose_cursor == old(self).compose_cursor + 1,
            !(old(self).compose_field is To) ==> final(self).compose_to == old(self).compose_to,
            !(old(self).compose_field is Subject) ==> final(self).compose_subject == old(self).compose_subject,
            !(old(self).compose_field is Body) ==> final(self).compose_body == old(self).compose_body && final(self).compose_line == old(self).compose_line && final(self).compose_col == old(self).compose_col,
            final(self).wf(),
    {
        let cursor = self.compose_cursor;
        match self.compose_field {
            ComposeField::To => self.compose_to.insert(cursor, ch),
            ComposeField::Subject => self.compose_subject.insert(cursor, ch),
            ComposeField::Body => self.compose_body.insert(cursor, ch),
        }
        let _grown = self.get_current_field_text().len();
        self.compose_cursor = cursor + 1;
        self.update_line_col_from_cursor();
    }

    /// Removes the code point before the cursor and steps back over it;
    /// at position 0 nothing happens.
    pub fn compose_pop_char(&mut self)
        requires
            old(self).wf(),
        ensures
            *final(self) == (App {
                compose_to: final(self).compose_to,
                compose_subject: final(self).compose_subject,
                compose_body: final(self).compose_body,
                compose_cursor: final(self).compose_cursor,
                compose_line: final(self).compose_line,
                compose_col: final(self).compose_col,
                ..*old(self)
            }),
            old(self).compose_cursor == 0 ==> *final(self) == *old(self),
            old(self).compose_cursor > 0 ==> {
                &&& final(self).field_text() == old(self).field_text().remove(
                    old(self).compose_cursor - 1,
                )
                &&& final(self).compose_cursor == old(self).compose_cursor - 1
            },
            !(old(self).compose_field is To) ==> final(self).compose_to == old(self).compose_to,
            !(old(self).compose_field is Subject) ==> final(self).compose_subject == old(self).compose_subject,
            !(old(self).compose_field is Body) ==> final(self).compose_body == old(self).compose_body && final(self).compose_line == old(self).compose_line && final(self).compose_col == old(self).compose_col,
            final(self).wf(),
    {
        if self.compose_cursor > 0 {
            let cursor = self.compose_cursor - 1;
            match self.compose_field {
                ComposeField::To => {
                    self.compose_to.remove(cursor);
                },
                ComposeField::Subject => {
                    self.compose_subject.remove(cursor);
                },
                ComposeField::Body => {
                    self.compose_body.remove(cursor);
                },
            }
            self.compose_cursor = cursor;
            self.update_line_col_from_cursor();
        }
    }

    /// The three field texts of the draft, for the caller to validate and
    /// hand to the store.
    pub fn get_compose_data(&self) -> (r: (String, String, String))
        ensures
            r.0@ == self.compose_to@,
            r.1@ == self.compose_subject@,
            r.2@ == self.compose_body@,
    {
        (
            chars_to_string(&self.compose_to),
            chars_to_string(&self.compose_subject),
            chars_to_string(&self.compose_body),
        )
    }
}

/// In a well-formed state editing the body, the stored (line, column)
/// pair maps back to the byte the cursor addresses: the two views of the
/// position agree.  The one position where the backward map clamps is the
/// end of a body whose last character is a newline.
pub proof fn lemma_projection_round_trip(app: App)
    requires
        app.wf(),
        app.compose_field is Body,
        !(app.compose_body@.len() > 0 && app.compose_body@.last() == '\n' && app.compose_cursor
            == app.compose_body@.len()),
    ensures
        cursor_of(app.compose_body@, app.compose_line as int, app.compose_col as int)
            == app.compose_cursor,
{
    crate::position::lemma_round_trip(app.compose_body@, app.compose_cursor as int);
}

} // verus!

//! The interactive session: the state owned by the single interactive loop,
//! and the pure transition function it applies to each key event.
//!
//! The surrounding program polls the terminal, translates each key event into
//! a [`Key`], and hands it to [`App::handle_key`]. The returned [`Action`]
//! tells the loop what to do next: keep going, quit, or start a submission
//! (push the returned notice onto the relay, then run the outbound send on a
//! detached task). The loop itself never blocks on the network.

use vstd::prelude::*;
use crate::message::{Message, MessageView};

verus! {

/// Which of the two editable text fields currently receives characters.
#[derive(Clone, Copy, Debug, PartialEq, Eq, Structural)]
pub enum Focus {
    Address,
    Input,
}

/// A key event, as the session understands it. The surrounding program maps
/// raw terminal events onto these one for one and drops everything else into
/// `Other`.
#[derive(Clone, Copy, Debug, PartialEq, Eq, Structural)]
pub enum Key {
    Esc,
    CtrlC,
    Tab,
    Enter,
    Backspace,
    Char(char),
    Other,
}

/// What the interactive loop must do after a key event.
pub enum Action {
    /// Leave the loop and restore the terminal.
    Quit,
    /// Nothing beyond the state change already applied.
    Idle,
    /// Push `notice` onto the relay now, then post `msg` to `target` on a
    /// detached task.
    Submit { target: String, notice: Message, msg: Message },
}

/// The mathematical content of an [`Action`].
pub ghost enum ActionView {
    Quit,
    Idle,
    Submit { target: Seq<char>, notice: MessageView, msg: MessageView },
}

impl View for Action {
    type V = ActionView;

    open spec fn view(&self) -> ActionView {
        match self {
            Action::Quit => ActionView::Quit,
            Action::Idle => ActionView::Idle,
            Action::Submit { target, notice, msg } => ActionView::Submit {
                target: target@,
                notice: notice@,
                msg: msg@,
            },
        }
    }
}

/// How long the cursor stays in one blink phase.
pub const BLINK_INTERVAL_MS: u64 = 500;

/// The bounded wait of each event poll, so that redraws and relay drains are
/// never starved by the absence of key events.
pub const POLL_INTERVAL_MS: u64 = 100;

/// The state of one interactive session. It is owned by exactly one thread;
/// the only data that crosses threads is what travels over the relay.
pub struct App {
    /// Display name used for outgoing messages.
    pub username: String,
    /// This instance's own reachable address, display-only.
    pub ip_address: String,
    /// The destination-address buffer.
    pub address: String,
    /// The message-composition buffer.
    pub input: String,
    /// Every message seen so far, in arrival order; append-only.
    pub messages: Vec<Message>,
    /// Which buffer is editable right now.
    pub focus: Focus,
    /// When the blink phase last flipped, in milliseconds of the loop's clock.
    pub last_blink: u64,
    /// Whether the cursor is drawn this phase.
    pub blink_visible: bool,
}

/// The mathematical content of an [`App`].
pub ghost struct AppView {
    pub username: Seq<char>,
    pub ip_address: Seq<char>,
    pub address: Seq<char>,
    pub input: Seq<char>,
    pub messages: Seq<MessageView>,
    pub focus: Focus,
    pub last_blink: u64,
    pub blink_visible: bool,
}

impl View for App {
    type V = AppView;

    open spec fn view(&self) -> AppView {
        AppView {
            username: self.username@,
            ip_address: self.ip_address@,
            address: self.address@,
            input: self.input@,
            messages: self.messages.deep_view(),
            focus: self.focus,
            last_blink: self.last_blink,
            blink_visible: self.blink_visible,
        }
    }
}

/// The other field of the two.
pub open spec fn toggled(f: Focus) -> Focus {
    match f {
        Focus::Address => Focus::Input,
        Focus::Input => Focus::Address,
    }
}

/// A buffer after one backspace: the last character goes, an empty buffer
/// stays empty.
pub open spec fn popped(buf: Seq<char>) -> Seq<char> {
    if buf.len() > 0 {
        buf.drop_last()
    } else {
        buf
    }
}

/// A submission is allowed only while composing, and only with both the
/// destination address and the message text non-empty.
pub open spec fn can_submit(s: AppView) -> bool {
    s.focus is Input && s.address.len() > 0 && s.input.len() > 0
}

/// The local status message announcing a submission, pushed before the
/// network call starts.
pub open spec fn sending_notice_view() -> MessageView {
    MessageView { username: "Server"@, message: "Sending message..."@ }
}

/// The message a valid submission sends: the operator's name and the current
/// contents of the input buffer.
pub open spec fn submitted_message(s: AppView) -> MessageView {
    MessageView { username: s.username, message: s.input }
}

/// The session state after one key event. A character or backspace edits the
/// focused buffer only; `Tab` flips the focus; a valid `Enter` clears the
/// input buffer (the submission itself is the caller's action); every other
/// key leaves the state as it was. No key event ever touches the history.
pub open spec fn step_key(s: AppView, k: Key) -> AppView {
    match k {
        Key::Tab => AppView { focus: toggled(s.focus), ..s },
        Key::Char(c) => match s.focus {
            Focus::Address => AppView { address: s.address.push(c), ..s },
            Focus::Input => AppView { input: s.input.push(c), ..s },
        },
        Key::Backspace => match s.focus {
            Focus::Address => AppView { address: popped(s.address), ..s },
            Focus::Input => AppView { input: popped(s.input), ..s },
        },
        Key::Enter => if can_submit(s) {
            AppView { input: Seq::empty(), ..s }
        } else {
            s
        },
        _ => s,
    }
}

/// The action a key event asks of the loop.
pub open spec fn action_key(s: AppView, k: Key) -> ActionView {
    match k {
        Key::Esc => ActionView::Quit,
        Key::CtrlC => ActionView::Quit,
        Key::Enter => if can_submit(s) {
            ActionView::Submit {
                target: s.address,
                notice: sending_notice_view(),
                msg: submitted_message(s),
            }
        } else {
            ActionView::Idle
        },
        _ => ActionView::Idle,
    }
}

/// The cursor glyph of a blink phase.
pub open spec fn cursor_seq(visible: bool) -> Seq<char> {
    if visible {
        seq!['|']
    } else {
        seq![' ']
    }
}

/// The text a field shows on screen: its buffer, with the blinking cursor
/// appended while the field has focus.
pub open spec fn field_display_view(s: AppView, f: Focus) -> Seq<char> {
    let base = if f is Address {
        s.address
    } else {
        s.input
    };
    if s.focus == f {
        base + cursor_seq(s.blink_visible)
    } else {
        base
    }
}

/// The blink state after a clock reading: once a full interval has elapsed,
/// the cursor phase flips and the interval restarts; otherwise nothing moves.
pub open spec fn tick_view(s: AppView, now_ms: u64) -> AppView {
    if now_ms >= s.last_blink + BLINK_INTERVAL_MS {
        AppView { blink_visible: !s.blink_visible, last_blink: now_ms, ..s }
    } else {
        s
    }
}

/// Whether a key event is a plain edit: a character or a backspace.
pub open spec fn is_edit_key(k: Key) -> bool {
    k is Char || k is Backspace
}

/// The net effect of one edit key on a buffer.
pub open spec fn apply_edit(buf: Seq<char>, k: Key) -> Seq<char> {
    match k {
        Key::Char(c) => buf.push(c),
        Key::Backspace => popped(buf),
        _ => buf,
    }
}

/// The net effect of a sequence of edit keys on a buffer, applied in order.
pub open spec fn apply_edits(buf: Seq<char>, ks: Seq<Key>) -> Seq<char>
    decreases ks.len(),
{
    if ks.len() == 0 {
        buf
    } else {
        apply_edits(apply_edit(buf, ks[0]), ks.skip(1))
    }
}

/// The session state after a sequence of key events, applied in order.
pub open spec fn steps(s: AppView, ks: Seq<Key>) -> AppView
    decreases ks.len(),
{
    if ks.len() == 0 {
        s
    } else {
        steps(step_key(s, ks[0]), ks.skip(1))
    }
}

/// No key event ever touches the history: it grows only by draining the
/// relay.
pub proof fn lemma_keys_never_touch_history(s: AppView, k: Key)
    ensures
        step_key(s, k).messages == s.messages,
{
}

/// For every sequence of character/backspace events, the focused buffer ends
/// as the net effect of those edits applied in order, and the other buffer,
/// the focus, the history and everything else are untouched.
pub proof fn lemma_edits_apply_in_order(s: AppView, ks: Seq<Key>)
    requires
        forall|i: int| 0 <= i < ks.len() ==> is_edit_key(#[trigger] ks[i]),
    ensures
        s.focus is Address ==> steps(s, ks) == (AppView {
            address: apply_edits(s.address, ks),
            ..s
        }),
        s.focus is Input ==> steps(s, ks) == (AppView { input: apply_edits(s.input, ks), ..s }),
    decreases ks.len(),
{
    if ks.len() > 0 {
        assert(is_edit_key(ks[0]));
        let s1 = step_key(s, ks[0]);
        assert forall|i: int| 0 <= i < ks.skip(1).len() implies is_edit_key(#[trigger] ks.skip(1)[i]) by {
            assert(ks.skip(1)[i] == ks[i + 1]);
        }
        lemma_edits_apply_in_order(s1, ks.skip(1));
    }
}

/// `Tab` toggles the focus exactly once, and nothing else; toggling twice
/// returns the whole session to exactly its original state.
pub proof fn lemma_tab_toggles(s: AppView)
    ensures
        step_key(s, Key::Tab).focus != s.focus,
        step_key(s, Key::Tab) == (AppView { focus: toggled(s.focus), ..s }),
        step_key(step_key(s, Key::Tab), Key::Tab) == s,
{
}

/// Submitting with either buffer empty (or while the address field has
/// focus) is a complete no-op: the state is unchanged and the loop is asked
/// to do nothing, so no network call is made and no history entry appears.
pub proof fn lemma_empty_submit_is_noop(s: AppView)
    requires
        !can_submit(s),
    ensures
        step_key(s, Key::Enter) == s,
        action_key(s, Key::Enter) is Idle,
{
}

/// Relies on `String::push`: appends exactly the given character.
#[verifier::external_body]
fn push_char(s: &mut String, c: char)
    ensures
        final(s)@ == old(s)@.push(c),
{
    s.push(c);
}

/// Relies on `String::pop`: removes and returns the last character, and
/// returns `None` on an empty string, leaving it empty.
#[verifier::external_body]
fn pop_char(s: &mut String) -> (r: Option<char>)
    ensures
        old(s)@.len() == 0 ==> final(s)@ == old(s)@ && r is None,
        old(s)@.len() > 0 ==> final(s)@ == old(s)@.drop_last() && r == Some(old(s)@.last()),
{
    s.pop()
}

/// The local status message announcing a submission.
pub fn sending_notice() -> (m: Message)
    ensures
        m@ == sending_notice_view(),
{
    Message { username: "Server".to_owned(), message: "Sending message...".to_owned() }
}

impl App {
    /// A fresh session: focus on the address field, both buffers empty, no
    /// history, cursor shown, blink timer at the start of the loop's clock.
    pub fn new(username: String, ip_address: String) -> (app: App)
        ensures
            app@ == (AppView {
                username: username@,
                ip_address: ip_address@,
                address: Seq::empty(),
                input: Seq::empty(),
                messages: Seq::empty(),
                focus: Focus::Address,
                last_blink: 0,
                blink_visible: true,
            }),
    {
        let app = App {
            username,
            ip_address,
            address: String::new(),
            input: String::new(),
            messages: Vec::new(),
            focus: Focus::Address,
            last_blink: 0,
            blink_visible: true,
        };
        proof {
            assert(app.messages.deep_view() =~= Seq::<MessageView>::empty());
        }
        app
    }

    /// Applies one key event and says what the loop must do next. The state
    /// change is exactly [`step_key`]; the action is exactly [`action_key`].
    /// In particular an `Enter` while either buffer is empty, or while the
    /// address field has focus, changes nothing and asks for nothing (no
    /// network call, no history entry).
    pub fn handle_key(&mut self, key: Key) -> (a: Action)
        ensures
            final(self)@ == step_key(old(self)@, key),
            a@ == action_key(old(self)@, key),
    {
        match key {
            Key::Esc => Action::Quit,
            Key::CtrlC => Action::Quit,
            Key::Tab => {
                self.focus = match self.focus {
                    Focus::Address => Focus::Input,
                    Focus::Input => Focus::Address,
                };
                Action::Idle
            }
            Key::Char(c) => {
                match self.focus {
                    Focus::Address => push_char(&mut self.address, c),
                    Focus::Input => push_char(&mut self.input, c),
                }
                Action::Idle
            }
            Key::Backspace => {
                match self.focus {
                    Focus::Address => {
                        let _ = pop_char(&mut self.address);
                    }
                    Focus::Input => {
                        let _ = pop_char(&mut self.input);
                    }
                }
                Action::Idle
            }
            Key::Enter => {
                if matches!(self.focus, Focus::Input)
                    && !self.address.as_str().is_empty()
                    && !self.input.as_str().is_empty()
                {
                    let target = self.address.clone();
                    let msg = Message {
                        username: self.username.clone(),
                        message: self.input.clone(),
                    };
                    self.input = String::new();
                    Action::Submit { target, notice: sending_notice(), msg }
                } else {
                    Action::Idle
                }
            }
            Key::Other => Action::Idle,
        }
    }

    /// The text one field shows on screen: its buffer, with the blinking
    /// cursor appended while the field has focus.
    pub fn field_display(&self, f: Focus) -> (t: String)
        ensures
            t@ == field_display_view(self@, f),
    {
        let base = if matches!(f, Focus::Address) {
            self.address.clone()
        } else {
            self.input.clone()
        };
        if self.focus == f {
            let cur: &str = if self.blink_visible {
                "|"
            } else {
                " "
            };
            proof {
                reveal_strlit("|");
                reveal_strlit(" ");
                assert(cur@ =~= cursor_seq(self.blink_visible));
            }
            base.concat(cur)
        } else {
            base
        }
    }

    /// Re-evaluates the blink timer against the loop's clock; purely
    /// presentational.
    pub fn tick_blink(&mut self, now_ms: u64)
        ensures
            final(self)@ == tick_view(old(self)@, now_ms),
    {
        if now_ms >= self.last_blink && now_ms - self.last_blink >= BLINK_INTERVAL_MS {
            self.blink_visible = !self.blink_visible;
            self.last_blink = now_ms;
        }
    }
}

} // verus!

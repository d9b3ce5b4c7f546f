use vstd::prelude::*;

use crate::TimeoutResult;
use crate::events::{InputEvent, KeyCode, RecvOutcome, TerminalEvent};
use crate::text::{pop_char, push_char, spec_trim, trim_spaces};

verus! {

/// The key a bus outcome carries, if it is a local terminal key at all.
pub open spec fn ev_key(ev: RecvOutcome) -> Option<KeyCode> {
    match ev {
        RecvOutcome::Received(InputEvent::Terminal(TerminalEvent::Key(k))) => Some(k),
        _ => None,
    }
}

/// The line buffer after one non-deciding bus outcome: characters are
/// appended, a backspace drops the last character of a non-empty
/// buffer, everything else (scans included) changes nothing.
pub open spec fn spec_edit_buf(buf: Seq<char>, ev: RecvOutcome) -> Seq<char> {
    match ev_key(ev) {
        Some(KeyCode::Char(c)) => buf.push(c),
        Some(KeyCode::Backspace) => if buf.len() > 0 {
            buf.drop_last()
        } else {
            buf
        },
        _ => buf,
    }
}

/// What the terminal shows for one non-deciding bus outcome, when the
/// prompt echoes at all.
pub open spec fn spec_edit_echo(buf: Seq<char>, echo: bool, ev: RecvOutcome) -> EchoAction {
    if !echo {
        EchoAction::Silent
    } else {
        match ev_key(ev) {
            Some(KeyCode::Char(c)) => EchoAction::EchoChar(c),
            Some(KeyCode::Backspace) => if buf.len() > 0 {
                EchoAction::Erase
            } else {
                EchoAction::Silent
            },
            _ => EchoAction::Silent,
        }
    }
}

/// What one fed event did to the prompt: still reading, a finished
/// line, or an expired wait.
pub enum LineStep {
    Pending,
    Done(String),
    TimedOut,
}

/// What the caller should draw after one fed event.
#[derive(Clone, Copy, Debug, PartialEq, Eq, Structural)]
pub enum EchoAction {
    Silent,
    EchoChar(char),
    Erase,
}

/// One interactive line read: a buffer edited by keys until a
/// terminator finishes it or the wait expires.
pub struct LineEditor {
    buf: String,
    echo: bool,
}

impl View for LineEditor {
    type V = Seq<char>;

    closed spec fn view(&self) -> Seq<char> {
        self.buf@
    }
}

impl LineEditor {
    /// Whether this prompt echoes what is typed.
    pub closed spec fn spec_echo_on(&self) -> bool {
        self.echo
    }

    pub fn new(echo: bool) -> (e: Self)
        ensures
            e@ == Seq::<char>::empty(),
            e.spec_echo_on() == echo,
    {
        LineEditor { buf: String::new(), echo }
    }

    /// Feeds one bus outcome. A terminator yields the trimmed line and
    /// resets the buffer; an expired wait yields `TimedOut` and changes
    /// nothing; any other outcome edits the buffer as `spec_edit_buf`
    /// says.
    pub fn feed(&mut self, ev: &RecvOutcome) -> (r: (LineStep, EchoAction))
        ensures
            final(self).spec_echo_on() == old(self).spec_echo_on(),
            (*ev) is TimedOut ==> r.0 is TimedOut && final(self)@ == old(self)@ && r.1
                == EchoAction::Silent,
            ev_key(*ev) == Some(KeyCode::Enter) ==> (match r.0 {
                LineStep::Done(s) => s@ == spec_trim(old(self)@),
                _ => false,
            }) && final(self)@ == Seq::<char>::empty() && r.1 == EchoAction::Silent,
            !((*ev) is TimedOut) && ev_key(*ev) != Some(KeyCode::Enter) ==> r.0 is Pending
                && final(self)@ == spec_edit_buf(old(self)@, *ev) && r.1 == spec_edit_echo(
                old(self)@,
                old(self).spec_echo_on(),
                *ev,
            ),
    {
        match ev {
            RecvOutcome::TimedOut => (LineStep::TimedOut, EchoAction::Silent),
            RecvOutcome::Received(InputEvent::Terminal(TerminalEvent::Key(k))) => {
                match k {
                    KeyCode::Char(c) => {
                        push_char(&mut self.buf, *c);
                        let act = if self.echo {
                            EchoAction::EchoChar(*c)
                        } else {
                            EchoAction::Silent
                        };
                        (LineStep::Pending, act)
                    },
                    KeyCode::Backspace => {
                        if self.buf.unicode_len() > 0 {
                            pop_char(&mut self.buf);
                            let act = if self.echo {
                                EchoAction::Erase
                            } else {
                                EchoAction::Silent
                            };
                            (LineStep::Pending, act)
                        } else {
                            (LineStep::Pending, EchoAction::Silent)
                        }
                    },
                    KeyCode::Enter => {
                        let line = trim_spaces(self.buf.as_str());
                        self.buf = String::new();
                        (LineStep::Done(line), EchoAction::Silent)
                    },
                    KeyCode::Other => (LineStep::Pending, EchoAction::Silent),
                }
            },
            RecvOutcome::Received(_) => (LineStep::Pending, EchoAction::Silent),
        }
    }
}

/// The line a whole wait's worth of bus outcomes produces: None when
/// the wait expires (or nothing more arrives) before a terminator.
pub open spec fn spec_readline(buf: Seq<char>, events: Seq<RecvOutcome>) -> Option<Seq<char>>
    decreases events.len(),
{
    if events.len() == 0 {
        None
    } else if events.first() is TimedOut {
        None
    } else if ev_key(events.first()) == Some(KeyCode::Enter) {
        Some(spec_trim(buf))
    } else {
        spec_readline(spec_edit_buf(buf, events.first()), events.drop_first())
    }
}

fn run_editor(events: &Vec<RecvOutcome>, echo: bool) -> (r: TimeoutResult<String>)
    ensures
        match r {
            TimeoutResult::RESULT(s) => spec_readline(Seq::empty(), events@) == Some(s@),
            TimeoutResult::TIMEOUT => spec_readline(Seq::empty(), events@) is None,
        },
{
    let mut editor = LineEditor::new(echo);
    let mut i: usize = 0;
    proof {
        assert(events@.skip(0) =~= events@);
    }
    while i < events.len()
        invariant
            0 <= i <= events@.len(),
            spec_readline(editor@, events@.skip(i as int)) == spec_readline(
                Seq::empty(),
                events@,
            ),
        decreases events@.len() - i,
    {
        proof {
            let suffix = events@.skip(i as int);
            assert(suffix.first() == events@[i as int]);
            assert(suffix.drop_first() =~= events@.skip(i as int + 1));
        }
        let (step, _act) = editor.feed(&events[i]);
        match step {
            LineStep::TimedOut => {
                return TimeoutResult::TIMEOUT;
            },
            LineStep::Done(s) => {
                return TimeoutResult::RESULT(s);
            },
            LineStep::Pending => {
            },
        }
        i = i + 1;
    }
    proof {
        assert(events@.skip(i as int) =~= Seq::<RecvOutcome>::empty());
    }
    TimeoutResult::TIMEOUT
}

/// Reads one echoed line from recorded bus outcomes, as the terminal
/// prompt does.
pub fn readline(events: &Vec<RecvOutcome>) -> (r: TimeoutResult<String>)
    ensures
        match r {
            TimeoutResult::RESULT(s) => spec_readline(Seq::empty(), events@) == Some(s@),
            TimeoutResult::TIMEOUT => spec_readline(Seq::empty(), events@) is None,
        },
{
    run_editor(events, true)
}

/// Reads one unechoed line, as password prompts do. The echo never
/// reaches the screen, and the produced line is the same as an echoed
/// read of the same outcomes.
pub fn readpasswd(events: &Vec<RecvOutcome>) -> (r: TimeoutResult<String>)
    ensures
        match r {
            TimeoutResult::RESULT(s) => spec_readline(Seq::empty(), events@) == Some(s@),
            TimeoutResult::TIMEOUT => spec_readline(Seq::empty(), events@) is None,
        },
{
    run_editor(events, false)
}

/// Once a prompt's wait has expired, that same wait yields `TimedOut`
/// and can never yield a completed line afterward, whatever would have
/// arrived next.
pub proof fn lemma_timeout_is_final(buf: Seq<char>, events: Seq<RecvOutcome>)
    requires
        events.len() > 0,
        events.first() is TimedOut,
    ensures
        spec_readline(buf, events) is None,
{
}

/// The answer of a yes/no confirmation prompt.
#[derive(Clone, Copy, Debug, PartialEq, Eq, Structural)]
pub enum ConfirmResult {
    YES,
    NO,
    TIMEOUT,
}

/// What one bus outcome decides at a yes/no prompt: `y`/`Y` and `n`/`N`
/// answer, an expired wait gives up, anything else keeps waiting.
pub open spec fn spec_confirm_step(ev: RecvOutcome) -> Option<ConfirmResult> {
    if ev is TimedOut {
        Some(ConfirmResult::TIMEOUT)
    } else {
        match ev_key(ev) {
            Some(KeyCode::Char(c)) => if c == 'Y' || c == 'y' {
                Some(ConfirmResult::YES)
            } else if c == 'N' || c == 'n' {
                Some(ConfirmResult::NO)
            } else {
                None
            },
            _ => None,
        }
    }
}

pub fn confirm_step(ev: &RecvOutcome) -> (r: Option<ConfirmResult>)
    ensures
        r == spec_confirm_step(*ev),
{
    match ev {
        RecvOutcome::TimedOut => Some(ConfirmResult::TIMEOUT),
        RecvOutcome::Received(InputEvent::Terminal(TerminalEvent::Key(KeyCode::Char(c)))) => {
            if *c == 'Y' || *c == 'y' {
                Some(ConfirmResult::YES)
            } else if *c == 'N' || *c == 'n' {
                Some(ConfirmResult::NO)
            } else {
                None
            }
        },
        _ => None,
    }
}

/// The answer a whole wait's worth of bus outcomes gives at a yes/no
/// prompt.
pub open spec fn spec_confirm(events: Seq<RecvOutcome>) -> ConfirmResult
    decreases events.len(),
{
    if events.len() == 0 {
        ConfirmResult::TIMEOUT
    } else {
        match spec_confirm_step(events.first()) {
            Some(r) => r,
            None => spec_confirm(events.drop_first()),
        }
    }
}

/// Runs a yes/no confirmation over recorded bus outcomes.
pub fn confirm(events: &Vec<RecvOutcome>) -> (r: ConfirmResult)
    ensures
        r == spec_confirm(events@),
{
    let mut i: usize = 0;
    proof {
        assert(events@.skip(0) =~= events@);
    }
    while i < events.len()
        invariant
            0 <= i <= events@.len(),
            spec_confirm(events@.skip(i as int)) == spec_confirm(events@),
        decreases events@.len() - i,
    {
        proof {
            let suffix = events@.skip(i as int);
            assert(suffix.first() == events@[i as int]);
            assert(suffix.drop_first() =~= events@.skip(i as int + 1));
        }
        match confirm_step(&events[i]) {
            Some(r) => {
                return r;
            },
            None => {
            },
        }
        i = i + 1;
    }
    proof {
        assert(events@.skip(i as int) =~= Seq::<RecvOutcome>::empty());
    }
    ConfirmResult::TIMEOUT
}

/// What one bus outcome decides at a press-enter-to-continue pause.
pub open spec fn spec_enter_ack_step(ev: RecvOutcome) -> Option<ConfirmResult> {
    if ev is TimedOut {
        Some(ConfirmResult::TIMEOUT)
    } else if ev_key(ev) == Some(KeyCode::Enter) {
        Some(ConfirmResult::YES)
    } else {
        None
    }
}

pub fn enter_ack_step(ev: &RecvOutcome) -> (r: Option<ConfirmResult>)
    ensures
        r == spec_enter_ack_step(*ev),
{
    match ev {
        RecvOutcome::TimedOut => Some(ConfirmResult::TIMEOUT),
        RecvOutcome::Received(InputEvent::Terminal(TerminalEvent::Key(KeyCode::Enter))) => Some(
            ConfirmResult::YES,
        ),
        _ => None,
    }
}

/// The answer a whole wait's worth of bus outcomes gives at a
/// press-enter-to-continue pause.
pub open spec fn spec_enter_ack(events: Seq<RecvOutcome>) -> ConfirmResult
    decreases events.len(),
{
    if events.len() == 0 {
        ConfirmResult::TIMEOUT
    } else {
        match spec_enter_ack_step(events.first()) {
            Some(r) => r,
            None => spec_enter_ack(events.drop_first()),
        }
    }
}

/// Waits for the terminator before going on, over recorded bus
/// outcomes.
pub fn confirm_enter_to_continue(events: &Vec<RecvOutcome>) -> (r: ConfirmResult)
    ensures
        r == spec_enter_ack(events@),
{
    let mut i: usize = 0;
    proof {
        assert(events@.skip(0) =~= events@);
    }
    while i < events.len()
        invariant
            0 <= i <= events@.len(),
            spec_enter_ack(events@.skip(i as int)) == spec_enter_ack(events@),
        decreases events@.len() - i,
    {
        proof {
            let suffix = events@.skip(i as int);
            assert(suffix.first() == events@[i as int]);
            assert(suffix.drop_first() =~= events@.skip(i as int + 1));
        }
        match enter_ack_step(&events[i]) {
            Some(r) => {
                return r;
            },
            None => {
            },
        }
        i = i + 1;
    }
    proof {
        assert(events@.skip(i as int) =~= Seq::<RecvOutcome>::empty());
    }
    ConfirmResult::TIMEOUT
}

} // verus!

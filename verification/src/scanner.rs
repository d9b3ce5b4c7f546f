use vstd::prelude::*;

use crate::text::push_char;

verus! {

/// The reader's decode alphabet: the ten digit keys, the six keys for
/// hexadecimal letters, the terminator key, and everything else.
#[derive(Clone, Copy, Debug, PartialEq, Eq, Structural)]
pub enum ScanKey {
    Digit0,
    Digit1,
    Digit2,
    Digit3,
    Digit4,
    Digit5,
    Digit6,
    Digit7,
    Digit8,
    Digit9,
    HexA,
    HexB,
    HexC,
    HexD,
    HexE,
    HexF,
    Enter,
    Other,
}

/// The character a recognized key contributes, none for the terminator
/// and for unrecognized keys.
pub open spec fn spec_key_char(k: ScanKey) -> Option<char> {
    match k {
        ScanKey::Digit0 => Some('0'),
        ScanKey::Digit1 => Some('1'),
        ScanKey::Digit2 => Some('2'),
        ScanKey::Digit3 => Some('3'),
        ScanKey::Digit4 => Some('4'),
        ScanKey::Digit5 => Some('5'),
        ScanKey::Digit6 => Some('6'),
        ScanKey::Digit7 => Some('7'),
        ScanKey::Digit8 => Some('8'),
        ScanKey::Digit9 => Some('9'),
        ScanKey::HexA => Some('a'),
        ScanKey::HexB => Some('b'),
        ScanKey::HexC => Some('c'),
        ScanKey::HexD => Some('d'),
        ScanKey::HexE => Some('e'),
        ScanKey::HexF => Some('f'),
        ScanKey::Enter => None,
        ScanKey::Other => None,
    }
}

/// The buffer after one hardware key event: only a release (`value`
/// zero) of a recognized key changes it, and the terminator clears it.
pub open spec fn spec_feed_buf(buf: Seq<char>, value: int, key: ScanKey) -> Seq<char> {
    if value != 0 {
        buf
    } else if key is Enter {
        Seq::empty()
    } else {
        match spec_key_char(key) {
            Some(c) => buf.push(c),
            None => buf,
        }
    }
}

/// The credential emitted by one hardware key event: exactly the held
/// buffer on a terminator release, nothing otherwise.
pub open spec fn spec_feed_emit(buf: Seq<char>, value: int, key: ScanKey) -> Option<Seq<char>> {
    if value == 0 && key is Enter {
        Some(buf)
    } else {
        None
    }
}

/// One scanner session's decode state: the characters accepted since
/// the previous terminator (or since the session started).
pub struct ScanSession {
    buf: String,
}

impl View for ScanSession {
    type V = Seq<char>;

    closed spec fn view(&self) -> Seq<char> {
        self.buf@
    }
}

fn key_char(k: ScanKey) -> (r: Option<char>)
    ensures
        r == spec_key_char(k),
{
    match k {
        ScanKey::Digit0 => Some('0'),
        ScanKey::Digit1 => Some('1'),
        ScanKey::Digit2 => Some('2'),
        ScanKey::Digit3 => Some('3'),
        ScanKey::Digit4 => Some('4'),
        ScanKey::Digit5 => Some('5'),
        ScanKey::Digit6 => Some('6'),
        ScanKey::Digit7 => Some('7'),
        ScanKey::Digit8 => Some('8'),
        ScanKey::Digit9 => Some('9'),
        ScanKey::HexA => Some('a'),
        ScanKey::HexB => Some('b'),
        ScanKey::HexC => Some('c'),
        ScanKey::HexD => Some('d'),
        ScanKey::HexE => Some('e'),
        ScanKey::HexF => Some('f'),
        ScanKey::Enter => None,
        ScanKey::Other => None,
    }
}

impl ScanSession {
    /// A fresh session holds nothing.
    pub fn new() -> (s: Self)
        ensures
            s@ == Seq::<char>::empty(),
    {
        ScanSession { buf: String::new() }
    }

    /// Decodes one hardware key event. Returns the completed credential
    /// exactly when a terminator release is seen; the buffer is empty
    /// immediately after such an emission.
    pub fn feed(&mut self, value: i32, key: ScanKey) -> (r: Option<String>)
        ensures
            final(self)@ == spec_feed_buf(old(self)@, value as int, key),
            match r {
                Some(s) => spec_feed_emit(old(self)@, value as int, key) == Some(s@),
                None => spec_feed_emit(old(self)@, value as int, key) is None,
            },
    {
        if value != 0 {
            return None;
        }
        match key {
            ScanKey::Enter => {
                let out = self.buf.clone();
                self.buf = String::new();
                Some(out)
            },
            _ => {
                match key_char(key) {
                    Some(c) => {
                        push_char(&mut self.buf, c);
                        None
                    },
                    None => None,
                }
            },
        }
    }
}

/// The final buffer after a whole sequence of hardware key events.
pub open spec fn spec_run_buf(buf: Seq<char>, events: Seq<(i32, ScanKey)>) -> Seq<char>
    decreases events.len(),
{
    if events.len() == 0 {
        buf
    } else {
        spec_run_buf(
            spec_feed_buf(buf, events.first().0 as int, events.first().1),
            events.drop_first(),
        )
    }
}

/// Every credential a whole sequence of hardware key events emits, in
/// emission order.
pub open spec fn spec_run_emits(buf: Seq<char>, events: Seq<(i32, ScanKey)>) -> Seq<Seq<char>>
    decreases events.len(),
{
    if events.len() == 0 {
        Seq::empty()
    } else {
        let head_emit = spec_feed_emit(buf, events.first().0 as int, events.first().1);
        let rest = spec_run_emits(
            spec_feed_buf(buf, events.first().0 as int, events.first().1),
            events.drop_first(),
        );
        match head_emit {
            Some(e) => seq![e] + rest,
            None => rest,
        }
    }
}

/// How many terminator releases a sequence of hardware key events holds.
pub open spec fn spec_terminator_count(events: Seq<(i32, ScanKey)>) -> nat
    decreases events.len(),
{
    if events.len() == 0 {
        0
    } else {
        (if events.first().0 == 0 && events.first().1 is Enter {
            1nat
        } else {
            0nat
        }) + spec_terminator_count(events.drop_first())
    }
}

/// A session emits exactly one credential per terminator release it
/// observes, whatever else the sequence holds.
pub proof fn lemma_one_emission_per_terminator(buf: Seq<char>, events: Seq<(i32, ScanKey)>)
    ensures
        spec_run_emits(buf, events).len() == spec_terminator_count(events),
    decreases events.len(),
{
    if events.len() > 0 {
        lemma_one_emission_per_terminator(
            spec_feed_buf(buf, events.first().0 as int, events.first().1),
            events.drop_first(),
        );
    }
}

/// A key event that is not a terminator release and contributes no
/// character leaves the buffer and the emitted output unchanged.
pub proof fn lemma_ignored_key_is_noop(buf: Seq<char>, value: int, key: ScanKey)
    requires
        value != 0 || (spec_key_char(key) is None && !(key is Enter)),
    ensures
        spec_feed_buf(buf, value, key) == buf,
        spec_feed_emit(buf, value, key) is None,
{
}

/// Decodes a whole recorded sequence of hardware key events into the
/// credentials it emits.
pub fn decode_events(events: &Vec<(i32, ScanKey)>) -> (r: Vec<String>)
    ensures
        r@.map_values(|s: String| s@) == spec_run_emits(Seq::empty(), events@),
{
    let mut session = ScanSession::new();
    let mut out: Vec<String> = Vec::new();
    let mut i: usize = 0;
    proof {
        assert(events@.skip(0) =~= events@);
        assert(out@.map_values(|s: String| s@) =~= Seq::<Seq<char>>::empty());
    }
    while i < events.len()
        invariant
            0 <= i <= events@.len(),
            out@.map_values(|s: String| s@) + spec_run_emits(session@, events@.skip(i as int))
                =~= spec_run_emits(Seq::empty(), events@),
        decreases events@.len() - i,
    {
        let (value, key) = events[i];
        let ghost pre = session@;
        let emitted = session.feed(value, key);
        proof {
            let suffix = events@.skip(i as int);
            assert(suffix.first() == events@[i as int]);
            assert(suffix.drop_first() =~= events@.skip(i as int + 1));
        }
        match emitted {
            Some(s) => {
                let ghost prev_out = out@;
                out.push(s);
                proof {
                    assert(out@.map_values(|s: String| s@) =~= prev_out.map_values(
                        |s: String| s@,
                    ).push(s@));
                    assert(seq![s@] + spec_run_emits(session@, events@.skip(i as int + 1))
                        =~= spec_run_emits(pre, events@.skip(i as int)));
                }
            },
            None => {
            },
        }
        i = i + 1;
    }
    proof {
        assert(events@.skip(i as int) =~= Seq::<(i32, ScanKey)>::empty());
        assert(out@.map_values(|s: String| s@) =~= spec_run_emits(Seq::empty(), events@));
    }
    out
}

/// The characters a terminator-free stretch of hardware key events
/// contributes to the buffer, in arrival order.
pub open spec fn spec_contributed(events: Seq<(i32, ScanKey)>) -> Seq<char>
    decreases events.len(),
{
    if events.len() == 0 {
        Seq::empty()
    } else {
        (if events.first().0 == 0 {
            match spec_key_char(events.first().1) {
                Some(c) => seq![c],
                None => Seq::<char>::empty(),
            }
        } else {
            Seq::<char>::empty()
        }) + spec_contributed(events.drop_first())
    }
}

/// Running a session over two stretches in turn is running it over
/// their concatenation.
pub proof fn lemma_run_append(buf: Seq<char>, a: Seq<(i32, ScanKey)>, b: Seq<(i32, ScanKey)>)
    ensures
        spec_run_buf(buf, a + b) == spec_run_buf(spec_run_buf(buf, a), b),
        spec_run_emits(buf, a + b) == spec_run_emits(buf, a) + spec_run_emits(
            spec_run_buf(buf, a),
            b,
        ),
    decreases a.len(),
{
    if a.len() == 0 {
        assert(a + b =~= b);
        assert(spec_run_emits(buf, a) + spec_run_emits(spec_run_buf(buf, a), b) =~= spec_run_emits(
            spec_run_buf(buf, a),
            b,
        ));
    } else {
        let ab = a + b;
        assert(ab.first() == a.first());
        assert(ab.drop_first() =~= a.drop_first() + b);
        let buf1 = spec_feed_buf(buf, a.first().0 as int, a.first().1);
        lemma_run_append(buf1, a.drop_first(), b);
        match spec_feed_emit(buf, a.first().0 as int, a.first().1) {
            Some(e) => {
                assert(seq![e] + (spec_run_emits(buf1, a.drop_first()) + spec_run_emits(
                    spec_run_buf(buf1, a.drop_first()),
                    b,
                )) =~= (seq![e] + spec_run_emits(buf1, a.drop_first())) + spec_run_emits(
                    spec_run_buf(buf1, a.drop_first()),
                    b,
                ));
            },
            None => {
            },
        }
    }
}

/// A stretch without a terminator release emits nothing and leaves the
/// buffer holding what it held plus the contributed characters.
pub proof fn lemma_no_terminator_run(buf: Seq<char>, events: Seq<(i32, ScanKey)>)
    requires
        spec_terminator_count(events) == 0,
    ensures
        spec_run_emits(buf, events) == Seq::<Seq<char>>::empty(),
        spec_run_buf(buf, events) == buf + spec_contributed(events),
    decreases events.len(),
{
    if events.len() == 0 {
        assert(buf + spec_contributed(events) =~= buf);
    } else {
        let value = events.first().0 as int;
        let key = events.first().1;
        assert(spec_terminator_count(events.drop_first()) == 0);
        assert(!(events.first().0 == 0 && key is Enter));
        let buf1 = spec_feed_buf(buf, value, key);
        lemma_no_terminator_run(buf1, events.drop_first());
        let head = if events.first().0 == 0 {
            match spec_key_char(key) {
                Some(c) => seq![c],
                None => Seq::<char>::empty(),
            }
        } else {
            Seq::<char>::empty()
        };
        assert(buf1 =~= buf + head);
        assert((buf + head) + spec_contributed(events.drop_first()) =~= buf + (head
            + spec_contributed(events.drop_first())));
    }
}

/// The first credential a session emits holds exactly the characters
/// accepted since the session started: the buffer it already held,
/// then every recognized key released before the first terminator, in
/// order. Since each emission leaves the buffer empty, every later
/// credential is, in the same way, exactly what was accepted since the
/// previous terminator.
pub proof fn lemma_first_emission_content(buf: Seq<char>, events: Seq<(i32, ScanKey)>, i: int)
    requires
        0 <= i < events.len(),
        spec_terminator_count(events.take(i)) == 0,
        events[i].0 == 0 && events[i].1 is Enter,
    ensures
        spec_run_emits(buf, events).len() >= 1,
        spec_run_emits(buf, events).first() == buf + spec_contributed(events.take(i)),
{
    let a = events.take(i);
    let b = events.skip(i);
    assert(events =~= a + b);
    lemma_run_append(buf, a, b);
    lemma_no_terminator_run(buf, a);
    let buf1 = spec_run_buf(buf, a);
    assert(b.first() == events[i]);
    assert(spec_feed_emit(buf1, b.first().0 as int, b.first().1) == Some(buf1));
    let tail_emits = spec_run_emits(
        spec_feed_buf(buf1, b.first().0 as int, b.first().1),
        b.drop_first(),
    );
    assert(spec_run_emits(buf1, b) == seq![buf1] + tail_emits);
    assert(spec_run_emits(buf, events) == spec_run_emits(buf1, b));
    assert((seq![buf1] + tail_emits).first() == buf1);
}

} // verus!

//! The rounds of a running terminal: it takes in what the client asks for, hands the input to
//! the host, passes the output on, and keeps the connection alive.

use crate::json::{Json, JsonObject, JsonView};
use crate::ssh::{AgentUse, AuthOffer, ConnectStep, Purpose};
use crate::terminal::{
    TerminalCommand, KEEPALIVE_RETRY_MILLIS, KEEPALIVE_TICK_MILLIS, MAX_PENDING_INPUT_BYTES,
};
use crate::text::{joined, utf8_lossy};
use vstd::prelude::*;
use vstd::string::*;
use vstd::utf8::*;

verus! {

// ---------------------------------------------------------------------------------------------
// Events and actions
// ---------------------------------------------------------------------------------------------

/// What happened to a terminal. Times are in milliseconds.
#[derive(Debug)]
pub enum LoopEvent {
    /// The client asked for something.
    Received(TerminalCommand),
    /// The client has nothing to ask for.
    NoCommand,
    /// The client is gone.
    ClientGone,
    /// The terminal has its new size, or the message of the error.
    Resized(Result<(), String>),
    /// So many bytes of the pending input were written.
    Wrote(usize),
    /// Nothing could be written for now.
    WriteBlocked,
    /// Writing failed.
    WriteFailed(String),
    /// Output was read.
    Output(Vec<u8>),
    /// No output was read; the host may have ended the output.
    NoOutput { eof: bool },
    /// Nothing could be read for now.
    ReadBlocked,
    /// Reading failed.
    ReadFailed(String),
    /// The output was passed on.
    Emitted,
    /// The clock was read.
    Clock(u64),
    /// A keepalive was sent; the host wants the next after so many seconds.
    KeptAlive { seconds: u32, now: u64 },
    /// A keepalive could not be sent for now.
    KeepaliveBlocked { now: u64 },
    /// Sending a keepalive failed.
    KeepaliveFailed(String),
    /// The pause is over.
    Rested,
}

/// What happened to a terminal, with its texts as characters.
pub enum EventView {
    Input(Seq<char>),
    Resize { cols: u32, rows: u32 },
    NoCommand,
    ClientGone,
    Resized(Result<(), Seq<char>>),
    Wrote(int),
    WriteBlocked,
    WriteFailed(Seq<char>),
    Output(Seq<u8>),
    NoOutput { eof: bool },
    ReadBlocked,
    ReadFailed(Seq<char>),
    Emitted,
    Clock(int),
    KeptAlive { seconds: int, now: int },
    KeepaliveBlocked { now: int },
    KeepaliveFailed(Seq<char>),
    Rested,
}

impl View for LoopEvent {
    type V = EventView;

    open spec fn view(&self) -> EventView {
        match *self {
            LoopEvent::Received(TerminalCommand::Input(text)) => EventView::Input(text@),
            LoopEvent::Received(TerminalCommand::Resize { cols, rows }) => EventView::Resize {
                cols,
                rows,
            },
            LoopEvent::NoCommand => EventView::NoCommand,
            LoopEvent::ClientGone => EventView::ClientGone,
            LoopEvent::Resized(Ok(_)) => EventView::Resized(Ok(())),
            LoopEvent::Resized(Err(message)) => EventView::Resized(Err(message@)),
            LoopEvent::Wrote(n) => EventView::Wrote(n as int),
            LoopEvent::WriteBlocked => EventView::WriteBlocked,
            LoopEvent::WriteFailed(message) => EventView::WriteFailed(message@),
            LoopEvent::Output(bytes) => EventView::Output(bytes@),
            LoopEvent::NoOutput { eof } => EventView::NoOutput { eof },
            LoopEvent::ReadBlocked => EventView::ReadBlocked,
            LoopEvent::ReadFailed(message) => EventView::ReadFailed(message@),
            LoopEvent::Emitted => EventView::Emitted,
            LoopEvent::Clock(now) => EventView::Clock(now as int),
            LoopEvent::KeptAlive { seconds, now } => EventView::KeptAlive {
                seconds: seconds as int,
                now: now as int,
            },
            LoopEvent::KeepaliveBlocked { now } => EventView::KeepaliveBlocked { now: now as int },
            LoopEvent::KeepaliveFailed(message) => EventView::KeepaliveFailed(message@),
            LoopEvent::Rested => EventView::Rested,
        }
    }
}

/// What a terminal does next.
#[derive(Debug)]
pub enum LoopAction {
    /// See whether the client asks for something.
    Receive,
    /// Give the terminal a new size.
    Resize { cols: u32, rows: u32 },
    /// Close the channel, wait until it is closed, and end.
    Close,
    /// Write the pending input.
    Write,
    /// Read output.
    Read,
    /// Pass output on.
    Emit(Json),
    /// Pass the last event on, and end.
    EmitLast(Json),
    /// Read the clock.
    ReadClock,
    /// Send a keepalive.
    SendKeepalive,
    /// Pause.
    Rest,
}

/// What a terminal does next, with its events as views.
pub enum ActionView {
    Receive,
    Resize { cols: u32, rows: u32 },
    Close,
    Write,
    Read,
    Emit(JsonView),
    EmitLast(JsonView),
    ReadClock,
    SendKeepalive,
    Rest,
}

impl View for LoopAction {
    type V = ActionView;

    open spec fn view(&self) -> ActionView {
        match *self {
            LoopAction::Receive => ActionView::Receive,
            LoopAction::Resize { cols, rows } => ActionView::Resize { cols, rows },
            LoopAction::Close => ActionView::Close,
            LoopAction::Write => ActionView::Write,
            LoopAction::Read => ActionView::Read,
            LoopAction::Emit(event) => ActionView::Emit(event@),
            LoopAction::EmitLast(event) => ActionView::EmitLast(event@),
            LoopAction::ReadClock => ActionView::ReadClock,
            LoopAction::SendKeepalive => ActionView::SendKeepalive,
            LoopAction::Rest => ActionView::Rest,
        }
    }
}

// ---------------------------------------------------------------------------------------------
// The terminal
// ---------------------------------------------------------------------------------------------

/// A terminal as a mathematical value: the input that is not written yet, and the time of the
/// next keepalive.
#[verifier::ext_equal]
pub struct LoopView {
    pub pending: Seq<u8>,
    pub next_keepalive: int,
}

/// A terminal that has just been connected.
pub open spec fn started(now: int) -> LoopView {
    LoopView { pending: Seq::empty(), next_keepalive: now + KEEPALIVE_TICK_MILLIS }
}

/// The event for output.
pub open spec fn data_body(text: Seq<char>) -> JsonView {
    JsonView::Object(map!["type"@ => JsonView::Text("data"@), "data"@ => JsonView::Text(text)])
}

/// The event for output.
pub fn data_event(text: &str) -> (r: Json)
    ensures
        r@ == data_body(text@),
{
    Json::Object(
        JsonObject::new().with("type", Json::from_text("data")).with("data", Json::from_text(text)),
    )
}

/// The event for a session that the host ended.
pub open spec fn ended_body() -> JsonView {
    JsonView::Object(map!["type"@ => JsonView::Text("session_ended"@)])
}

/// The wait after a keepalive that was sent: what the host wants, but never more than the tick.
pub open spec fn keepalive_wait(seconds: int) -> int {
    if seconds == 0 || seconds * 1000 > KEEPALIVE_TICK_MILLIS {
        KEEPALIVE_TICK_MILLIS as int
    } else {
        seconds * 1000
    }
}

/// What is written next, or read where there is nothing to write.
pub open spec fn write_or_read(pending: Seq<u8>) -> ActionView {
    if pending.len() > 0 {
        ActionView::Write
    } else {
        ActionView::Read
    }
}

/// What an event makes of a terminal, and what it does next; or why the terminal fails.
pub open spec fn loop_step(state: LoopView, event: EventView) -> Result<
    (LoopView, ActionView),
    Seq<char>,
> {
    match event {
        EventView::Input(text) => if state.pending.len() + encode_utf8(text).len()
            > MAX_PENDING_INPUT_BYTES {
            Err("SSH input buffer is full"@)
        } else {
            Ok(
                (
                    LoopView { pending: state.pending + encode_utf8(text), ..state },
                    ActionView::Receive,
                ),
            )
        },
        EventView::Resize { cols, rows } => Ok((state, ActionView::Resize { cols, rows })),
        EventView::Resized(Ok(_)) => Ok((state, ActionView::Receive)),
        EventView::Resized(Err(message)) => Err("PTY resize failed: "@ + message),
        EventView::NoCommand => Ok((state, write_or_read(state.pending))),
        EventView::ClientGone => Ok((state, ActionView::Close)),
        EventView::Wrote(n) => if n == 0 {
            Ok((state, ActionView::Read))
        } else {
            Ok(
                (
                    LoopView { pending: state.pending.skip(n), ..state },
                    write_or_read(state.pending.skip(n)),
                ),
            )
        },
        EventView::WriteBlocked => Ok((state, ActionView::Read)),
        EventView::WriteFailed(message) => Err("SSH write failed: "@ + message),
        EventView::Output(bytes) => Ok(
            (state, ActionView::Emit(data_body(crate::text::lossy(bytes)))),
        ),
        EventView::NoOutput { eof } => Ok(
            (
                state,
                if eof {
                    ActionView::EmitLast(ended_body())
                } else {
                    ActionView::ReadClock
                },
            ),
        ),
        EventView::ReadBlocked => Ok((state, ActionView::ReadClock)),
        EventView::ReadFailed(message) => Err("SSH read failed: "@ + message),
        EventView::Emitted => Ok((state, ActionView::ReadClock)),
        EventView::Clock(now) => Ok(
            (
                state,
                if now >= state.next_keepalive {
                    ActionView::SendKeepalive
                } else {
                    ActionView::Rest
                },
            ),
        ),
        EventView::KeptAlive { seconds, now } => Ok(
            (
                LoopView { next_keepalive: now + keepalive_wait(seconds), ..state },
                ActionView::Rest,
            ),
        ),
        EventView::KeepaliveBlocked { now } => Ok(
            (LoopView { next_keepalive: now + KEEPALIVE_RETRY_MILLIS, ..state }, ActionView::Rest),
        ),
        EventView::KeepaliveFailed(message) => Err("SSH keepalive failed: "@ + message),
        EventView::Rested => Ok((state, ActionView::Receive)),
    }
}

/// Whether an event can happen to a terminal: no more is written than there is to write, and
/// times are not at the end of all times.
pub open spec fn possible(state: LoopView, event: EventView) -> bool {
    match event {
        EventView::Wrote(n) => 0 <= n <= state.pending.len(),
        EventView::KeptAlive { seconds, now } => now + KEEPALIVE_TICK_MILLIS <= u64::MAX,
        EventView::KeepaliveBlocked { now } => now + KEEPALIVE_TICK_MILLIS <= u64::MAX,
        _ => true,
    }
}

/// A running terminal.
#[derive(Debug)]
pub struct TerminalLoop {
    pending: Vec<u8>,
    next_keepalive: u64,
}

impl View for TerminalLoop {
    type V = LoopView;

    closed spec fn view(&self) -> LoopView {
        LoopView { pending: self.pending@, next_keepalive: self.next_keepalive as int }
    }
}

impl TerminalLoop {
    #[verifier::type_invariant]
    spec fn bounded(self) -> bool {
        self.pending@.len() <= MAX_PENDING_INPUT_BYTES
    }

    /// A terminal that has just been connected: it has no input yet, and first sees what the
    /// client asks for.
    pub(crate) fn started(now: u64) -> (r: TerminalLoop)
        requires
            now + KEEPALIVE_TICK_MILLIS <= u64::MAX,
        ensures
            r@ == started(now as int),
    {
        let r = TerminalLoop { pending: Vec::new(), next_keepalive: now + KEEPALIVE_TICK_MILLIS };
        proof {
            assert(r@.pending =~= Seq::<u8>::empty());
        }
        r
    }

    /// The input that is not written yet.
    pub fn pending(&self) -> (r: &[u8])
        ensures
            r@ == self@.pending,
            r@.len() <= MAX_PENDING_INPUT_BYTES,
    {
        proof {
            use_type_invariant(self);
        }
        self.pending.as_slice()
    }

    /// Takes in input, where there is room for it.
    fn take_input(&mut self, text: &str) -> (r: bool)
        ensures
            r == (old(self)@.pending.len() + encode_utf8(text@).len() <= MAX_PENDING_INPUT_BYTES),
            final(self)@.next_keepalive == old(self)@.next_keepalive,
            final(self)@.pending == if r {
                old(self)@.pending + encode_utf8(text@)
            } else {
                old(self)@.pending
            },
    {
        proof {
            use_type_invariant(&*self);
        }
        let bytes = text.as_bytes();
        if bytes.len() > MAX_PENDING_INPUT_BYTES || self.pending.len() + bytes.len()
            > MAX_PENDING_INPUT_BYTES {
            return false;
        }
        let mut pending: Vec<u8> = Vec::new();
        std::mem::swap(&mut pending, &mut self.pending);
        pending.extend_from_slice(bytes);
        self.pending = pending;
        proof {
            assert(self@.pending =~= old(self)@.pending + encode_utf8(text@));
        }
        true
    }

    /// Drops input that was written.
    fn drop_written(&mut self, n: usize)
        requires
            n <= old(self)@.pending.len(),
        ensures
            final(self)@.next_keepalive == old(self)@.next_keepalive,
            final(self)@.pending == old(self)@.pending.skip(n as int),
    {
        proof {
            use_type_invariant(&*self);
        }
        let mut pending: Vec<u8> = Vec::new();
        std::mem::swap(&mut pending, &mut self.pending);
        let rest = pending.split_off(n);
        self.pending = rest;
        proof {
            assert(self@.pending =~= old(self)@.pending.skip(n as int));
        }
    }

    fn after_write(&self) -> (r: LoopAction)
        ensures
            r@ == write_or_read(self@.pending),
    {
        if self.pending.len() > 0 {
            LoopAction::Write
        } else {
            LoopAction::Read
        }
    }

    /// What an event makes of the terminal, and what it does next; or why it fails, and then
    /// nothing has changed.
    pub fn step(&mut self, event: LoopEvent) -> (r: Result<LoopAction, String>)
        requires
            possible(old(self)@, event@),
        ensures
            match loop_step(old(self)@, event@) {
                Ok((state, action)) => r matches Ok(next) && next@ == action && final(self)@
                    == state,
                Err(message) => r matches Err(error) && error@ == message && final(self)@ == old(
                    self,
                )@,
            },
            event@ matches EventView::Output(bytes) ==> r matches Ok(next) && next@
                == ActionView::Emit(data_body(crate::text::lossy_text(bytes))),
    {
        match event {
            LoopEvent::Received(TerminalCommand::Input(text)) => {
                if self.take_input(text.as_str()) {
                    Ok(LoopAction::Receive)
                } else {
                    proof {
                        assert(self@ =~= old(self)@);
                    }
                    Err("SSH input buffer is full".to_owned())
                }
            },
            LoopEvent::Received(TerminalCommand::Resize { cols, rows }) => Ok(
                LoopAction::Resize { cols, rows },
            ),
            LoopEvent::Resized(Ok(_)) => Ok(LoopAction::Receive),
            LoopEvent::Resized(Err(message)) => Err(
                joined("PTY resize failed: ", message.as_str()),
            ),
            LoopEvent::NoCommand => Ok(self.after_write()),
            LoopEvent::ClientGone => Ok(LoopAction::Close),
            LoopEvent::Wrote(n) => {
                if n == 0 {
                    Ok(LoopAction::Read)
                } else {
                    self.drop_written(n);
                    Ok(self.after_write())
                }
            },
            LoopEvent::WriteBlocked => Ok(LoopAction::Read),
            LoopEvent::WriteFailed(message) => Err(joined("SSH write failed: ", message.as_str())),
            LoopEvent::Output(bytes) => Ok(
                LoopAction::Emit(data_event(utf8_lossy(bytes.as_slice()).as_str())),
            ),
            LoopEvent::NoOutput { eof } => if eof {
                Ok(
                    LoopAction::EmitLast(
                        Json::Object(
                            JsonObject::new().with("type", Json::from_text("session_ended")),
                        ),
                    ),
                )
            } else {
                Ok(LoopAction::ReadClock)
            },
            LoopEvent::ReadBlocked => Ok(LoopAction::ReadClock),
            LoopEvent::ReadFailed(message) => Err(joined("SSH read failed: ", message.as_str())),
            LoopEvent::Emitted => Ok(LoopAction::ReadClock),
            LoopEvent::Clock(now) => if now >= self.next_keepalive {
                Ok(LoopAction::SendKeepalive)
            } else {
                Ok(LoopAction::Rest)
            },
            LoopEvent::KeptAlive { seconds, now } => {
                let wanted: u64 = seconds as u64 * 1000;
                let wait: u64 = if seconds == 0 || wanted > KEEPALIVE_TICK_MILLIS {
                    KEEPALIVE_TICK_MILLIS
                } else {
                    wanted
                };
                proof {
                    use_type_invariant(&*self);
                }
                self.next_keepalive = now + wait;
                Ok(LoopAction::Rest)
            },
            LoopEvent::KeepaliveBlocked { now } => {
                proof {
                    use_type_invariant(&*self);
                }
                self.next_keepalive = now + KEEPALIVE_RETRY_MILLIS;
                Ok(LoopAction::Rest)
            },
            LoopEvent::KeepaliveFailed(message) => Err(
                joined("SSH keepalive failed: ", message.as_str()),
            ),
            LoopEvent::Rested => Ok(LoopAction::Receive),
        }
    }
}

// ---------------------------------------------------------------------------------------------
// Laws
// ---------------------------------------------------------------------------------------------

/// What a terminal is after some events, where it has neither ended nor failed.
pub open spec fn run(state: LoopView, events: Seq<EventView>) -> Option<LoopView>
    decreases events.len(),
{
    if events.len() == 0 {
        Some(state)
    } else {
        match run(state, events.drop_last()) {
            Some(before) => match loop_step(before, events.last()) {
                Ok((_, ActionView::EmitLast(_))) => None,
                Ok((_, ActionView::Close)) => None,
                Ok((after, _)) => Some(after),
                Err(_) => None,
            },
            None => None,
        }
    }
}

/// The input that came in with some events.
pub open spec fn received(events: Seq<EventView>) -> Seq<u8>
    decreases events.len(),
{
    if events.len() == 0 {
        Seq::empty()
    } else {
        match events.last() {
            EventView::Input(text) => received(events.drop_last()) + encode_utf8(text),
            _ => received(events.drop_last()),
        }
    }
}

/// The input that was written to the host in the course of some events.
pub open spec fn written(state: LoopView, events: Seq<EventView>) -> Seq<u8>
    decreases events.len(),
{
    if events.len() == 0 {
        Seq::empty()
    } else {
        let before = written(state, events.drop_last());
        match (events.last(), run(state, events.drop_last())) {
            (EventView::Wrote(n), Some(terminal)) => before + terminal.pending.take(n),
            _ => before,
        }
    }
}

/// Whether every event could happen when it did.
pub open spec fn all_possible(state: LoopView, events: Seq<EventView>) -> bool
    decreases events.len(),
{
    events.len() == 0 || (all_possible(state, events.drop_last()) && match run(
        state,
        events.drop_last(),
    ) {
        Some(before) => possible(before, events.last()),
        None => true,
    })
}

/// Nothing is lost, doubled or reordered: whatever happens, the bytes that were written to the
/// host, followed by those that are still pending, are the bytes that came in; and a terminal
/// never holds back more than the limit.
pub proof fn input_arrives_whole_and_in_order(start: LoopView, events: Seq<EventView>)
    requires
        start.pending.len() == 0,
        all_possible(start, events),
    ensures
        run(start, events) matches Some(state) ==> written(start, events) + state.pending
            == received(events) && state.pending.len() <= MAX_PENDING_INPUT_BYTES,
    decreases events.len(),
{
    if events.len() == 0 {
        assert(written(start, events) + start.pending =~= received(events));
    } else {
        let earlier = events.drop_last();
        input_arrives_whole_and_in_order(start, earlier);
        if let Some(before) = run(start, earlier) {
            let sent = written(start, earlier);
            match events.last() {
                EventView::Input(text) => {
                    assert(sent + (before.pending + encode_utf8(text)) =~= sent + before.pending
                        + encode_utf8(text));
                },
                EventView::Wrote(n) => {
                    assert(sent + before.pending.take(n) + before.pending.skip(n) =~= sent
                        + before.pending);
                },
                _ => {},
            }
        }
    }
}

/// What a client is told of a step: what the step passes on, or that the terminal failed.
pub open spec fn told(step: Result<(LoopView, ActionView), Seq<char>>) -> Seq<JsonView> {
    match step {
        Ok((_, ActionView::Emit(event))) => seq![event],
        Ok((_, ActionView::EmitLast(event))) => seq![event],
        Ok(_) => Seq::empty(),
        Err(message) => seq![crate::terminal::failure_body(message)],
    }
}

/// What a client is told by a running terminal in the course of some events.
pub open spec fn told_running(state: LoopView, events: Seq<EventView>) -> Seq<JsonView>
    decreases events.len(),
{
    if events.len() == 0 {
        Seq::empty()
    } else {
        let earlier = told_running(state, events.drop_last());
        match run(state, events.drop_last()) {
            Some(before) => earlier + told(loop_step(before, events.last())),
            None => earlier,
        }
    }
}

/// The step that a connection has come to after some steps, or why it failed.
pub open spec fn connected_to(offer: AuthOffer, done: Seq<Result<(), Seq<char>>>) -> Result<
    ConnectStep,
    Seq<char>,
>
    decreases done.len(),
{
    if done.len() == 0 {
        Ok(ConnectStep::Tcp)
    } else {
        match connected_to(offer, done.drop_last()) {
            Ok(step) => crate::terminal::connect_outcome(offer, step, done.last()),
            Err(message) => Err(message),
        }
    }
}

/// What a client is told of a terminal: how the connection came out, and what the terminal
/// tells once it runs.
pub open spec fn told_of_terminal(
    offer: AuthOffer,
    done: Seq<Result<(), Seq<char>>>,
    now: int,
    events: Seq<EventView>,
) -> Seq<JsonView> {
    match connected_to(offer, done) {
        Ok(ConnectStep::Ready) => seq![crate::terminal::connected_body()] + told_running(
            started(now),
            events,
        ),
        Ok(_) => Seq::empty(),
        Err(message) => seq![crate::terminal::failure_body(message)],
    }
}

/// The output among some events, as it is passed on.
pub open spec fn passed_on(events: Seq<EventView>) -> Seq<JsonView>
    decreases events.len(),
{
    if events.len() == 0 {
        Seq::empty()
    } else {
        match events.last() {
            EventView::Output(bytes) => passed_on(events.drop_last()).push(
                data_body(crate::text::lossy(bytes)),
            ),
            _ => passed_on(events.drop_last()),
        }
    }
}

/// The output of the host reaches the client whole and in order, and as long as the terminal
/// runs nothing else does.
pub proof fn output_is_passed_on_in_order(start: LoopView, events: Seq<EventView>)
    requires
        run(start, events) is Some,
    ensures
        told_running(start, events) == passed_on(events),
    decreases events.len(),
{
    if events.len() > 0 {
        output_is_passed_on_in_order(start, events.drop_last());
        assert(told_running(start, events) =~= passed_on(events));
    }
}

/// A terminal ends in one of three ways: the host ended the output, and the client is told that
/// the session ended; the client is gone, and is told nothing; or the terminal failed, and the
/// client is told why.
pub proof fn terminals_end_in_one_event(start: LoopView, events: Seq<EventView>, last: EventView)
    requires
        run(start, events) is Some,
        run(start, events.push(last)) is None,
    ensures
        told_running(start, events.push(last)) == passed_on(events) + match loop_step(
            run(start, events)->0,
            last,
        ) {
            Err(message) => seq![crate::terminal::failure_body(message)],
            Ok(_) => if last == (EventView::NoOutput { eof: true }) {
                seq![ended_body()]
            } else {
                Seq::empty()
            },
        },
        loop_step(run(start, events)->0, last) is Ok ==> last == (EventView::NoOutput { eof: true })
            || last == EventView::ClientGone,
{
    assert(events.push(last).drop_last() =~= events);
    output_is_passed_on_in_order(start, events);
}

/// A terminal that has ended or failed tells the client nothing more.
pub proof fn ended_terminals_are_silent(
    start: LoopView,
    events: Seq<EventView>,
    later: Seq<EventView>,
)
    requires
        run(start, events) is None,
    ensures
        run(start, events + later) is None,
        told_running(start, events + later) == told_running(start, events),
    decreases later.len(),
{
    if later.len() == 0 {
        assert(events + later =~= events);
    } else {
        ended_terminals_are_silent(start, events, later.drop_last());
        assert((events + later).drop_last() =~= events + later.drop_last());
    }
}

/// An event that has a message shows its type, and output shows that it is output.
proof fn lemma_event_types(name: Seq<char>, message: Seq<char>)
    ensures
        crate::terminal::event_body(name, message)->Object_0["type"@] == JsonView::Text(name),
        data_body(message)->Object_0["type"@] == JsonView::Text("data"@),
        ended_body()->Object_0["type"@] == JsonView::Text("session_ended"@),
{
    reveal_strlit("type");
    reveal_strlit("message");
    reveal_strlit("data");
    assert("type"@.len() != "message"@.len());
    assert("type"@[0] != "data"@[0]);
}

/// Neither output nor the end nor a failure of a terminal says that it is connected.
proof fn lemma_other_events(text: Seq<char>)
    ensures
        data_body(text) != crate::terminal::connected_body(),
        ended_body() != crate::terminal::connected_body(),
        crate::terminal::failure_body(text) != crate::terminal::connected_body(),
{
    reveal_strlit("connected");
    reveal_strlit("data");
    reveal_strlit("session_ended");
    reveal_strlit("error");
    reveal_strlit("auth_method_not_available");
    let message = "Failed to connect to host: "@ + text;
    lemma_event_types("connected"@, "SSH connected"@);
    lemma_event_types("error"@, message);
    lemma_event_types("auth_method_not_available"@, message);
    lemma_event_types("error"@, text);
    assert("connected"@.len() == 9 && "data"@.len() == 4 && "session_ended"@.len() == 13
        && "error"@.len() == 5 && "auth_method_not_available"@.len() == 25);
}

/// No event of a running terminal says that it is connected.
proof fn lemma_told_is_news(start: LoopView, events: Seq<EventView>, i: int)
    requires
        0 <= i < told_running(start, events).len(),
    ensures
        told_running(start, events)[i] != crate::terminal::connected_body(),
    decreases events.len(),
{
    let earlier = told_running(start, events.drop_last());
    if i < earlier.len() {
        lemma_told_is_news(start, events.drop_last(), i);
    } else {
        let step = loop_step(run(start, events.drop_last())->0, events.last());
        assert(told_running(start, events)[i] == told(step)[i - earlier.len()]);
        match step {
            Err(message) => lemma_other_events(message),
            Ok(_) => match events.last() {
                EventView::Output(bytes) => lemma_other_events(crate::text::lossy(bytes)),
                _ => lemma_other_events(Seq::empty()),
            },
        }
    }
}

/// A connection has failed where one of its steps did; and where none did, it has come as far
/// as that many steps bring it.
proof fn lemma_connection_steps(offer: AuthOffer, done: Seq<Result<(), Seq<char>>>)
    requires
        connected_to(offer, done) is Ok,
    ensures
        forall|i: int| 0 <= i < done.len() ==> #[trigger] done[i] is Ok,
        connected_to(offer, done) == crate::ssh::step_at(
            done.len(),
            crate::ssh::chosen_auth(offer, AgentUse::Allowed),
            Purpose::Terminal,
        ),
    decreases done.len(),
{
    if done.len() > 0 {
        lemma_connection_steps(offer, done.drop_last());
        assert forall|i: int| 0 <= i < done.len() implies #[trigger] done[i] is Ok by {
            if i < done.len() - 1 {
                assert(done.drop_last()[i] == done[i]);
            }
        }
    }
}

/// A client is told that a terminal is connected exactly once, before anything else that it is
/// told of it, and only where every step of the connection went well: the login and the check
/// that it holds, the channel, the terminal and the shell.
pub proof fn connected_comes_first_and_once(
    offer: AuthOffer,
    done: Seq<Result<(), Seq<char>>>,
    now: int,
    events: Seq<EventView>,
)
    ensures
        ({
            let events_told = told_of_terminal(offer, done, now, events);
            let connected = crate::terminal::connected_body();
            &&& connected_to(offer, done) == Ok::<ConnectStep, Seq<char>>(ConnectStep::Ready) ==> {
                &&& events_told.len() > 0
                &&& events_told[0] == connected
                &&& forall|i: int|
                    0 < i < events_told.len() ==> #[trigger] events_told[i] != connected
                &&& crate::ssh::chosen_auth(offer, AgentUse::Allowed) is Ok
                &&& done.len() >= crate::ssh::steps_needed(Purpose::Terminal)
                &&& forall|i: int| 0 <= i < done.len() ==> #[trigger] done[i] is Ok
            }
            &&& connected_to(offer, done) != Ok::<ConnectStep, Seq<char>>(ConnectStep::Ready)
                ==> !events_told.contains(connected)
        }),
{
    let events_told = told_of_terminal(offer, done, now, events);
    let connected = crate::terminal::connected_body();
    let auth = crate::ssh::chosen_auth(offer, AgentUse::Allowed);
    match connected_to(offer, done) {
        Ok(ConnectStep::Ready) => {
            lemma_connection_steps(offer, done);
            match auth {
                Ok(way) => crate::ssh::connections_log_in_first(way, Purpose::Terminal),
                Err(message) => {
                    reveal_with_fuel(crate::ssh::step_at, 4);
                    if done.len() >= 3 {
                        crate::ssh::connections_without_login_fail(
                            message,
                            Purpose::Terminal,
                            done.len(),
                        );
                    }
                },
            }
            assert forall|i: int| 0 < i < events_told.len() implies #[trigger] events_told[i]
                != connected by {
                lemma_told_is_news(started(now), events, i - 1);
            }
        },
        Ok(_) => {},
        Err(message) => {
            lemma_other_events(message);
            assert forall|i: int| 0 <= i < events_told.len() implies events_told[i] != connected by {
                assert(events_told[i] == crate::terminal::failure_body(message));
            }
        },
    }
}

/// A keepalive is never put off for longer than the tick.
pub proof fn keepalives_are_never_far(seconds: int)
    requires
        0 <= seconds,
    ensures
        0 < keepalive_wait(seconds) <= KEEPALIVE_TICK_MILLIS,
{
}

/// The bytes of the texts that events carry to the client under `data`, one after the other.
pub open spec fn carried(events: Seq<JsonView>) -> Seq<u8>
    decreases events.len(),
{
    if events.len() == 0 {
        Seq::empty()
    } else {
        match events.last().text_at("data"@) {
            Some(text) => carried(events.drop_last()) + encode_utf8(text),
            None => carried(events.drop_last()),
        }
    }
}

/// The bytes that the host wrote in the course of some events, one after the other.
pub open spec fn host_output(events: Seq<EventView>) -> Seq<u8>
    decreases events.len(),
{
    if events.len() == 0 {
        Seq::empty()
    } else {
        match events.last() {
            EventView::Output(bytes) => host_output(events.drop_last()) + bytes,
            _ => host_output(events.drop_last()),
        }
    }
}

/// Output that is UTF-8 is passed on as it is: the event has the type `data`, and under `data` a
/// text that encodes as the very bytes that were read. The terminal stays as it is.
pub proof fn output_is_passed_on_unchanged(state: LoopView, bytes: Seq<u8>)
    requires
        valid_utf8(bytes),
    ensures
        loop_step(state, EventView::Output(bytes)) matches Ok((after, ActionView::Emit(event)))
            && after == state && event.text_at("type"@) == Some("data"@) && (event.text_at("data"@)
            matches Some(text) && encode_utf8(text) == bytes),
{
    reveal_strlit("type");
    reveal_strlit("data");
    assert("type"@[0] != "data"@[0]);
    decode_utf8_encode_utf8(bytes);
}

/// Whatever the host writes in UTF-8 reaches the client byte by byte, as long as the terminal
/// runs: the texts that the client is sent encode, one after the other, as all that was read.
pub proof fn the_client_gets_all_output(start: LoopView, events: Seq<EventView>)
    requires
        run(start, events) is Some,
        forall|i: int|
            0 <= i < events.len() ==> (#[trigger] events[i] matches EventView::Output(bytes)
                ==> valid_utf8(bytes)),
    ensures
        carried(told_running(start, events)) == host_output(events),
    decreases events.len(),
{
    if events.len() > 0 {
        let earlier = events.drop_last();
        assert forall|i: int| 0 <= i < earlier.len() implies (#[trigger] earlier[i] matches
            EventView::Output(bytes) ==> valid_utf8(bytes)) by {
            assert(earlier[i] == events[i]);
        }
        the_client_gets_all_output(start, earlier);
        let before = told_running(start, earlier);
        let all = told_running(start, events);
        assert(events[events.len() - 1] == events.last());
        match events.last() {
            EventView::Output(bytes) => {
                output_is_passed_on_unchanged(run(start, earlier)->0, bytes);
                assert(all.drop_last() =~= before);
            },
            _ => {
                assert(all =~= before);
            },
        }
    }
}

/// Input is taken in whole, as the bytes that it encodes as, up to a mebibyte that is not written
/// yet; more is refused, and then nothing of it is taken in.
pub proof fn input_is_taken_in_whole(state: LoopView, text: Seq<char>)
    ensures
        state.pending.len() + encode_utf8(text).len() <= 1024 * 1024 ==> (loop_step(
            state,
            EventView::Input(text),
        ) matches Ok((after, ActionView::Receive)) && after.pending == state.pending + encode_utf8(
            text,
        ) && after.next_keepalive == state.next_keepalive),
        state.pending.len() + encode_utf8(text).len() > 1024 * 1024 ==> loop_step(
            state,
            EventView::Input(text),
        ) is Err,
{
}

/// A terminal gets the size that its client asks for, and nothing else changes.
pub proof fn sizes_are_passed_on(state: LoopView, cols: u32, rows: u32)
    ensures
        loop_step(state, EventView::Resize { cols, rows }) matches Ok(
            (after, ActionView::Resize { cols: wide, rows: high }),
        ) && after == state && wide == cols && high == rows,
{
}

/// Input that waits is written before output is read, and what was written waits no more.
pub proof fn waiting_input_is_written_first(state: LoopView, n: int)
    requires
        0 < n <= state.pending.len(),
    ensures
        loop_step(state, EventView::NoCommand) matches Ok((_, ActionView::Write)),
        loop_step(state, EventView::Wrote(n)) matches Ok((after, action)) && after.pending
            == state.pending.subrange(n, state.pending.len() as int) && (action
            == ActionView::Write <==> n < state.pending.len()) && (action == ActionView::Read
            <==> n == state.pending.len()),
{
    assert(state.pending.skip(n) =~= state.pending.subrange(n, state.pending.len() as int));
}

/// A keepalive is sent when its time has come and not before: ten seconds after the start, and
/// then after as many seconds as the host wants, but ten at most and ten where it wants none; a
/// quarter of a second later where it could not be sent.
pub proof fn keepalives_are_sent_in_time(state: LoopView, now: int, seconds: int)
    requires
        0 <= seconds,
    ensures
        started(now).next_keepalive == now + 10000,
        started(now).pending.len() == 0,
        loop_step(state, EventView::Clock(now)) matches Ok((_, action)) && (action
            == ActionView::SendKeepalive <==> now >= state.next_keepalive) && (action
            == ActionView::Rest <==> now < state.next_keepalive),
        loop_step(state, EventView::KeptAlive { seconds, now }) matches Ok((after, _))
            && after.pending == state.pending && after.next_keepalive == now + if 1 <= seconds
            <= 10 {
            seconds * 1000
        } else {
            10000
        },
        loop_step(state, EventView::KeepaliveBlocked { now }) matches Ok((after, _))
            && after.pending == state.pending && after.next_keepalive == now + 250,
{
}

/// What fails is told with the message of its error at the end, and ends the terminal.
pub proof fn failures_keep_their_message(state: LoopView, message: Seq<char>)
    ensures
        loop_step(state, EventView::Resized(Err(message))) matches Err(words)
            && message.is_suffix_of(words),
        loop_step(state, EventView::WriteFailed(message)) matches Err(words)
            && message.is_suffix_of(words),
        loop_step(state, EventView::ReadFailed(message)) matches Err(words)
            && message.is_suffix_of(words),
        loop_step(state, EventView::KeepaliveFailed(message)) matches Err(words)
            && message.is_suffix_of(words),
{
    lemma_ends_in("PTY resize failed: "@, message);
    lemma_ends_in("SSH write failed: "@, message);
    lemma_ends_in("SSH read failed: "@, message);
    lemma_ends_in("SSH keepalive failed: "@, message);
}

proof fn lemma_ends_in(head: Seq<char>, message: Seq<char>)
    ensures
        message.is_suffix_of(head + message),
{
    let all = head + message;
    assert(all.subrange(all.len() - message.len(), all.len() as int) =~= message);
}

/// Nothing that only waits, blocks or turns out well ends a terminal, changes it or is told.
pub proof fn quiet_events_change_nothing(state: LoopView, now: int)
    ensures
        loop_step(state, EventView::WriteBlocked) == Ok::<(LoopView, ActionView), Seq<char>>(
            (state, ActionView::Read),
        ),
        loop_step(state, EventView::ReadBlocked) == Ok::<(LoopView, ActionView), Seq<char>>(
            (state, ActionView::ReadClock),
        ),
        loop_step(state, EventView::NoOutput { eof: false }) == Ok::<
            (LoopView, ActionView),
            Seq<char>,
        >((state, ActionView::ReadClock)),
        loop_step(state, EventView::Emitted) == Ok::<(LoopView, ActionView), Seq<char>>(
            (state, ActionView::ReadClock),
        ),
        loop_step(state, EventView::Rested) == Ok::<(LoopView, ActionView), Seq<char>>(
            (state, ActionView::Receive),
        ),
        loop_step(state, EventView::Resized(Ok(()))) == Ok::<(LoopView, ActionView), Seq<char>>(
            (state, ActionView::Receive),
        ),
        loop_step(state, EventView::Wrote(0)) == Ok::<(LoopView, ActionView), Seq<char>>(
            (state, ActionView::Read),
        ),
{
}

/// A client that is gone closes the terminal; a host that ended its output has the session end
/// told to the client.
pub proof fn terminals_end_when_either_side_is_gone(state: LoopView)
    ensures
        loop_step(state, EventView::ClientGone) matches Ok((_, ActionView::Close)),
        loop_step(state, EventView::NoOutput { eof: true }) matches Ok(
            (_, ActionView::EmitLast(event)),
        ) && event.text_at("type"@) == Some("session_ended"@),
{
}

/// What happens to a terminal is seen as it is: the text that is typed, the size that is asked
/// for, the bytes that are read and how many were written, the times, and the messages of errors.
pub proof fn happenings_are_seen_whole(
    text: String,
    cols: u32,
    rows: u32,
    bytes: Vec<u8>,
    n: usize,
    eof: bool,
    now: u64,
    seconds: u32,
)
    ensures
        LoopEvent::Received(TerminalCommand::Input(text))@ == EventView::Input(text@),
        LoopEvent::Received(TerminalCommand::Resize { cols, rows })@ == (EventView::Resize {
            cols,
            rows,
        }),
        LoopEvent::NoCommand@ == EventView::NoCommand,
        LoopEvent::ClientGone@ == EventView::ClientGone,
        LoopEvent::Resized(Ok(()))@ == EventView::Resized(Ok(())),
        LoopEvent::Resized(Err(text))@ == EventView::Resized(Err(text@)),
        LoopEvent::Wrote(n)@ == EventView::Wrote(n as int),
        LoopEvent::WriteBlocked@ == EventView::WriteBlocked,
        LoopEvent::WriteFailed(text)@ == EventView::WriteFailed(text@),
        LoopEvent::Output(bytes)@ == EventView::Output(bytes@),
        (LoopEvent::NoOutput { eof })@ == (EventView::NoOutput { eof }),
        LoopEvent::ReadBlocked@ == EventView::ReadBlocked,
        LoopEvent::ReadFailed(text)@ == EventView::ReadFailed(text@),
        LoopEvent::Emitted@ == EventView::Emitted,
        LoopEvent::Clock(now)@ == EventView::Clock(now as int),
        (LoopEvent::KeptAlive { seconds, now })@ == (EventView::KeptAlive {
            seconds: seconds as int,
            now: now as int,
        }),
        (LoopEvent::KeepaliveBlocked { now })@ == (EventView::KeepaliveBlocked { now: now as int }),
        LoopEvent::KeepaliveFailed(text)@ == EventView::KeepaliveFailed(text@),
        LoopEvent::Rested@ == EventView::Rested,
{
}

/// What a terminal does next is seen as it is, with the size that it passes on and the event that
/// it tells.
pub proof fn actions_are_seen_whole(cols: u32, rows: u32, event: Json)
    ensures
        LoopAction::Receive@ == ActionView::Receive,
        (LoopAction::Resize { cols, rows })@ == (ActionView::Resize { cols, rows }),
        LoopAction::Close@ == ActionView::Close,
        LoopAction::Write@ == ActionView::Write,
        LoopAction::Read@ == ActionView::Read,
        LoopAction::Emit(event)@ == ActionView::Emit(event@),
        LoopAction::EmitLast(event)@ == ActionView::EmitLast(event@),
        LoopAction::ReadClock@ == ActionView::ReadClock,
        LoopAction::SendKeepalive@ == ActionView::SendKeepalive,
        LoopAction::Rest@ == ActionView::Rest,
{
}

} // verus!

//! The cursor-position query as a state machine.
//!
//! The machine decides; its driver acts. The driver carries out the action
//! that the machine hands it (read the mode, set a mode, write the request,
//! read one byte) and hands back the outcome as an event, until the machine
//! says `Finish`. The machine sees to it that a mode that was switched to raw
//! is put back on every path, once, before the result comes out.

use vstd::prelude::*;
use crate::error::{Error, IoError};
use crate::mode::TerminalMode;
use crate::reply::{lemma_fed_is_grammar, parse_reply, CursorPosition, ReplyParser};

verus! {

/// First byte of the request for the cursor position, `ESC [ 6 n`.
pub const REQUEST_0: u8 = 0x1B;
/// Second byte of the request.
pub const REQUEST_1: u8 = 0x5B;
/// Third byte of the request.
pub const REQUEST_2: u8 = 0x36;
/// Fourth byte of the request.
pub const REQUEST_3: u8 = 0x6E;

/// The bytes of the request, as a sequence.
pub open spec fn request_spec() -> Seq<u8> {
    seq![REQUEST_0, REQUEST_1, REQUEST_2, REQUEST_3]
}

/// The bytes to write, and then flush, for Action::WriteRequest.
pub fn request() -> (r: [u8; 4])
    ensures
        r@ == request_spec(),
{
    let r: [u8; 4] = [REQUEST_0, REQUEST_1, REQUEST_2, REQUEST_3];
    assert(r@ =~= request_spec());
    r
}

/// The duty to put a saved mode back. It exists only once the raw mode has
/// been applied, holds one saved mode, and is given up by `release`, which
/// hands out the mode to restore.
#[derive(Debug, PartialEq, Eq)]
pub struct RawModeGuard {
    /// The mode that was in force before the raw mode.
    pub saved: TerminalMode,
}

impl RawModeGuard {
    /// What entering raw mode comes to, given the mode that was saved and
    /// the outcome of applying the raw mode.
    pub open spec fn enter_spec(saved: TerminalMode, applied: Result<(), IoError>) -> Result<
        RawModeGuard,
        Error,
    > {
        match applied {
            Ok(_) => Ok(RawModeGuard { saved }),
            Err(e) => Err(Error::Io(e)),
        }
    }

    /// Takes on the duty to restore `saved`, where applying the raw mode
    /// succeeded. Where it failed there is no guard, and nothing to restore.
    pub fn enter(saved: TerminalMode, applied: Result<(), IoError>) -> (r: Result<
        RawModeGuard,
        Error,
    >)
        ensures
            r == Self::enter_spec(saved, applied),
    {
        match applied {
            Ok(_) => Ok(RawModeGuard { saved }),
            Err(e) => Err(Error::Io(e)),
        }
    }

    /// Gives the guard up and hands out the mode to set.
    pub fn release(self) -> (r: TerminalMode)
        ensures
            r == self.saved,
    {
        self.saved
    }
}

/// What the driver is to do next.
#[derive(Debug, PartialEq, Eq)]
pub enum Action {
    /// Nothing yet: hand in `Event::Start`.
    Begin,
    /// Read the terminal's mode; answer with `Event::ModeRead`.
    GetMode,
    /// Set the terminal's mode to this; answer with `Event::ModeSet`.
    SetMode(TerminalMode),
    /// Write the request bytes and flush; answer with `Event::Written`.
    WriteRequest,
    /// Read one byte, blocking; answer with `Event::Byte`.
    ReadByte,
    /// The query is over. `outcome` is its result; `restore_failure` reports
    /// a failed attempt to put the saved mode back.
    Finish { outcome: Result<CursorPosition, Error>, restore_failure: Option<IoError> },
}

/// What the driver reports back.
#[derive(Debug, PartialEq, Eq)]
pub enum Event {
    /// The query is to begin.
    Start,
    /// The mode was read, or reading it failed.
    ModeRead(Result<TerminalMode, IoError>),
    /// The mode was set, or setting it failed.
    ModeSet(Result<(), IoError>),
    /// The request was written and flushed, or that failed.
    Written(Result<(), IoError>),
    /// One byte was read, or the read failed.
    Byte(Result<u8, IoError>),
}

/// Where the query stands.
#[derive(Debug, PartialEq, Eq)]
pub enum Phase {
    /// Not begun.
    Idle,
    /// The mode is being read.
    SavingMode,
    /// The raw mode is being applied; `saved` is the mode read before.
    ApplyingRaw { saved: TerminalMode },
    /// Raw mode is on; the request is being written.
    WritingRequest { guard: RawModeGuard },
    /// The reply is being read, one byte at a time.
    Reading { guard: RawModeGuard, parser: ReplyParser },
    /// The saved mode is being put back; `outcome` waits for that.
    Restoring { saved: TerminalMode, outcome: Result<CursorPosition, Error> },
    /// Over.
    Done { outcome: Result<CursorPosition, Error>, restore_failure: Option<IoError> },
}

impl Phase {
    /// The action that is outstanding in this phase.
    pub open spec fn pending(self) -> Action {
        match self {
            Phase::Idle => Action::Begin,
            Phase::SavingMode => Action::GetMode,
            Phase::ApplyingRaw { saved } => Action::SetMode(saved.raw_spec()),
            Phase::WritingRequest { .. } => Action::WriteRequest,
            Phase::Reading { .. } => Action::ReadByte,
            Phase::Restoring { saved, .. } => Action::SetMode(saved),
            Phase::Done { outcome, restore_failure } => Action::Finish { outcome, restore_failure },
        }
    }

    /// The phase that follows on `event`. An event that is no answer to the
    /// outstanding action changes nothing.
    pub open spec fn next(self, event: Event) -> Phase {
        match (self, event) {
            (Phase::Idle, Event::Start) => Phase::SavingMode,
            (Phase::SavingMode, Event::ModeRead(Ok(saved))) => Phase::ApplyingRaw { saved },
            (Phase::SavingMode, Event::ModeRead(Err(e))) => Phase::Done {
                outcome: Err(Error::Io(e)),
                restore_failure: None,
            },
            (Phase::ApplyingRaw { saved }, Event::ModeSet(applied)) => match RawModeGuard::enter_spec(
                saved,
                applied,
            ) {
                Ok(guard) => Phase::WritingRequest { guard },
                Err(e) => Phase::Done { outcome: Err(e), restore_failure: None },
            },
            (Phase::WritingRequest { guard }, Event::Written(Ok(_))) => Phase::Reading {
                guard,
                parser: ReplyParser::AwaitEscPrefix,
            },
            (Phase::WritingRequest { guard }, Event::Written(Err(e))) => Phase::Restoring {
                saved: guard.saved,
                outcome: Err(Error::Io(e)),
            },
            (Phase::Reading { guard, parser }, Event::Byte(Ok(b))) => if parser.feed_spec(
                b,
            ).is_final() {
                Phase::Restoring { saved: guard.saved, outcome: parser.feed_spec(b).verdict() }
            } else {
                Phase::Reading { guard, parser: parser.feed_spec(b) }
            },
            (Phase::Reading { guard, parser }, Event::Byte(Err(e))) => Phase::Restoring {
                saved: guard.saved,
                outcome: Err(Error::Io(e)),
            },
            (Phase::Restoring { saved, outcome }, Event::ModeSet(restored)) => Phase::Done {
                outcome,
                restore_failure: match restored {
                    Ok(_) => None,
                    Err(e) => Some(e),
                },
            },
            _ => self,
        }
    }

    /// The phase in which a query starts.
    pub fn new() -> (r: Phase)
        ensures
            r == Phase::Idle,
    {
        Phase::Idle
    }

    /// Takes the outcome of the last action and decides what comes next: the
    /// new phase, and the action to carry out in it.
    pub fn step(self, event: Event) -> (r: (Phase, Action))
        ensures
            r.0 == self.next(event),
            r.1 == self.next(event).pending(),
    {
        let next = match (self, event) {
            (Phase::Idle, Event::Start) => Phase::SavingMode,
            (Phase::SavingMode, Event::ModeRead(Ok(saved))) => Phase::ApplyingRaw { saved },
            (Phase::SavingMode, Event::ModeRead(Err(e))) => Phase::Done {
                outcome: Err(Error::Io(e)),
                restore_failure: None,
            },
            (Phase::ApplyingRaw { saved }, Event::ModeSet(applied)) => {
                match RawModeGuard::enter(saved, applied) {
                    Ok(guard) => Phase::WritingRequest { guard },
                    Err(e) => Phase::Done { outcome: Err(e), restore_failure: None },
                }
            },
            (Phase::WritingRequest { guard }, Event::Written(Ok(_))) => Phase::Reading {
                guard,
                parser: ReplyParser::new(),
            },
            (Phase::WritingRequest { guard }, Event::Written(Err(e))) => Phase::Restoring {
                saved: guard.release(),
                outcome: Err(Error::Io(e)),
            },
            (Phase::Reading { guard, parser }, Event::Byte(Ok(b))) => {
                let fed = parser.feed(b);
                if fed.finished() {
                    Phase::Restoring { saved: guard.release(), outcome: fed.finish() }
                } else {
                    Phase::Reading { guard, parser: fed }
                }
            },
            (Phase::Reading { guard, parser: _ }, Event::Byte(Err(e))) => Phase::Restoring {
                saved: guard.release(),
                outcome: Err(Error::Io(e)),
            },
            (Phase::Restoring { saved: _, outcome }, Event::ModeSet(restored)) => Phase::Done {
                outcome,
                restore_failure: match restored {
                    Ok(_) => None,
                    Err(e) => Some(e),
                },
            },
            (phase, _) => phase,
        };
        let action = next.action();
        (next, action)
    }

    /// The action that is outstanding in this phase.
    pub fn action(&self) -> (r: Action)
        ensures
            r == self.pending(),
    {
        match self {
            Phase::Idle => Action::Begin,
            Phase::SavingMode => Action::GetMode,
            Phase::ApplyingRaw { saved } => Action::SetMode(saved.raw()),
            Phase::WritingRequest { .. } => Action::WriteRequest,
            Phase::Reading { .. } => Action::ReadByte,
            Phase::Restoring { saved, .. } => Action::SetMode(*saved),
            Phase::Done { outcome, restore_failure } => Action::Finish {
                outcome: *outcome,
                restore_failure: *restore_failure,
            },
        }
    }
}

/// The mode in force once `action` has been carried out with the outcome
/// `event`: a mode that was set with success is in force; nothing else
/// changes the mode.
pub open spec fn mode_after(mode: TerminalMode, action: Action, event: Event) -> TerminalMode {
    match (action, event) {
        (Action::SetMode(m), Event::ModeSet(Ok(_))) => m,
        _ => mode,
    }
}

/// Whether `event` is an outcome of `action` on a terminal in `mode`: it
/// is of the kind that the action asks for, and a mode that was read is the
/// mode in force.
pub open spec fn answers(mode: TerminalMode, action: Action, event: Event) -> bool {
    match (action, event) {
        (Action::Begin, Event::Start) => true,
        (Action::GetMode, Event::ModeRead(Ok(m))) => m == mode,
        (Action::GetMode, Event::ModeRead(Err(_))) => true,
        (Action::SetMode(_), Event::ModeSet(_)) => true,
        (Action::WriteRequest, Event::Written(_)) => true,
        (Action::ReadByte, Event::Byte(_)) => true,
        _ => false,
    }
}

/// In this model of a terminal, reading the mode twice with nothing set in
/// between gives the same mode both times.
pub proof fn lemma_model_reads_agree(mode: TerminalMode, first: TerminalMode, second: TerminalMode)
    requires
        answers(mode, Action::GetMode, Event::ModeRead(Ok(first))),
        answers(
            mode_after(mode, Action::GetMode, Event::ModeRead(Ok(first))),
            Action::GetMode,
            Event::ModeRead(Ok(second)),
        ),
    ensures
        first == second,
{
}

/// In this model of a terminal, a mode that was set with success is the
/// mode that is read next.
pub proof fn lemma_model_set_then_read(mode: TerminalMode, set: TerminalMode, read: TerminalMode)
    requires
        answers(
            mode_after(mode, Action::SetMode(set), Event::ModeSet(Ok(()))),
            Action::GetMode,
            Event::ModeRead(Ok(read)),
        ),
    ensures
        read == set,
{
}

/// The phase of a query that has taken `events`.
pub open spec fn phase_after(events: Seq<Event>) -> Phase
    decreases events.len(),
{
    if events.len() == 0 {
        Phase::Idle
    } else {
        phase_after(events.drop_last()).next(events.last())
    }
}

/// The mode in force on a terminal that was in the mode `before` when the
/// query started, once the query has taken `events`.
pub open spec fn mode_in_force(before: TerminalMode, events: Seq<Event>) -> TerminalMode
    decreases events.len(),
{
    if events.len() == 0 {
        before
    } else {
        mode_after(
            mode_in_force(before, events.drop_last()),
            phase_after(events.drop_last()).pending(),
            events.last(),
        )
    }
}

/// How many times the raw mode has been applied with success.
pub open spec fn raw_applications(events: Seq<Event>) -> nat
    decreases events.len(),
{
    if events.len() == 0 {
        0
    } else if phase_after(events.drop_last()) is ApplyingRaw && events.last() matches Event::ModeSet(
        Ok(_),
    ) {
        raw_applications(events.drop_last()) + 1
    } else {
        raw_applications(events.drop_last())
    }
}

/// How many times the query has had the saved mode set again, with success
/// or without.
pub open spec fn restorations(events: Seq<Event>) -> nat
    decreases events.len(),
{
    if events.len() == 0 {
        0
    } else if phase_after(events.drop_last()) is Restoring && events.last() is ModeSet {
        restorations(events.drop_last()) + 1
    } else {
        restorations(events.drop_last())
    }
}

/// Whether each of `events` answers the action that was outstanding when it
/// came.
pub open spec fn truthful(before: TerminalMode, events: Seq<Event>) -> bool
    decreases events.len(),
{
    events.len() > 0 ==> {
        &&& truthful(before, events.drop_last())
        &&& answers(
            mode_in_force(before, events.drop_last()),
            phase_after(events.drop_last()).pending(),
            events.last(),
        )
    }
}

/// What holds of a query at every moment, `before` being the mode at its
/// start. Until raw mode is applied the mode is untouched. From then until
/// the end the mode is the raw mode of `before`, and `before` is what will be
/// set again. At the end the saved mode has been set again as often as the
/// raw mode was applied, which is once or never, and the mode is `before`
/// unless that one attempt failed.
pub open spec fn restoration_invariant(before: TerminalMode, events: Seq<Event>) -> bool {
    let mode = mode_in_force(before, events);
    let applied = raw_applications(events);
    let restored = restorations(events);
    match phase_after(events) {
        Phase::Idle => mode == before && applied == 0 && restored == 0,
        Phase::SavingMode => mode == before && applied == 0 && restored == 0,
        Phase::ApplyingRaw { saved } => saved == before && mode == before && applied == 0
            && restored == 0,
        Phase::WritingRequest { guard } => guard.saved == before && mode == before.raw_spec()
            && applied == 1 && restored == 0,
        Phase::Reading { guard, .. } => guard.saved == before && mode == before.raw_spec()
            && applied == 1 && restored == 0,
        Phase::Restoring { saved, .. } => saved == before && mode == before.raw_spec() && applied
            == 1 && restored == 0,
        Phase::Done { restore_failure, .. } => applied == restored && restored <= 1
            && match restore_failure {
            None => mode == before,
            Some(_) => mode == before.raw_spec() && restored == 1,
        },
    }
}

/// The mode is put back. Whatever the outcomes along the way (a failed
/// read of the mode, a failed write, a malformed or a well-formed reply, a
/// failed read), once the query is over the mode in force is the mode from
/// before it, unless the attempt to set it again failed, which the final
/// action then reports. The saved mode is set again exactly once where the
/// raw mode had been applied, and never otherwise.
pub proof fn lemma_mode_is_restored(before: TerminalMode, events: Seq<Event>)
    requires
        truthful(before, events),
    ensures
        restoration_invariant(before, events),
        phase_after(events) matches Phase::Done { restore_failure, .. } ==> {
            &&& restore_failure is None ==> mode_in_force(before, events) == before
            &&& restorations(events) == raw_applications(events)
            &&& restorations(events) <= 1
        },
    decreases events.len(),
{
    if events.len() > 0 {
        lemma_mode_is_restored(before, events.drop_last());
    }
}

/// The phase after the bytes of `bytes` have been handed in, one read at
/// a time, starting from `phase`.
pub open spec fn read_all(phase: Phase, bytes: Seq<u8>) -> Phase
    decreases bytes.len(),
{
    if bytes.len() == 0 {
        phase
    } else {
        read_all(phase, bytes.drop_last()).next(Event::Byte(Ok(bytes.last())))
    }
}

/// The query reads the reply as the grammar prescribes. From the moment
/// the request is written, bytes handed in one at a time keep the query
/// reading until they hold a verdict; it then turns to putting the saved mode
/// back, with what the grammar makes of the bytes as its outcome, and takes
/// no further byte.
pub proof fn lemma_reading_follows_grammar(saved: TerminalMode, bytes: Seq<u8>)
    ensures
        read_all(
            Phase::Reading { guard: RawModeGuard { saved }, parser: ReplyParser::AwaitEscPrefix },
            bytes,
        ) == if ReplyParser::fed(bytes).is_final() {
            Phase::Restoring { saved, outcome: parse_reply(bytes) }
        } else {
            Phase::Reading { guard: RawModeGuard { saved }, parser: ReplyParser::fed(bytes) }
        },
    decreases bytes.len(),
{
    lemma_fed_is_grammar(bytes);
    if bytes.len() > 0 {
        lemma_reading_follows_grammar(saved, bytes.drop_last());
        lemma_fed_is_grammar(bytes.drop_last());
    }
}

/// The events of a query up to the first read: it is started, the mode
/// `before` is read, the raw mode is applied and the request is written,
/// each with success.
pub open spec fn opening(before: TerminalMode) -> Seq<Event> {
    seq![
        Event::Start,
        Event::ModeRead(Ok(before)),
        Event::ModeSet(Ok(())),
        Event::Written(Ok(())),
    ]
}

/// One successful read for each byte of `bytes`.
pub open spec fn byte_events(bytes: Seq<u8>) -> Seq<Event> {
    Seq::new(bytes.len(), |i: int| Event::Byte(Ok(bytes[i])))
}

/// One more event takes a query one step further.
pub proof fn lemma_push(before: TerminalMode, events: Seq<Event>, event: Event)
    ensures
        phase_after(events.push(event)) == phase_after(events).next(event),
        mode_in_force(before, events.push(event)) == mode_after(
            mode_in_force(before, events),
            phase_after(events).pending(),
            event,
        ),
        restorations(events.push(event)) == restorations(events) + if phase_after(events)
            is Restoring && event is ModeSet {
            1nat
        } else {
            0nat
        },
{
    assert(events.push(event).drop_last() =~= events);
    assert(events.push(event).last() == event);
}

/// After the opening the query reads, in raw mode, with the mode from
/// before under guard.
pub proof fn lemma_opening(before: TerminalMode)
    ensures
        phase_after(opening(before)) == (Phase::Reading {
            guard: RawModeGuard { saved: before },
            parser: ReplyParser::AwaitEscPrefix,
        }),
        mode_in_force(before, opening(before)) == before.raw_spec(),
        restorations(opening(before)) == 0,
{
    let e0 = Seq::<Event>::empty();
    let e1 = e0.push(Event::Start);
    let e2 = e1.push(Event::ModeRead(Ok(before)));
    let e3 = e2.push(Event::ModeSet(Ok(())));
    let e4 = e3.push(Event::Written(Ok(())));
    assert(phase_after(e0) == Phase::Idle);
    assert(mode_in_force(before, e0) == before);
    assert(restorations(e0) == 0);
    lemma_push(before, e0, Event::Start);
    lemma_push(before, e1, Event::ModeRead(Ok(before)));
    lemma_push(before, e2, Event::ModeSet(Ok(())));
    lemma_push(before, e3, Event::Written(Ok(())));
    assert(e4 =~= opening(before));
}

/// While the bytes of a reply come in, the query is where reading them one
/// at a time takes it, and the raw mode stays in force.
pub proof fn lemma_reading(before: TerminalMode, bytes: Seq<u8>)
    ensures
        phase_after(opening(before) + byte_events(bytes)) == read_all(
            Phase::Reading {
                guard: RawModeGuard { saved: before },
                parser: ReplyParser::AwaitEscPrefix,
            },
            bytes,
        ),
        mode_in_force(before, opening(before) + byte_events(bytes)) == before.raw_spec(),
        restorations(opening(before) + byte_events(bytes)) == 0,
    decreases bytes.len(),
{
    if bytes.len() == 0 {
        lemma_opening(before);
        assert(opening(before) + byte_events(bytes) =~= opening(before));
    } else {
        let front = bytes.drop_last();
        let event = Event::Byte(Ok(bytes.last()));
        lemma_reading(before, front);
        lemma_reading_follows_grammar(before, front);
        lemma_push(before, opening(before) + byte_events(front), event);
        assert((opening(before) + byte_events(front)).push(event) =~= opening(before)
            + byte_events(bytes));
    }
}

/// What a whole query comes to. Where every step up to the first read
/// succeeds and the terminal sends `bytes`, which hold a verdict, the query
/// ends with what the grammar makes of `bytes` as its outcome, after one
/// attempt to set the mode from before again; the mode in force is then the
/// mode from before if that attempt succeeded, and the raw mode if not.
pub proof fn lemma_query_outcome(
    before: TerminalMode,
    bytes: Seq<u8>,
    restored: Result<(), IoError>,
)
    requires
        ReplyParser::fed(bytes).is_final(),
    ensures
        ({
            let events = (opening(before) + byte_events(bytes)).push(Event::ModeSet(restored));
            &&& phase_after(events) == (Phase::Done {
                outcome: parse_reply(bytes),
                restore_failure: match restored {
                    Ok(_) => None,
                    Err(e) => Some(e),
                },
            })
            &&& mode_in_force(before, events) == match restored {
                Ok(_) => before,
                Err(_) => before.raw_spec(),
            }
            &&& restorations(events) == 1
        }),
{
    lemma_reading(before, bytes);
    lemma_reading_follows_grammar(before, bytes);
    lemma_push(before, opening(before) + byte_events(bytes), Event::ModeSet(restored));
}

} // verus!

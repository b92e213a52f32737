//! One request/response exchange with a device over its serial endpoint.
//!
//! The exchange is a decision machine: the caller writes each frame that
//! `next_frame` hands out, reads the reply with a bounded timeout, and reports
//! what the read gave back through `on_read`. Once the machine is finished,
//! `finish` gives the trimmed response or the error.
use vstd::prelude::*;
use vstd::string::*;
use crate::commands::{
    framed, trimmed, frame_line, trim_response, Command, ControlArgs, DataRequestArgs,
};

verus! {

/// Failures of an exchange.
#[derive(Debug, Clone, PartialEq, Eq)]
pub enum SerialError {
    /// The serial endpoint could not be found or opened.
    InterfaceError(String),
    /// A read failed.
    ReadError(String),
    /// The device went away during the exchange.
    BrokenPipeError(String),
    /// The response could not be decoded.
    DecodeError(String),
}

impl SerialError {
    /// An equal copy of the error.
    pub fn duplicate(&self) -> (r: SerialError)
        ensures
            r == *self,
    {
        match self {
            SerialError::InterfaceError(m) => SerialError::InterfaceError(m.clone()),
            SerialError::ReadError(m) => SerialError::ReadError(m.clone()),
            SerialError::BrokenPipeError(m) => SerialError::BrokenPipeError(m.clone()),
            SerialError::DecodeError(m) => SerialError::DecodeError(m.clone()),
        }
    }

    pub open spec fn spec_message(&self) -> Seq<char> {
        match self {
            SerialError::InterfaceError(m) => "interface error: "@ + m@,
            SerialError::ReadError(m) => "read error: "@ + m@,
            SerialError::BrokenPipeError(m) => "broken pipe: "@ + m@,
            SerialError::DecodeError(m) => "decode error: "@ + m@,
        }
    }

    /// A one-line description of the error.
    pub fn message(&self) -> (r: String)
        ensures
            r@ == self.spec_message(),
    {
        let (mut out, m) = match self {
            SerialError::InterfaceError(m) => (String::from_str("interface error: "), m),
            SerialError::ReadError(m) => (String::from_str("read error: "), m),
            SerialError::BrokenPipeError(m) => (String::from_str("broken pipe: "), m),
            SerialError::DecodeError(m) => (String::from_str("decode error: "), m),
        };
        out.append(m.as_str());
        out
    }
}

/// How a bounded read ended.
#[derive(Debug, Clone, PartialEq, Eq)]
pub enum ReadEnd {
    /// The read returned normally.
    Complete,
    /// The timeout ran out; not an error.
    TimedOut,
    /// The endpoint disappeared.
    BrokenPipe(String),
    /// Any other I/O error.
    Failed(String),
}

/// The state of an exchange, as a mathematical value.
pub struct ExchangeView {
    /// The rendered lines of the command.
    pub lines: Seq<Seq<char>>,
    /// Whether a broken pipe means success for this command.
    pub disruptive: bool,
    /// How many lines were written and read back.
    pub sent: nat,
    /// What the last read gave back.
    pub buffer: Seq<char>,
    pub failure: Option<SerialError>,
    /// The exchange stopped before its last line.
    pub stopped: bool,
}

impl ExchangeView {
    /// The state before the first line of `command` is written.
    pub open spec fn start(command: Command) -> ExchangeView {
        ExchangeView {
            lines: command.spec_lines(),
            disruptive: command.spec_is_disruptive(),
            sent: 0,
            buffer: Seq::empty(),
            failure: None,
            stopped: false,
        }
    }

    /// A command renders to at most two lines, and a failure always stops the exchange.
    pub open spec fn inv(self) -> bool {
        &&& self.lines.len() <= 2
        &&& self.failure is Some ==> self.stopped
    }

    pub open spec fn finished(self) -> bool {
        self.stopped || self.sent >= self.lines.len()
    }

    /// The state after the read that follows the next line.
    pub open spec fn after_read(self, received: Seq<char>, end: ReadEnd) -> ExchangeView {
        let next = ExchangeView { sent: self.sent + 1, buffer: received, ..self };
        match end {
            ReadEnd::Complete | ReadEnd::TimedOut => next,
            // After a command that disconnects the device on purpose, a broken
            // pipe is the expected sign of success: the read counts as an
            // ordinary one and the remaining lines are still written.
            ReadEnd::BrokenPipe(m) => if self.disruptive {
                next
            } else {
                ExchangeView { failure: Some(SerialError::BrokenPipeError(m)), stopped: true, ..next }
            },
            ReadEnd::Failed(m) => ExchangeView {
                failure: Some(SerialError::ReadError(m)),
                stopped: true,
                ..next
            },
        }
    }

    /// The result of a finished exchange.
    pub open spec fn outcome(self) -> Result<Seq<char>, SerialError> {
        match self.failure {
            Some(e) => Err(e),
            None => Ok(trimmed(self.buffer)),
        }
    }
}

/// A running exchange.
pub struct Exchange {
    lines: Vec<String>,
    disruptive: bool,
    sent: usize,
    buffer: String,
    failure: Option<SerialError>,
    stopped: bool,
}

impl View for Exchange {
    type V = ExchangeView;

    closed spec fn view(&self) -> ExchangeView {
        ExchangeView {
            lines: self.lines@.map_values(|l: String| l@),
            disruptive: self.disruptive,
            sent: self.sent as nat,
            buffer: self.buffer@,
            failure: self.failure,
            stopped: self.stopped,
        }
    }
}

impl Exchange {
    pub closed spec fn wf(&self) -> bool {
        self@.inv()
    }

    /// Starts an exchange for `command`.
    pub fn new(command: &Command) -> (r: Exchange)
        ensures
            r.wf(),
            r@ == ExchangeView::start(*command),
    {
        let lines = command.format();
        let r = Exchange {
            lines,
            disruptive: command.is_disruptive(),
            sent: 0,
            buffer: String::new(),
            failure: None,
            stopped: false,
        };
        assert(r@.lines =~= command.spec_lines());
        r
    }

    pub fn is_finished(&self) -> (r: bool)
        requires
            self.wf(),
        ensures
            r == self@.finished(),
    {
        self.stopped || self.sent >= self.lines.len()
    }

    /// The next frame to write, or `None` once the exchange is finished.
    pub fn next_frame(&self) -> (r: Option<String>)
        requires
            self.wf(),
        ensures
            self@.finished() ==> r is None,
            !self@.finished() ==> r is Some && r->0@ == framed(self@.sent, self@.lines[self@.sent as int]),
    {
        if self.is_finished() {
            None
        } else {
            Some(frame_line(self.sent as u8, self.lines[self.sent].as_str()))
        }
    }

    /// Records what the read after the last written frame gave back.
    pub fn on_read(&mut self, received: String, end: ReadEnd)
        requires
            old(self).wf(),
            !old(self)@.finished(),
        ensures
            final(self).wf(),
            final(self)@ == old(self)@.after_read(received@, end),
    {
        self.sent = self.sent + 1;
        self.buffer = received;
        match end {
            ReadEnd::Complete => {},
            ReadEnd::TimedOut => {},
            ReadEnd::BrokenPipe(m) => {
                if !self.disruptive {
                    self.failure = Some(SerialError::BrokenPipeError(m));
                    self.stopped = true;
                }
            },
            ReadEnd::Failed(m) => {
                self.failure = Some(SerialError::ReadError(m));
                self.stopped = true;
            },
        }
    }

    /// The trimmed response, or the error that ended the exchange.
    pub fn finish(&self) -> (r: Result<String, SerialError>)
        requires
            self.wf(),
            self@.finished(),
        ensures
            match r {
                Ok(s) => self@.outcome() == Ok::<Seq<char>, SerialError>(s@),
                Err(e) => self@.outcome() == Err::<Seq<char>, SerialError>(e),
            },
    {
        match &self.failure {
            Some(e) => Err(e.duplicate()),
            None => {
                let t = trim_response(self.buffer.as_str());
                assert(self@.outcome() == Ok::<Seq<char>, SerialError>(trimmed(self.buffer@)));
                Ok(t)
            },
        }
    }
}

/// Runs the exchange over the outcomes of successive reads, one per written
/// line, until it is finished or the reads run out.
pub open spec fn run(state: ExchangeView, reads: Seq<(Seq<char>, ReadEnd)>) -> ExchangeView
    decreases reads.len(),
{
    if reads.len() == 0 || state.finished() {
        state
    } else {
        run(state.after_read(reads[0].0, reads[0].1), reads.drop_first())
    }
}

/// A read that ended without a fatal error, or with a broken pipe.
pub open spec fn survivable(end: ReadEnd) -> bool {
    end is Complete || end is TimedOut || end is BrokenPipe
}

/// On the last line of a control command, a broken pipe finishes the
/// exchange: with success and the trimmed text read for a restart,
/// bootloader entry or factory reset, and with a broken-pipe failure carrying
/// the read's message for every other control.
pub proof fn lemma_broken_pipe_on_last_line(
    args: ControlArgs,
    state: ExchangeView,
    received: Seq<char>,
    message: String,
)
    requires
        state.lines == Command::Control(args).spec_lines(),
        state.disruptive == ExchangeView::start(Command::Control(args)).disruptive,
        state.inv(),
        !state.finished(),
        state.sent + 1 == state.lines.len(),
    ensures
        state.after_read(received, ReadEnd::BrokenPipe(message)).finished(),
        args.spec_is_disruptive() ==> state.after_read(received, ReadEnd::BrokenPipe(message)).outcome()
            == Ok::<Seq<char>, SerialError>(trimmed(received)),
        !args.spec_is_disruptive() ==> state.after_read(received, ReadEnd::BrokenPipe(message)).outcome()
            == Err::<Seq<char>, SerialError>(SerialError::BrokenPipeError(message)),
{
}

/// A whole control exchange in which some read breaks the pipe and every
/// other read ends normally or times out: for a restart, bootloader entry or
/// factory reset, both lines are written and the exchange succeeds with the
/// trimmed text of the last read (empty when nothing was read); for every
/// other control it fails with the first broken pipe's message.
pub proof fn lemma_broken_pipe_on_control(
    args: ControlArgs,
    first: Seq<char>,
    first_end: ReadEnd,
    second: Seq<char>,
    second_end: ReadEnd,
)
    requires
        survivable(first_end),
        survivable(second_end),
        first_end is BrokenPipe || second_end is BrokenPipe,
    ensures
        ({
            let done = run(
                ExchangeView::start(Command::Control(args)),
                seq![(first, first_end), (second, second_end)],
            );
            &&& done.finished()
            &&& args.spec_is_disruptive() ==> done.sent == 2
                && done.outcome() == Ok::<Seq<char>, SerialError>(trimmed(second))
            &&& !args.spec_is_disruptive() ==> done.outcome() == Err::<Seq<char>, SerialError>(
                SerialError::BrokenPipeError(
                    if first_end is BrokenPipe {
                        first_end->BrokenPipe_0
                    } else {
                        second_end->BrokenPipe_0
                    },
                ),
            )
        }),
{
    let reads = seq![(first, first_end), (second, second_end)];
    let s0 = ExchangeView::start(Command::Control(args));
    let s1 = s0.after_read(first, first_end);
    let s2 = s1.after_read(second, second_end);
    assert(s0.lines.len() == 2);
    assert(reads.drop_first() =~= seq![(second, second_end)]);
    assert(reads.drop_first().drop_first() =~= Seq::<(Seq<char>, ReadEnd)>::empty());
    if s1.finished() {
        assert(run(s0, reads) == s1);
    } else {
        assert(run(s1, reads.drop_first()) == run(s2, reads.drop_first().drop_first()));
        assert(run(s0, reads) == s2);
    }
}

/// A decoded response. Check and bank-settings replies carry their JSON
/// text, which the caller turns into values.
#[derive(Debug, PartialEq, Eq)]
pub enum Response {
    Check(String),
    Control(Result<(), String>),
    GlobalSettings(String),
    BankSettings(String),
    DataTransmit(String),
    Reset(String),
}

/// A control reply is a success exactly when its trimmed text is `ok`;
/// otherwise it is a failure that carries that text.
pub open spec fn spec_control_result(text: Seq<char>) -> Result<(), Seq<char>> {
    if text == "ok"@ {
        Ok(())
    } else {
        Err(text)
    }
}

/// Decodes the reply to a control command.
pub fn decode_control(text: &str) -> (r: Result<(), String>)
    ensures
        match r {
            Ok(()) => spec_control_result(text@) == Ok::<(), Seq<char>>(()),
            Err(s) => spec_control_result(text@) == Err::<(), Seq<char>>(s@),
        },
{
    proof {
        reveal_strlit("ok");
    }
    if text.unicode_len() == 2 && text.get_char(0) == 'o' && text.get_char(1) == 'k' {
        assert(text@ =~= "ok"@);
        Ok(())
    } else {
        Err(String::from_str(text))
    }
}

/// Decodes the trimmed reply `text` to `command`.
pub fn decode_response(command: &Command, text: String) -> (r: Response)
    ensures
        match *command {
            Command::Check => r == Response::Check(text),
            Command::Control(_) => match r {
                Response::Control(Ok(())) => spec_control_result(text@) == Ok::<(), Seq<char>>(()),
                Response::Control(Err(s)) => spec_control_result(text@) == Err::<(), Seq<char>>(s@),
                _ => false,
            },
            Command::DataRequest(DataRequestArgs::GlobalSettings) => r == Response::GlobalSettings(text),
            Command::DataRequest(DataRequestArgs::BankSettings(_)) => r == Response::BankSettings(text),
            Command::DataTransmitRequest(_) => r == Response::DataTransmit(text),
            Command::Reset => r == Response::Reset(text),
        },
{
    match command {
        Command::Check => Response::Check(text),
        Command::Control(_) => Response::Control(decode_control(text.as_str())),
        Command::DataRequest(DataRequestArgs::GlobalSettings) => Response::GlobalSettings(text),
        Command::DataRequest(DataRequestArgs::BankSettings(_)) => Response::BankSettings(text),
        Command::DataTransmitRequest(_) => Response::DataTransmit(text),
        Command::Reset => Response::Reset(text),
    }
}

} // verus!

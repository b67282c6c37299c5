//! Running one command on a remote session: what is done on the command
//! channel, where the command's output goes, and what the run amounts to
//! once the exit status is known.

use vstd::prelude::*;
use vstd::utf8::{decode_utf8, valid_utf8};
use crate::error::{DeployError, DeployErrorView};
use crate::text::{trim, trimmed};

verus! {

/// Where the output of a remote command goes.
#[derive(Clone, Copy, Debug, PartialEq, Eq, Structural)]
pub enum OutputMode {
    /// Collected in memory and returned, not shown.
    Capture,
    /// Shown as it arrives, not collected.
    Passthrough,
    /// Shown as it arrives and collected as well.
    Dual,
}

impl OutputMode {
    /// Whether output is collected in memory.
    pub open spec fn captures(self) -> bool {
        self != OutputMode::Passthrough
    }

    /// Whether output is copied to the live stream.
    pub open spec fn echoes(self) -> bool {
        self != OutputMode::Capture
    }

    /// Tells whether output is collected in memory.
    #[verifier::when_used_as_spec(captures)]
    pub fn is_capturing(self) -> (b: bool)
        ensures
            b == self.captures(),
    {
        match self {
            OutputMode::Passthrough => false,
            _ => true,
        }
    }

    /// Tells whether output is copied to the live stream.
    #[verifier::when_used_as_spec(echoes)]
    pub fn is_echoing(self) -> (b: bool)
        ensures
            b == self.echoes(),
    {
        match self {
            OutputMode::Capture => false,
            _ => true,
        }
    }
}

/// One operation on the command channel of a session.
#[derive(Clone, Copy, Debug, PartialEq, Eq, Structural)]
pub enum ChannelOp {
    /// Open a fresh command channel.
    Open,
    /// Merge the peer's error stream into its output stream.
    MergeStreams,
    /// Start the command.
    Exec,
    /// Write the whole input to the channel.
    WriteInput,
    /// Signal the end of input.
    SendEof,
    /// Read the merged stream to its end, handing each chunk to the collector.
    Drain,
    /// Wait until the peer has closed the channel.
    WaitClose,
    /// Close the channel.
    Close,
    /// Read the exit status of the command.
    ReadExitStatus,
}

/// The channel operations of one command run, in order. Input is written
/// only when there is some; the end of input is signalled in either case.
pub open spec fn channel_ops(has_input: bool) -> Seq<ChannelOp> {
    let start = seq![ChannelOp::Open, ChannelOp::MergeStreams, ChannelOp::Exec];
    let input = if has_input {
        seq![ChannelOp::WriteInput]
    } else {
        Seq::empty()
    };
    let rest = seq![
        ChannelOp::SendEof,
        ChannelOp::Drain,
        ChannelOp::WaitClose,
        ChannelOp::Close,
        ChannelOp::ReadExitStatus,
    ];
    start + input + rest
}

/// Lists the channel operations for running one command with the given input.
pub fn channel_plan(stdin: &[u8]) -> (plan: Vec<ChannelOp>)
    ensures
        plan@ == channel_ops(stdin@.len() > 0),
{
    let mut plan: Vec<ChannelOp> = Vec::new();
    plan.push(ChannelOp::Open);
    plan.push(ChannelOp::MergeStreams);
    plan.push(ChannelOp::Exec);
    if stdin.len() > 0 {
        plan.push(ChannelOp::WriteInput);
    }
    plan.push(ChannelOp::SendEof);
    plan.push(ChannelOp::Drain);
    plan.push(ChannelOp::WaitClose);
    plan.push(ChannelOp::Close);
    plan.push(ChannelOp::ReadExitStatus);
    assert(plan@ =~= channel_ops(stdin@.len() > 0));
    plan
}

/// What a successful remote command amounts to.
#[derive(Clone, Debug, PartialEq, Eq)]
pub struct CommandResult {
    pub exit_status: i32,
    pub captured_output: String,
}

/// The mathematical value of a `CommandResult`.
pub struct CommandResultView {
    pub exit_status: int,
    pub captured_output: Seq<char>,
}

impl View for CommandResult {
    type V = CommandResultView;

    open spec fn view(&self) -> CommandResultView {
        CommandResultView {
            exit_status: self.exit_status as int,
            captured_output: self.captured_output@,
        }
    }
}

/// The text that a mode collects from the bytes of the merged stream.
pub open spec fn collected_text(mode: OutputMode, stream: Seq<u8>) -> Seq<char> {
    if mode.captures() {
        decode_utf8(stream)
    } else {
        Seq::empty()
    }
}

/// What a run amounts to, given the command, the mode, the exit status and
/// the bytes of the merged stream:
/// - collected output that is not UTF-8 is a transport failure;
/// - otherwise a non-zero status is a failure that carries the command, the
///   status and, if output was collected, the output as it came;
/// - otherwise the run succeeded, with the collected output trimmed.
pub open spec fn run_outcome(
    mode: OutputMode,
    command: Seq<char>,
    status: int,
    stream: Seq<u8>,
) -> Result<CommandResultView, DeployErrorView> {
    if mode.captures() && !valid_utf8(stream) {
        Err(DeployErrorView::Transport { message: "stream did not contain valid UTF-8"@ })
    } else if status != 0 {
        Err(
            DeployErrorView::RemoteExec {
                command,
                status,
                output: if mode.captures() {
                    Some(decode_utf8(stream))
                } else {
                    None
                },
            },
        )
    } else {
        Ok(
            CommandResultView {
                exit_status: 0,
                captured_output: trimmed(collected_text(mode, stream)),
            },
        )
    }
}

/// The view of a run's outcome.
pub open spec fn outcome_view(outcome: Result<CommandResult, DeployError>) -> Result<
    CommandResultView,
    DeployErrorView,
> {
    match outcome {
        Ok(r) => Ok(r@),
        Err(e) => Err(e@),
    }
}

/// Calls `String::from_utf8`: the bytes become a text exactly when they are
/// valid UTF-8, and the text then holds the characters they encode.
#[verifier::external_body]
fn text_from_utf8(bytes: Vec<u8>) -> (text: Option<String>)
    ensures
        text is Some <==> valid_utf8(bytes@),
        text is Some ==> text->0@ == decode_utf8(bytes@),
{
    String::from_utf8(bytes).ok()
}

/// Settles what a finished run amounts to. `captured` holds the bytes that
/// were collected from the merged stream; it is ignored unless the mode
/// collects output.
pub fn conclude(mode: OutputMode, command: &str, status: i32, captured: Vec<u8>) -> (outcome:
    Result<CommandResult, DeployError>)
    ensures
        outcome_view(outcome) == run_outcome(mode, command@, status as int, captured@),
{
    let output: Option<String> = if mode.is_capturing() {
        match text_from_utf8(captured) {
            Some(text) => Some(text),
            None => {
                return Err(
                    DeployError::Transport {
                        message: "stream did not contain valid UTF-8".to_owned(),
                    },
                );
            },
        }
    } else {
        None
    };
    if status != 0 {
        return Err(DeployError::RemoteExec { command: command.to_owned(), status, output });
    }
    let captured_output = match output {
        Some(text) => trim(text.as_str()),
        None => {
            let empty = String::new();
            assert(trimmed(Seq::<char>::empty()) =~= Seq::<char>::empty());
            empty
        },
    };
    Ok(CommandResult { exit_status: 0, captured_output })
}

/// The part of a received stream that a mode releases to the live stream.
pub open spec fn live_part(mode: OutputMode, stream: Seq<u8>) -> Seq<u8> {
    if mode.echoes() {
        stream
    } else {
        Seq::empty()
    }
}

/// The part of a received stream that a mode collects in memory.
pub open spec fn captured_part(mode: OutputMode, stream: Seq<u8>) -> Seq<u8> {
    if mode.captures() {
        stream
    } else {
        Seq::empty()
    }
}

/// In `Dual` mode, whatever the stream, the live stream and the buffer get
/// the same bytes, and so equally many; and the output that a successful run
/// returns is the text of the live stream, trimmed.
pub proof fn law_dual_sinks_agree(stream: Seq<u8>, command: Seq<char>)
    ensures
        live_part(OutputMode::Dual, stream) == captured_part(OutputMode::Dual, stream),
        live_part(OutputMode::Dual, stream).len() == captured_part(OutputMode::Dual, stream).len(),
        live_part(OutputMode::Dual, stream).len() == stream.len(),
        valid_utf8(stream) ==> run_outcome(
            OutputMode::Dual,
            command,
            0,
            captured_part(OutputMode::Dual, stream),
        ) == Ok::<CommandResultView, DeployErrorView>(
            CommandResultView {
                exit_status: 0,
                captured_output: trimmed(decode_utf8(live_part(OutputMode::Dual, stream))),
            },
        ),
{
}

/// Receives the merged output stream of one command, chunk by chunk, and
/// keeps what the mode asks to be collected. It also keeps account of every
/// byte it released to the live stream.
pub struct OutputCollector {
    mode: OutputMode,
    buffer: Vec<u8>,
    seen: Ghost<Seq<u8>>,
}

impl OutputCollector {
    #[verifier::type_invariant]
    spec fn buffer_follows_stream(&self) -> bool {
        self.buffer@ == captured_part(self.mode, self.seen@)
    }

    /// The mode the collector was made for.
    pub closed spec fn mode(&self) -> OutputMode {
        self.mode
    }

    /// Every byte received so far, in order.
    pub closed spec fn received(&self) -> Seq<u8> {
        self.seen@
    }

    /// The bytes released to the live stream so far.
    pub open spec fn live(&self) -> Seq<u8> {
        live_part(self.mode(), self.received())
    }

    /// The bytes collected in memory so far.
    pub closed spec fn captured(&self) -> Seq<u8> {
        self.buffer@
    }

    /// Makes a collector that has received nothing yet.
    pub fn new(mode: OutputMode) -> (collector: OutputCollector)
        ensures
            collector.mode() == mode,
            collector.received() == Seq::<u8>::empty(),
            collector.captured() == Seq::<u8>::empty(),
    {
        OutputCollector { mode, buffer: Vec::new(), seen: Ghost(Seq::empty()) }
    }

    /// Takes in the next chunk of the stream and returns the collector that
    /// has received it. The flag tells whether the caller is to write the
    /// whole chunk to the live stream; that is so exactly when the mode shows
    /// output. The chunk is added to the buffer exactly when the mode
    /// collects output.
    pub fn accept(self, chunk: &[u8]) -> (next: (OutputCollector, bool))
        ensures
            next.0.mode() == self.mode(),
            next.0.received() == self.received() + chunk@,
            next.1 == self.mode().echoes(),
            self.captured() == captured_part(self.mode(), self.received()),
            next.0.captured() == captured_part(next.0.mode(), next.0.received()),
    {
        proof {
            use_type_invariant(&self);
        }
        let OutputCollector { mode, buffer, seen } = self;
        let mut buffer = buffer;
        assert(buffer@ == captured_part(mode, seen@));
        let echo = mode.is_echoing();
        if mode.is_capturing() {
            buffer.extend_from_slice(chunk);
        }
        assert(buffer@ =~= captured_part(mode, seen@ + chunk@));
        (OutputCollector { mode, buffer, seen: Ghost(seen@ + chunk@) }, echo)
    }

    /// The number of bytes collected in memory so far. In `Dual` mode this is
    /// also the number of bytes released to the live stream.
    pub fn captured_len(&self) -> (n: usize)
        ensures
            n == self.captured().len(),
            self.captured() == captured_part(self.mode(), self.received()),
            self.mode() == OutputMode::Dual ==> n == self.live().len(),
    {
        proof {
            use_type_invariant(self);
        }
        self.buffer.len()
    }

    /// Ends the collection once the exit status is known and settles what the
    /// run amounts to.
    pub fn finish(self, command: &str, status: i32) -> (outcome: Result<CommandResult, DeployError>)
        ensures
            self.captured() == captured_part(self.mode(), self.received()),
            outcome_view(outcome) == run_outcome(
                self.mode(),
                command@,
                status as int,
                self.captured(),
            ),
    {
        proof {
            use_type_invariant(&self);
        }
        conclude(self.mode, command, status, self.buffer)
    }
}

} // verus!

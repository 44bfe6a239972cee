//! The response processor: a state machine that drives a command sequence
//! against the helper, one wire line out per command and one reply (or, for
//! the PIN request, a marker, a data line and a closing reply) back in.
//!
//! The machine is specified once, by [`run_machine`], and comes in two
//! executable forms that share it: the event-driven [`Engine`], which an
//! outer loop feeds with the lines it reads, and [`process_commands`], which
//! runs the engine to completion against an in-memory reply script.

use vstd::prelude::*;
use vstd::pervasive::unreached;
use vstd::string::StrSliceExecFns;
use vstd::string::StringExecFns;

use crate::assuan::{encode_command, is_terminal, sec_new, sec_str_chars, spec_encode,
    AssuanCommand, AssuanResponse};
use crate::wire::{
    line_is_ok, spec_is_ok_line, spec_read_line, spec_take_two, spec_trim_newl, trim_newl,
    ReplyReader,
};

verus! {

/// The abstract outcome of processing: what [`AssuanResponse`] stands for
/// once the secret wrapper is seen through.
pub enum SpecResponse {
    PIN(Seq<char>),
    OK,
    NOTOK(Seq<char>),
}

/// What an [`AssuanResponse`] value stands for.
pub open spec fn resp_view(r: AssuanResponse) -> SpecResponse {
    match r {
        AssuanResponse::PIN(p) => SpecResponse::PIN(sec_str_chars(p)),
        AssuanResponse::OK => SpecResponse::OK,
        AssuanResponse::NOTOK(t) => SpecResponse::NOTOK(t@),
    }
}

/// The processor's state between two I/O events.
pub enum Phase {
    /// Ready to write the next command (or to finish, if none are left)
    NextCommand,
    /// A command was written; its one-line reply is awaited
    Reply { terminal: bool },
    /// The PIN request was written; the two marker characters are awaited
    PinMarker,
    /// The data marker matched; the secret payload line is awaited
    PinData,
    /// The payload arrived; the closing success reply is awaited
    PostPinOk { pin: String },
    /// The marker did not match; the tail of that error line is awaited
    ErrorTail { prefix: String },
    /// Processing is over
    Finished { resp: AssuanResponse },
}

/// The ghost counterpart of [`Phase`].
pub enum SpecPhase {
    NextCommand,
    Reply { terminal: bool },
    PinMarker,
    PinData,
    PostPinOk { pin: Seq<char> },
    ErrorTail { prefix: Seq<char> },
    Finished { resp: SpecResponse },
}

/// What a [`Phase`] value stands for.
pub open spec fn phase_view(p: Phase) -> SpecPhase {
    match p {
        Phase::NextCommand => SpecPhase::NextCommand,
        Phase::Reply { terminal } => SpecPhase::Reply { terminal },
        Phase::PinMarker => SpecPhase::PinMarker,
        Phase::PinData => SpecPhase::PinData,
        Phase::PostPinOk { pin } => SpecPhase::PostPinOk { pin: pin@ },
        Phase::ErrorTail { prefix } => SpecPhase::ErrorTail { prefix: prefix@ },
        Phase::Finished { resp } => SpecPhase::Finished { resp: resp_view(resp) },
    }
}

/// The phase entered right after writing `c`.
pub open spec fn write_step(c: AssuanCommand) -> SpecPhase {
    if c is GetPin {
        SpecPhase::PinMarker
    } else {
        SpecPhase::Reply { terminal: c is Confirm || c is ShowMessage }
    }
}

/// The phase entered when a line-expecting phase receives the line `l`.
pub open spec fn line_step(p: SpecPhase, l: Seq<char>) -> SpecPhase {
    match p {
        SpecPhase::Reply { terminal } => if spec_is_ok_line(l) {
            if terminal {
                SpecPhase::Finished { resp: SpecResponse::OK }
            } else {
                SpecPhase::NextCommand
            }
        } else {
            SpecPhase::Finished { resp: SpecResponse::NOTOK(spec_trim_newl(l)) }
        },
        SpecPhase::PinData => SpecPhase::PostPinOk { pin: spec_trim_newl(l) },
        SpecPhase::PostPinOk { pin } => if spec_is_ok_line(l) {
            SpecPhase::Finished { resp: SpecResponse::PIN(pin) }
        } else {
            SpecPhase::Finished { resp: SpecResponse::NOTOK(spec_trim_newl(l)) }
        },
        SpecPhase::ErrorTail { prefix } => SpecPhase::Finished {
            resp: SpecResponse::NOTOK(spec_trim_newl(prefix + l)),
        },
        _ => p,
    }
}

/// The phase entered when the marker phase receives the characters `t`.
pub open spec fn marker_step(t: Seq<char>) -> SpecPhase {
    if t == seq!['D', ' '] {
        SpecPhase::PinData
    } else {
        SpecPhase::ErrorTail { prefix: t }
    }
}

/// Whether a phase is waiting for one whole reply line.
pub open spec fn expects_line(p: SpecPhase) -> bool {
    match p {
        SpecPhase::Reply { .. } => true,
        SpecPhase::PinData => true,
        SpecPhase::PostPinOk { .. } => true,
        SpecPhase::ErrorTail { .. } => true,
        _ => false,
    }
}

/// A measure that shrinks along every transition that keeps the command
/// index unchanged.
pub open spec fn phase_rank(p: SpecPhase) -> int {
    match p {
        SpecPhase::Finished { .. } => 0,
        SpecPhase::NextCommand => 1,
        SpecPhase::Reply { .. } => 2,
        SpecPhase::PostPinOk { .. } => 2,
        SpecPhase::ErrorTail { .. } => 2,
        SpecPhase::PinData => 3,
        SpecPhase::PinMarker => 4,
    }
}

/// Run the machine to completion from one configuration against the reply
/// script `input`.  Yields the characters written from here on, the final
/// response, and the part of `input` that is never read.
pub open spec fn run_machine(
    cmds: Seq<AssuanCommand>,
    idx: int,
    phase: SpecPhase,
    input: Seq<char>,
) -> (Seq<char>, SpecResponse, Seq<char>)
    decreases cmds.len() - idx, phase_rank(phase),
        when 0 <= idx <= cmds.len()
{
    match phase {
        SpecPhase::NextCommand => {
            if idx == cmds.len() {
                (Seq::empty(), SpecResponse::OK, input)
            } else {
                let c = cmds[idx];
                let sub = run_machine(cmds, idx + 1, write_step(c), input);
                (spec_encode(c) + sub.0, sub.1, sub.2)
            }
        },
        SpecPhase::PinMarker => {
            let t = spec_take_two(input).0;
            let rest = spec_take_two(input).1;
            run_machine(cmds, idx, marker_step(t), rest)
        },
        SpecPhase::Finished { resp } => (Seq::empty(), resp, input),
        _ => {
            let l = spec_read_line(input).0;
            let rest = spec_read_line(input).1;
            run_machine(cmds, idx, line_step(phase, l), rest)
        },
    }
}

/// Process a whole command sequence against the reply script `replies`,
/// starting from the initial state.
pub open spec fn spec_process(cmds: Seq<AssuanCommand>, replies: Seq<char>) -> (
    Seq<char>,
    SpecResponse,
    Seq<char>,
) {
    run_machine(cmds, 0, SpecPhase::NextCommand, replies)
}

/// Configurations from which the machine can never produce a PIN response.
pub open spec fn pinless_phase(phase: SpecPhase) -> bool {
    match phase {
        SpecPhase::NextCommand => true,
        SpecPhase::Reply { .. } => true,
        SpecPhase::ErrorTail { .. } => true,
        SpecPhase::Finished { resp } => !(resp is PIN),
        _ => false,
    }
}

/// A command sequence without a PIN request never yields a PIN response.
pub proof fn lemma_no_getpin_not_pin(
    cmds: Seq<AssuanCommand>,
    idx: int,
    phase: SpecPhase,
    input: Seq<char>,
)
    requires
        0 <= idx <= cmds.len(),
        forall|j: int| idx <= j < cmds.len() ==> !(cmds[j] is GetPin),
        pinless_phase(phase),
    ensures
        !(run_machine(cmds, idx, phase, input).1 is PIN),
    decreases cmds.len() - idx, phase_rank(phase),
{
    match phase {
        SpecPhase::NextCommand => {
            if idx < cmds.len() {
                lemma_no_getpin_not_pin(cmds, idx + 1, write_step(cmds[idx]), input);
            }
        },
        SpecPhase::Reply { .. } => {
            let l = spec_read_line(input).0;
            let rest = spec_read_line(input).1;
            lemma_no_getpin_not_pin(cmds, idx, line_step(phase, l), rest);
        },
        SpecPhase::ErrorTail { .. } => {
            let l = spec_read_line(input).0;
            let rest = spec_read_line(input).1;
            lemma_no_getpin_not_pin(cmds, idx, line_step(phase, l), rest);
        },
        _ => {},
    }
}

/// Configurations of a sequence that still ends in a pending PIN request,
/// from which the machine can never answer with the plain success response.
pub open spec fn pin_flow_phase(cmds: Seq<AssuanCommand>, idx: int, phase: SpecPhase) -> bool {
    match phase {
        SpecPhase::NextCommand => idx < cmds.len(),
        SpecPhase::Reply { terminal } => !terminal && idx < cmds.len(),
        SpecPhase::PinMarker => true,
        SpecPhase::PinData => true,
        SpecPhase::PostPinOk { .. } => true,
        SpecPhase::ErrorTail { .. } => true,
        SpecPhase::Finished { resp } => !(resp is OK),
    }
}

/// A command sequence whose last command is the PIN request, with no other
/// terminal command before it, never yields the plain success response: it
/// ends either with a PIN or with the helper's diagnostic.
pub proof fn lemma_getpin_last_not_ok(
    cmds: Seq<AssuanCommand>,
    idx: int,
    phase: SpecPhase,
    input: Seq<char>,
)
    requires
        0 <= idx <= cmds.len(),
        cmds.len() > 0,
        cmds.last() is GetPin,
        forall|j: int| idx <= j < cmds.len() - 1 ==> !is_terminal(cmds[j]),
        pin_flow_phase(cmds, idx, phase),
    ensures
        !(run_machine(cmds, idx, phase, input).1 is OK),
    decreases cmds.len() - idx, phase_rank(phase),
{
    match phase {
        SpecPhase::NextCommand => {
            lemma_getpin_last_not_ok(cmds, idx + 1, write_step(cmds[idx]), input);
        },
        SpecPhase::Reply { .. } => {
            let l = spec_read_line(input).0;
            let rest = spec_read_line(input).1;
            lemma_getpin_last_not_ok(cmds, idx, line_step(phase, l), rest);
        },
        SpecPhase::PinMarker => {
            let t = spec_take_two(input).0;
            let rest = spec_take_two(input).1;
            lemma_getpin_last_not_ok(cmds, idx, marker_step(t), rest);
        },
        SpecPhase::PinData => {
            let l = spec_read_line(input).0;
            let rest = spec_read_line(input).1;
            lemma_getpin_last_not_ok(cmds, idx, line_step(phase, l), rest);
        },
        SpecPhase::PostPinOk { .. } => {
            let l = spec_read_line(input).0;
            let rest = spec_read_line(input).1;
            lemma_getpin_last_not_ok(cmds, idx, line_step(phase, l), rest);
        },
        SpecPhase::ErrorTail { .. } => {
            let l = spec_read_line(input).0;
            let rest = spec_read_line(input).1;
            lemma_getpin_last_not_ok(cmds, idx, line_step(phase, l), rest);
        },
        SpecPhase::Finished { .. } => {},
    }
}

/// The codec and the processor are pure: a command value alone determines
/// its encoded line, and a command sequence together with its reply script
/// alone determines everything the processor writes and returns, so
/// repeating either gives the same outcome.
pub proof fn lemma_processing_deterministic(
    c1: AssuanCommand,
    c2: AssuanCommand,
    cmds1: Seq<AssuanCommand>,
    cmds2: Seq<AssuanCommand>,
    replies1: Seq<char>,
    replies2: Seq<char>,
)
    requires
        c1 == c2,
        cmds1 == cmds2,
        replies1 == replies2,
    ensures
        spec_encode(c1) == spec_encode(c2),
        spec_process(cmds1, replies1) == spec_process(cmds2, replies2),
{
}

/// What an outer loop must do next to keep the machine going.
pub enum Action {
    /// Write this line to the helper
    Write(String),
    /// Read one reply line and hand it to [`Engine::supply_line`]
    ReadLine,
    /// Read two characters and hand them to [`Engine::supply_two`]
    ReadTwo,
    /// Processing is over; take the response with [`Engine::finish`]
    Finished,
}

/// Whether `t` is the data-line marker `"D "`.
fn is_data_marker(t: &String) -> (r: bool)
    ensures
        r == (t@ == seq!['D', ' ']),
{
    let n = t.as_str().unicode_len();
    if n == 2 {
        let r = t.as_str().get_char(0) == 'D' && t.as_str().get_char(1) == ' ';
        proof {
            if r {
                assert(t@ =~= seq!['D', ' ']);
            }
        }
        r
    } else {
        false
    }
}

/// The event-driven form of the processor.  An outer loop asks for the
/// [`next_action`](Engine::next_action), performs the write or read it
/// names, and hands read results back in; the engine itself never touches a
/// stream.
pub struct Engine<'a> {
    pub cmds: &'a Vec<AssuanCommand>,
    pub idx: usize,
    pub phase: Phase,
}

impl<'a> Engine<'a> {
    /// The command index has not run past the end of the sequence.
    pub open spec fn wf(&self) -> bool {
        self.idx <= self.cmds@.len()
    }

    /// The machine's outcome from the engine's current configuration.
    pub open spec fn outcome(&self, input: Seq<char>) -> (Seq<char>, SpecResponse, Seq<char>) {
        run_machine(self.cmds@, self.idx as int, phase_view(self.phase), input)
    }

    /// An engine at the initial state, before any command is written.
    pub fn new(cmds: &'a Vec<AssuanCommand>) -> (e: Engine<'a>)
        ensures
            e.cmds == cmds,
            e.idx == 0,
            e.phase is NextCommand,
            e.wf(),
    {
        Engine { cmds, idx: 0, phase: Phase::NextCommand }
    }

    /// What to do next.  Asking steps the machine past the write itself:
    /// when the answer is `Write`, the engine is already waiting for that
    /// command's reply.
    pub fn next_action(&mut self) -> (a: Action)
        requires
            old(self).wf(),
        ensures
            final(self).wf(),
            final(self).cmds == old(self).cmds,
            (match old(self).phase {
                Phase::NextCommand => {
                    if old(self).idx == old(self).cmds@.len() {
                        &&& a is Finished
                        &&& final(self).idx == old(self).idx
                        &&& phase_view(final(self).phase) == (SpecPhase::Finished {
                            resp: SpecResponse::OK,
                        })
                    } else {
                        &&& a matches Action::Write(w) && w@ == spec_encode(
                            old(self).cmds@[old(self).idx as int],
                        )
                        &&& final(self).idx == old(self).idx + 1
                        &&& phase_view(final(self).phase) == write_step(
                            old(self).cmds@[old(self).idx as int],
                        )
                    }
                },
                Phase::PinMarker => a is ReadTwo && *final(self) == *old(self),
                Phase::Finished { .. } => a is Finished && *final(self) == *old(self),
                _ => a is ReadLine && *final(self) == *old(self),
            }),
    {
        match &self.phase {
            Phase::NextCommand => {
                if self.idx == self.cmds.len() {
                    self.phase = Phase::Finished { resp: AssuanResponse::OK };
                    Action::Finished
                } else {
                    let c = &self.cmds[self.idx];
                    let w = encode_command(c);
                    let next = match c {
                        AssuanCommand::GetPin => Phase::PinMarker,
                        AssuanCommand::Confirm => Phase::Reply { terminal: true },
                        AssuanCommand::ShowMessage => Phase::Reply { terminal: true },
                        _ => Phase::Reply { terminal: false },
                    };
                    self.phase = next;
                    self.idx = self.idx + 1;
                    Action::Write(w)
                }
            },
            Phase::PinMarker => Action::ReadTwo,
            Phase::Finished { .. } => Action::Finished,
            _ => Action::ReadLine,
        }
    }

    /// Hand the engine the reply line it asked for.
    pub fn supply_line(&mut self, l: String)
        requires
            old(self).wf(),
            expects_line(phase_view(old(self).phase)),
        ensures
            final(self).wf(),
            final(self).cmds == old(self).cmds,
            final(self).idx == old(self).idx,
            phase_view(final(self).phase) == line_step(phase_view(old(self).phase), l@),
    {
        match &self.phase {
            Phase::Reply { terminal } => {
                let term = *terminal;
                if line_is_ok(&l) {
                    if term {
                        self.phase = Phase::Finished { resp: AssuanResponse::OK };
                    } else {
                        self.phase = Phase::NextCommand;
                    }
                } else {
                    self.phase = Phase::Finished { resp: AssuanResponse::NOTOK(trim_newl(l)) };
                }
            },
            Phase::PinData => {
                self.phase = Phase::PostPinOk { pin: trim_newl(l) };
            },
            Phase::PostPinOk { pin } => {
                if line_is_ok(&l) {
                    let secret = sec_new(pin.clone());
                    self.phase = Phase::Finished { resp: AssuanResponse::PIN(secret) };
                } else {
                    self.phase = Phase::Finished { resp: AssuanResponse::NOTOK(trim_newl(l)) };
                }
            },
            Phase::ErrorTail { prefix } => {
                let full = prefix.clone().concat(l.as_str());
                self.phase = Phase::Finished { resp: AssuanResponse::NOTOK(trim_newl(full)) };
            },
            _ => {},
        }
    }

    /// Hand the engine the two marker characters it asked for.
    pub fn supply_two(&mut self, t: String)
        requires
            old(self).wf(),
            old(self).phase is PinMarker,
        ensures
            final(self).wf(),
            final(self).cmds == old(self).cmds,
            final(self).idx == old(self).idx,
            phase_view(final(self).phase) == marker_step(t@),
    {
        if is_data_marker(&t) {
            self.phase = Phase::PinData;
        } else {
            self.phase = Phase::ErrorTail { prefix: t };
        }
    }

    /// Take the response once the machine is finished.
    pub fn finish(self) -> (r: AssuanResponse)
        requires
            self.phase is Finished,
        ensures
            (self.phase matches Phase::Finished { resp } && r == resp),
    {
        match self.phase {
            Phase::Finished { resp } => resp,
            _ => unreached(),
        }
    }
}

/// Drive a whole command sequence against an in-memory reply script,
/// appending every wire line to `writer` and consuming replies from
/// `reader`, until one terminal outcome is reached.
pub fn process_commands(
    cmds: &Vec<AssuanCommand>,
    writer: &mut String,
    reader: &mut ReplyReader,
) -> (resp: AssuanResponse)
    requires
        old(reader).wf(),
    ensures
        final(reader).wf(),
        final(writer)@ == old(writer)@ + spec_process(cmds@, old(reader).remaining()).0,
        resp_view(resp) == spec_process(cmds@, old(reader).remaining()).1,
        final(reader).remaining() == spec_process(cmds@, old(reader).remaining()).2,
{
    let ghost script0 = reader.remaining();
    let ghost w0 = writer@;
    let ghost full = spec_process(cmds@, script0);
    let mut eng = Engine::new(cmds);
    let ghost mut w_done: Seq<char> = Seq::empty();
    proof {
        assert(w0 + w_done =~= w0);
        assert(w_done + eng.outcome(script0).0 =~= full.0);
    }
    loop
        invariant_except_break
            eng.wf(),
            eng.cmds == cmds,
            reader.wf(),
            writer@ == w0 + w_done,
            full == spec_process(cmds@, script0),
            full.0 == w_done + eng.outcome(reader.remaining()).0,
            full.1 == eng.outcome(reader.remaining()).1,
            full.2 == eng.outcome(reader.remaining()).2,
        ensures
            reader.wf(),
            eng.phase is Finished,
            writer@ == w0 + full.0,
            (eng.phase matches Phase::Finished { resp } ==> resp_view(resp) == full.1),
            reader.remaining() == full.2,
        decreases cmds@.len() - eng.idx, phase_rank(phase_view(eng.phase)),
    {
        let ghost pre = eng.outcome(reader.remaining());
        let action = eng.next_action();
        match action {
            Action::Write(w) => {
                writer.append(w.as_str());
                proof {
                    let ghost sub = eng.outcome(reader.remaining());
                    assert(pre.0 == w@ + sub.0);
                    w_done = w_done + w@;
                    assert(full.0 =~= w_done + sub.0);
                    assert(writer@ =~= w0 + w_done);
                }
            },
            Action::ReadLine => {
                let l = reader.read_line();
                eng.supply_line(l);
                proof {
                    assert(eng.outcome(reader.remaining()) == pre);
                }
            },
            Action::ReadTwo => {
                let t = reader.read_two();
                eng.supply_two(t);
                proof {
                    assert(eng.outcome(reader.remaining()) == pre);
                }
            },
            Action::Finished => {
                proof {
                    assert(eng.outcome(reader.remaining()).0 =~= Seq::<char>::empty());
                    assert(w_done + Seq::<char>::empty() =~= w_done);
                    assert(writer@ =~= w0 + full.0);
                }
                break ;
            },
        }
    }
    let resp = eng.finish();
    resp
}

} // verus!

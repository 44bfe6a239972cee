//! Client library for driving a `pinentry`-style interactive prompt helper
//! over the line-oriented Assuan IPC protocol.
//!
//! The protocol engine lives in [`assuan`]: a codec that turns commands into
//! wire lines, and a processor that interprets the helper's replies.

use vstd::prelude::*;
use vstd::string::StringExecFns;

pub mod assuan;
pub mod process;
pub mod wire;

use vstd::pervasive::unreached;

use assuan::{is_terminal, sec_str_chars, AssuanCommand, AssuanResponse, Button};
use process::{
    lemma_getpin_last_not_ok, lemma_no_getpin_not_pin, process_commands, spec_process, SpecPhase,
    SpecResponse,
};
use wire::ReplyReader;

verus! {

#[verifier::external_type_specification]
#[verifier::external_body]
pub struct ExIoError(std::io::Error);

/// Errors that can occur while interacting with the prompt helper.
#[derive(Debug)]
pub enum Error {
    /// I/O error (helper not found, broken pipe, etc.)
    IoError(std::io::Error),
    /// Protocol error (the helper declined or failed a request)
    ProtocolError(String),
}

impl From<std::io::Error> for Error {
    fn from(e: std::io::Error) -> (r: Self) {
        Error::IoError(e)
    }
}

impl vstd::std_specs::convert::FromSpecImpl<std::io::Error> for Error {
    open spec fn obeys_from_spec() -> bool {
        true
    }

    open spec fn from_spec(e: std::io::Error) -> Self {
        Error::IoError(e)
    }
}

/// Create a builder for driving the prompt helper.
pub fn pinentry() -> (b: PinentryBuilder)
    ensures
        is_default_builder(b),
{
    PinentryBuilder::default()
}

/// Builder for one interaction with the prompt helper: the optional
/// configuration directives, and the path of the helper binary for the
/// collaborator that launches it.
pub struct PinentryBuilder {
    pub description: Option<String>,
    pub error_text: Option<String>,
    pub exe: String,
    pub label_cancel: Option<String>,
    pub label_notok: Option<String>,
    pub label_ok: Option<String>,
    pub timeout: Option<u32>,
    pub window_title: Option<String>,
}

/// The builder with nothing configured and the conventional helper name.
pub open spec fn is_default_builder(b: PinentryBuilder) -> bool {
    &&& b.description is None
    &&& b.error_text is None
    &&& b.exe@ == "pinentry"@
    &&& b.label_cancel is None
    &&& b.label_notok is None
    &&& b.label_ok is None
    &&& b.timeout is None
    &&& b.window_title is None
}

/// The configuration directives a builder holds, in the order they are
/// sent: description, error text, the three button labels, timeout, title.
pub open spec fn spec_build_commands(b: PinentryBuilder) -> Seq<AssuanCommand> {
    (match b.description {
        Some(t) => seq![AssuanCommand::SetDescriptiveText(t)],
        None => Seq::empty(),
    }) + (match b.error_text {
        Some(t) => seq![AssuanCommand::SetErrorText(t)],
        None => Seq::empty(),
    }) + (match b.label_cancel {
        Some(t) => seq![AssuanCommand::SetButtonLabel(Button::CANCEL, t)],
        None => Seq::empty(),
    }) + (match b.label_notok {
        Some(t) => seq![AssuanCommand::SetButtonLabel(Button::NOTOK, t)],
        None => Seq::empty(),
    }) + (match b.label_ok {
        Some(t) => seq![AssuanCommand::SetButtonLabel(Button::OK, t)],
        None => Seq::empty(),
    }) + (match b.timeout {
        Some(n) => seq![AssuanCommand::SetTimeout(n)],
        None => Seq::empty(),
    }) + (match b.window_title {
        Some(t) => seq![AssuanCommand::SetWindowTitle(t)],
        None => Seq::empty(),
    })
}

impl PinentryBuilder {
    /// Set the descriptive text of the prompt.
    pub fn description(self, desc: String) -> (r: Self)
        ensures
            r == (PinentryBuilder { description: Some(desc), ..self }),
    {
        PinentryBuilder { description: Some(desc), ..self }
    }

    /// Set the text that gets displayed in case of error.
    pub fn error_text(self, error_text: String) -> (r: Self)
        ensures
            r == (PinentryBuilder { error_text: Some(error_text), ..self }),
    {
        PinentryBuilder { error_text: Some(error_text), ..self }
    }

    /// Override the path of the helper binary (by default the conventional
    /// name, looked up on the search path by the launching collaborator).
    pub fn exe(self, exe: String) -> (r: Self)
        ensures
            r == (PinentryBuilder { exe, ..self }),
    {
        PinentryBuilder { exe, ..self }
    }

    /// Set the label of the 'Cancel' button.
    pub fn label_cancel(self, label: String) -> (r: Self)
        ensures
            r == (PinentryBuilder { label_cancel: Some(label), ..self }),
    {
        PinentryBuilder { label_cancel: Some(label), ..self }
    }

    /// Set the label of the 'Not OK' button.
    pub fn label_notok(self, label: String) -> (r: Self)
        ensures
            r == (PinentryBuilder { label_notok: Some(label), ..self }),
    {
        PinentryBuilder { label_notok: Some(label), ..self }
    }

    /// Set the label of the 'OK' button.
    pub fn label_ok(self, label: String) -> (r: Self)
        ensures
            r == (PinentryBuilder { label_ok: Some(label), ..self }),
    {
        PinentryBuilder { label_ok: Some(label), ..self }
    }

    /// Set the timeout for the prompt (in seconds).
    pub fn timeout(self, secs: u32) -> (r: Self)
        ensures
            r == (PinentryBuilder { timeout: Some(secs), ..self }),
    {
        PinentryBuilder { timeout: Some(secs), ..self }
    }

    /// Set the window title of the prompt.
    pub fn window_title(self, title: String) -> (r: Self)
        ensures
            r == (PinentryBuilder { window_title: Some(title), ..self }),
    {
        PinentryBuilder { window_title: Some(title), ..self }
    }

    /// Turn the configuration into its command sequence, taking the texts
    /// out of the builder.  None of the commands built here is terminal.
    #[verifier::rlimit(50)]
    pub fn build_commands(&mut self) -> (cmds: Vec<AssuanCommand>)
        ensures
            cmds@ == spec_build_commands(*old(self)),
            forall|j: int|
                0 <= j < cmds@.len() ==> !is_terminal(cmds@[j]) && !(cmds@[j] is GetPin),
            final(self).exe == old(self).exe,
            final(self).timeout == old(self).timeout,
    {
        let mut cmds: Vec<AssuanCommand> = Vec::new();
        if let Some(desc) = self.description.take() {
            cmds.push(AssuanCommand::SetDescriptiveText(desc));
        }
        if let Some(text) = self.error_text.take() {
            cmds.push(AssuanCommand::SetErrorText(text));
        }
        if let Some(cancel_label) = self.label_cancel.take() {
            cmds.push(AssuanCommand::SetButtonLabel(Button::CANCEL, cancel_label));
        }
        if let Some(notok_label) = self.label_notok.take() {
            cmds.push(AssuanCommand::SetButtonLabel(Button::NOTOK, notok_label));
        }
        if let Some(ok_label) = self.label_ok.take() {
            cmds.push(AssuanCommand::SetButtonLabel(Button::OK, ok_label));
        }
        if let Some(timeout) = self.timeout {
            cmds.push(AssuanCommand::SetTimeout(timeout));
        }
        if let Some(title) = self.window_title.take() {
            cmds.push(AssuanCommand::SetWindowTitle(title));
        }
        proof {
            assert(cmds@ =~= spec_build_commands(*old(self)));
        }
        cmds
    }

    /// Ask the helper for a yes/no confirmation, against the given streams.
    ///
    /// The text of the question should be set with
    /// [`description`](Self::description).  A declined confirmation is the
    /// answer `false`, not an error; the helper can never answer such a
    /// sequence with a PIN.
    pub fn confirm_yes_no(self, writer: &mut String, reader: &mut ReplyReader) -> (res: Result<
        bool,
        Error,
    >)
        requires
            old(reader).wf(),
        ensures
            final(reader).wf(),
            ({
                let out = spec_process(spec_confirm_commands(self), old(reader).remaining());
                &&& final(writer)@ == old(writer)@ + out.0
                &&& final(reader).remaining() == out.2
                &&& (out.1 is OK ==> res == Ok::<bool, Error>(true))
                &&& (out.1 is NOTOK ==> res == Ok::<bool, Error>(false))
            }),
    {
        let mut b = self;
        let mut cmds = b.build_commands();
        cmds.push(AssuanCommand::Confirm);
        let resp = process_commands(&cmds, writer, reader);
        proof {
            assert(cmds@ =~= spec_confirm_commands(self));
            assert forall|j: int| 0 <= j < cmds@.len() implies !(cmds@[j] is GetPin) by {}
            lemma_no_getpin_not_pin(cmds@, 0, SpecPhase::NextCommand, old(reader).remaining());
        }
        match resp {
            AssuanResponse::OK => Ok(true),
            AssuanResponse::NOTOK(_) => Ok(false),
            AssuanResponse::PIN(_) => unreached(),
        }
    }

    /// Ask the helper for a PIN, against the given streams.
    ///
    /// On a data reply the secret arrives wrapped so that it is zeroed on
    /// release; a declined or failed request surfaces as the protocol
    /// error carrying the helper's diagnostic line.  The helper can never
    /// answer such a sequence with a plain success.
    pub fn pin(self, prompt: String, writer: &mut String, reader: &mut ReplyReader) -> (res:
        Result<secstr::SecStr, Error>)
        requires
            old(reader).wf(),
        ensures
            final(reader).wf(),
            ({
                let out = spec_process(spec_pin_commands(self, prompt), old(reader).remaining());
                &&& final(writer)@ == old(writer)@ + out.0
                &&& final(reader).remaining() == out.2
                &&& (out.1 matches SpecResponse::PIN(p) ==> (res matches Ok(s) && sec_str_chars(s)
                    == p))
                &&& (out.1 matches SpecResponse::NOTOK(t) ==> (res matches Err(
                    Error::ProtocolError(m),
                ) && m@ == t))
            }),
    {
        let mut b = self;
        let mut cmds = b.build_commands();
        cmds.push(AssuanCommand::SetPrompt(prompt));
        cmds.push(AssuanCommand::GetPin);
        let resp = process_commands(&cmds, writer, reader);
        proof {
            assert(cmds@ =~= spec_pin_commands(self, prompt));
            assert forall|j: int| 0 <= j < cmds@.len() - 1 implies !is_terminal(cmds@[j]) by {}
            lemma_getpin_last_not_ok(cmds@, 0, SpecPhase::NextCommand, old(reader).remaining());
        }
        match resp {
            AssuanResponse::PIN(p) => Ok(p),
            AssuanResponse::NOTOK(e) => Err(Error::ProtocolError(e)),
            AssuanResponse::OK => unreached(),
        }
    }

    /// Show a message through the helper, against the given streams.
    ///
    /// The text should be set with [`description`](Self::description).  A
    /// helper that declines surfaces as the protocol error carrying its
    /// diagnostic line; the helper can never answer such a sequence with a
    /// PIN.
    pub fn show_message(self, writer: &mut String, reader: &mut ReplyReader) -> (res: Result<
        (),
        Error,
    >)
        requires
            old(reader).wf(),
        ensures
            final(reader).wf(),
            ({
                let out = spec_process(spec_message_commands(self), old(reader).remaining());
                &&& final(writer)@ == old(writer)@ + out.0
                &&& final(reader).remaining() == out.2
                &&& (out.1 is OK ==> res == Ok::<(), Error>(()))
                &&& (out.1 matches SpecResponse::NOTOK(t) ==> (res matches Err(
                    Error::ProtocolError(m),
                ) && m@ == t))
            }),
    {
        let mut b = self;
        let mut cmds = b.build_commands();
        cmds.push(AssuanCommand::ShowMessage);
        let resp = process_commands(&cmds, writer, reader);
        proof {
            assert(cmds@ =~= spec_message_commands(self));
            assert forall|j: int| 0 <= j < cmds@.len() implies !(cmds@[j] is GetPin) by {}
            lemma_no_getpin_not_pin(cmds@, 0, SpecPhase::NextCommand, old(reader).remaining());
        }
        match resp {
            AssuanResponse::OK => Ok(()),
            AssuanResponse::NOTOK(t) => Err(Error::ProtocolError(t)),
            AssuanResponse::PIN(_) => unreached(),
        }
    }
}

/// The command sequence of a confirmation flow: the configuration, then the
/// confirmation request.
pub open spec fn spec_confirm_commands(b: PinentryBuilder) -> Seq<AssuanCommand> {
    spec_build_commands(b).push(AssuanCommand::Confirm)
}

/// The command sequence of a PIN flow: the configuration, then the prompt
/// text, then the PIN request.
pub open spec fn spec_pin_commands(b: PinentryBuilder, prompt: String) -> Seq<AssuanCommand> {
    spec_build_commands(b).push(AssuanCommand::SetPrompt(prompt)).push(AssuanCommand::GetPin)
}

/// The command sequence of a message flow: the configuration, then the
/// message request.
pub open spec fn spec_message_commands(b: PinentryBuilder) -> Seq<AssuanCommand> {
    spec_build_commands(b).push(AssuanCommand::ShowMessage)
}

impl Default for PinentryBuilder {
    /// The builder with nothing configured.
    fn default() -> (b: Self)
        ensures
            is_default_builder(b),
    {
        PinentryBuilder {
            description: None,
            error_text: None,
            exe: String::from_str("pinentry"),
            label_cancel: None,
            label_notok: None,
            label_ok: None,
            timeout: None,
            window_title: None,
        }
    }
}

} // verus!

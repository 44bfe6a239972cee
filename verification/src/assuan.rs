//! Assuan protocol core: the commands sent to the prompt helper, the codec
//! that turns each command into exactly one wire line, and the secure wrapper
//! for the secret the helper hands back.

use vstd::prelude::*;
use vstd::string::StrSliceExecFns;
use vstd::string::StringExecFns;

verus! {

/// Button in the prompt window whose label can be overridden.
#[derive(Debug)]
pub enum Button {
    OK,
    CANCEL,
    NOTOK,
}

/// One directive of the Assuan protocol subset spoken to the prompt helper.
///
/// This is not the complete protocol: passphrase quality, output device
/// and default-string directives are deliberately absent.
#[derive(Debug)]
pub enum AssuanCommand {
    /// Set the timeout (in seconds) before the helper gives up
    SetTimeout(u32),
    /// Set the descriptive text to display
    SetDescriptiveText(String),
    /// Set the prompt to show
    SetPrompt(String),
    /// Set the window title
    SetWindowTitle(String),
    /// Set the label of one button
    SetButtonLabel(Button, String),
    /// Set the error text
    SetErrorText(String),
    /// Ask for a PIN
    GetPin,
    /// Ask for confirmation
    Confirm,
    /// Show a message
    ShowMessage,
}

/// The outcome of processing one whole command sequence.
#[derive(Debug)]
pub enum AssuanResponse {
    /// A PIN held in a secure string that is zeroed when dropped
    PIN(secstr::SecStr),
    /// Generic success (successful confirmation, message shown, or a command
    /// sequence without a terminal command)
    OK,
    /// The helper understood but declined or failed the request; carries its
    /// diagnostic line
    NOTOK(String),
}

#[verifier::external_type_specification]
#[verifier::external_body]
#[verifier::reject_recursive_types(T)]
pub struct ExSecVec<T>(secstr::SecVec<T>) where T: Sized + Copy;

/// The characters whose UTF-8 bytes a [`secstr::SecStr`] holds.
pub uninterp spec fn sec_str_chars(s: secstr::SecStr) -> Seq<char>;

/// Relies on `secstr::SecVec::new`: it stores exactly the byte vector handed
/// to it (here the UTF-8 bytes of `s`), locks it in memory, and zeroes it
/// when the value is dropped.
#[verifier::external_body]
pub(crate) fn sec_new(s: String) -> (r: secstr::SecStr)
    ensures
        sec_str_chars(r) == s@,
{
    secstr::SecStr::new(s.into_bytes())
}

/// A command whose reply ends the processing of the whole sequence.
pub open spec fn is_terminal(cmd: AssuanCommand) -> bool {
    match cmd {
        AssuanCommand::GetPin => true,
        AssuanCommand::Confirm => true,
        AssuanCommand::ShowMessage => true,
        _ => false,
    }
}

/// The decimal digits of `n`, most significant first.
pub open spec fn spec_dec(n: int) -> Seq<char>
    decreases n,
{
    if n < 10 {
        seq![digit_char(n % 10)]
    } else {
        spec_dec(n / 10) + seq![digit_char(n % 10)]
    }
}

/// The character for one decimal digit.
pub open spec fn digit_char(d: int) -> char {
    if d == 0 {
        '0'
    } else if d == 1 {
        '1'
    } else if d == 2 {
        '2'
    } else if d == 3 {
        '3'
    } else if d == 4 {
        '4'
    } else if d == 5 {
        '5'
    } else if d == 6 {
        '6'
    } else if d == 7 {
        '7'
    } else if d == 8 {
        '8'
    } else {
        '9'
    }
}

/// The wire line for one command: keyword, a space and the verbatim argument
/// where the command takes one, terminated by a single newline.
pub open spec fn spec_encode(cmd: AssuanCommand) -> Seq<char> {
    match cmd {
        AssuanCommand::SetTimeout(n) => "SETTIMEOUT "@ + spec_dec(n as int) + "\n"@,
        AssuanCommand::SetDescriptiveText(t) => "SETDESC "@ + t@ + "\n"@,
        AssuanCommand::SetPrompt(t) => "SETPROMPT "@ + t@ + "\n"@,
        AssuanCommand::SetWindowTitle(t) => "SETTITLE "@ + t@ + "\n"@,
        AssuanCommand::SetButtonLabel(b, t) => match b {
            Button::OK => "SETOK "@ + t@ + "\n"@,
            Button::CANCEL => "SETCANCEL "@ + t@ + "\n"@,
            Button::NOTOK => "SETNOTOK "@ + t@ + "\n"@,
        },
        AssuanCommand::SetErrorText(t) => "SETERROR "@ + t@ + "\n"@,
        AssuanCommand::GetPin => "GETPIN"@ + "\n"@,
        AssuanCommand::Confirm => "CONFIRM"@ + "\n"@,
        AssuanCommand::ShowMessage => "MESSAGE"@ + "\n"@,
    }
}

/// A string slice holding exactly one decimal digit.
fn digit_str(d: u32) -> (r: &'static str)
    requires
        d < 10,
    ensures
        r@ == seq![digit_char(d as int)],
{
    let r: &'static str = if d == 0 {
        "0"
    } else if d == 1 {
        "1"
    } else if d == 2 {
        "2"
    } else if d == 3 {
        "3"
    } else if d == 4 {
        "4"
    } else if d == 5 {
        "5"
    } else if d == 6 {
        "6"
    } else if d == 7 {
        "7"
    } else if d == 8 {
        "8"
    } else {
        "9"
    };
    proof {
        reveal_strlit("0");
        reveal_strlit("1");
        reveal_strlit("2");
        reveal_strlit("3");
        reveal_strlit("4");
        reveal_strlit("5");
        reveal_strlit("6");
        reveal_strlit("7");
        reveal_strlit("8");
        reveal_strlit("9");
        assert(r@ =~= seq![digit_char(d as int)]);
    }
    r
}

/// Append the decimal digits of `n` to `s`.
fn append_dec(s: &mut String, n: u32)
    ensures
        final(s)@ == old(s)@ + spec_dec(n as int),
    decreases n,
{
    if n >= 10 {
        append_dec(s, n / 10);
    }
    s.append(digit_str(n % 10));
    proof {
        assert(final(s)@ =~= old(s)@ + spec_dec(n as int));
    }
}

/// Encode one command as its single wire line.
pub fn encode_command(cmd: &AssuanCommand) -> (r: String)
    ensures
        r@ == spec_encode(*cmd),
{
    let mut s = String::new();
    match cmd {
        AssuanCommand::SetTimeout(n) => {
            s.append("SETTIMEOUT ");
            append_dec(&mut s, *n);
        }
        AssuanCommand::SetDescriptiveText(t) => {
            s.append("SETDESC ");
            s.append(t.as_str());
        }
        AssuanCommand::SetPrompt(t) => {
            s.append("SETPROMPT ");
            s.append(t.as_str());
        }
        AssuanCommand::SetWindowTitle(t) => {
            s.append("SETTITLE ");
            s.append(t.as_str());
        }
        AssuanCommand::SetButtonLabel(b, t) => {
            match b {
                Button::OK => s.append("SETOK "),
                Button::CANCEL => s.append("SETCANCEL "),
                Button::NOTOK => s.append("SETNOTOK "),
            }
            s.append(t.as_str());
        }
        AssuanCommand::SetErrorText(t) => {
            s.append("SETERROR ");
            s.append(t.as_str());
        }
        AssuanCommand::GetPin => {
            s.append("GETPIN");
        }
        AssuanCommand::Confirm => {
            s.append("CONFIRM");
        }
        AssuanCommand::ShowMessage => {
            s.append("MESSAGE");
        }
    }
    s.append("\n");
    proof {
        assert(s@ =~= spec_encode(*cmd));
    }
    s
}

/// No newline occurs anywhere in `s`.
pub open spec fn no_newline(s: Seq<char>) -> bool {
    forall|i: int| 0 <= i < s.len() ==> s[i] != '\n'
}

/// Whether the argument text a command carries is free of newlines.
pub open spec fn arg_has_no_newline(cmd: AssuanCommand) -> bool {
    match cmd {
        AssuanCommand::SetTimeout(_) => true,
        AssuanCommand::SetDescriptiveText(t) => no_newline(t@),
        AssuanCommand::SetPrompt(t) => no_newline(t@),
        AssuanCommand::SetWindowTitle(t) => no_newline(t@),
        AssuanCommand::SetButtonLabel(_, t) => no_newline(t@),
        AssuanCommand::SetErrorText(t) => no_newline(t@),
        AssuanCommand::GetPin => true,
        AssuanCommand::Confirm => true,
        AssuanCommand::ShowMessage => true,
    }
}

/// Decimal digits never contain a newline.
proof fn lemma_dec_no_newline(n: int)
    ensures
        no_newline(spec_dec(n)),
    decreases n,
{
    if n >= 10 {
        lemma_dec_no_newline(n / 10);
    }
}

/// Whatever the command, the directive contributes no newline of its own:
/// its wire line ends in exactly one newline, and as long as the argument
/// text carries none, no other position holds one.
pub proof fn lemma_encode_single_newline(cmd: AssuanCommand)
    requires
        arg_has_no_newline(cmd),
    ensures
        spec_encode(cmd).len() > 0,
        spec_encode(cmd).last() == '\n',
        forall|i: int| 0 <= i < spec_encode(cmd).len() - 1 ==> spec_encode(cmd)[i] != '\n',
{
    reveal_strlit("SETTIMEOUT ");
    reveal_strlit("SETDESC ");
    reveal_strlit("SETPROMPT ");
    reveal_strlit("SETTITLE ");
    reveal_strlit("SETOK ");
    reveal_strlit("SETCANCEL ");
    reveal_strlit("SETNOTOK ");
    reveal_strlit("SETERROR ");
    reveal_strlit("GETPIN");
    reveal_strlit("CONFIRM");
    reveal_strlit("MESSAGE");
    reveal_strlit("\n");
    match cmd {
        AssuanCommand::SetTimeout(n) => lemma_dec_no_newline(n as int),
        _ => (),
    }
}

} // verus!

use pinentry_rs::assuan::{AssuanCommand, AssuanResponse};
use pinentry_rs::process::process_commands;
use pinentry_rs::wire::{banner_line_ok, read_line_is_ok, ReplyReader};

use std::str;

fn process(cmds: &Vec<AssuanCommand>, replies: &[&str]) -> (Vec<String>, AssuanResponse) {
    let mut w = String::new();
    let mut r = ReplyReader::new(replies.join("\n"));
    let res = process_commands(cmds, &mut w, &mut r);
    let written = w.split('\n').map(|s| s.to_string()).collect();
    (written, res)
}

#[test]
fn test_process_commands_getpin() {
    // command sequence to execute
    let cmds = vec![
        AssuanCommand::SetTimeout(60),
        AssuanCommand::SetWindowTitle("Enter passphrase".to_string()),
        AssuanCommand::GetPin,
    ];

    // simulated responses from pinentry
    let responses = vec!["OK", "OK", "D heremailserver", "OK"];

    // run the test
    let (written, res) = process(&cmds, &responses);

    // verify commands are written out
    let expected_written = vec!["SETTIMEOUT 60", "SETTITLE Enter passphrase", "GETPIN", ""];
    assert_eq!(expected_written, written);

    // verify that PIN is obtained
    match res {
        AssuanResponse::PIN(pw) => assert_eq!("heremailserver", str::from_utf8(pw.unsecure()).unwrap()),
        x => panic!("unexpected result {:?}", x),
    }
}

#[test]
fn test_process_commands_confirm() {
    // command sequence to execute
    let cmds = vec![
        AssuanCommand::SetDescriptiveText("Please confirm your identity".to_string()),
        AssuanCommand::Confirm,
    ];

    // simulated responses from pinentry
    let responses = vec!["OK", "OK"];

    // run the test
    let (written, res) = process(&cmds, &responses);

    // verify the commands written out
    let expected_written = vec!["SETDESC Please confirm your identity", "CONFIRM", ""];
    assert_eq!(expected_written, written);

    // verify that OK is obtained
    match res {
        AssuanResponse::OK => (),
        x => panic!("unexpected result {:?}", x),
    }
}

#[test]
fn confirm_declined_stops_processing() {
    let cmds = vec![
        AssuanCommand::SetDescriptiveText("x".to_string()),
        AssuanCommand::Confirm,
    ];
    let mut w = String::new();
    // extra scripted content after the declining reply shows that nothing
    // more is read
    let mut r = ReplyReader::new("OK\nERR 1 Cancelled\nLEFTOVER".to_string());
    let res = process_commands(&cmds, &mut w, &mut r);
    match res {
        AssuanResponse::NOTOK(t) => assert_eq!("ERR 1 Cancelled", t),
        x => panic!("unexpected result {:?}", x),
    }
    assert_eq!("SETDESC x\nCONFIRM\n", w);
    assert_eq!("LEFTOVER", r.rest());
}

#[test]
fn first_error_stops_before_later_commands() {
    let cmds = vec![
        AssuanCommand::SetTimeout(60),
        AssuanCommand::SetWindowTitle("t".to_string()),
        AssuanCommand::GetPin,
    ];
    let mut w = String::new();
    let mut r = ReplyReader::new("ERR 1 Bad option".to_string());
    let res = process_commands(&cmds, &mut w, &mut r);
    match res {
        AssuanResponse::NOTOK(t) => assert_eq!("ERR 1 Bad option", t),
        x => panic!("unexpected result {:?}", x),
    }
    // only the first command was written
    assert_eq!("SETTIMEOUT 60\n", w);
}

#[test]
fn getpin_error_line_is_reconstructed() {
    // the two peeked characters are put back in front of the diagnostic
    let cmds = vec![AssuanCommand::GetPin];
    let (written, res) = process(&cmds, &["ERR 83886179 cancelled"]);
    assert_eq!(vec!["GETPIN", ""], written);
    match res {
        AssuanResponse::NOTOK(t) => assert_eq!("ERR 83886179 cancelled", t),
        x => panic!("unexpected result {:?}", x),
    }
}

#[test]
fn getpin_reply_shorter_than_marker() {
    let cmds = vec![AssuanCommand::GetPin];
    let (_, res) = process(&cmds, &["E"]);
    match res {
        AssuanResponse::NOTOK(t) => assert_eq!("E", t),
        x => panic!("unexpected result {:?}", x),
    }

    let cmds = vec![AssuanCommand::GetPin];
    let (_, res) = process(&cmds, &[""]);
    match res {
        AssuanResponse::NOTOK(t) => assert_eq!("", t),
        x => panic!("unexpected result {:?}", x),
    }
}

#[test]
fn getpin_missing_closing_ok() {
    let cmds = vec![AssuanCommand::GetPin];
    let (_, res) = process(&cmds, &["D secret", "ERR 5 oops"]);
    match res {
        AssuanResponse::NOTOK(t) => assert_eq!("ERR 5 oops", t),
        x => panic!("unexpected result {:?}", x),
    }
}

#[test]
fn sequence_without_terminal_returns_ok() {
    let cmds = vec![AssuanCommand::SetTimeout(5)];
    let (written, res) = process(&cmds, &["OK"]);
    assert_eq!(vec!["SETTIMEOUT 5", ""], written);
    match res {
        AssuanResponse::OK => (),
        x => panic!("unexpected result {:?}", x),
    }
}

#[test]
fn processing_is_pure() {
    // same commands and same scripted replies: same writes, same outcome
    let cmds = vec![
        AssuanCommand::SetTimeout(60),
        AssuanCommand::SetWindowTitle("t".to_string()),
        AssuanCommand::GetPin,
    ];
    let replies = ["OK", "OK", "D somevalue", "OK"];
    let (w1, res1) = process(&cmds, &replies);
    let (w2, res2) = process(&cmds, &replies);
    assert_eq!(w1, w2);
    match (res1, res2) {
        (AssuanResponse::PIN(a), AssuanResponse::PIN(b)) => {
            assert_eq!(b"somevalue", a.unsecure());
            assert_eq!(a.unsecure(), b.unsecure());
        }
        (x, y) => panic!("unexpected results {:?} {:?}", x, y),
    }
}

#[test]
fn round_trip_written_stream_is_exact() {
    let cmds = vec![
        AssuanCommand::SetTimeout(60),
        AssuanCommand::SetWindowTitle("t".to_string()),
        AssuanCommand::GetPin,
    ];
    let mut w = String::new();
    let mut r = ReplyReader::new("OK\nOK\nD somevalue\nOK".to_string());
    let res = process_commands(&cmds, &mut w, &mut r);
    assert_eq!("SETTIMEOUT 60\nSETTITLE t\nGETPIN\n", w);
    match res {
        AssuanResponse::PIN(pw) => assert_eq!(b"somevalue", pw.unsecure()),
        x => panic!("unexpected result {:?}", x),
    }
}

#[test]
fn read_line_is_ok_reads_and_classifies() {
    let mut r = ReplyReader::new("OK\nERR 1 nope\nOK".to_string());
    let mut l = String::new();
    assert!(read_line_is_ok(&mut r, &mut l));
    assert_eq!("OK\n", l);
    assert!(!read_line_is_ok(&mut r, &mut l));
    assert_eq!("ERR 1 nope\n", l);
    // the last line has no trailing newline and still counts
    assert!(read_line_is_ok(&mut r, &mut l));
    assert_eq!("OK", l);

    assert!(banner_line_ok(&"OK Pleased to meet you\n".to_string()));
    assert!(banner_line_ok(&"OK\n".to_string()));
    assert!(!banner_line_ok(&"ERR 1\n".to_string()));
    assert!(!banner_line_ok(&"O".to_string()));
}

use pinentry_rs::assuan::AssuanCommand;
use pinentry_rs::wire::ReplyReader;
use pinentry_rs::{pinentry, Error};

#[test]
fn default_builder_is_empty() {
    let b = pinentry();
    assert_eq!("pinentry", b.exe);
    assert!(b.description.is_none());
    assert!(b.error_text.is_none());
    assert!(b.label_cancel.is_none());
    assert!(b.label_notok.is_none());
    assert!(b.label_ok.is_none());
    assert!(b.timeout.is_none());
    assert!(b.window_title.is_none());
}

#[test]
fn build_commands_in_fixed_order() {
    let mut b = pinentry()
        .description("d".to_string())
        .error_text("e".to_string())
        .exe("/usr/bin/pinentry-curses".to_string())
        .label_cancel("c".to_string())
        .label_notok("n".to_string())
        .label_ok("o".to_string())
        .timeout(9)
        .window_title("w".to_string());
    let cmds = b.build_commands();
    assert_eq!(7, cmds.len());
    assert!(matches!(cmds[0], AssuanCommand::SetDescriptiveText(ref t) if t == "d"));
    assert!(matches!(cmds[1], AssuanCommand::SetErrorText(ref t) if t == "e"));
    assert!(matches!(cmds[2], AssuanCommand::SetButtonLabel(_, ref t) if t == "c"));
    assert!(matches!(cmds[3], AssuanCommand::SetButtonLabel(_, ref t) if t == "n"));
    assert!(matches!(cmds[4], AssuanCommand::SetButtonLabel(_, ref t) if t == "o"));
    assert!(matches!(cmds[5], AssuanCommand::SetTimeout(9)));
    assert!(matches!(cmds[6], AssuanCommand::SetWindowTitle(ref t) if t == "w"));
    // the texts are taken out; the path and the timeout stay
    assert!(b.description.is_none());
    assert!(b.window_title.is_none());
    assert_eq!("/usr/bin/pinentry-curses", b.exe);
    assert_eq!(Some(9), b.timeout);
}

#[test]
fn confirm_yes_no_accepted() {
    let mut w = String::new();
    let mut r = ReplyReader::new("OK\nOK".to_string());
    let res = pinentry()
        .description("Please confirm your identity".to_string())
        .confirm_yes_no(&mut w, &mut r);
    assert!(matches!(res, Ok(true)));
    assert_eq!("SETDESC Please confirm your identity\nCONFIRM\n", w);
}

#[test]
fn confirm_yes_no_declined() {
    let mut w = String::new();
    let mut r = ReplyReader::new("OK\nERR 1 Cancelled".to_string());
    let res = pinentry()
        .description("x".to_string())
        .confirm_yes_no(&mut w, &mut r);
    assert!(matches!(res, Ok(false)));
    assert_eq!("SETDESC x\nCONFIRM\n", w);
}

#[test]
fn pin_returns_wrapped_secret() {
    let mut w = String::new();
    let mut r = ReplyReader::new("OK\nOK\nOK\nD hunter2\nOK".to_string());
    let res = pinentry()
        .timeout(60)
        .window_title("Enter passphrase".to_string())
        .pin("PIN:".to_string(), &mut w, &mut r);
    assert_eq!(
        "SETTIMEOUT 60\nSETTITLE Enter passphrase\nSETPROMPT PIN:\nGETPIN\n",
        w
    );
    match res {
        Ok(pw) => assert_eq!(b"hunter2", pw.unsecure()),
        Err(e) => panic!("unexpected error {:?}", e),
    }
}

#[test]
fn pin_declined_is_protocol_error() {
    let mut w = String::new();
    let mut r = ReplyReader::new("ERR 83886179 Operation cancelled".to_string());
    let res = pinentry().pin("PIN:".to_string(), &mut w, &mut r);
    assert_eq!("SETPROMPT PIN:\n", w);
    match res {
        Err(Error::ProtocolError(t)) => assert_eq!("ERR 83886179 Operation cancelled", t),
        x => panic!("unexpected result {:?}", x),
    }
}

#[test]
fn show_message_ok() {
    let mut w = String::new();
    let mut r = ReplyReader::new("OK\nOK".to_string());
    let res = pinentry()
        .description("All done".to_string())
        .show_message(&mut w, &mut r);
    assert!(matches!(res, Ok(())));
    assert_eq!("SETDESC All done\nMESSAGE\n", w);
}

#[test]
fn show_message_declined_is_protocol_error() {
    let mut w = String::new();
    let mut r = ReplyReader::new("ERR 1 no display".to_string());
    let res = pinentry().show_message(&mut w, &mut r);
    match res {
        Err(Error::ProtocolError(t)) => assert_eq!("ERR 1 no display", t),
        x => panic!("unexpected result {:?}", x),
    }
}

#[test]
fn io_error_converts() {
    let e = Error::from(std::io::Error::new(std::io::ErrorKind::BrokenPipe, "pipe"));
    assert!(matches!(e, Error::IoError(_)));
}

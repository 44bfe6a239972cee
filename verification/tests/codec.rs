use pinentry_rs::assuan::{encode_command, AssuanCommand, Button};

#[test]
fn test_assuan_command_write() {
    assert_eq!("SETTIMEOUT 30\n", encode_command(&AssuanCommand::SetTimeout(30)));
    assert_eq!(
        "SETDESC Enter PIN for Donald Trump <trump@tower.gov>\n",
        encode_command(&AssuanCommand::SetDescriptiveText(
            "Enter PIN for Donald Trump <trump@tower.gov>".to_string()
        ))
    );
    assert_eq!(
        "SETPROMPT PIN:\n",
        encode_command(&AssuanCommand::SetPrompt("PIN:".to_string()))
    );
    assert_eq!(
        "SETTITLE ATM\n",
        encode_command(&AssuanCommand::SetWindowTitle("ATM".to_string()))
    );
    assert_eq!(
        "SETOK Yes\n",
        encode_command(&AssuanCommand::SetButtonLabel(Button::OK, "Yes".to_string()))
    );
    assert_eq!(
        "SETCANCEL No\n",
        encode_command(&AssuanCommand::SetButtonLabel(Button::CANCEL, "No".to_string()))
    );
    assert_eq!(
        "SETNOTOK Don't push this button\n",
        encode_command(&AssuanCommand::SetButtonLabel(
            Button::NOTOK,
            "Don't push this button".to_string()
        ))
    );
    assert_eq!(
        "SETERROR Invalid PIN entered - please try again\n",
        encode_command(&AssuanCommand::SetErrorText(
            "Invalid PIN entered - please try again".to_string()
        ))
    );
    assert_eq!("GETPIN\n", encode_command(&AssuanCommand::GetPin));
    assert_eq!("CONFIRM\n", encode_command(&AssuanCommand::Confirm));
    assert_eq!("MESSAGE\n", encode_command(&AssuanCommand::ShowMessage));
}

#[test]
fn encode_large_timeout() {
    assert_eq!("SETTIMEOUT 0\n", encode_command(&AssuanCommand::SetTimeout(0)));
    assert_eq!(
        "SETTIMEOUT 4294967295\n",
        encode_command(&AssuanCommand::SetTimeout(u32::MAX))
    );
}

#[test]
fn encode_is_idempotent() {
    let cmd = AssuanCommand::SetDescriptiveText("spaces and punctuation!?".to_string());
    assert_eq!(encode_command(&cmd), encode_command(&cmd));
    let cmd = AssuanCommand::SetTimeout(77);
    assert_eq!(encode_command(&cmd), encode_command(&cmd));
    let cmd = AssuanCommand::GetPin;
    assert_eq!(encode_command(&cmd), encode_command(&cmd));
}

#[test]
fn encoded_line_has_single_trailing_newline() {
    let cmds = vec![
        AssuanCommand::SetTimeout(1234),
        AssuanCommand::SetDescriptiveText("a b c".to_string()),
        AssuanCommand::SetPrompt("p".to_string()),
        AssuanCommand::SetWindowTitle("w".to_string()),
        AssuanCommand::SetButtonLabel(Button::OK, "ok!".to_string()),
        AssuanCommand::SetErrorText("e".to_string()),
        AssuanCommand::GetPin,
        AssuanCommand::Confirm,
        AssuanCommand::ShowMessage,
    ];
    for cmd in &cmds {
        let line = encode_command(cmd);
        assert!(line.ends_with('\n'));
        assert!(!line[..line.len() - 1].contains('\n'));
    }
}

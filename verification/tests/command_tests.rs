use rsbash::BashCommand;
use rsbash::RashError;
use rsbash::into_bash_command;

#[test]
fn test_bash_command_formats_correctly() {
    let input = String::from("hi");
    let expected = String::from("/usr/bin/env bash -c hi");
    assert_eq!(BashCommand::format(input), expected);
}

#[test]
fn test_bash_command_quotes_correctly() {
    assert_eq!(BashCommand::quote("hi"), "hi".to_string());

    let input = "\"\"'blah' \'blah\' 'blah'''";
    let expected = "'\"\"'\\''blah'\\'' '\\''blah'\\'' '\\''blah'\\'''\\'''\\'''";
    assert_eq!(BashCommand::quote(input), expected.to_string());
}

#[test]
fn test_bash_command_formats_cstring_correctly() {
    let command = BashCommand::new("hello").unwrap().command();
    assert_eq!(command, "/usr/bin/env bash -c hello".to_string());
}

#[test]
fn test_into_bash_command() {
    assert_eq!(into_bash_command("blah"), "/usr/bin/env bash -c blah");
}

#[test]
fn test_quote_of_empty_text() {
    assert_eq!(BashCommand::quote(""), "''".to_string());
}

#[test]
fn test_quote_wraps_special_characters() {
    assert_eq!(BashCommand::quote("a b"), "'a b'".to_string());
    assert_eq!(BashCommand::quote("a'b"), "'a'\\''b'".to_string());
    assert_eq!(BashCommand::quote("rm -rf $HOME"), "'rm -rf $HOME'".to_string());
}

#[test]
fn test_new_rejects_null_byte_with_its_offset() {
    // The command line reads "/usr/bin/env bash -c 'echo \0hi'": the prefix
    // has 21 bytes, the opening quote one more, and "echo " five, so the NUL
    // sits at byte 27.
    let result = BashCommand::new("echo \0hi");
    assert_eq!(result.unwrap_err(), RashError::NullByteInCommand { pos: 27 });
}

#[test]
fn test_new_accepts_text_without_null_bytes() {
    assert!(BashCommand::new("echo 'anything at all' | grep any").is_ok());
}

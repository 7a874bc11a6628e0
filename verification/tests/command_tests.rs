use remote_shell::command::{BadCommandError, Cat, Cd, Command, Echo, Exit, Help, Ls, Pwd};

#[test]
fn parses_echo() {
    let result = Command::parse("echo some sample text");

    assert!(result.is_ok());
    assert_eq!(
        result.unwrap(),
        Command::Echo(Echo::new(String::from("some sample text")))
    );
}

#[test]
fn parses_cd() {
    let result = Command::parse("cd dir");

    assert!(result.is_ok());
    assert_eq!(result.unwrap(), Command::Cd(Cd::new(String::from("dir"))));
}

#[test]
fn incorrect_arg_number_cd() {
    let result = Command::parse("cd dir1 dir2");

    assert!(result.is_err());
    assert_eq!(result.err().unwrap(), BadCommandError::wrong_arg_number(1, 2));
}

#[test]
fn parses_exit() {
    let result = Command::parse("exit");

    assert!(result.is_ok());
    assert_eq!(result.unwrap(), Command::Exit(Exit::new()));
}

#[test]
fn correct_error_on_ls() {
    let result = Command::parse("ls dir1 dir2");

    assert!(result.is_err());
    assert_eq!(result.unwrap_err(), BadCommandError::wrong_maybe_arg_number(1, 2));
}

#[test]
fn parses_echo_with_no_arguments_to_empty_message() {
    let result = Command::parse("echo");

    assert_eq!(result.unwrap(), Command::Echo(Echo::new(String::new())));
}

#[test]
fn parses_echo_rejoining_with_single_spaces() {
    let result = Command::parse("  echo   a  b \t c ");

    assert_eq!(result.unwrap(), Command::Echo(Echo::new(String::from("a b c"))));
}

#[test]
fn parses_ls_without_argument() {
    let result = Command::parse("ls");

    assert_eq!(result.unwrap(), Command::Ls(Ls::new(None)));
}

#[test]
fn parses_ls_with_argument() {
    let result = Command::parse("ls /etc");

    assert_eq!(result.unwrap(), Command::Ls(Ls::new(Some(String::from("/etc")))));
}

#[test]
fn parses_cat() {
    let result = Command::parse("cat notes.txt");

    assert_eq!(result.unwrap(), Command::Cat(Cat::new(String::from("notes.txt"))));
}

#[test]
fn parses_pwd_and_help() {
    assert_eq!(Command::parse("pwd").unwrap(), Command::Pwd(Pwd::new()));
    assert_eq!(Command::parse("help").unwrap(), Command::Help(Help::new()));
}

#[test]
fn rejects_empty_line_as_missing_command() {
    let result = Command::parse("");

    assert_eq!(result.unwrap_err().msg, "Missing command");
}

#[test]
fn rejects_blank_line_as_missing_command() {
    let result = Command::parse("   \r\n");

    assert_eq!(result.unwrap_err().msg, "Missing command");
}

#[test]
fn rejects_unknown_command_with_its_name() {
    let result = Command::parse("frobnicate");

    assert_eq!(result.unwrap_err().msg, "Unknown command frobnicate");
}

#[test]
fn cd_without_argument_reports_expected_one_got_zero() {
    let result = Command::parse("cd");

    assert_eq!(result.unwrap_err().msg, "Expected 1 arguments, but received 0");
}

#[test]
fn cat_with_two_arguments_reports_arity() {
    let result = Command::parse("cat a b");

    assert_eq!(result.unwrap_err().msg, "Expected 1 arguments, but received 2");
}

#[test]
fn ls_arity_error_message_is_exact() {
    let result = Command::parse("ls dir1 dir2");

    assert_eq!(result.unwrap_err().msg, "Expected 1 or 0 arguments, but received 2");
}

#[test]
fn exit_with_argument_reports_expected_zero() {
    let result = Command::parse("exit now");

    assert_eq!(result.unwrap_err().msg, "Expected 0 arguments, but received 1");
}

#[test]
fn error_messages_do_not_reparse_as_commands() {
    for line in ["", "cd", "ls a b", "frobnicate x", "pwd oops"] {
        let msg = Command::parse(line).unwrap_err().msg;
        assert!(Command::parse(&msg).is_err());
    }
}

#[test]
fn bad_command_error_constructors_agree() {
    assert_eq!(
        BadCommandError::from_str("oops"),
        BadCommandError::from_string(String::from("oops"))
    );
    assert_eq!(
        BadCommandError::wrong_arg_number(0, 3).msg,
        "Expected 0 arguments, but received 3"
    );
    assert_eq!(
        BadCommandError::wrong_maybe_arg_number(1, 4).msg,
        "Expected 1 or 0 arguments, but received 4"
    );
}

use remote_shell::session::{
    finish_ls, greeting, prompt_marker, Action, AuthOutcome, CatOutcome, Phase, Session,
};

fn fresh(password: &str, cwd: &str) -> Session {
    Session::new(String::from(password), String::from(cwd))
}

#[test]
fn auth_lockout_after_three_wrong_guesses() {
    let mut s = fresh("secret", "/");

    let (outcome, lines) = s.submit_password("a");
    assert_eq!(outcome, AuthOutcome::Rejected);
    assert_eq!(lines, vec![String::from("Incorrect password")]);
    assert_eq!(s.phase, Phase::Unauthenticated { guesses_used: 1 });

    let (outcome, lines) = s.submit_password("b");
    assert_eq!(outcome, AuthOutcome::Rejected);
    assert_eq!(lines, vec![String::from("Incorrect password")]);
    assert_eq!(s.phase, Phase::Unauthenticated { guesses_used: 2 });

    let (outcome, lines) = s.submit_password("c");
    assert_eq!(outcome, AuthOutcome::LockedOut);
    assert_eq!(
        lines,
        vec![
            String::from("Incorrect password"),
            String::from("Too many incorrect guesses. Kicking you out"),
        ]
    );
    assert_eq!(s.phase, Phase::Terminated);
}

#[test]
fn auth_accepts_correct_password_after_two_failures() {
    let mut s = fresh("secret", "/");
    s.submit_password("wrong");
    s.submit_password("also wrong");

    let (outcome, lines) = s.submit_password("secret");
    assert_eq!(outcome, AuthOutcome::Accepted);
    assert_eq!(lines, vec![String::from("Enter your command")]);
    assert_eq!(s.phase, Phase::Authenticated);
}

#[test]
fn auth_trims_surrounding_whitespace_of_the_attempt() {
    let mut s = fresh("secret", "/");
    let (outcome, _) = s.submit_password("  secret\r\n");
    assert_eq!(outcome, AuthOutcome::Accepted);
}

#[test]
fn pwd_right_after_cd_reports_the_new_directory() {
    let mut s = fresh("secret", "/home");
    s.submit_password("secret");

    let ack = s.handle_line("cd /tmp");
    assert_eq!(ack, Action::Reply(String::from("Changed directory to /tmp")));

    let reply = s.handle_line("pwd");
    assert_eq!(reply, Action::Reply(String::from("/tmp")));
}

#[test]
fn cd_resolves_a_relative_target_under_the_current_directory() {
    let mut s = fresh("secret", "/home");
    s.submit_password("secret");

    s.handle_line("cd user");
    assert_eq!(s.handle_line("pwd"), Action::Reply(String::from("/home/user")));
}

#[test]
fn ls_and_cat_hand_out_resolved_filesystem_requests() {
    let mut s = fresh("secret", "/home");
    s.submit_password("secret");

    assert_eq!(s.handle_line("ls"), Action::ListDir(String::from("/home")));
    assert_eq!(s.handle_line("ls /etc"), Action::ListDir(String::from("/etc")));
    assert_eq!(s.handle_line("ls docs"), Action::ListDir(String::from("/home/docs")));
    assert_eq!(s.handle_line("cat notes.txt"), Action::ReadFile(String::from("/home/notes.txt")));
}

#[test]
fn parse_failures_are_replied_and_do_not_end_the_session() {
    let mut s = fresh("secret", "/");
    s.submit_password("secret");

    let reply = s.handle_line("frobnicate");
    assert_eq!(reply, Action::Reply(String::from("Unknown command frobnicate")));
    assert_eq!(s.phase, Phase::Authenticated);

    let reply = s.handle_line("cd");
    assert_eq!(reply, Action::Reply(String::from("Expected 1 arguments, but received 0")));
    assert_eq!(s.phase, Phase::Authenticated);
}

#[test]
fn end_to_end_scenario() {
    let mut s = fresh("secret", "/");
    assert_eq!(greeting(), "Please provide the password");
    assert_eq!(prompt_marker(), "> ");

    let (outcome, lines) = s.submit_password("first try");
    assert_eq!(outcome, AuthOutcome::Rejected);
    assert_eq!(lines, vec![String::from("Incorrect password")]);

    let (outcome, lines) = s.submit_password("second try");
    assert_eq!(outcome, AuthOutcome::Rejected);
    assert_eq!(lines, vec![String::from("Incorrect password")]);

    let (outcome, lines) = s.submit_password("secret");
    assert_eq!(outcome, AuthOutcome::Accepted);
    assert_eq!(lines, vec![String::from("Enter your command")]);

    let reply = s.handle_line("echo hi there");
    assert_eq!(reply, Action::Reply(String::from("hi there")));

    let reply = s.handle_line("exit");
    assert_eq!(reply, Action::ReplyAndClose(String::from("Bye")));
    assert_eq!(s.phase, Phase::Terminated);
}

#[test]
fn help_lists_every_command() {
    let mut s = fresh("secret", "/");
    s.submit_password("secret");

    match s.handle_line("help") {
        Action::Reply(text) => {
            for verb in ["pwd", "cd", "ls", "cat", "echo", "exit", "help"] {
                assert!(text.contains(verb));
            }
        },
        other => panic!("help replied with {:?}", other),
    }
}

#[test]
fn finish_ls_joins_entries_with_newlines() {
    let entries = vec![String::from("a.txt"), String::from("b.txt"), String::from("sub")];
    assert_eq!(finish_ls(Ok(entries)), "a.txt\nb.txt\nsub");
    assert_eq!(finish_ls(Ok(vec![String::from("only")])), "only");
    assert_eq!(finish_ls(Ok(Vec::new())), "");
    assert_eq!(
        finish_ls(Err(String::from("No such file or directory"))),
        "No such file or directory"
    );
}

#[test]
fn finish_cat_replies_content_or_error_and_kills_on_bad_text() {
    let mut s = fresh("secret", "/");
    s.submit_password("secret");

    let r = s.finish_cat(CatOutcome::Content(String::from("file body")));
    assert_eq!(r, Some(String::from("file body")));
    assert_eq!(s.phase, Phase::Authenticated);

    let r = s.finish_cat(CatOutcome::OpenFailed(String::from("No such file")));
    assert_eq!(r, Some(String::from("No such file")));
    assert_eq!(s.phase, Phase::Authenticated);

    let r = s.finish_cat(CatOutcome::NotText);
    assert_eq!(r, None);
    assert_eq!(s.phase, Phase::Terminated);
}

#[test]
fn disconnect_terminates_the_session() {
    let mut s = fresh("secret", "/");
    s.disconnect();
    assert_eq!(s.phase, Phase::Terminated);
}

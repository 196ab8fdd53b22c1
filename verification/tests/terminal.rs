use cpn_panel::panel_site_terminal::{shell_greeting, shell_start_failure, terminal_gate, terminal_step, TermAction, TermEvent};
use cpn_panel::panel_site_tools_security::{terminal_csrf_token, RateTable};

const SECRET: &str = "unit-test-secret";

#[test]
fn terminal_gate_checks_in_order() {
    let mut rates = RateTable::new();
    let now = 1_700_000_000u64;
    let token = terminal_csrf_token("admin", "example.com", SECRET, now);
    let r = terminal_gate(None, true, "example.com", &token, SECRET, now, &mut rates);
    assert_eq!(r.err().unwrap().status, 401);
    let r = terminal_gate(Some("admin"), false, "example.com", &token, SECRET, now, &mut rates);
    assert_eq!(r.err().unwrap().status, 403);
    let r = terminal_gate(Some("admin"), true, "example.com", "1.bad", SECRET, now, &mut rates);
    let f = r.err().unwrap();
    assert_eq!((f.status, f.body.as_str()), (403, "Invalid terminal CSRF"));
    for _ in 0..8 {
        assert!(terminal_gate(Some("admin"), true, "example.com", &token, SECRET, now, &mut rates).is_ok());
    }
    let f = terminal_gate(Some("admin"), true, "example.com", &token, SECRET, now, &mut rates).err().unwrap();
    assert_eq!(f.status, 429);
    assert_eq!(f.body, "Too many terminal sessions; wait a minute and try again");
}

#[test]
fn session_events_map_to_actions() {
    match terminal_step(TermEvent::ShellOutput(b"ls\n".to_vec())) {
        TermAction::Send(s) => assert_eq!(s, "ls\n"),
        _ => panic!("output is sent"),
    }
    match terminal_step(TermEvent::ShellOutput(vec![0x61, 0xff])) {
        TermAction::Send(s) => assert_eq!(s, "a\u{fffd}"),
        _ => panic!("output is sent"),
    }
    assert!(matches!(terminal_step(TermEvent::ClientText("{\"type\":\"resize\",\"cols\":80}".into())), TermAction::Ignore));
    match terminal_step(TermEvent::ClientText("{\"type\":\"other\"}".into())) {
        TermAction::Write(b) => assert_eq!(b, b"{\"type\":\"other\"}".to_vec()),
        _ => panic!("other JSON is typed into the shell"),
    }
    match terminal_step(TermEvent::ClientText(" {\"type\":\"resize\"}".into())) {
        TermAction::Write(_) => {}
        _ => panic!("only text starting with a brace can be a resize"),
    }
    assert!(matches!(terminal_step(TermEvent::ClientBinary(vec![1, 2])), TermAction::Write(_)));
    assert!(matches!(terminal_step(TermEvent::ClientPing(vec![9])), TermAction::Pong(_)));
    assert!(matches!(terminal_step(TermEvent::ClientClose), TermAction::CloseAndStop));
    assert!(matches!(terminal_step(TermEvent::ClientGone), TermAction::Stop));
    assert!(matches!(terminal_step(TermEvent::StdoutClosed), TermAction::Stop));
    assert!(matches!(terminal_step(TermEvent::StderrClosed), TermAction::DropStderr));
    assert!(matches!(terminal_step(TermEvent::ClientOther), TermAction::Ignore));
}

#[test]
fn session_messages() {
    assert_eq!(shell_greeting("/home/example.com"), "CPN site shell \u{b7} /home/example.com\n");
    assert_eq!(shell_start_failure("not found"), "Could not start shell: not found\n");
}

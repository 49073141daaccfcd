use crisp::utils::{CommandListener, SystemUtils};

#[test]
fn empty_command_is_never_spawned() {
    assert!(SystemUtils::prepare(String::new()).is_none());
    assert_eq!(SystemUtils::execute(String::new(), true, Some(b"hi".to_vec())), None);
    assert_eq!(SystemUtils::execute(String::new(), true, None), None);
}

#[test]
fn command_runs_through_the_shell() {
    let command = SystemUtils::prepare("printf hi".to_owned()).unwrap();
    assert_eq!(command.program, "sh");
    assert_eq!(command.arguments, vec!["-c".to_owned(), "printf hi".to_owned()]);
    let command = SystemUtils::shell(String::new());
    assert_eq!(command.program, "sh");
    assert_eq!(command.arguments, vec!["-c".to_owned(), String::new()]);
}

#[test]
fn captured_output_loses_one_trailing_newline() {
    let run = |stdout: &[u8]| {
        SystemUtils::execute("printf hi".to_owned(), true, Some(stdout.to_vec()))
    };
    assert_eq!(run(b"hi"), Some("hi".to_owned()));
    assert_eq!(run(b"hi\n"), Some("hi".to_owned()));
    assert_eq!(run(b"hi\n\n"), Some("hi\n".to_owned()));
    assert_eq!(run(b"\n"), Some(String::new()));
    assert_eq!(run(b""), Some(String::new()));
    assert_eq!(run(b"a\nb"), Some("a\nb".to_owned()));
    assert_eq!(run("gr\u{fc}n\n".as_bytes()), Some("gr\u{fc}n".to_owned()));
}

#[test]
fn output_that_is_not_captured_is_dropped() {
    assert_eq!(SystemUtils::execute("printf hi".to_owned(), false, Some(b"hi".to_vec())), None);
}

#[test]
fn command_that_could_not_start_gives_no_output() {
    assert_eq!(SystemUtils::execute("printf hi".to_owned(), true, None), None);
}

#[test]
fn output_that_is_not_utf8_gives_no_output() {
    assert_eq!(SystemUtils::execute("x".to_owned(), true, Some(vec![0xff, 0xfe])), None);
    assert_eq!(SystemUtils::execute("x".to_owned(), true, Some(vec![0xc3, 0x0a])), None);
}

#[test]
fn strip_trailing_newline_takes_one_line_feed() {
    assert_eq!(SystemUtils::strip_trailing_newline("a\n".to_owned()), "a");
    assert_eq!(SystemUtils::strip_trailing_newline("a\r\n".to_owned()), "a\r");
    assert_eq!(SystemUtils::strip_trailing_newline("a".to_owned()), "a");
    assert_eq!(SystemUtils::strip_trailing_newline(String::new()), "");
}

#[test]
fn second_listener_under_one_identifier_is_a_no_op() {
    let mut utils = SystemUtils::new();
    let first = utils.start_listening_command("clock".to_owned(), "date".to_owned()).unwrap();
    assert_eq!(first.command.arguments, vec!["-c".to_owned(), "date".to_owned()]);
    assert_eq!(first.slot, 0);
    let mut listener = first.listener;
    listener.record_line("12:00".to_owned());
    let second = utils.start_listening_command("clock".to_owned(), "uptime".to_owned());
    assert!(second.is_none());
    assert_eq!(utils.slot_of("clock"), Some(0));
    assert_eq!(utils.len(), 1);
    assert_eq!(utils.get_listening_command_outputs().len(), 1);
    assert_eq!(listener.last_line, "12:00");
    assert!(listener.running);
}

#[test]
fn listener_starts_with_an_empty_line_and_keeps_the_last_one() {
    let mut utils = SystemUtils::new();
    assert_eq!(utils.slot_of("a"), None);
    let started = utils.start_listening_command("a".to_owned(), "yes".to_owned()).unwrap();
    let mut listener = started.listener;
    assert_eq!(listener.identifier, "a");
    assert_eq!(listener.last_line, "");
    assert!(listener.running);
    assert_eq!(SystemUtils::poll_listening_command(Some(&listener)), Some(String::new()));
    listener.record_line("one".to_owned());
    listener.record_line("two".to_owned());
    assert_eq!(SystemUtils::poll_listening_command(Some(&listener)), Some("two".to_owned()));
    assert_eq!(listener.identifier, "a");
    assert!(listener.running);
}

#[test]
fn each_listener_has_a_slot_of_its_own() {
    let mut utils = SystemUtils::new();
    let a = utils.start_listening_command("a".to_owned(), "x".to_owned()).unwrap();
    let b = utils.start_listening_command("b".to_owned(), "y".to_owned()).unwrap();
    assert!(utils.start_listening_command("a".to_owned(), "z".to_owned()).is_none());
    let c = utils.start_listening_command("c".to_owned(), "z".to_owned()).unwrap();
    assert_eq!((a.slot, b.slot, c.slot), (0, 1, 2));
    assert_eq!(utils.slot_of("a"), Some(0));
    assert_eq!(utils.slot_of("b"), Some(1));
    assert_eq!(utils.slot_of("c"), Some(2));
    assert_eq!(utils.slot_of("d"), None);
    assert_eq!(utils.len(), 3);
    assert_eq!(utils.get_listening_command_outputs().len(), 3);
}

#[test]
fn listeners_do_not_touch_each_other() {
    let mut utils = SystemUtils::new();
    let mut a = utils.start_listening_command("a".to_owned(), "x".to_owned()).unwrap().listener;
    let b = utils.start_listening_command("b".to_owned(), "y".to_owned()).unwrap().listener;
    a.record_line("for a".to_owned());
    a.finish();
    assert_eq!(a.last_line, "for a");
    assert!(!a.running);
    assert_eq!(b.last_line, "");
    assert!(b.running);
}

#[test]
fn finished_listener_still_holds_its_identifier() {
    let mut utils = SystemUtils::new();
    let mut a = utils.start_listening_command("a".to_owned(), "x".to_owned()).unwrap().listener;
    a.finish();
    assert!(utils.start_listening_command("a".to_owned(), "x".to_owned()).is_none());
    a.record_line("late".to_owned());
    assert_eq!(a.last_line, "late");
    assert!(!a.running);
    assert_eq!(utils.slot_of("a"), Some(0));
}

#[test]
fn poll_without_the_listener_gives_no_value() {
    let listener = CommandListener::new("a".to_owned());
    assert_eq!(SystemUtils::poll_listening_command(None), None);
    assert_eq!(SystemUtils::poll_listening_command(Some(&listener)), Some(String::new()));
}

#[test]
fn default_utils_have_no_listener() {
    let utils = SystemUtils::default();
    assert_eq!(utils.get_listening_command_outputs().len(), 0);
    assert_eq!(utils.slot_of("a"), None);
    assert_eq!(utils.len(), 0);
}

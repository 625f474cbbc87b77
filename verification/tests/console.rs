use toswa::command::classify_command;
use toswa::command::is_exit_word;
use toswa::command::process_command;
use toswa::command::CommandAction;
use toswa::window::TextCommandWindow;
use toswa::window::TextCommandWindowConfig;

#[test]
fn submit_shows_command_and_placeholder_immediately() {
    let mut w = TextCommandWindow::default();
    let task = w.submit(String::from("foo"));
    assert!(task.is_some());
    assert_eq!(w.entries().len(), 1);
    assert_eq!(w.entries()[0].command, "foo");
    assert_eq!(w.entries()[0].result, "processing...");
    assert!(w.entries()[0].rx_channel.is_some());
}

#[test]
fn poll_promotes_a_completed_result_and_clears_pending() {
    let mut w = TextCommandWindow::default();
    let task = w.submit(String::from("foo")).unwrap();
    assert!(task.run());
    w.poll_open_requests();
    assert_eq!(w.entries().len(), 1);
    assert_eq!(w.entries()[0].command, "foo");
    assert_eq!(w.entries()[0].result, "processed: foo");
    assert!(w.entries()[0].rx_channel.is_none());
}

#[test]
fn poll_leaves_an_unfinished_entry_untouched() {
    let mut w = TextCommandWindow::default();
    let task = w.submit(String::from("slow")).unwrap();
    w.poll_open_requests();
    w.poll_open_requests();
    assert_eq!(w.entries()[0].result, "processing...");
    assert!(w.entries()[0].rx_channel.is_some());
    assert!(task.run());
    w.poll_open_requests();
    assert_eq!(w.entries()[0].result, "processed: slow");
    assert!(w.entries()[0].rx_channel.is_none());
}

#[test]
fn blank_commands_create_no_entry() {
    let mut w = TextCommandWindow::default();
    assert!(w.submit(String::from("")).is_none());
    assert_eq!(w.entries().len(), 0);
    assert!(w.submit(String::from("   ")).is_none());
    assert_eq!(w.entries().len(), 0);
    assert!(w.submit(String::from("\t \n")).is_none());
    assert_eq!(w.entries().len(), 0);
    assert_eq!(classify_command(""), CommandAction::Ignore);
    assert_eq!(classify_command("   "), CommandAction::Ignore);
}

#[test]
fn exit_is_intercepted_in_any_letter_case() {
    for word in ["exit", "Exit", "EXIT", "eXiT"] {
        assert_eq!(classify_command(word), CommandAction::Exit);
    }
    // A view layer that consults classify_command first never logs it.
    let mut w = TextCommandWindow::default();
    for word in ["exit", "Exit", "EXIT"] {
        if classify_command(word) == CommandAction::Dispatch {
            w.submit(String::from(word));
        }
    }
    assert_eq!(w.entries().len(), 0);
    // Near misses are ordinary commands.
    assert_eq!(classify_command("exit "), CommandAction::Dispatch);
    assert_eq!(classify_command("exit now"), CommandAction::Dispatch);
    assert_eq!(classify_command("exi"), CommandAction::Dispatch);
}

#[test]
fn is_exit_word_expects_already_lowered_text() {
    assert!(is_exit_word(&String::from("exit")));
    assert!(!is_exit_word(&String::from("Exit")));
    assert!(!is_exit_word(&String::from("exit ")));
}

#[test]
fn entries_keep_submission_order_whatever_order_results_arrive() {
    let mut w = TextCommandWindow::default();
    let first = w.submit(String::from("one")).unwrap();
    let second = w.submit(String::from("two")).unwrap();
    let third = w.submit(String::from("three")).unwrap();
    assert!(third.run());
    assert!(first.run());
    w.poll_open_requests();
    let commands: Vec<&str> = w.entries().iter().map(|e| e.command.as_str()).collect();
    assert_eq!(commands, vec!["one", "two", "three"]);
    assert_eq!(w.entries()[0].result, "processed: one");
    assert_eq!(w.entries()[1].result, "processing...");
    assert_eq!(w.entries()[2].result, "processed: three");
    assert!(second.run());
    w.poll_open_requests();
    let commands: Vec<&str> = w.entries().iter().map(|e| e.command.as_str()).collect();
    assert_eq!(commands, vec!["one", "two", "three"]);
    for entry in w.entries().iter() {
        assert_ne!(entry.result, "processing...");
        assert!(entry.rx_channel.is_none());
    }
}

#[test]
fn poll_with_nothing_pending_is_a_no_op() {
    let mut w = TextCommandWindow::default();
    w.poll_open_requests();
    assert_eq!(w.entries().len(), 0);
    w.push_resolved(String::from("garbage in"), String::from("garbage out"));
    w.poll_open_requests();
    w.poll_open_requests();
    assert_eq!(w.entries().len(), 1);
    assert_eq!(w.entries()[0].command, "garbage in");
    assert_eq!(w.entries()[0].result, "garbage out");
    assert!(w.entries()[0].rx_channel.is_none());
}

#[test]
fn resolve_line_stores_exactly_the_delivered_text() {
    let mut w = TextCommandWindow::default();
    w.submit(String::from("foo"));
    w.submit(String::from("bar"));
    w.resolve_line(0, String::from("processed: foo"));
    assert_eq!(w.entries()[0].command, "foo");
    assert_eq!(w.entries()[0].result, "processed: foo");
    assert!(w.entries()[0].rx_channel.is_none());
    // The untouched neighbour still awaits its task.
    assert_eq!(w.entries()[1].command, "bar");
    assert_eq!(w.entries()[1].result, "processing...");
    assert!(w.entries()[1].rx_channel.is_some());
}

#[test]
fn delivery_to_a_discarded_entry_is_swallowed() {
    let mut w = TextCommandWindow::default();
    let task = w.submit(String::from("foo")).unwrap();
    drop(w);
    assert!(!task.run());
}

#[test]
fn process_command_prefixes_the_command() {
    assert_eq!(process_command(String::from("foo")), "processed: foo");
    assert_eq!(process_command(String::from("")), "processed: ");
    assert_eq!(process_command(String::from("Foo Bar")), "processed: Foo Bar");
}

#[test]
fn config_starts_in_dark_mode() {
    let config = TextCommandWindowConfig::default();
    assert!(!config.light_mode);
    let w = TextCommandWindow::default();
    assert!(!w.config.light_mode);
    assert_eq!(w.main_entry_box, "");
}

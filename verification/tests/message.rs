use subcmd::Message;

#[test]
fn test_message_new() {
    // A new message is not an error and is empty; colour rendering is off
    // until the embedding program injects the platform capability.
    let msg = Message::new();

    assert_eq!(msg.get(), "");
    assert_eq!(msg.is_error(), false);
    assert_eq!(msg.is_formated(), false);
}

#[test]
fn test_message_add() {
    let mut msg = Message::new();
    msg.add("Some text");
    assert_eq!(msg.get(), "Some text");

    let mut msg = Message::new();
    msg.add_line("Some new line");
    assert_eq!(msg.get(), "Some new line\n");
}

#[test]
fn test_message_set_error() {
    let mut msg = Message::new();

    msg.set_error(true);
    assert_eq!(msg.is_error(), true);

    msg.set_error(false);
    assert_eq!(msg.is_error(), false);
}

#[test]
fn test_message_set_formated() {
    let mut msg = Message::new();

    msg.set_formated(true);
    assert_eq!(msg.is_formated(), true);

    msg.set_formated(false);
    assert_eq!(msg.is_formated(), false);
}

#[test]
fn test_get_is_idempotent() {
    let mut msg = Message::new();
    msg.add("alpha");
    msg.add_line("beta");

    let first = msg.get();
    let second = msg.get();
    assert_eq!(first, second);
}

#[test]
fn test_add_line_adds_exactly_one_newline() {
    // Even a fragment that already ends in a newline gets exactly one
    // more appended.
    let mut msg = Message::new();
    msg.add_line("x\n");
    assert_eq!(msg.get(), "x\n\n");

    let mut msg = Message::new();
    msg.add_line("");
    assert_eq!(msg.get(), "\n");
}

#[test]
fn test_round_trip_concatenation() {
    // The buffer is the concatenation of the raw appended fragments in
    // call order, and neither the error flag nor rendering disturbs it.
    let mut msg = Message::new();
    msg.add("a");
    msg.add_line("b");
    msg.add("c");
    assert_eq!(msg.get(), "ab\nc");

    msg.set_error(true);
    msg.set_formated(true);
    let _rendered = msg.getf();
    assert_eq!(msg.get(), "ab\nc");
}

#[test]
fn test_getf_colours_only_formated_errors() {
    let mut msg = Message::new();
    msg.add("boom");

    // Not an error: rendered as-is.
    assert_eq!(msg.getf(), "boom");

    // An error, but colour off: still as-is.
    msg.set_error(true);
    assert_eq!(msg.getf(), "boom");

    // An error with colour on: wrapped in the red escape codes, while the
    // raw buffer stays untouched.
    msg.set_formated(true);
    assert_eq!(msg.getf(), "\u{1b}[31mboom\u{1b}[0m");
    assert_eq!(msg.get(), "boom");

    // No longer an error: as-is again.
    msg.set_error(false);
    assert_eq!(msg.getf(), "boom");
}

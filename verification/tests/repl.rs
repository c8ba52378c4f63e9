use monikai::repl::{monikai_repl, Command};

#[test]
fn command_words_are_commands() {
    assert_eq!(monikai_repl("clear\n"), Command::Clear);
    assert_eq!(monikai_repl("wipe\n"), Command::Wipe);
    assert_eq!(monikai_repl("save\n"), Command::Save);
    assert_eq!(monikai_repl("end\n"), Command::End);
    assert_eq!(monikai_repl("log\n"), Command::Log);
    assert_eq!(monikai_repl("get\n"), Command::Get);
}

#[test]
fn command_words_without_line_feed() {
    assert_eq!(monikai_repl("wipe"), Command::Wipe);
    assert_eq!(monikai_repl("get"), Command::Get);
}

#[test]
fn other_lines_are_said() {
    assert_eq!(monikai_repl("Hello there!\n"), Command::Say(String::from("Hello there!")));
    assert_eq!(monikai_repl("wipe \n"), Command::Say(String::from("wipe ")));
    assert_eq!(monikai_repl(" wipe\n"), Command::Say(String::from(" wipe")));
    assert_eq!(monikai_repl("Wipe\n"), Command::Say(String::from("Wipe")));
    assert_eq!(monikai_repl("wipe\r\n"), Command::Say(String::from("wipe\r")));
    assert_eq!(monikai_repl("ends\n"), Command::Say(String::from("ends")));
}

#[test]
fn only_the_first_line_counts() {
    assert_eq!(monikai_repl("hello\nworld\n"), Command::Say(String::from("hello")));
    assert_eq!(monikai_repl("save\nwipe\n"), Command::Save);
    assert_eq!(monikai_repl("\nwipe\n"), Command::Say(String::new()));
}

#[test]
fn empty_lines_are_said() {
    assert_eq!(monikai_repl(""), Command::Say(String::new()));
    assert_eq!(monikai_repl("\n"), Command::Say(String::new()));
}

#[test]
fn lines_beyond_ascii_are_said() {
    assert_eq!(monikai_repl("héllo wörld ☕\nnext"), Command::Say(String::from("héllo wörld ☕")));
}

use monikai::print::{debug, info, monikai, RESET};

#[test]
fn reset_ends_the_color() {
    assert_eq!(RESET, "\x1b[0m");
}

#[test]
fn info_is_blue() {
    assert_eq!(info("Initializing Monikai"), "\x1b[34mInitializing Monikai\x1b[0m");
    assert_eq!(info(""), "\x1b[34m\x1b[0m");
}

#[test]
fn monikai_speaks_in_bright_magenta() {
    assert_eq!(monikai("Hello!"), ">\x1b[95mHello!\x1b[0m");
    assert_eq!(monikai(""), ">\x1b[95m\x1b[0m");
}

#[test]
fn debug_is_bracketed_and_green() {
    assert_eq!(debug("Ended conversation"), "\x1b[32m[Ended conversation]\x1b[0m");
    assert_eq!(debug(""), "\x1b[32m[]\x1b[0m");
}

use lunalib::utils::console::{
    colored_line, print_debug, print_error, print_info, print_success, print_warn, Console,
    ConsoleColor,
};

#[test]
fn test_print_info() {
    print_info("Info message");
}

#[test]
fn test_print_warn() {
    print_warn("Warning message");
}

#[test]
fn test_print_error() {
    print_error("Error message");
}

#[test]
fn test_print_success() {
    print_success("Success message");
}

#[test]
fn test_print_debug() {
    print_debug("Debug message");
}

#[test]
fn colored_line_wraps_message_in_codes() {
    let _console = Console::new();
    assert_eq!(colored_line("hi", ConsoleColor::Cyan), "\x1b[36mhi\x1b[0m\n");
    assert_eq!(colored_line("", ConsoleColor::Red), "\x1b[31m\x1b[0m\n");
    assert_eq!(ConsoleColor::Yellow.to_ansi_code(), "\x1b[33m");
    assert_eq!(ConsoleColor::Green.to_ansi_code(), "\x1b[32m");
    assert_eq!(ConsoleColor::Magenta.to_ansi_code(), "\x1b[35m");
    assert_eq!(ConsoleColor::Reset.to_ansi_code(), "\x1b[0m");
}

use synth_bridge::errors::StartupError;
use synth_bridge::ports::{parse_selection, resolve_port_count, PortPlan};

#[test]
fn zero_ports_is_a_startup_error() {
    let r = resolve_port_count(0);
    assert_eq!(r, Err(StartupError::NoInputPort));
    assert_eq!(r.unwrap_err().message(), "no input port found");
}

#[test]
fn one_port_is_taken_automatically() {
    assert_eq!(resolve_port_count(1), Ok(PortPlan::UseOnlyPort));
}

#[test]
fn several_ports_ask_the_user() {
    assert_eq!(resolve_port_count(2), Ok(PortPlan::PromptForPort));
    assert_eq!(resolve_port_count(3), Ok(PortPlan::PromptForPort));
}

#[test]
fn selection_beyond_port_list_is_invalid() {
    let r = parse_selection(3, b"5\n");
    assert_eq!(r, Err(StartupError::InvalidPortSelection));
    assert_eq!(r.unwrap_err().message(), "invalid input port selected");
}

#[test]
fn selection_equal_to_port_count_is_invalid() {
    assert_eq!(parse_selection(3, b"3\n"), Err(StartupError::InvalidPortSelection));
}

#[test]
fn selection_in_range_is_accepted() {
    assert_eq!(parse_selection(3, b"2\n"), Ok(2));
    assert_eq!(parse_selection(1, b"0"), Ok(0));
}

#[test]
fn selection_is_trimmed_of_surrounding_whitespace() {
    assert_eq!(parse_selection(10, b"  7 \r\n"), Ok(7));
    assert_eq!(parse_selection(10, b"\t4\t"), Ok(4));
}

#[test]
fn selection_with_leading_zeros_keeps_its_value() {
    assert_eq!(parse_selection(10, b"0007\n"), Ok(7));
    assert_eq!(parse_selection(5, b"0007\n"), Err(StartupError::InvalidPortSelection));
}

#[test]
fn non_numeric_selection_is_rejected() {
    let r = parse_selection(3, b"abc\n");
    assert_eq!(r, Err(StartupError::SelectionNotNumeric));
    assert_eq!(r.unwrap_err().message(), "port selection is not a number");
    assert_eq!(parse_selection(3, b"1a\n"), Err(StartupError::SelectionNotNumeric));
    assert_eq!(parse_selection(3, b"-1\n"), Err(StartupError::SelectionNotNumeric));
    assert_eq!(parse_selection(3, b"2 0\n"), Err(StartupError::SelectionNotNumeric));
}

#[test]
fn empty_or_blank_selection_is_rejected() {
    assert_eq!(parse_selection(3, b""), Err(StartupError::SelectionNotNumeric));
    assert_eq!(parse_selection(3, b"\n"), Err(StartupError::SelectionNotNumeric));
    assert_eq!(parse_selection(3, b"   \r\n"), Err(StartupError::SelectionNotNumeric));
}

#[test]
fn oversized_number_is_an_invalid_selection() {
    // Far beyond any machine's address width, so the digit run cannot
    // name a port, whatever the port count.
    assert_eq!(
        parse_selection(usize::MAX, b"99999999999999999999999999\n"),
        Err(StartupError::InvalidPortSelection)
    );
}

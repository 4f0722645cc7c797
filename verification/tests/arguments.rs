use packet_commitments::arguments::{
    field_of_name, is_option_like, read_option, same_text, scan_args, ArgumentError, Field, Given,
};
use packet_commitments::identifier::ValidationError;

#[test]
fn same_text_compares_character_by_character() {
    assert!(same_text("", ""));
    assert!(same_text("chain", "chain"));
    assert!(!same_text("chain", "chan"));
    assert!(!same_text("chain", "chaim"));
    assert!(!same_text("port", "chan"));
    assert!(same_text("caf\u{e9}", "caf\u{e9}"));
    assert!(!same_text("caf\u{e9}", "cafe"));
}

#[test]
fn an_argument_behind_a_hyphen_looks_like_an_option() {
    assert!(is_option_like("--chain"));
    assert!(is_option_like("-x"));
    assert!(is_option_like("--"));
    assert!(is_option_like("-1"));
    assert!(!is_option_like("-"));
    assert!(!is_option_like(""));
    assert!(!is_option_like("transfer"));
    assert!(!is_option_like("a-b"));
}

#[test]
fn each_option_has_its_names() {
    assert_eq!(field_of_name("chain"), Some(Field::Chain));
    assert_eq!(field_of_name("port"), Some(Field::Port));
    assert_eq!(field_of_name("channel"), Some(Field::Channel));
    assert_eq!(field_of_name("chan"), Some(Field::Channel));
    assert_eq!(field_of_name(""), None);
    assert_eq!(field_of_name("cha"), None);
    assert_eq!(field_of_name("channels"), None);
    assert_eq!(field_of_name("Chain"), None);
    assert_eq!(field_of_name("height"), None);
}

#[test]
fn an_option_is_read_with_or_without_its_value() {
    assert_eq!(read_option("--chain"), Some((Field::Chain, None)));
    assert_eq!(read_option("--port"), Some((Field::Port, None)));
    assert_eq!(read_option("--chan"), Some((Field::Channel, None)));
    assert_eq!(read_option("--channel"), Some((Field::Channel, None)));
    assert_eq!(read_option("--chain=ibc-0"), Some((Field::Chain, Some("ibc-0"))));
    assert_eq!(read_option("--chan=channel-07"), Some((Field::Channel, Some("channel-07"))));
    assert_eq!(read_option("--port="), Some((Field::Port, Some(""))));
    assert_eq!(read_option("--port=a=b"), Some((Field::Port, Some("a=b"))));
    assert_eq!(read_option("--port=caf\u{e9}"), Some((Field::Port, Some("caf\u{e9}"))));
}

#[test]
fn what_is_no_option_of_the_command_is_not_read() {
    assert_eq!(read_option(""), None);
    assert_eq!(read_option("-"), None);
    assert_eq!(read_option("--"), None);
    assert_eq!(read_option("chain"), None);
    assert_eq!(read_option("-chain"), None);
    assert_eq!(read_option("---chain"), None);
    assert_eq!(read_option("--height"), None);
    assert_eq!(read_option("--=chain"), None);
    assert_eq!(read_option("--chains=ibc-0"), None);
}

#[test]
fn each_option_has_its_label() {
    assert_eq!(Field::Chain.label(), "--chain <CHAIN_ID>");
    assert_eq!(Field::Port.label(), "--port <PORT_ID>");
    assert_eq!(Field::Channel.label(), "--channel <CHANNEL_ID>");
}

#[test]
fn each_refusal_has_its_message() {
    assert_eq!(
        ArgumentError::UnexpectedArgument(3).message(),
        "found an argument that was not expected"
    );
    assert_eq!(
        ArgumentError::MissingValue(Field::Port).message(),
        "no value was supplied for --port <PORT_ID>"
    );
    assert_eq!(
        ArgumentError::Repeated(Field::Chain).message(),
        "more than one value was supplied for --chain <CHAIN_ID>"
    );
    assert_eq!(
        ArgumentError::MissingArgument(Field::Channel).message(),
        "a required argument was not provided: --channel <CHANNEL_ID>"
    );
    assert_eq!(
        ArgumentError::InvalidValue(Field::Port, ValidationError::Empty).message(),
        "invalid value for --port <PORT_ID>: identifier cannot be empty"
    );
}

#[test]
fn the_values_are_read_as_they_stand_in_the_line() {
    assert_eq!(
        scan_args(&["test", "--chan=channel-07", "--chain", "ibc-0", "--port", "p"]),
        Ok(Given { chain: Some("ibc-0"), port: Some("p"), channel: Some("channel-07") })
    );
}

#[test]
fn a_line_may_leave_options_out_when_it_is_scanned() {
    assert_eq!(scan_args(&["test"]), Ok(Given { chain: None, port: None, channel: None }));
    assert_eq!(
        scan_args(&["test", "--port", "transfer"]),
        Ok(Given { chain: None, port: Some("transfer"), channel: None })
    );
    let none: [&str; 0] = [];
    assert_eq!(scan_args(&none), Ok(Given { chain: None, port: None, channel: None }));
}

#[test]
fn the_scan_stops_at_the_first_argument_that_is_refused() {
    assert_eq!(
        scan_args(&["test", "--port", "a", "oops", "--port", "b"]),
        Err(ArgumentError::UnexpectedArgument(3))
    );
    assert_eq!(
        scan_args(&["test", "--port", "a", "--port", "b", "oops"]),
        Err(ArgumentError::Repeated(Field::Port))
    );
    assert_eq!(
        scan_args(&["test", "--port", "--chain", "oops"]),
        Err(ArgumentError::MissingValue(Field::Port))
    );
    assert_eq!(
        scan_args(&["test", "--chain", "a", "--chan"]),
        Err(ArgumentError::MissingValue(Field::Channel))
    );
}

#[test]
fn the_scan_ends_at_the_escape() {
    assert_eq!(
        scan_args(&["test", "--port", "transfer", "--"]),
        Ok(Given { chain: None, port: Some("transfer"), channel: None })
    );
    assert_eq!(
        scan_args(&["test", "--port", "transfer", "--", "--chain=ibc-0"]),
        Err(ArgumentError::UnexpectedArgument(4))
    );
    assert_eq!(
        scan_args(&["test", "--port", "--", "transfer"]),
        Err(ArgumentError::MissingValue(Field::Port))
    );
}

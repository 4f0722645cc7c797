use packet_commitments::arguments::{ArgumentError, Field};
use packet_commitments::command::QueryPacketCommitmentsCmd;
use packet_commitments::identifier::{ChainId, ChannelId, PortId, ValidationError};

fn command(chain: &str, port: &str, channel: &str) -> QueryPacketCommitmentsCmd {
    QueryPacketCommitmentsCmd {
        chain_id: ChainId::from_string(chain),
        port_id: PortId::from_str(port).unwrap(),
        channel_id: ChannelId::from_str(channel).unwrap(),
    }
}

#[test]
fn test_query_packet_commitments() {
    assert_eq!(
        QueryPacketCommitmentsCmd{ chain_id: ChainId::from_string("chain_id"), port_id: PortId::from_str("port_id").unwrap(), channel_id: ChannelId::from_str("channel-07").unwrap() },
        QueryPacketCommitmentsCmd::try_parse_from(&["test", "--chain", "chain_id", "--port", "port_id", "--chan", "channel-07"]).unwrap()
    )
}

#[test]
fn test_query_packet_commitments_no_chan() {
    assert!(QueryPacketCommitmentsCmd::try_parse_from(&["test", "--chain", "chain_id", "--port", "port_id"]).is_err())
}

#[test]
fn test_query_packet_commitments_no_port() {
    assert!(QueryPacketCommitmentsCmd::try_parse_from(&["test", "--chain", "chain_id", "--chan", "channel-07"]).is_err())
}

#[test]
fn test_query_packet_commitments_no_chain() {
    assert!(QueryPacketCommitmentsCmd::try_parse_from(&["test", "--port", "port_id", "--chan", "channel-07"]).is_err())
}

#[test]
fn each_omitted_option_is_named_in_the_error() {
    assert_eq!(
        QueryPacketCommitmentsCmd::try_parse_from(&["test", "--port", "port_id", "--chan", "channel-07"]),
        Err(ArgumentError::MissingArgument(Field::Chain))
    );
    assert_eq!(
        QueryPacketCommitmentsCmd::try_parse_from(&["test", "--chain", "chain_id", "--chan", "channel-07"]),
        Err(ArgumentError::MissingArgument(Field::Port))
    );
    assert_eq!(
        QueryPacketCommitmentsCmd::try_parse_from(&["test", "--chain", "chain_id", "--port", "port_id"]),
        Err(ArgumentError::MissingArgument(Field::Channel))
    );
}

#[test]
fn no_argument_at_all_misses_the_chain_first() {
    let none: [&str; 0] = [];
    assert_eq!(
        QueryPacketCommitmentsCmd::try_parse_from(&none),
        Err(ArgumentError::MissingArgument(Field::Chain))
    );
    assert_eq!(
        QueryPacketCommitmentsCmd::try_parse_from(&["test"]),
        Err(ArgumentError::MissingArgument(Field::Chain))
    );
}

#[test]
fn both_spellings_of_the_channel_option_parse_alike() {
    let short = QueryPacketCommitmentsCmd::try_parse_from(&[
        "test", "--chain", "ibc-0", "--port", "transfer", "--chan", "channel-07",
    ]);
    let long = QueryPacketCommitmentsCmd::try_parse_from(&[
        "test", "--chain", "ibc-0", "--port", "transfer", "--channel", "channel-07",
    ]);
    assert_eq!(short, long);
    assert_eq!(long, Ok(command("ibc-0", "transfer", "channel-07")));
}

#[test]
fn both_spellings_agree_with_an_equals_sign_and_in_refusals() {
    let short = QueryPacketCommitmentsCmd::try_parse_from(&[
        "test", "--chan=channel-07", "--chain", "ibc-0", "--port", "transfer",
    ]);
    let long = QueryPacketCommitmentsCmd::try_parse_from(&[
        "test", "--channel=channel-07", "--chain", "ibc-0", "--port", "transfer",
    ]);
    assert_eq!(short, long);
    assert_eq!(long, Ok(command("ibc-0", "transfer", "channel-07")));

    let short = QueryPacketCommitmentsCmd::try_parse_from(&["test", "--chan", "bad/id"]);
    let long = QueryPacketCommitmentsCmd::try_parse_from(&["test", "--channel", "bad/id"]);
    assert_eq!(short, long);
    assert_eq!(long, Err(ArgumentError::MissingArgument(Field::Chain)));
}

#[test]
fn the_two_spellings_count_as_one_option() {
    assert_eq!(
        QueryPacketCommitmentsCmd::try_parse_from(&[
            "test", "--chan", "channel-07", "--channel", "channel-08",
        ]),
        Err(ArgumentError::Repeated(Field::Channel))
    );
}

#[test]
fn options_may_come_in_any_order_and_with_equals_signs() {
    assert_eq!(
        QueryPacketCommitmentsCmd::try_parse_from(&[
            "test", "--channel=channel-07", "--port=transfer", "--chain=ibc-0",
        ]),
        Ok(command("ibc-0", "transfer", "channel-07"))
    );
    assert_eq!(
        QueryPacketCommitmentsCmd::try_parse_from(&[
            "test", "--port", "transfer", "--chain=ibc-0", "--chan", "channel-07",
        ]),
        Ok(command("ibc-0", "transfer", "channel-07"))
    );
}

#[test]
fn the_program_name_is_not_read() {
    assert_eq!(
        QueryPacketCommitmentsCmd::try_parse_from(&[
            "--chain", "--chain", "ibc-0", "--port", "transfer", "--channel", "channel-07",
        ]),
        Ok(command("ibc-0", "transfer", "channel-07"))
    );
}

#[test]
fn a_value_behind_an_equals_sign_may_hold_more_equals_signs_and_hyphens() {
    assert_eq!(
        QueryPacketCommitmentsCmd::try_parse_from(&[
            "test", "--chain=a=b", "--port=-x", "--channel", "channel-07",
        ]),
        Ok(command("a=b", "-x", "channel-07"))
    );
}

#[test]
fn a_lone_hyphen_is_a_value() {
    assert_eq!(
        QueryPacketCommitmentsCmd::try_parse_from(&[
            "test", "--chain", "-", "--port", "transfer", "--channel", "channel-07",
        ]),
        Ok(command("-", "transfer", "channel-07"))
    );
}

#[test]
fn an_empty_chain_identifier_is_accepted() {
    assert_eq!(
        QueryPacketCommitmentsCmd::try_parse_from(&[
            "test", "--chain=", "--port", "transfer", "--channel", "channel-07",
        ]),
        Ok(command("", "transfer", "channel-07"))
    );
    assert_eq!(
        QueryPacketCommitmentsCmd::try_parse_from(&[
            "test", "--chain", "", "--port", "transfer", "--channel", "channel-07",
        ]),
        Ok(command("", "transfer", "channel-07"))
    );
}

#[test]
fn an_argument_that_is_no_option_is_refused_with_its_index() {
    assert_eq!(
        QueryPacketCommitmentsCmd::try_parse_from(&[
            "test", "--chain", "ibc-0", "--port", "transfer", "--channel", "channel-07", "extra",
        ]),
        Err(ArgumentError::UnexpectedArgument(7))
    );
    assert_eq!(
        QueryPacketCommitmentsCmd::try_parse_from(&["test", "--height", "3"]),
        Err(ArgumentError::UnexpectedArgument(1))
    );
    assert_eq!(
        QueryPacketCommitmentsCmd::try_parse_from(&["test", "--chain", "ibc-0", "-p", "transfer"]),
        Err(ArgumentError::UnexpectedArgument(3))
    );
    assert_eq!(
        QueryPacketCommitmentsCmd::try_parse_from(&["test", "--cha", "ibc-0"]),
        Err(ArgumentError::UnexpectedArgument(1))
    );
    assert_eq!(
        QueryPacketCommitmentsCmd::try_parse_from(&["test", "--Chain", "ibc-0"]),
        Err(ArgumentError::UnexpectedArgument(1))
    );
}

#[test]
fn an_option_without_a_value_is_refused() {
    assert_eq!(
        QueryPacketCommitmentsCmd::try_parse_from(&["test", "--chain", "ibc-0", "--port"]),
        Err(ArgumentError::MissingValue(Field::Port))
    );
    assert_eq!(
        QueryPacketCommitmentsCmd::try_parse_from(&[
            "test", "--chain", "--port", "transfer", "--channel", "channel-07",
        ]),
        Err(ArgumentError::MissingValue(Field::Chain))
    );
    assert_eq!(
        QueryPacketCommitmentsCmd::try_parse_from(&["test", "--chan", "-x"]),
        Err(ArgumentError::MissingValue(Field::Channel))
    );
}

#[test]
fn an_option_given_twice_is_refused() {
    assert_eq!(
        QueryPacketCommitmentsCmd::try_parse_from(&[
            "test", "--chain", "ibc-0", "--chain", "ibc-1", "--port", "transfer",
        ]),
        Err(ArgumentError::Repeated(Field::Chain))
    );
    assert_eq!(
        QueryPacketCommitmentsCmd::try_parse_from(&["test", "--port=transfer", "--port"]),
        Err(ArgumentError::Repeated(Field::Port))
    );
}

#[test]
fn an_invalid_value_is_refused_with_its_option_and_reason() {
    assert_eq!(
        QueryPacketCommitmentsCmd::try_parse_from(&[
            "test", "--chain", "ibc-0", "--port", "p", "--channel", "channel-07",
        ]),
        Err(ArgumentError::InvalidValue(Field::Port, ValidationError::InvalidLength))
    );
    assert_eq!(
        QueryPacketCommitmentsCmd::try_parse_from(&[
            "test", "--chain", "ibc-0", "--port=", "--channel", "channel-07",
        ]),
        Err(ArgumentError::InvalidValue(Field::Port, ValidationError::Empty))
    );
    assert_eq!(
        QueryPacketCommitmentsCmd::try_parse_from(&[
            "test", "--chain", "ibc-0", "--port", "transfer", "--channel", "channel/07",
        ]),
        Err(ArgumentError::InvalidValue(Field::Channel, ValidationError::ContainSeparator))
    );
    assert_eq!(
        QueryPacketCommitmentsCmd::try_parse_from(&[
            "test", "--chain", "ibc-0", "--port", "transfer", "--channel", "channel@07",
        ]),
        Err(ArgumentError::InvalidValue(Field::Channel, ValidationError::InvalidCharacter))
    );
}

#[test]
fn the_port_is_checked_before_the_channel_and_presence_before_validity() {
    assert_eq!(
        QueryPacketCommitmentsCmd::try_parse_from(&[
            "test", "--channel", "c", "--port", "p", "--chain", "ibc-0",
        ]),
        Err(ArgumentError::InvalidValue(Field::Port, ValidationError::InvalidLength))
    );
    assert_eq!(
        QueryPacketCommitmentsCmd::try_parse_from(&["test", "--port", "p", "--chain", "ibc-0"]),
        Err(ArgumentError::MissingArgument(Field::Channel))
    );
}

#[test]
fn a_command_is_cloned_with_its_identifiers() {
    let cmd = command("ibc-0", "transfer", "channel-07");
    assert_eq!(cmd.clone(), cmd);
    assert_eq!(cmd.clone().chain_id.as_str(), "ibc-0");
    assert_eq!(cmd.clone().port_id.as_str(), "transfer");
    assert_eq!(cmd.clone().channel_id.as_str(), "channel-07");
}

#[test]
fn the_escape_may_end_the_line() {
    assert_eq!(
        QueryPacketCommitmentsCmd::try_parse_from(&[
            "test", "--chain", "ibc-0", "--port", "transfer", "--channel", "channel-07", "--",
        ]),
        Ok(command("ibc-0", "transfer", "channel-07"))
    );
    assert_eq!(
        QueryPacketCommitmentsCmd::try_parse_from(&["test", "--"]),
        Err(ArgumentError::MissingArgument(Field::Chain))
    );
}

#[test]
fn nothing_may_follow_the_escape() {
    assert_eq!(
        QueryPacketCommitmentsCmd::try_parse_from(&[
            "test", "--chain", "ibc-0", "--port", "transfer", "--", "--channel", "channel-07",
        ]),
        Err(ArgumentError::UnexpectedArgument(6))
    );
    assert_eq!(
        QueryPacketCommitmentsCmd::try_parse_from(&["test", "--", "--"]),
        Err(ArgumentError::UnexpectedArgument(2))
    );
    assert_eq!(
        QueryPacketCommitmentsCmd::try_parse_from(&["test", "--", "transfer"]),
        Err(ArgumentError::UnexpectedArgument(2))
    );
}

#[test]
fn the_escape_is_no_value() {
    assert_eq!(
        QueryPacketCommitmentsCmd::try_parse_from(&[
            "test", "--chain", "ibc-0", "--port", "transfer", "--channel", "--", "channel-07",
        ]),
        Err(ArgumentError::MissingValue(Field::Channel))
    );
    assert_eq!(
        QueryPacketCommitmentsCmd::try_parse_from(&["test", "--chain", "--"]),
        Err(ArgumentError::MissingValue(Field::Chain))
    );
}

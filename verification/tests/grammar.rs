use std::str::FromStr;

use packet_commitments::command::QueryPacketCommitmentsCmd;

/// The three identifiers that `clap` reads off a command line, where the
/// command is declared with its three required options.
fn by_clap(args: &[&str]) -> Option<(String, String, String)> {
    let command = clap::Command::new("test")
        .arg(
            clap::Arg::new("chain_id")
                .long("chain")
                .takes_value(true)
                .value_name("CHAIN_ID")
                .required(true)
                .validator(|s| {
                    ibc::core::ics24_host::identifier::ChainId::from_str(s).map(|_| ())
                }),
        )
        .arg(
            clap::Arg::new("port_id")
                .long("port")
                .takes_value(true)
                .value_name("PORT_ID")
                .required(true)
                .validator(|s| {
                    ibc::core::ics24_host::identifier::PortId::from_str(s).map(|_| ())
                }),
        )
        .arg(
            clap::Arg::new("channel_id")
                .long("channel")
                .alias("chan")
                .takes_value(true)
                .value_name("CHANNEL_ID")
                .required(true)
                .validator(|s| {
                    ibc::core::ics24_host::identifier::ChannelId::from_str(s).map(|_| ())
                }),
        );
    let matches = command.try_get_matches_from(args).ok()?;
    Some((
        matches.get_one::<String>("chain_id")?.clone(),
        matches.get_one::<String>("port_id")?.clone(),
        matches.get_one::<String>("channel_id")?.clone(),
    ))
}

/// The three identifiers that the library reads off a command line.
fn by_library(args: &[&str]) -> Option<(String, String, String)> {
    let cmd = QueryPacketCommitmentsCmd::try_parse_from(args).ok()?;
    Some((
        cmd.chain_id.as_str().to_string(),
        cmd.port_id.as_str().to_string(),
        cmd.channel_id.as_str().to_string(),
    ))
}

const WORDS: [&str; 36] = [
    "--chain", "--port", "--channel", "--chan", "--chain=ibc-0", "--port=transfer",
    "--chan=channel-07", "--channel=channel-08", "ibc-0", "transfer", "channel-07", "p", "-x",
    "-", "--", "", "--port=", "--height", "--cha", "-h", "--help", "--chain=", "=", "--=x",
    "---chain", "--chain ibc-0", "-c", "--chan=", "--channel=--port", "--port=-x", "--CHAIN",
    "--chains", "--port=a=b", "-1", "--version", "-V",
];

#[test]
fn short_lines_are_read_as_clap_reads_them() {
    assert_eq!(by_library(&["test"]), by_clap(&["test"]));
    for a in WORDS {
        assert_eq!(by_library(&["test", a]), by_clap(&["test", a]));
        for b in WORDS {
            assert_eq!(by_library(&["test", a, b]), by_clap(&["test", a, b]));
            for c in WORDS {
                let line = ["test", a, b, c];
                assert_eq!(by_library(&line), by_clap(&line), "{:?}", line);
            }
        }
    }
}

#[test]
fn full_lines_are_read_as_clap_reads_them_whatever_is_put_in_between() {
    let chains: [&[&str]; 2] = [&["--chain", "ibc-0"], &["--chain=ibc-0"]];
    let ports: [&[&str]; 3] = [&["--port", "transfer"], &["--port=transfer"], &["--port", "p"]];
    let channels: [&[&str]; 4] = [
        &["--channel", "channel-07"],
        &["--chan", "channel-07"],
        &["--chan=channel-07"],
        &["--channel", "c/d"],
    ];
    let mut accepted = 0;
    for chain in chains {
        for port in ports {
            for channel in channels {
                let orders: [[&[&str]; 3]; 6] = [
                    [chain, port, channel],
                    [chain, channel, port],
                    [port, chain, channel],
                    [port, channel, chain],
                    [channel, chain, port],
                    [channel, port, chain],
                ];
                for order in orders {
                    let mut line = vec!["test"];
                    for part in order {
                        line.extend_from_slice(part);
                    }
                    assert_eq!(by_library(&line), by_clap(&line), "{:?}", line);
                    if by_library(&line).is_some() {
                        accepted += 1;
                    }
                    for at in 1..=line.len() {
                        for extra in WORDS {
                            let mut longer = line.clone();
                            longer.insert(at, extra);
                            assert_eq!(by_library(&longer), by_clap(&longer), "{:?}", longer);
                        }
                    }
                }
            }
        }
    }
    // Two spellings of the chain, two of the port and three of the channel are
    // valid, in six orders.
    assert_eq!(accepted, 2 * 2 * 3 * 6);
}

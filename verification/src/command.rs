//! The query command and its reading from a command line.

use crate::arguments::{
    field_named, find_equals, inline_value, is_escape, lemma_escape_is_no_option,
    looks_like_option, option_name, option_of, read, scan, scan_args, ArgumentError, Field, Slots,
};
use crate::identifier::{channel_id_fault, port_id_fault, ChainId, ChannelId, PortId};
use vstd::prelude::*;

verus! {

/// Query the packet commitments of the channel end `port_id`/`channel_id` on
/// the chain `chain_id`.
#[derive(Debug)]
pub struct QueryPacketCommitmentsCmd {
    /// Identifier of the chain to query.
    pub chain_id: ChainId,
    /// Identifier of the port to query.
    pub port_id: PortId,
    /// Identifier of the channel to query.
    pub channel_id: ChannelId,
}

impl PartialEq for QueryPacketCommitmentsCmd {
    fn eq(&self, other: &Self) -> (r: bool) {
        self.chain_id == other.chain_id && self.port_id == other.port_id && self.channel_id
            == other.channel_id
    }
}

impl Eq for QueryPacketCommitmentsCmd {}

impl vstd::std_specs::cmp::PartialEqSpecImpl for QueryPacketCommitmentsCmd {
    open spec fn obeys_eq_spec() -> bool {
        true
    }

    open spec fn eq_spec(&self, other: &Self) -> bool {
        self@ == other@
    }
}

impl Clone for QueryPacketCommitmentsCmd {
    fn clone(&self) -> (r: Self)
        ensures
            r@ == self@,
    {
        QueryPacketCommitmentsCmd {
            chain_id: self.chain_id.clone(),
            port_id: self.port_id.clone(),
            channel_id: self.channel_id.clone(),
        }
    }
}

/// A command as the text of its three identifiers.
pub struct CommandView {
    pub chain_id: Seq<char>,
    pub port_id: Seq<char>,
    pub channel_id: Seq<char>,
}

impl View for QueryPacketCommitmentsCmd {
    type V = CommandView;

    open spec fn view(&self) -> CommandView {
        CommandView {
            chain_id: self.chain_id@,
            port_id: self.port_id@,
            channel_id: self.channel_id@,
        }
    }
}

/// The command that the values in `slots` make: each option must have its
/// value, and the port and the channel must be identifiers of their kind. The
/// first of these to fail, in the order chain, port, channel, with presence
/// before validity, decides the error.
pub open spec fn command_of(slots: Slots) -> Result<CommandView, ArgumentError> {
    if slots.chain is None {
        Err(ArgumentError::MissingArgument(Field::Chain))
    } else if slots.port is None {
        Err(ArgumentError::MissingArgument(Field::Port))
    } else if slots.channel is None {
        Err(ArgumentError::MissingArgument(Field::Channel))
    } else if port_id_fault(slots.port->0) is Some {
        Err(ArgumentError::InvalidValue(Field::Port, port_id_fault(slots.port->0)->0))
    } else if channel_id_fault(slots.channel->0) is Some {
        Err(ArgumentError::InvalidValue(Field::Channel, channel_id_fault(slots.channel->0)->0))
    } else {
        Ok(
            CommandView {
                chain_id: slots.chain->0,
                port_id: slots.port->0,
                channel_id: slots.channel->0,
            },
        )
    }
}

/// What a command line means. `args[0]` is the program's name; the arguments
/// behind it are read left to right, and then the values are checked.
pub open spec fn parse_args(args: Seq<Seq<char>>) -> Result<CommandView, ArgumentError> {
    match scan(args, 1, Slots::empty(), None) {
        Err(e) => Err(e),
        Ok(slots) => command_of(slots),
    }
}

/// Whether the argument `t` gives the option `f`, under any of its spellings
/// and with or without a value behind an equals sign.
pub open spec fn names(t: Seq<char>, f: Field) -> bool {
    option_of(t) matches Some((g, _)) && g == f
}

/// Whether some argument behind the program's name gives the option `f`.
pub open spec fn gives(args: Seq<Seq<char>>, f: Field) -> bool {
    exists|i: int| 1 <= i < args.len() && names(#[trigger] args[i], f)
}

/// Whether `x` and `y` are the two spellings of the channel option, `--chan`
/// and `--channel` in either order, followed by `rest`: nothing, or an equals
/// sign and a value.
pub open spec fn spells_channel(x: Seq<char>, y: Seq<char>, rest: Seq<char>) -> bool {
    &&& rest.len() == 0 || rest[0] == '='
    &&& (x == "--chan"@ + rest && y == "--channel"@ + rest) || (x == "--channel"@ + rest && y
        == "--chan"@ + rest)
}

/// Whether `x` and `y` differ only in how they spell the channel option.
pub open spec fn respelled(x: Seq<char>, y: Seq<char>) -> bool {
    exists|rest: Seq<char>| #[trigger] spells_channel(x, y, rest)
}

/// An option that no argument gives has no value after the scan.
proof fn lemma_scan_leaves_empty(
    args: Seq<Seq<char>>,
    i: int,
    slots: Slots,
    pending: Option<Field>,
    f: Field,
)
    requires
        0 <= i,
        forall|j: int| i <= j < args.len() ==> !names(#[trigger] args[j], f),
        slots.get(f) is None,
        pending != Some(f),
    ensures
        scan(args, i, slots, pending) matches Ok(found) ==> found.get(f) is None,
    decreases args.len() - i,
{
    if i < args.len() {
        assert(!names(args[i], f));
        match read(args[i], i, slots, pending) {
            Err(_) => {},
            Ok((slots, pending)) => {
                lemma_scan_leaves_empty(args, i + 1, slots, pending, f);
            },
        }
    }
}

/// A command line that does not give one of the three options is refused.
pub proof fn lemma_omitted_option_is_refused(args: Seq<Seq<char>>, f: Field)
    requires
        !gives(args, f),
    ensures
        parse_args(args) is Err,
{
    assert forall|j: int| 1 <= j < args.len() implies !names(#[trigger] args[j], f) by {}
    lemma_scan_leaves_empty(args, 1, Slots::empty(), None, f);
}

/// Both spellings of the channel option, with the same `rest` behind them,
/// give the channel option with the same value.
proof fn lemma_spellings_give_channel(rest: Seq<char>)
    requires
        rest.len() == 0 || rest[0] == '=',
    ensures
        option_of("--chan"@ + rest) is Some,
        option_of("--chan"@ + rest) == option_of("--channel"@ + rest),
{
    reveal_strlit("--chan");
    reveal_strlit("--channel");
    reveal_strlit("chan");
    reveal_strlit("channel");
    reveal_strlit("chain");
    reveal_strlit("port");
    let short = "--chan"@ + rest;
    let long = "--channel"@ + rest;
    assert(find_equals(short, 2) == 6) by {
        reveal_with_fuel(find_equals, 6);
    }
    assert(find_equals(long, 2) == 9) by {
        reveal_with_fuel(find_equals, 9);
    }
    assert(option_name(short) =~= "chan"@);
    assert(option_name(long) =~= "channel"@);
    assert("chan"@[0] != "port"@[0]);
    assert(field_named("chan"@) == Some(Field::Channel));
    assert(field_named("channel"@) == Some(Field::Channel));
    if rest.len() > 0 {
        assert(inline_value(short)->0 =~= rest.subrange(1, rest.len() as int));
        assert(inline_value(long)->0 =~= rest.subrange(1, rest.len() as int));
    }
}

/// The scan reads an argument only through the option that it gives: two
/// command lines scan alike where each argument of one equals its partner in
/// the other or gives the same option with the same value.
proof fn lemma_scan_reads_options(
    a: Seq<Seq<char>>,
    b: Seq<Seq<char>>,
    i: int,
    slots: Slots,
    pending: Option<Field>,
)
    requires
        0 <= i,
        a.len() == b.len(),
        forall|j: int|
            i <= j < a.len() ==> #[trigger] a[j] == b[j] || (option_of(a[j]) is Some && option_of(
                a[j],
            ) == option_of(b[j])),
    ensures
        scan(a, i, slots, pending) == scan(b, i, slots, pending),
    decreases a.len() - i,
{
    if i < a.len() {
        lemma_escape_is_no_option();
        assert(a[i] == b[i] || (option_of(a[i]) is Some && option_of(a[i]) == option_of(b[i])));
        assert(is_escape(a[i]) == is_escape(b[i]));
        assert(read(a[i], i, slots, pending) == read(b[i], i, slots, pending));
        match read(a[i], i, slots, pending) {
            Err(_) => {},
            Ok((slots, pending)) => {
                lemma_scan_reads_options(a, b, i + 1, slots, pending);
            },
        }
    }
}

/// The two spellings of the channel option mean the same: command lines that
/// differ only in that spelling are read alike, to the same command or to the
/// same refusal.
pub proof fn lemma_channel_spellings_agree(a: Seq<Seq<char>>, b: Seq<Seq<char>>)
    requires
        a.len() == b.len(),
        forall|i: int| 1 <= i < a.len() ==> #[trigger] a[i] == b[i] || respelled(a[i], b[i]),
    ensures
        parse_args(a) == parse_args(b),
{
    assert forall|j: int| 1 <= j < a.len() implies #[trigger] a[j] == b[j] || (option_of(a[j])
        is Some && option_of(a[j]) == option_of(b[j])) by {
        if a[j] != b[j] {
            assert(respelled(a[j], b[j]));
            let rest = choose|rest: Seq<char>| spells_channel(a[j], b[j], rest);
            lemma_spellings_give_channel(rest);
        }
    }
    lemma_scan_reads_options(a, b, 1, Slots::empty(), None);
}

/// The port and the channel of a command that was read off a command line are
/// identifiers of their kind.
pub proof fn lemma_accepted_command_is_valid(args: Seq<Seq<char>>)
    requires
        parse_args(args) is Ok,
    ensures
        port_id_fault(parse_args(args)->Ok_0.port_id) is None,
        channel_id_fault(parse_args(args)->Ok_0.channel_id) is None,
{
}

/// Whether the value `v` is given for the option `f` at index `i` of `args`:
/// behind an equals sign in that argument, or as the argument that follows.
pub open spec fn given_at(args: Seq<Seq<char>>, i: int, f: Field, v: Seq<char>) -> bool {
    &&& 1 <= i < args.len()
    &&& option_of(args[i]) == Some((f, Some(v))) || (option_of(args[i]) == Some(
        (f, None::<Seq<char>>),
    ) && i + 1 < args.len() && args[i + 1] == v)
}

/// Whether every value in `slots` is given for its option somewhere in `args`.
pub open spec fn all_given(args: Seq<Seq<char>>, slots: Slots) -> bool {
    forall|f: Field|
        slots.get(f) is Some ==> exists|i: int| #[trigger] given_at(args, i, f, slots.get(f)->0)
}

/// The scan fills a place only with a value that the command line gives for
/// that option.
proof fn lemma_scan_takes_what_is_given(
    args: Seq<Seq<char>>,
    i: int,
    slots: Slots,
    pending: Option<Field>,
)
    requires
        1 <= i,
        all_given(args, slots),
        pending matches Some(f) ==> i - 1 >= 1 && i - 1 < args.len() && option_of(args[i - 1])
            == Some((f, None::<Seq<char>>)),
    ensures
        scan(args, i, slots, pending) matches Ok(found) ==> all_given(args, found),
    decreases args.len() - i,
{
    if i < args.len() {
        match read(args[i], i, slots, pending) {
            Err(_) => {},
            Ok((filled, waiting)) => {
                assert(all_given(args, filled)) by {
                    assert forall|f: Field| filled.get(f) is Some implies exists|j: int| #[trigger]
                        given_at(args, j, f, filled.get(f)->0) by {
                        if slots.get(f) == filled.get(f) {
                            let j = choose|j: int| given_at(args, j, f, slots.get(f)->0);
                            assert(given_at(args, j, f, filled.get(f)->0));
                        } else if pending is Some {
                            assert(given_at(args, i - 1, f, filled.get(f)->0));
                        } else {
                            assert(given_at(args, i, f, filled.get(f)->0));
                        }
                    }
                }
                lemma_scan_takes_what_is_given(args, i + 1, filled, waiting);
            },
        }
    }
}

/// A command that was read off a command line holds what the line gives: each
/// of its three identifiers is the value of its option somewhere in the line.
pub proof fn lemma_accepted_command_is_given(args: Seq<Seq<char>>)
    requires
        parse_args(args) is Ok,
    ensures
        exists|i: int| #[trigger] given_at(args, i, Field::Chain, parse_args(args)->Ok_0.chain_id),
        exists|i: int| #[trigger] given_at(args, i, Field::Port, parse_args(args)->Ok_0.port_id),
        exists|i: int| #[trigger]
            given_at(args, i, Field::Channel, parse_args(args)->Ok_0.channel_id),
{
    lemma_scan_takes_what_is_given(args, 1, Slots::empty(), None);
    let found = scan(args, 1, Slots::empty(), None)->Ok_0;
    let cmd = parse_args(args)->Ok_0;
    assert(all_given(args, found));
    assert(found.get(Field::Chain) == Some(cmd.chain_id));
    assert(found.get(Field::Port) == Some(cmd.port_id));
    assert(found.get(Field::Channel) == Some(cmd.channel_id));
    let c = choose|i: int| given_at(args, i, Field::Chain, found.get(Field::Chain)->0);
    assert(given_at(args, c, Field::Chain, cmd.chain_id));
    let p = choose|i: int| given_at(args, i, Field::Port, found.get(Field::Port)->0);
    assert(given_at(args, p, Field::Port, cmd.port_id));
    let h = choose|i: int| given_at(args, i, Field::Channel, found.get(Field::Channel)->0);
    assert(given_at(args, h, Field::Channel, cmd.channel_id));
}

/// A command line that gives the three options in turn, each followed by its
/// value, is accepted with these values, provided that no value looks like an
/// option and that the port and the channel are identifiers of their kind.
pub proof fn lemma_plain_line_is_accepted(
    program: Seq<char>,
    chain: Seq<char>,
    port: Seq<char>,
    channel: Seq<char>,
)
    requires
        !looks_like_option(chain),
        !looks_like_option(port),
        !looks_like_option(channel),
        port_id_fault(port) is None,
        channel_id_fault(channel) is None,
    ensures
        parse_args(seq![program, "--chain"@, chain, "--port"@, port, "--channel"@, channel])
            == Ok::<CommandView, ArgumentError>(
            CommandView { chain_id: chain, port_id: port, channel_id: channel },
        ),
{
    reveal_strlit("--chain");
    reveal_strlit("--port");
    reveal_strlit("--channel");
    reveal_strlit("chain");
    reveal_strlit("port");
    reveal_strlit("channel");
    reveal_strlit("chan");
    let line = seq![program, "--chain"@, chain, "--port"@, port, "--channel"@, channel];
    assert(option_of(line[1]) == Some((Field::Chain, None::<Seq<char>>))) by {
        reveal_with_fuel(find_equals, 6);
        assert(find_equals(line[1], 2) == 7);
        assert(option_name(line[1]) =~= "chain"@);
    }
    assert(option_of(line[3]) == Some((Field::Port, None::<Seq<char>>))) by {
        reveal_with_fuel(find_equals, 5);
        assert(find_equals(line[3], 2) == 6);
        assert(option_name(line[3]) =~= "port"@);
        assert("port"@[0] != "chain"@[0]);
    }
    assert(option_of(line[5]) == Some((Field::Channel, None::<Seq<char>>))) by {
        reveal_with_fuel(find_equals, 8);
        assert(find_equals(line[5], 2) == 9);
        assert(option_name(line[5]) =~= "channel"@);
        assert("channel"@[0] != "port"@[0]);
    }
    lemma_escape_is_no_option();
    let s0 = Slots::empty();
    let s1 = s0.set(Field::Chain, chain);
    let s2 = s1.set(Field::Port, port);
    let s3 = s2.set(Field::Channel, channel);
    assert(scan(line, 7, s3, None) == Ok::<Slots, ArgumentError>(s3));
    assert(scan(line, 6, s2, Some(Field::Channel)) == scan(line, 7, s3, None));
    assert(scan(line, 5, s2, None) == scan(line, 6, s2, Some(Field::Channel)));
    assert(scan(line, 4, s1, Some(Field::Port)) == scan(line, 5, s2, None));
    assert(scan(line, 3, s1, None) == scan(line, 4, s1, Some(Field::Port)));
    assert(scan(line, 2, s0, Some(Field::Chain)) == scan(line, 3, s1, None));
    assert(scan(line, 1, s0, None) == scan(line, 2, s0, Some(Field::Chain)));
}

impl QueryPacketCommitmentsCmd {
    /// Reads the command from a command line, or says why the line is refused.
    pub fn try_parse_from(args: &[&str]) -> (r: Result<QueryPacketCommitmentsCmd, ArgumentError>)
        ensures
            match parse_args(args.deep_view()) {
                Ok(v) => r is Ok && r->Ok_0@ == v,
                Err(e) => r == Err::<QueryPacketCommitmentsCmd, ArgumentError>(e),
            },
    {
        let given = match scan_args(args) {
            Ok(given) => given,
            Err(e) => {
                return Err(e);
            },
        };
        let chain = match given.chain {
            Some(v) => v,
            None => {
                return Err(ArgumentError::MissingArgument(Field::Chain));
            },
        };
        let port = match given.port {
            Some(v) => v,
            None => {
                return Err(ArgumentError::MissingArgument(Field::Port));
            },
        };
        let channel = match given.channel {
            Some(v) => v,
            None => {
                return Err(ArgumentError::MissingArgument(Field::Channel));
            },
        };
        let port_id = match PortId::from_str(port) {
            Ok(id) => id,
            Err(e) => {
                return Err(ArgumentError::InvalidValue(Field::Port, e));
            },
        };
        let channel_id = match ChannelId::from_str(channel) {
            Ok(id) => id,
            Err(e) => {
                return Err(ArgumentError::InvalidValue(Field::Channel, e));
            },
        };
        Ok(QueryPacketCommitmentsCmd { chain_id: ChainId::from_string(chain), port_id, channel_id })
    }
}

} // verus!

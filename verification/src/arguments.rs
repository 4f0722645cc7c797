//! The grammar of the command line.
//!
//! The command takes three options, `--chain`, `--port` and `--channel`, the
//! last also spelled `--chan`. Each is required, takes one value and may be
//! given once, in any order. The value follows an equals sign
//! (`--port=transfer`) or is the next argument (`--port transfer`); as the next
//! argument it may not begin with a hyphen, unless it is the hyphen alone. The
//! first argument is the program's name and is not read. The escape `--` ends
//! the options; as the command takes nothing but options, nothing may follow
//! it. Anything else on the command line is refused.

use crate::identifier::{reason_text, ValidationError};
use vstd::prelude::*;

verus! {

/// One of the three options of the command.
#[derive(Clone, Copy, Debug, PartialEq, Eq, Structural)]
pub enum Field {
    /// `--chain`: the chain to query.
    Chain,
    /// `--port`: the port of the channel end.
    Port,
    /// `--channel` or `--chan`: the channel of the channel end.
    Channel,
}

/// Why a command line is refused.
#[derive(Clone, Copy, Debug, PartialEq, Eq, Structural)]
pub enum ArgumentError {
    /// The argument at this index is neither an option of the command nor the
    /// value of one.
    UnexpectedArgument(usize),
    /// The option is not followed by a value.
    MissingValue(Field),
    /// The option is given a second time.
    Repeated(Field),
    /// The option is not given.
    MissingArgument(Field),
    /// The option's value is no identifier of its kind.
    InvalidValue(Field, ValidationError),
}

/// How the usage of the command writes an option.
pub open spec fn label_text(f: Field) -> Seq<char> {
    match f {
        Field::Chain => "--chain <CHAIN_ID>"@,
        Field::Port => "--port <PORT_ID>"@,
        Field::Channel => "--channel <CHANNEL_ID>"@,
    }
}

/// What is wrong with a command line that was refused for `e`, in words.
pub open spec fn argument_text(e: ArgumentError) -> Seq<char> {
    match e {
        ArgumentError::UnexpectedArgument(_) => "found an argument that was not expected"@,
        ArgumentError::MissingValue(f) => "no value was supplied for "@ + label_text(f),
        ArgumentError::Repeated(f) => "more than one value was supplied for "@ + label_text(f),
        ArgumentError::MissingArgument(f) => "a required argument was not provided: "@
            + label_text(f),
        ArgumentError::InvalidValue(f, why) => "invalid value for "@ + label_text(f) + ": "@
            + reason_text(why),
    }
}

impl Field {
    /// How the usage of the command writes the option.
    pub fn label(&self) -> (s: &'static str)
        ensures
            s@ == label_text(*self),
    {
        match self {
            Field::Chain => "--chain <CHAIN_ID>",
            Field::Port => "--port <PORT_ID>",
            Field::Channel => "--channel <CHANNEL_ID>",
        }
    }
}

impl ArgumentError {
    /// What is wrong with the command line, in words.
    pub fn message(&self) -> (s: String)
        ensures
            s@ == argument_text(*self),
    {
        match self {
            ArgumentError::UnexpectedArgument(_) => {
                "found an argument that was not expected".to_owned()
            },
            ArgumentError::MissingValue(f) => {
                let mut s = "no value was supplied for ".to_owned();
                s.append(f.label());
                s
            },
            ArgumentError::Repeated(f) => {
                let mut s = "more than one value was supplied for ".to_owned();
                s.append(f.label());
                s
            },
            ArgumentError::MissingArgument(f) => {
                let mut s = "a required argument was not provided: ".to_owned();
                s.append(f.label());
                s
            },
            ArgumentError::InvalidValue(f, why) => {
                let mut s = "invalid value for ".to_owned();
                s.append(f.label());
                s.append(": ");
                s.append(why.reason());
                s
            },
        }
    }
}

/// Whether an argument begins with a hyphen and holds more than the hyphen.
/// Such an argument is never read as the value of the option before it.
pub open spec fn looks_like_option(t: Seq<char>) -> bool {
    t.len() >= 2 && t[0] == '-'
}

/// Whether an argument begins with two hyphens.
pub open spec fn is_long(t: Seq<char>) -> bool {
    t.len() >= 2 && t[0] == '-' && t[1] == '-'
}

/// The index of the first equals sign of `t` at or behind `from`, or the
/// length of `t` where there is none.
pub open spec fn find_equals(t: Seq<char>, from: int) -> int
    decreases t.len() - from,
{
    if from >= t.len() {
        t.len() as int
    } else if t[from] == '=' {
        from
    } else {
        find_equals(t, from + 1)
    }
}

/// The name in an argument that begins with two hyphens: what stands between
/// them and the first equals sign.
pub open spec fn option_name(t: Seq<char>) -> Seq<char> {
    t.subrange(2, find_equals(t, 2))
}

/// The value behind the first equals sign of an argument that begins with two
/// hyphens, if it has one.
pub open spec fn inline_value(t: Seq<char>) -> Option<Seq<char>> {
    let k = find_equals(t, 2);
    if k < t.len() {
        Some(t.subrange(k + 1, t.len() as int))
    } else {
        None
    }
}

/// The option that a name stands for.
pub open spec fn field_named(name: Seq<char>) -> Option<Field> {
    if name == "chain"@ {
        Some(Field::Chain)
    } else if name == "port"@ {
        Some(Field::Port)
    } else if name == "channel"@ || name == "chan"@ {
        Some(Field::Channel)
    } else {
        None
    }
}

/// The option that an argument gives, with the value where the argument
/// holds it; `None` where the argument is no option of the command.
pub open spec fn option_of(t: Seq<char>) -> Option<(Field, Option<Seq<char>>)> {
    if is_long(t) {
        match field_named(option_name(t)) {
            Some(f) => Some((f, inline_value(t))),
            None => None,
        }
    } else {
        None
    }
}

/// The values read so far, one place for each option.
pub struct Slots {
    pub chain: Option<Seq<char>>,
    pub port: Option<Seq<char>>,
    pub channel: Option<Seq<char>>,
}

impl Slots {
    /// No value read.
    pub open spec fn empty() -> Slots {
        Slots { chain: None, port: None, channel: None }
    }

    /// The value read for `f`.
    pub open spec fn get(self, f: Field) -> Option<Seq<char>> {
        match f {
            Field::Chain => self.chain,
            Field::Port => self.port,
            Field::Channel => self.channel,
        }
    }

    /// These values with `v` read for `f`.
    pub open spec fn set(self, f: Field, v: Seq<char>) -> Slots {
        match f {
            Field::Chain => Slots { chain: Some(v), ..self },
            Field::Port => Slots { port: Some(v), ..self },
            Field::Channel => Slots { channel: Some(v), ..self },
        }
    }
}

/// Reads the argument `t`, which stands at index `i`, after `slots` were
/// filled and while the option `pending`, if any, waits for its value.
pub open spec fn read(t: Seq<char>, i: int, slots: Slots, pending: Option<Field>) -> Result<
    (Slots, Option<Field>),
    ArgumentError,
> {
    match pending {
        Some(f) => if looks_like_option(t) {
            Err(ArgumentError::MissingValue(f))
        } else {
            Ok((slots.set(f, t), None))
        },
        None => match option_of(t) {
            None => Err(ArgumentError::UnexpectedArgument(i as usize)),
            Some((f, value)) => if slots.get(f) is Some {
                Err(ArgumentError::Repeated(f))
            } else {
                match value {
                    Some(v) => Ok((slots.set(f, v), None)),
                    None => Ok((slots, Some(f))),
                }
            },
        },
    }
}

/// Whether an argument is the escape that ends the options.
pub open spec fn is_escape(t: Seq<char>) -> bool {
    t == "--"@
}

/// The escape is no option of the command.
pub proof fn lemma_escape_is_no_option()
    ensures
        option_of("--"@) is None,
{
    reveal_strlit("--");
    reveal_strlit("chain");
    reveal_strlit("port");
    reveal_strlit("channel");
    reveal_strlit("chan");
    assert(option_name("--"@).len() == 0);
}

/// Reads the arguments from index `i` on, left to right, and stops at the
/// first that is refused. An option that still waits for its value at the end
/// is refused too. The escape, where no option waits for its value, ends the
/// reading: an argument behind it is refused.
pub open spec fn scan(args: Seq<Seq<char>>, i: int, slots: Slots, pending: Option<Field>) -> Result<
    Slots,
    ArgumentError,
>
    decreases args.len() - i,
{
    if i >= args.len() {
        match pending {
            Some(f) => Err(ArgumentError::MissingValue(f)),
            None => Ok(slots),
        }
    } else if pending is None && is_escape(args[i]) {
        if i + 1 < args.len() {
            Err(ArgumentError::UnexpectedArgument((i + 1) as usize))
        } else {
            Ok(slots)
        }
    } else {
        match read(args[i], i, slots, pending) {
            Err(e) => Err(e),
            Ok((slots, pending)) => scan(args, i + 1, slots, pending),
        }
    }
}

/// The text of an optional string.
pub open spec fn text_of(s: Option<&str>) -> Option<Seq<char>> {
    match s {
        Some(s) => Some(s@),
        None => None,
    }
}

/// The values that a command line gives for the three options, as they stand
/// in it.
#[derive(Clone, Copy, Debug, PartialEq, Eq)]
pub struct Given<'a> {
    /// The value of `--chain`.
    pub chain: Option<&'a str>,
    /// The value of `--port`.
    pub port: Option<&'a str>,
    /// The value of `--channel`.
    pub channel: Option<&'a str>,
}

impl<'a> View for Given<'a> {
    type V = Slots;

    open spec fn view(&self) -> Slots {
        Slots {
            chain: text_of(self.chain),
            port: text_of(self.port),
            channel: text_of(self.channel),
        }
    }
}

impl<'a> Given<'a> {
    /// Whether a value was read for `f`.
    fn has(&self, f: Field) -> (r: bool)
        ensures
            r == self@.get(f) is Some,
    {
        match f {
            Field::Chain => self.chain.is_some(),
            Field::Port => self.port.is_some(),
            Field::Channel => self.channel.is_some(),
        }
    }

    /// These values with `v` read for `f`.
    fn with(self, f: Field, v: &'a str) -> (r: Given<'a>)
        ensures
            r@ == self@.set(f, v@),
    {
        match f {
            Field::Chain => Given { chain: Some(v), port: self.port, channel: self.channel },
            Field::Port => Given { chain: self.chain, port: Some(v), channel: self.channel },
            Field::Channel => Given { chain: self.chain, port: self.port, channel: Some(v) },
        }
    }
}

/// Whether two strings hold the same characters.
pub fn same_text(a: &str, b: &str) -> (r: bool)
    ensures
        r == (a@ == b@),
{
    let n = a.unicode_len();
    if n != b.unicode_len() {
        return false;
    }
    let mut i: usize = 0;
    while i < n
        invariant
            n == a@.len(),
            n == b@.len(),
            i <= n,
            forall|j: int| 0 <= j < i ==> a@[j] == b@[j],
        decreases n - i,
    {
        if a.get_char(i) != b.get_char(i) {
            return false;
        }
        i += 1;
    }
    assert(a@ =~= b@);
    true
}

/// Whether an argument looks like an option rather than a value.
pub fn is_option_like(t: &str) -> (r: bool)
    ensures
        r == looks_like_option(t@),
{
    t.unicode_len() >= 2 && t.get_char(0) == '-'
}

/// The option that a name stands for.
pub fn field_of_name(name: &str) -> (r: Option<Field>)
    ensures
        r == field_named(name@),
{
    if same_text(name, "chain") {
        Some(Field::Chain)
    } else if same_text(name, "port") {
        Some(Field::Port)
    } else if same_text(name, "channel") || same_text(name, "chan") {
        Some(Field::Channel)
    } else {
        None
    }
}

/// Reads one argument as an option of the command.
pub fn read_option<'a>(t: &'a str) -> (r: Option<(Field, Option<&'a str>)>)
    ensures
        match option_of(t@) {
            Some((f, value)) => r matches Some((g, v)) && g == f && text_of(v) == value,
            None => r is None,
        },
{
    let n = t.unicode_len();
    if n < 2 || t.get_char(0) != '-' || t.get_char(1) != '-' {
        return None;
    }
    let mut k: usize = 2;
    while k < n && t.get_char(k) != '='
        invariant
            n == t@.len(),
            2 <= k <= n,
            find_equals(t@, 2) == find_equals(t@, k as int),
        decreases n - k,
    {
        k += 1;
    }
    match field_of_name(t.substring_char(2, k)) {
        None => None,
        Some(f) => if k < n {
            Some((f, Some(t.substring_char(k + 1, n))))
        } else {
            Some((f, None))
        },
    }
}

/// Reads the values of the three options off a command line, whose first
/// argument is the program's name.
pub fn scan_args<'a>(args: &[&'a str]) -> (r: Result<Given<'a>, ArgumentError>)
    ensures
        match scan(args.deep_view(), 1, Slots::empty(), None) {
            Ok(slots) => r is Ok && r->Ok_0@ == slots,
            Err(e) => r == Err::<Given<'a>, ArgumentError>(e),
        },
{
    let ghost line = args.deep_view();
    let mut given = Given { chain: None, port: None, channel: None };
    let mut pending: Option<Field> = None;
    let mut i: usize = 1;
    while i < args.len()
        invariant
            1 <= i,
            line == args.deep_view(),
            scan(line, 1, Slots::empty(), None) == scan(line, i as int, given@, pending),
        decreases args.len() - i,
    {
        let t: &'a str = args[i];
        assert(line[i as int] == t@);
        match pending {
            Some(f) => {
                if is_option_like(t) {
                    return Err(ArgumentError::MissingValue(f));
                }
                given = given.with(f, t);
                pending = None;
            },
            None => match read_option(t) {
                None => {
                    if !same_text(t, "--") {
                        return Err(ArgumentError::UnexpectedArgument(i));
                    }
                    if i + 1 < args.len() {
                        return Err(ArgumentError::UnexpectedArgument(i + 1));
                    }
                    return Ok(given);
                },
                Some((f, value)) => {
                    proof {
                        lemma_escape_is_no_option();
                    }
                    if given.has(f) {
                        return Err(ArgumentError::Repeated(f));
                    }
                    match value {
                        Some(v) => {
                            given = given.with(f, v);
                        },
                        None => {
                            pending = Some(f);
                        },
                    }
                },
            },
        }
        i += 1;
    }
    match pending {
        Some(f) => Err(ArgumentError::MissingValue(f)),
        None => Ok(given),
    }
}

} // verus!

//! Chain, port and channel identifiers.
//!
//! The identifiers are parsed by the `ibc` crate; the types here keep what it
//! accepted as plain strings.

use vstd::prelude::*;

verus! {

/// Why a string is refused as an identifier.
///
/// The variants are those of the `ibc` crate's identifier validation. Parsing
/// a port or a channel identifier yields only the first four.
#[derive(Clone, Copy, Debug, PartialEq, Eq, Structural)]
pub enum ValidationError {
    /// The identifier holds the path separator `/`.
    ContainSeparator,
    /// The identifier's length in bytes is outside the bounds of its kind.
    InvalidLength,
    /// The identifier holds a character that is neither alphanumeric nor one
    /// of `._+-#[]<>`.
    InvalidCharacter,
    /// The identifier is the empty string.
    Empty,
    /// A chain identifier is not in epoch format.
    ChainIdInvalidFormat,
    /// A counterparty's channel identifier is invalid.
    InvalidCounterpartyChannelId,
}

/// What is wrong with an identifier that was refused for `why`, in words.
pub open spec fn reason_text(why: ValidationError) -> Seq<char> {
    match why {
        ValidationError::ContainSeparator => "identifier cannot contain separator '/'"@,
        ValidationError::InvalidLength => "identifier has invalid length"@,
        ValidationError::InvalidCharacter =>
            "identifier must only contain alphanumeric characters or `.`, `_`, `+`, `-`, `#`, `[`, `]`, `<`, `>`"@,
        ValidationError::Empty => "identifier cannot be empty"@,
        ValidationError::ChainIdInvalidFormat =>
            "chain identifiers are expected to be in epoch format"@,
        ValidationError::InvalidCounterpartyChannelId => "invalid channel id in counterparty"@,
    }
}

impl ValidationError {
    /// What is wrong with the identifier, in words.
    pub fn reason(&self) -> (s: &'static str)
        ensures
            s@ == reason_text(*self),
    {
        match self {
            ValidationError::ContainSeparator => "identifier cannot contain separator '/'",
            ValidationError::InvalidLength => "identifier has invalid length",
            ValidationError::InvalidCharacter =>
                "identifier must only contain alphanumeric characters or `.`, `_`, `+`, `-`, `#`, `[`, `]`, `<`, `>`",
            ValidationError::Empty => "identifier cannot be empty",
            ValidationError::ChainIdInvalidFormat =>
                "chain identifiers are expected to be in epoch format",
            ValidationError::InvalidCounterpartyChannelId => "invalid channel id in counterparty",
        }
    }
}

/// Whether `c` is alphanumeric in the sense of Unicode: the answer of
/// `char::is_alphanumeric`, by which `ibc` judges an identifier's characters.
pub uninterp spec fn is_alphanumeric(c: char) -> bool;

/// The revision number that `ibc` reads off a chain identifier
/// (`ChainId::from_string`, then `version`): the decimal number behind the
/// last `-` where the identifier is in epoch format and the number fits in 64
/// bits, and 0 otherwise.
pub uninterp spec fn chain_version(id: Seq<char>) -> u64;

/// The punctuation an identifier may hold beside alphanumeric characters.
pub open spec fn is_punctuation(c: char) -> bool {
    c == '.' || c == '_' || c == '+' || c == '-' || c == '#' || c == '[' || c == ']' || c == '<'
        || c == '>'
}

/// The first reason, in the order in which the checks are made, for which
/// `id` is no identifier of between `min` and `max` bytes; `None` where it is
/// one.
pub open spec fn identifier_fault(id: Seq<char>, min: nat, max: nat) -> Option<ValidationError> {
    let bytes = vstd::utf8::encode_utf8(id).len();
    if id.len() == 0 {
        Some(ValidationError::Empty)
    } else if id.contains('/') {
        Some(ValidationError::ContainSeparator)
    } else if bytes < min || bytes > max {
        Some(ValidationError::InvalidLength)
    } else if exists|i: int|
        0 <= i < id.len() && !(is_alphanumeric(#[trigger] id[i]) || is_punctuation(id[i])) {
        Some(ValidationError::InvalidCharacter)
    } else {
        None
    }
}

/// Why `id` is no port identifier: one takes between 2 and 128 bytes.
pub open spec fn port_id_fault(id: Seq<char>) -> Option<ValidationError> {
    identifier_fault(id, 2, 128)
}

/// Why `id` is no channel identifier: one takes between 8 and 64 bytes.
pub open spec fn channel_id_fault(id: Seq<char>) -> Option<ValidationError> {
    identifier_fault(id, 8, 64)
}

/// Calls `ibc`'s `ChainId::from_string`, which accepts every string, and
/// returns the identifier's text and its revision number. Trusted: the text is
/// the argument, and the number is what `chain_version` names.
#[verifier::external_body]
fn ibc_chain_id(id: &str) -> (r: (String, u64))
    ensures
        r.0@ == id@,
        r.1 == chain_version(id@),
{
    let chain_id = ibc::core::ics24_host::identifier::ChainId::from_string(id);
    (chain_id.as_str().to_string(), chain_id.version())
}

/// Calls `ibc`'s parser of port identifiers (`PortId::from_str`). Trusted: it
/// accepts exactly the strings without a `port_id_fault`, keeps the text, and
/// refuses the others for the first failing check.
#[verifier::external_body]
fn ibc_port_id(s: &str) -> (r: Result<String, ValidationError>)
    ensures
        match port_id_fault(s@) {
            Some(e) => r == Err::<String, ValidationError>(e),
            None => r is Ok && r->Ok_0@ == s@,
        },
        r is Ok ==> forall|i: int|
            0 <= i < s@.len() ==> is_alphanumeric(#[trigger] s@[i]) || is_punctuation(s@[i]),
{
    match s.parse::<ibc::core::ics24_host::identifier::PortId>() {
        Ok(id) => Ok(id.to_string()),
        Err(e) => Err(match e.detail() {
            ibc::core::ics24_host::error::ValidationErrorDetail::ContainSeparator(_) => ValidationError::ContainSeparator,
            ibc::core::ics24_host::error::ValidationErrorDetail::InvalidLength(_) => ValidationError::InvalidLength,
            ibc::core::ics24_host::error::ValidationErrorDetail::InvalidCharacter(_) => ValidationError::InvalidCharacter,
            ibc::core::ics24_host::error::ValidationErrorDetail::Empty(_) => ValidationError::Empty,
            ibc::core::ics24_host::error::ValidationErrorDetail::ChainIdInvalidFormat(_) => ValidationError::ChainIdInvalidFormat,
            ibc::core::ics24_host::error::ValidationErrorDetail::InvalidCounterpartyChannelId(_) => ValidationError::InvalidCounterpartyChannelId,
        }),
    }
}

/// Calls `ibc`'s parser of channel identifiers (`ChannelId::from_str`).
/// Trusted: it accepts exactly the strings without a `channel_id_fault`, keeps
/// the text, and refuses the others for the first failing check.
#[verifier::external_body]
fn ibc_channel_id(s: &str) -> (r: Result<String, ValidationError>)
    ensures
        match channel_id_fault(s@) {
            Some(e) => r == Err::<String, ValidationError>(e),
            None => r is Ok && r->Ok_0@ == s@,
        },
        r is Ok ==> forall|i: int|
            0 <= i < s@.len() ==> is_alphanumeric(#[trigger] s@[i]) || is_punctuation(s@[i]),
{
    match s.parse::<ibc::core::ics24_host::identifier::ChannelId>() {
        Ok(id) => Ok(id.to_string()),
        Err(e) => Err(match e.detail() {
            ibc::core::ics24_host::error::ValidationErrorDetail::ContainSeparator(_) => ValidationError::ContainSeparator,
            ibc::core::ics24_host::error::ValidationErrorDetail::InvalidLength(_) => ValidationError::InvalidLength,
            ibc::core::ics24_host::error::ValidationErrorDetail::InvalidCharacter(_) => ValidationError::InvalidCharacter,
            ibc::core::ics24_host::error::ValidationErrorDetail::Empty(_) => ValidationError::Empty,
            ibc::core::ics24_host::error::ValidationErrorDetail::ChainIdInvalidFormat(_) => ValidationError::ChainIdInvalidFormat,
            ibc::core::ics24_host::error::ValidationErrorDetail::InvalidCounterpartyChannelId(_) => ValidationError::InvalidCounterpartyChannelId,
        }),
    }
}

/// The identifier of a chain. Every string is one.
#[derive(Debug)]
pub struct ChainId {
    id: String,
    version: u64,
}

impl View for ChainId {
    type V = Seq<char>;

    closed spec fn view(&self) -> Seq<char> {
        self.id@
    }
}

impl ChainId {
    #[verifier::type_invariant]
    spec fn consistent(self) -> bool {
        self.version == chain_version(self.id@)
    }

    /// The chain identifier that `id` spells.
    pub fn from_string(id: &str) -> (r: ChainId)
        ensures
            r@ == id@,
    {
        let (id, version) = ibc_chain_id(id);
        ChainId { id, version }
    }

    /// The identifier's text.
    pub fn as_str(&self) -> (s: &str)
        ensures
            s@ == self@,
    {
        self.id.as_str()
    }

    /// The identifier's revision number.
    pub fn version(&self) -> (v: u64)
        ensures
            v == chain_version(self@),
    {
        proof {
            use_type_invariant(self);
        }
        self.version
    }
}

impl PartialEq for ChainId {
    fn eq(&self, other: &Self) -> (r: bool) {
        self.id == other.id
    }
}

impl Eq for ChainId {}

impl vstd::std_specs::cmp::PartialEqSpecImpl for ChainId {
    open spec fn obeys_eq_spec() -> bool {
        true
    }

    open spec fn eq_spec(&self, other: &Self) -> bool {
        self@ == other@
    }
}

impl Clone for ChainId {
    fn clone(&self) -> (r: Self)
        ensures
            r@ == self@,
    {
        proof {
            use_type_invariant(self);
        }
        ChainId { id: self.id.clone(), version: self.version }
    }
}

/// The identifier of a port: a string without a `port_id_fault`.
#[derive(Debug)]
pub struct PortId {
    id: String,
}

impl View for PortId {
    type V = Seq<char>;

    closed spec fn view(&self) -> Seq<char> {
        self.id@
    }
}

impl PortId {
    #[verifier::type_invariant]
    spec fn valid(self) -> bool {
        port_id_fault(self.id@) is None
    }

    /// Parses a port identifier, or says why `s` is none.
    pub fn from_str(s: &str) -> (r: Result<PortId, ValidationError>)
        ensures
            match port_id_fault(s@) {
                Some(e) => r == Err::<PortId, ValidationError>(e),
                None => r is Ok && r->Ok_0@ == s@,
            },
    {
        match ibc_port_id(s) {
            Ok(id) => Ok(PortId { id }),
            Err(e) => Err(e),
        }
    }

    /// The identifier's text, which is a valid port identifier.
    pub fn as_str(&self) -> (s: &str)
        ensures
            s@ == self@,
            port_id_fault(s@) is None,
    {
        proof {
            use_type_invariant(self);
        }
        self.id.as_str()
    }
}

impl PartialEq for PortId {
    fn eq(&self, other: &Self) -> (r: bool) {
        self.id == other.id
    }
}

impl Eq for PortId {}

impl vstd::std_specs::cmp::PartialEqSpecImpl for PortId {
    open spec fn obeys_eq_spec() -> bool {
        true
    }

    open spec fn eq_spec(&self, other: &Self) -> bool {
        self@ == other@
    }
}

impl Clone for PortId {
    fn clone(&self) -> (r: Self)
        ensures
            r@ == self@,
    {
        proof {
            use_type_invariant(self);
        }
        PortId { id: self.id.clone() }
    }
}

/// The identifier of a channel: a string without a `channel_id_fault`.
#[derive(Debug)]
pub struct ChannelId {
    id: String,
}

impl View for ChannelId {
    type V = Seq<char>;

    closed spec fn view(&self) -> Seq<char> {
        self.id@
    }
}

impl ChannelId {
    #[verifier::type_invariant]
    spec fn valid(self) -> bool {
        channel_id_fault(self.id@) is None
    }

    /// Parses a channel identifier, or says why `s` is none.
    pub fn from_str(s: &str) -> (r: Result<ChannelId, ValidationError>)
        ensures
            match channel_id_fault(s@) {
                Some(e) => r == Err::<ChannelId, ValidationError>(e),
                None => r is Ok && r->Ok_0@ == s@,
            },
    {
        match ibc_channel_id(s) {
            Ok(id) => Ok(ChannelId { id }),
            Err(e) => Err(e),
        }
    }

    /// The identifier's text, which is a valid channel identifier.
    pub fn as_str(&self) -> (s: &str)
        ensures
            s@ == self@,
            channel_id_fault(s@) is None,
    {
        proof {
            use_type_invariant(self);
        }
        self.id.as_str()
    }
}

impl PartialEq for ChannelId {
    fn eq(&self, other: &Self) -> (r: bool) {
        self.id == other.id
    }
}

impl Eq for ChannelId {}

impl vstd::std_specs::cmp::PartialEqSpecImpl for ChannelId {
    open spec fn obeys_eq_spec() -> bool {
        true
    }

    open spec fn eq_spec(&self, other: &Self) -> bool {
        self@ == other@
    }
}

impl Clone for ChannelId {
    fn clone(&self) -> (r: Self)
        ensures
            r@ == self@,
    {
        proof {
            use_type_invariant(self);
        }
        ChannelId { id: self.id.clone() }
    }
}

} // verus!

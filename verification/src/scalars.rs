//! The scalar values of the explorer's query interface: how each is read
//! from the value of a query and written back into an answer.
//!
//! A scalar travels as a string. Reading one is refused for a value that is
//! no string, and for a string that does not write a value of the scalar.

use vstd::prelude::*;
use vstd::string::*;
use crate::decimal::{bounded_value, digits_of, parse_decimal, to_decimal};

verus! {

/// A value of a query, as far as the scalars look at it: a string with its
/// text, or anything else.
#[derive(Debug)]
pub enum InputValue {
    String(String),
    Other,
}

/// Why a value is not a scalar.
#[derive(Clone, Copy, Debug, PartialEq, Eq, Structural)]
pub enum ScalarError {
    /// The value is no string.
    ExpectedString,
    /// The string does not write a value of the scalar.
    Invalid,
}

/// Why a cursor is not a position.
#[derive(Debug)]
pub enum CursorError {
    InvalidCursor(String),
}

impl InputValue {
    /// The text of the value, if it is a string.
    pub open spec fn text(self) -> Option<Seq<char>> {
        match self {
            InputValue::String(s) => Some(s@),
            InputValue::Other => None,
        }
    }

    /// The number that the value writes, where it is a string that writes a
    /// number up to `max`.
    pub open spec fn number(self, max: nat) -> Result<nat, ScalarError> {
        match self.text() {
            None => Err(ScalarError::ExpectedString),
            Some(text) => match bounded_value(text, max) {
                Some(n) => Ok(n),
                None => Err(ScalarError::Invalid),
            },
        }
    }

    fn as_text(&self) -> (r: Result<&String, ScalarError>)
        ensures
            match self.text() {
                Some(text) => r is Ok && r->Ok_0@ == text,
                None => r == Err::<&String, ScalarError>(ScalarError::ExpectedString),
            },
    {
        match self {
            InputValue::String(s) => Ok(s),
            InputValue::Other => Err(ScalarError::ExpectedString),
        }
    }

    fn as_number(&self, max: u64) -> (r: Result<u64, ScalarError>)
        ensures
            match self.number(max as nat) {
                Ok(n) => r == Ok::<u64, ScalarError>(n as u64) && n <= max,
                Err(e) => r == Err::<u64, ScalarError>(e),
            },
    {
        match self.as_text() {
            Err(e) => Err(e),
            Ok(text) => match parse_decimal(text.as_str(), max) {
                Some(n) => Ok(n),
                None => Err(ScalarError::Invalid),
            },
        }
    }
}

/// The slot of a block within its epoch.
#[derive(Clone, Copy, Debug, PartialEq, Eq, Structural)]
pub struct Slot(pub u32);

impl Slot {
    /// Reads the scalar from a value of a query: a string that writes a
    /// number of 32 bits in decimal digits.
    pub fn parse(value: &InputValue) -> (r: Result<Slot, ScalarError>)
        ensures
            match value.number(u32::MAX as nat) {
                Ok(n) => r == Ok::<Slot, ScalarError>(Slot(n as u32)),
                Err(e) => r == Err::<Slot, ScalarError>(e),
            },
    {
        match value.as_number(u32::MAX as u64) {
            Ok(n) => Ok(Slot(n as u32)),
            Err(e) => Err(e),
        }
    }

    /// Writes the scalar: its number in decimal digits.
    pub fn to_value(&self) -> (text: String)
        ensures
            text@ == digits_of(self.0 as nat),
    {
        to_decimal(self.0 as u64)
    }
}

/// The position of a block in the chain: 0 for the genesis block, or a
/// positive number.
#[derive(Clone, Copy, Debug, PartialEq, Eq, Structural)]
pub struct ChainLength(pub u32);

impl ChainLength {
    /// Reads the scalar from a value of a query: a string that writes a
    /// number of 32 bits in decimal digits.
    pub fn parse(value: &InputValue) -> (r: Result<ChainLength, ScalarError>)
        ensures
            match value.number(u32::MAX as nat) {
                Ok(n) => r == Ok::<ChainLength, ScalarError>(ChainLength(n as u32)),
                Err(e) => r == Err::<ChainLength, ScalarError>(e),
            },
    {
        match value.as_number(u32::MAX as u64) {
            Ok(n) => Ok(ChainLength(n as u32)),
            Err(e) => Err(e),
        }
    }

    /// Writes the scalar: its number in decimal digits.
    pub fn to_value(&self) -> (text: String)
        ensures
            text@ == digits_of(self.0 as nat),
    {
        to_decimal(self.0 as u64)
    }
}

/// The identifier of a stake pool, in the text form that the chain writes
/// it in. What makes such a text well formed is not looked at here.
#[derive(Clone, Debug)]
pub struct PoolId(pub String);

impl PoolId {
    /// Reads the scalar from a value of a query: the text of a string, as
    /// it stands.
    pub fn parse(value: &InputValue) -> (r: Result<PoolId, ScalarError>)
        ensures
            match value.text() {
                Some(text) => r is Ok && r->Ok_0.0@ == text,
                None => r matches Err(e) && e == ScalarError::ExpectedString,
            },
    {
        match value.as_text() {
            Ok(text) => Ok(PoolId(text.clone())),
            Err(e) => Err(e),
        }
    }

    /// Writes the scalar: its text.
    pub fn to_value(&self) -> (text: String)
        ensures
            text@ == self.0@,
    {
        self.0.clone()
    }
}

/// An amount of value.
#[derive(Clone, Copy, Debug, PartialEq, Eq, Structural)]
pub struct Value(pub u64);

impl Value {
    /// Reads the scalar from a value of a query: a string that writes a
    /// number of 64 bits in decimal digits.
    pub fn parse(value: &InputValue) -> (r: Result<Value, ScalarError>)
        ensures
            match value.number(u64::MAX as nat) {
                Ok(n) => r == Ok::<Value, ScalarError>(Value(n as u64)),
                Err(e) => r == Err::<Value, ScalarError>(e),
            },
    {
        match value.as_number(u64::MAX as u64) {
            Ok(n) => Ok(Value(n as u64)),
            Err(e) => Err(e),
        }
    }

    /// Writes the scalar: its number in decimal digits.
    pub fn to_value(&self) -> (text: String)
        ensures
            text@ == digits_of(self.0 as nat),
    {
        to_decimal(self.0 as u64)
    }
}

/// A public key, in its text form.
#[derive(Clone, Debug)]
pub struct PublicKey(pub String);

impl PublicKey {
    /// Reads the scalar from a value of a query: the text of a string, as
    /// it stands.
    pub fn parse(value: &InputValue) -> (r: Result<PublicKey, ScalarError>)
        ensures
            match value.text() {
                Some(text) => r is Ok && r->Ok_0.0@ == text,
                None => r matches Err(e) && e == ScalarError::ExpectedString,
            },
    {
        match value.as_text() {
            Ok(text) => Ok(PublicKey(text.clone())),
            Err(e) => Err(e),
        }
    }

    /// Writes the scalar: its text.
    pub fn to_value(&self) -> (text: String)
        ensures
            text@ == self.0@,
    {
        self.0.clone()
    }
}

/// A time, as seconds since the start of the chain.
#[derive(Clone, Debug)]
pub struct TimeOffsetSeconds(pub String);

impl TimeOffsetSeconds {
    /// Reads the scalar from a value of a query: the text of a string, as
    /// it stands.
    pub fn parse(value: &InputValue) -> (r: Result<TimeOffsetSeconds, ScalarError>)
        ensures
            match value.text() {
                Some(text) => r is Ok && r->Ok_0.0@ == text,
                None => r matches Err(e) && e == ScalarError::ExpectedString,
            },
    {
        match value.as_text() {
            Ok(text) => Ok(TimeOffsetSeconds(text.clone())),
            Err(e) => Err(e),
        }
    }

    /// Writes the scalar: its text.
    pub fn to_value(&self) -> (text: String)
        ensures
            text@ == self.0@,
    {
        self.0.clone()
    }
}

/// A number that is not zero.
#[derive(Clone, Copy, Debug, PartialEq, Eq)]
pub struct NonZero(u64);

impl NonZero {
    #[verifier::type_invariant]
    spec fn positive(self) -> bool {
        self.0 != 0
    }

    /// The number.
    pub closed spec fn value(self) -> nat {
        self.0 as nat
    }

    /// The scalar of `number`, unless `number` is zero.
    pub fn new(number: u64) -> (r: Option<NonZero>)
        ensures
            match r {
                Some(n) => number != 0 && n.value() == number,
                None => number == 0,
            },
    {
        if number == 0 {
            None
        } else {
            Some(NonZero(number))
        }
    }

    /// The number, which is not zero.
    pub fn get(&self) -> (number: u64)
        ensures
            number == self.value(),
            number != 0,
    {
        proof {
            use_type_invariant(self);
        }
        self.0
    }

    /// Reads the scalar from a value of a query: a string that writes a
    /// number of 64 bits in decimal digits, other than zero.
    pub fn parse(value: &InputValue) -> (r: Result<NonZero, ScalarError>)
        ensures
            match value.number(u64::MAX as nat) {
                Ok(n) => if n == 0 {
                    r == Err::<NonZero, ScalarError>(ScalarError::Invalid)
                } else {
                    r is Ok && r->Ok_0.value() == n
                },
                Err(e) => r == Err::<NonZero, ScalarError>(e),
            },
    {
        match value.as_number(u64::MAX) {
            Ok(n) => {
                if n == 0 {
                    Err(ScalarError::Invalid)
                } else {
                    Ok(NonZero(n))
                }
            },
            Err(e) => Err(e),
        }
    }

    /// Writes the scalar: its number in decimal digits.
    pub fn to_value(&self) -> (text: String)
        ensures
            text@ == digits_of(self.value()),
    {
        to_decimal(self.0)
    }
}

/// The identifier of a vote plan, in its text form.
#[derive(Clone, Debug)]
pub struct VotePlanId(pub String);

impl VotePlanId {
    /// Reads the scalar from a value of a query: the text of a string, as
    /// it stands.
    pub fn parse(value: &InputValue) -> (r: Result<VotePlanId, ScalarError>)
        ensures
            match value.text() {
                Some(text) => r is Ok && r->Ok_0.0@ == text,
                None => r matches Err(e) && e == ScalarError::ExpectedString,
            },
    {
        match value.as_text() {
            Ok(text) => Ok(VotePlanId(text.clone())),
            Err(e) => Err(e),
        }
    }

    /// Writes the scalar: its text.
    pub fn to_value(&self) -> (text: String)
        ensures
            text@ == self.0@,
    {
        self.0.clone()
    }
}

/// The identifier of a proposal outside the chain, in its text form.
#[derive(Clone, Debug)]
pub struct ExternalProposalId(pub String);

impl ExternalProposalId {
    /// Reads the scalar from a value of a query: the text of a string, as
    /// it stands.
    pub fn parse(value: &InputValue) -> (r: Result<ExternalProposalId, ScalarError>)
        ensures
            match value.text() {
                Some(text) => r is Ok && r->Ok_0.0@ == text,
                None => r matches Err(e) && e == ScalarError::ExpectedString,
            },
    {
        match value.as_text() {
            Ok(text) => Ok(ExternalProposalId(text.clone())),
            Err(e) => Err(e),
        }
    }

    /// Writes the scalar: its text.
    pub fn to_value(&self) -> (text: String)
        ensures
            text@ == self.0@,
    {
        self.0.clone()
    }
}

/// How the votes of a plan are cast.
#[derive(Clone, Copy, Debug, PartialEq, Eq, Structural)]
pub enum PayloadType {
    Public,
    Private,
}

/// The weight of a vote, in decimal digits.
#[derive(Clone, Debug)]
pub struct Weight(pub String);

impl Weight {
    /// Reads the scalar from a value of a query: the text of a string, as
    /// it stands.
    pub fn parse(value: &InputValue) -> (r: Result<Weight, ScalarError>)
        ensures
            match value.text() {
                Some(text) => r is Ok && r->Ok_0.0@ == text,
                None => r matches Err(e) && e == ScalarError::ExpectedString,
            },
    {
        match value.as_text() {
            Ok(text) => Ok(Weight(text.clone())),
            Err(e) => Err(e),
        }
    }

    /// Writes the scalar: its text.
    pub fn to_value(&self) -> (text: String)
        ensures
            text@ == self.0@,
    {
        self.0.clone()
    }

    /// The scalar of `number`: its decimal digits.
    pub fn from_u64(number: u64) -> (r: Weight)
        ensures
            r.0@ == digits_of(number as nat),
    {
        Weight(to_decimal(number as u64))
    }
}

/// A number of vote plans, in decimal digits.
#[derive(Clone, Debug)]
pub struct VotePlanCount(pub String);

impl VotePlanCount {
    /// Reads the scalar from a value of a query: the text of a string, as
    /// it stands.
    pub fn parse(value: &InputValue) -> (r: Result<VotePlanCount, ScalarError>)
        ensures
            match value.text() {
                Some(text) => r is Ok && r->Ok_0.0@ == text,
                None => r matches Err(e) && e == ScalarError::ExpectedString,
            },
    {
        match value.as_text() {
            Ok(text) => Ok(VotePlanCount(text.clone())),
            Err(e) => Err(e),
        }
    }

    /// Writes the scalar: its text.
    pub fn to_value(&self) -> (text: String)
        ensures
            text@ == self.0@,
    {
        self.0.clone()
    }

    /// The scalar of `number`: its decimal digits.
    pub fn from_u64(number: u64) -> (r: VotePlanCount)
        ensures
            r.0@ == digits_of(number as nat),
    {
        VotePlanCount(to_decimal(number as u64))
    }

    /// The scalar of `number`: its decimal digits.
    pub fn from_u32(number: u32) -> (r: VotePlanCount)
        ensures
            r.0@ == digits_of(number as nat),
    {
        VotePlanCount(to_decimal(number as u64))
    }
}

/// A number of votes with some status, in decimal digits.
#[derive(Clone, Debug)]
pub struct VoteStatusCount(pub String);

impl VoteStatusCount {
    /// Reads the scalar from a value of a query: the text of a string, as
    /// it stands.
    pub fn parse(value: &InputValue) -> (r: Result<VoteStatusCount, ScalarError>)
        ensures
            match value.text() {
                Some(text) => r is Ok && r->Ok_0.0@ == text,
                None => r matches Err(e) && e == ScalarError::ExpectedString,
            },
    {
        match value.as_text() {
            Ok(text) => Ok(VoteStatusCount(text.clone())),
            Err(e) => Err(e),
        }
    }

    /// Writes the scalar: its text.
    pub fn to_value(&self) -> (text: String)
        ensures
            text@ == self.0@,
    {
        self.0.clone()
    }

    /// The scalar of `number`: its decimal digits.
    pub fn from_u64(number: u64) -> (r: VoteStatusCount)
        ensures
            r.0@ == digits_of(number as nat),
    {
        VoteStatusCount(to_decimal(number as u64))
    }
}

impl TimeOffsetSeconds {
    /// The scalar of a time given in seconds: its decimal digits.
    pub fn from_seconds(seconds: u64) -> (r: TimeOffsetSeconds)
        ensures
            r.0@ == digits_of(seconds as nat),
    {
        TimeOffsetSeconds(to_decimal(seconds))
    }
}

impl Value {
    /// The scalar of an amount.
    pub fn from_u64(number: u64) -> (r: Value)
        ensures
            r == Value(number),
    {
        Value(number)
    }
}

/// The range of choices of a proposal: the usual `[0, 3[` stands for the
/// three choices 0, 1 and 2.
#[derive(Clone, Copy, Debug, PartialEq, Eq, Structural)]
pub struct VoteOptionRange {
    /// The first choice, usually 0.
    pub start: i32,
    /// The number after the last choice; at least 1.
    pub end: i32,
}

impl VoteOptionRange {
    /// The range of the choices from `start` up to, and without, `end`.
    pub fn from_range(start: u8, end: u8) -> (r: VoteOptionRange)
        ensures
            r.start == start,
            r.end == end,
    {
        VoteOptionRange { start: start as i32, end: end as i32 }
    }
}

/// A position in a list of blocks or transactions, as pages of answers
/// refer to it.
#[derive(Clone, Copy, Debug, PartialEq, Eq, Structural)]
pub struct IndexCursor(pub u64);

impl IndexCursor {
    /// Reads the scalar from a value of a query: a string that writes a
    /// number of 64 bits in decimal digits.
    pub fn parse(value: &InputValue) -> (r: Result<IndexCursor, ScalarError>)
        ensures
            match value.number(u64::MAX as nat) {
                Ok(n) => r == Ok::<IndexCursor, ScalarError>(IndexCursor(n as u64)),
                Err(e) => r == Err::<IndexCursor, ScalarError>(e),
            },
    {
        match value.as_number(u64::MAX) {
            Ok(n) => Ok(IndexCursor(n)),
            Err(e) => Err(e),
        }
    }

    /// Writes the scalar: its number in decimal digits.
    pub fn to_value(&self) -> (text: String)
        ensures
            text@ == digits_of(self.0 as nat),
    {
        to_decimal(self.0)
    }

    /// Reads a cursor from the text of a page reference: a number of 64
    /// bits in decimal digits.
    pub fn decode_cursor(s: &str) -> (r: Option<IndexCursor>)
        ensures
            match bounded_value(s@, u64::MAX as nat) {
                Some(n) => r == Some(IndexCursor(n as u64)),
                None => r is None,
            },
    {
        match parse_decimal(s, u64::MAX) {
            Some(n) => Some(IndexCursor(n)),
            None => None,
        }
    }

    /// Writes a cursor as the text of a page reference: its decimal digits.
    pub fn encode_cursor(&self) -> (text: String)
        ensures
            text@ == digits_of(self.0 as nat),
    {
        to_decimal(self.0)
    }

    /// The cursor at position `number`.
    pub fn from_u32(number: u32) -> (r: IndexCursor)
        ensures
            r == IndexCursor(number as u64),
    {
        IndexCursor(number as u64)
    }

    /// The cursor at position `number`.
    pub fn from_u64(number: u64) -> (r: IndexCursor)
        ensures
            r == IndexCursor(number),
    {
        IndexCursor(number)
    }

    /// The cursor at the block of that position in the chain.
    pub fn from_chain_length(length: ChainLength) -> (r: IndexCursor)
        ensures
            r == IndexCursor(length.0 as u64),
    {
        IndexCursor(length.0 as u64)
    }

    /// The position of the cursor.
    pub fn into_u64(self) -> (number: u64)
        ensures
            number == self.0,
    {
        self.0
    }

    /// The position of the cursor as a number of 32 bits, which is an error
    /// for a position beyond those.
    pub fn try_into_u32(self) -> (r: Result<u32, CursorError>)
        ensures
            self.0 <= u32::MAX ==> r is Ok && r->Ok_0 == self.0,
            self.0 > u32::MAX ==> (r matches Err(CursorError::InvalidCursor(message)) && message@
                == "block's pagination cursor is greater than maximum 2^32"@),
    {
        if self.0 <= u32::MAX as u64 {
            Ok(self.0 as u32)
        } else {
            Err(
                CursorError::InvalidCursor(
                    String::from_str("block's pagination cursor is greater than maximum 2^32"),
                ),
            )
        }
    }

    /// The position of the cursor as a position in the chain, which is an
    /// error for a position beyond the longest chain.
    pub fn try_into_chain_length(self) -> (r: Result<ChainLength, CursorError>)
        ensures
            self.0 <= u32::MAX ==> r is Ok && r->Ok_0 == ChainLength(self.0 as u32),
            self.0 > u32::MAX ==> (r matches Err(CursorError::InvalidCursor(message)) && message@
                == "block's pagination cursor is greater than maximum ChainLength"@),
    {
        if self.0 <= u32::MAX as u64 {
            Ok(ChainLength(self.0 as u32))
        } else {
            Err(
                CursorError::InvalidCursor(
                    String::from_str(
                        "block's pagination cursor is greater than maximum ChainLength",
                    ),
                ),
            )
        }
    }
}

} // verus!

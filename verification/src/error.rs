//! The errors of the library. Each one ends the operation that met it: none
//! is retried, and none leaves a partial change behind.
//!
//! What went wrong, and the error that tells it:
//! - a reply under an id that no token reserves: [`CwTokenError::InvalidReplyId`];
//! - a request that the host failed: the host's reason, in
//!   [`ParseReplyError::SubMsgFailure`] or in [`StdError::GenericErr`];
//! - a reply or a stored token that cannot be read:
//!   [`ParseReplyError::ParseFailure`], [`ParseReplyError::BrokenUtf8`],
//!   [`StdError::ParseErr`];
//! - a reply that lacks the event or the attribute that names the new token,
//!   and a value of a shape that is not allowed: [`StdError::GenericErr`], or
//!   the host SDK's own error in [`StdError::Sdk`];
//! - something that was never saved: [`StdError::NotFound`];
//! - an amount that leaves the range of 128 bits: [`StdError::Overflow`];
//! - a mint that nobody is allowed to make: [`ContractError::Unauthorized`];
//! - a mint of nothing: [`ContractError::InvalidZeroAmount`];
//! - funds that are not the amount asked for: [`StdError::GenericErr`] with
//!   the coin that was expected.
//!
//! An operation that a kind of token cannot perform is no error: that kind
//! does not have the operation.

use cosmwasm_std::StdError as SdkError;
use vstd::prelude::*;

verus! {

/// The host SDK's own error, carried unread from the calls that return it.
#[verifier::external_type_specification]
#[verifier::external_body]
pub struct ExSdkError(SdkError);

/// The standard library's error for bytes that are no UTF-8 text.
#[verifier::external_type_specification]
#[verifier::external_body]
pub struct ExFromUtf8Error(std::string::FromUtf8Error);

/// The arithmetic operation that left the range of an amount.
#[derive(Debug, PartialEq, Eq, Clone, Copy, Structural)]
pub enum OverflowOperation {
    Add,
    Sub,
}

/// An amount that could not be computed: the operation and its two
/// operands, written as decimal numerals.
#[derive(Debug, PartialEq)]
pub struct OverflowError {
    pub operation: OverflowOperation,
    pub operand1: String,
    pub operand2: String,
}

/// [`OverflowError`] as a value: its texts as sequences of characters, its lists as
/// sequences.
pub struct OverflowErrorView {
    pub operation: OverflowOperation,
    pub operand1: Seq<char>,
    pub operand2: Seq<char>,
}

impl View for OverflowError {
    type V = OverflowErrorView;

    open spec fn view(&self) -> OverflowErrorView {
        OverflowErrorView {
            operation: self.operation,
            operand1: self.operand1@,
            operand2: self.operand2@,
        }
    }
}

/// The general errors.
#[derive(Debug, PartialEq)]
pub enum StdError {
    /// A failure that only its message describes.
    GenericErr { msg: String },
    /// Something that was looked for is not there.
    NotFound { kind: String },
    /// A stored or received value is not of the kind that was asked for.
    ParseErr { target_type: String, msg: String },
    /// An amount left the range of 128 bits.
    Overflow { source: OverflowError },
    /// An error that a call into the host SDK returned.
    Sdk(SdkError),
}

/// [`StdError`] as a value: its texts as sequences of characters, its lists as
/// sequences.
pub enum StdErrorView {
    GenericErr { msg: Seq<char> },
    NotFound { kind: Seq<char> },
    ParseErr { target_type: Seq<char>, msg: Seq<char> },
    Overflow { source: OverflowErrorView },
    Sdk(SdkError),
}

impl View for StdError {
    type V = StdErrorView;

    open spec fn view(&self) -> StdErrorView {
        match self {
            StdError::GenericErr { msg } => StdErrorView::GenericErr { msg: msg@ },
            StdError::NotFound { kind } => StdErrorView::NotFound { kind: kind@ },
            StdError::ParseErr { target_type, msg } => StdErrorView::ParseErr {
                target_type: target_type@,
                msg: msg@,
            },
            StdError::Overflow { source } => StdErrorView::Overflow { source: source@ },
            StdError::Sdk(e) => StdErrorView::Sdk(*e),
        }
    }
}

/// What can be wrong with the reply to a request that creates a contract.
#[derive(Debug, PartialEq)]
pub enum ParseReplyError {
    /// The request failed; the host's reason, word for word.
    SubMsgFailure(String),
    /// The reply's data is missing or is no well-formed message.
    ParseFailure(String),
    /// The address in the reply's data is no UTF-8 text.
    BrokenUtf8(std::string::FromUtf8Error),
}

/// [`ParseReplyError`] as a value: its texts as sequences of characters, its lists as
/// sequences.
pub enum ParseReplyErrorView {
    SubMsgFailure(Seq<char>),
    ParseFailure(Seq<char>),
    BrokenUtf8(std::string::FromUtf8Error),
}

impl View for ParseReplyError {
    type V = ParseReplyErrorView;

    open spec fn view(&self) -> ParseReplyErrorView {
        match self {
            ParseReplyError::SubMsgFailure(m) => ParseReplyErrorView::SubMsgFailure(m@),
            ParseReplyError::ParseFailure(m) => ParseReplyErrorView::ParseFailure(m@),
            ParseReplyError::BrokenUtf8(e) => ParseReplyErrorView::BrokenUtf8(*e),
        }
    }
}

/// The errors of the ledger that a token keeps in the contract's own state.
#[derive(Debug, PartialEq)]
pub enum ContractError {
    /// The ledger was never set up, so nobody may mint.
    Unauthorized {  },
    /// An amount of zero was given where value has to move.
    InvalidZeroAmount {  },
}

/// [`ContractError`] as a value: its texts as sequences of characters, its lists as
/// sequences.
pub enum ContractErrorView {
    Unauthorized,
    InvalidZeroAmount,
}

impl View for ContractError {
    type V = ContractErrorView;

    open spec fn view(&self) -> ContractErrorView {
        match self {
            ContractError::Unauthorized {  } => ContractErrorView::Unauthorized,
            ContractError::InvalidZeroAmount {  } => ContractErrorView::InvalidZeroAmount,
        }
    }
}

/// Every error that an operation on a vault token can end in.
#[derive(Debug, PartialEq)]
pub enum CwTokenError {
    Std(StdError),
    /// A reply arrived under an id that no token of this contract reserves.
    InvalidReplyId {  },
    ParseReplyError(ParseReplyError),
    Cw20ContractError(ContractError),
}

/// [`CwTokenError`] as a value: its texts as sequences of characters, its lists as
/// sequences.
pub enum CwTokenErrorView {
    Std(StdErrorView),
    InvalidReplyId,
    ParseReplyError(ParseReplyErrorView),
    Cw20ContractError(ContractErrorView),
}

impl View for CwTokenError {
    type V = CwTokenErrorView;

    open spec fn view(&self) -> CwTokenErrorView {
        match self {
            CwTokenError::Std(e) => CwTokenErrorView::Std(e@),
            CwTokenError::InvalidReplyId {  } => CwTokenErrorView::InvalidReplyId,
            CwTokenError::ParseReplyError(e) => CwTokenErrorView::ParseReplyError(e@),
            CwTokenError::Cw20ContractError(e) => CwTokenErrorView::Cw20ContractError(e@),
        }
    }
}

/// Result of an operation that can fail with any error of the library.
pub type CwTokenResult<T> = Result<T, CwTokenError>;

/// Result of an operation that can only fail with a general error.
pub type StdResult<T> = Result<T, StdError>;

/// The arithmetic error for `a + b` or `a - b` that does not fit.
pub open spec fn overflow_error(operation: OverflowOperation, a: u128, b: u128) -> StdErrorView {
    StdErrorView::Overflow {
        source: OverflowErrorView {
            operation,
            operand1: crate::text::decimal(a as nat),
            operand2: crate::text::decimal(b as nat),
        },
    }
}

/// The error of a mint of nothing.
pub open spec fn zero_amount_error() -> CwTokenErrorView {
    CwTokenErrorView::Cw20ContractError(ContractErrorView::InvalidZeroAmount)
}

/// `a + b`, or the arithmetic error where the sum does not fit in 128 bits.
pub fn checked_add(a: u128, b: u128) -> (r: Result<u128, StdError>)
    ensures
        a + b <= u128::MAX ==> r == Ok::<u128, StdError>((a + b) as u128),
        a + b > u128::MAX ==> r is Err && r->Err_0@ == overflow_error(OverflowOperation::Add, a, b),
{
    match a.checked_add(b) {
        Some(sum) => Ok(sum),
        None => Err(
            StdError::Overflow {
                source: OverflowError {
                    operation: OverflowOperation::Add,
                    operand1: crate::text::decimal_string(a),
                    operand2: crate::text::decimal_string(b),
                },
            },
        ),
    }
}

/// `a - b`, or the arithmetic error where `b` is the larger.
pub fn checked_sub(a: u128, b: u128) -> (r: Result<u128, StdError>)
    ensures
        b <= a ==> r == Ok::<u128, StdError>((a - b) as u128),
        b > a ==> r is Err && r->Err_0@ == overflow_error(OverflowOperation::Sub, a, b),
{
    match a.checked_sub(b) {
        Some(rest) => Ok(rest),
        None => Err(
            StdError::Overflow {
                source: OverflowError {
                    operation: OverflowOperation::Sub,
                    operand1: crate::text::decimal_string(a),
                    operand2: crate::text::decimal_string(b),
                },
            },
        ),
    }
}

} // verus!

//! Errors of the ERC-20 precompile and their revert messages.

use crate::abi::{abi_string, encode_revert_reason, error_string_selector};
use crate::address::Address;
use crate::text::{
    address_string, address_string_spec, b256_string, b256_string_spec, u256_string,
    u256_string_spec,
};
use crate::uint::U256;
use vstd::prelude::*;
use vstd::string::{StringExecFns, StringSliceAdditionalSpecFns};

verus! {

/// ERC-20 error types.
#[derive(Debug, Clone)]
pub enum ERC20Error {
    /// Invalid sender address.
    ERC20InvalidSender(Address),
    /// Invalid receiver address.
    ERC20InvalidReceiver(Address),
    /// Insufficient balance for transfer: account, balance, amount needed.
    ERC20InsufficientBalance(Address, U256, U256),
    /// Invalid approver address.
    ERC20InvalidApprover(Address),
    /// Invalid spender address.
    ERC20InvalidSpender(Address),
    /// Insufficient allowance for transfer: spender, allowance, amount needed.
    ERC20InsufficientAllowance(Address, U256, U256),
    /// Caller not whitelisted for mint/burn.
    NotWhitelisted(Address),
    /// Generic ERC-20 error.
    ERC20Other(String),
    /// Authorization not yet valid: validAfter, current time.
    AuthorizationNotYetValid(U256, U256),
    /// Authorization expired: validBefore, current time.
    AuthorizationExpired(U256, U256),
    /// Authorization nonce already used.
    AuthorizationAlreadyUsed(U256),
    /// Invalid authorizer (signer mismatch): sender, signer.
    InvalidAuthorizer(Address, Address),
    /// Invalid signature.
    InvalidSignature,
    /// Caller is not the receiver (for receiveWithAuthorization): caller, receiver.
    CallerNotReceiver(Address, Address),
    /// Signature malleability detected.
    SignatureMalleability,
}

/// The mathematical content of an [`ERC20Error`].
pub enum ERC20ErrorView {
    ERC20InvalidSender(Address),
    ERC20InvalidReceiver(Address),
    ERC20InsufficientBalance(Address, nat, nat),
    ERC20InvalidApprover(Address),
    ERC20InvalidSpender(Address),
    ERC20InsufficientAllowance(Address, nat, nat),
    NotWhitelisted(Address),
    ERC20Other(Seq<char>),
    AuthorizationNotYetValid(nat, nat),
    AuthorizationExpired(nat, nat),
    AuthorizationAlreadyUsed(nat),
    InvalidAuthorizer(Address, Address),
    InvalidSignature,
    CallerNotReceiver(Address, Address),
    SignatureMalleability,
}

impl View for ERC20Error {
    type V = ERC20ErrorView;

    open spec fn view(&self) -> ERC20ErrorView {
        match self {
            ERC20Error::ERC20InvalidSender(a) => ERC20ErrorView::ERC20InvalidSender(*a),
            ERC20Error::ERC20InvalidReceiver(a) => ERC20ErrorView::ERC20InvalidReceiver(*a),
            ERC20Error::ERC20InsufficientBalance(a, h, n) => ERC20ErrorView::ERC20InsufficientBalance(
                *a,
                h@,
                n@,
            ),
            ERC20Error::ERC20InvalidApprover(a) => ERC20ErrorView::ERC20InvalidApprover(*a),
            ERC20Error::ERC20InvalidSpender(a) => ERC20ErrorView::ERC20InvalidSpender(*a),
            ERC20Error::ERC20InsufficientAllowance(a, h, n) => ERC20ErrorView::ERC20InsufficientAllowance(
                *a,
                h@,
                n@,
            ),
            ERC20Error::NotWhitelisted(a) => ERC20ErrorView::NotWhitelisted(*a),
            ERC20Error::ERC20Other(m) => ERC20ErrorView::ERC20Other(m@),
            ERC20Error::AuthorizationNotYetValid(a, b) => ERC20ErrorView::AuthorizationNotYetValid(
                a@,
                b@,
            ),
            ERC20Error::AuthorizationExpired(a, b) => ERC20ErrorView::AuthorizationExpired(a@, b@),
            ERC20Error::AuthorizationAlreadyUsed(n) => ERC20ErrorView::AuthorizationAlreadyUsed(n@),
            ERC20Error::InvalidAuthorizer(a, b) => ERC20ErrorView::InvalidAuthorizer(*a, *b),
            ERC20Error::InvalidSignature => ERC20ErrorView::InvalidSignature,
            ERC20Error::CallerNotReceiver(a, b) => ERC20ErrorView::CallerNotReceiver(*a, *b),
            ERC20Error::SignatureMalleability => ERC20ErrorView::SignatureMalleability,
        }
    }
}

/// ERC-20 resource types for error context.
#[derive(Debug, Clone, Copy, PartialEq, Eq, Structural)]
pub enum ERC20Resource {
    /// Allowance storage.
    Allowance,
    /// Account balance.
    Account(Address),
    /// Total supply storage.
    TotalSupply,
    /// Sender address.
    Sender,
    /// Receiver address.
    Receiver,
    /// Balance value.
    Balance,
    /// EIP-3009 nonce.
    Nonce,
}

/// ERC-20 method names for error context.
#[derive(Debug, Clone, Copy, PartialEq, Eq, Structural)]
pub enum ERC20Method {
    /// approve().
    Approve,
    /// transfer().
    Transfer,
    /// transferFrom().
    TransferFrom,
    /// mint().
    Mint,
    /// burn() / burnFrom().
    Burn,
    /// burnFrom().
    BurnFrom,
}

/// How a resource reads in a message.
pub open spec fn resource_text(r: ERC20Resource) -> Seq<char> {
    match r {
        ERC20Resource::Allowance => "Allowance"@,
        ERC20Resource::Account(a) => "Account("@ + address_string_spec(a) + ")"@,
        ERC20Resource::TotalSupply => "TotalSupply"@,
        ERC20Resource::Sender => "Sender"@,
        ERC20Resource::Receiver => "Receiver"@,
        ERC20Resource::Balance => "Balance"@,
        ERC20Resource::Nonce => "Nonce"@,
    }
}

/// How a method reads in a message.
pub open spec fn method_text(m: ERC20Method) -> Seq<char> {
    match m {
        ERC20Method::Approve => "Approve"@,
        ERC20Method::Transfer => "Transfer"@,
        ERC20Method::TransferFrom => "TransferFrom"@,
        ERC20Method::Mint => "Mint"@,
        ERC20Method::Burn => "Burn"@,
        ERC20Method::BurnFrom => "BurnFrom"@,
    }
}

/// The message of an arithmetic overflow on `r` during `m`.
pub open spec fn overflow_message(r: ERC20Resource, m: ERC20Method) -> Seq<char> {
    resource_text(r) + " overflow during "@ + method_text(m)
}

/// The message of a zero amount given to `m`.
pub open spec fn zero_amount_message(m: ERC20Method) -> Seq<char> {
    "Cannot "@ + method_text(m) + " zero amount"@
}

/// The message of a failed read of `r`, the state reporting `e`.
pub open spec fn read_error_message(r: ERC20Resource, e: Seq<char>) -> Seq<char> {
    "Failed to read "@ + resource_text(r) + ": "@ + e
}

/// The message of a failed write of `r`, the state reporting `e`.
pub open spec fn write_error_message(r: ERC20Resource, e: Seq<char>) -> Seq<char> {
    "Failed to write "@ + resource_text(r) + ": "@ + e
}

/// An error that reports a failed access to the state: a read or a write
/// of some resource that the state refused, with the state's reason.
pub open spec fn access_error(e: ERC20ErrorView) -> bool {
    e matches ERC20ErrorView::ERC20Other(m) && exists|r: ERC20Resource, why: Seq<char>|
        #![trigger read_error_message(r, why)]
        #![trigger write_error_message(r, why)]
        m == read_error_message(r, why) || m == write_error_message(r, why)
}

/// The text of an error (what `Display` writes).
pub open spec fn error_message(e: ERC20ErrorView) -> Seq<char> {
    match e {
        ERC20ErrorView::ERC20InvalidSender(a) => "Invalid sender: "@ + address_string_spec(a),
        ERC20ErrorView::ERC20InvalidReceiver(a) => "Invalid receiver: "@ + address_string_spec(a),
        ERC20ErrorView::ERC20InsufficientBalance(a, h, n) => "Insufficient balance for "@
            + address_string_spec(a) + ": have "@ + u256_string_spec(h) + ", need "@
            + u256_string_spec(n),
        ERC20ErrorView::ERC20InvalidApprover(a) => "Invalid approver: "@ + address_string_spec(a),
        ERC20ErrorView::ERC20InvalidSpender(a) => "Invalid spender: "@ + address_string_spec(a),
        ERC20ErrorView::ERC20InsufficientAllowance(a, h, n) => "Insufficient allowance for "@
            + address_string_spec(a) + ": have "@ + u256_string_spec(h) + ", need "@
            + u256_string_spec(n),
        ERC20ErrorView::NotWhitelisted(a) => "Not whitelisted: "@ + address_string_spec(a),
        ERC20ErrorView::ERC20Other(m) => "ERC20 Error: "@ + m,
        ERC20ErrorView::AuthorizationNotYetValid(a, t) => "Authorization not yet valid: validAfter "@
            + u256_string_spec(a) + ", currentTime "@ + u256_string_spec(t),
        ERC20ErrorView::AuthorizationExpired(b, t) => "Authorization expired: validBefore: "@
            + u256_string_spec(b) + ", currentTime: "@ + u256_string_spec(t),
        ERC20ErrorView::AuthorizationAlreadyUsed(n) => "Authorization already used: nonce: "@
            + b256_string_spec(n),
        ERC20ErrorView::InvalidAuthorizer(s, g) => "Invalid authorizer: sender: "@
            + address_string_spec(s) + ", signer: "@ + address_string_spec(g),
        ERC20ErrorView::InvalidSignature => "Invalid signature"@,
        ERC20ErrorView::CallerNotReceiver(c, r) => "Caller is not receiver: caller: "@
            + address_string_spec(c) + ", receiver: "@ + address_string_spec(r),
        ERC20ErrorView::SignatureMalleability => "Signature malleability detected"@,
    }
}

impl ERC20Resource {
    /// The resource as text.
    pub fn text(&self) -> (r: String)
        ensures
            r@ == resource_text(*self),
    {
        match self {
            ERC20Resource::Allowance => String::from_str("Allowance"),
            ERC20Resource::Account(a) => {
                let mut s = String::from_str("Account(");
                let t = address_string(*a);
                s.append(t.as_str());
                s.append(")");
                s
            },
            ERC20Resource::TotalSupply => String::from_str("TotalSupply"),
            ERC20Resource::Sender => String::from_str("Sender"),
            ERC20Resource::Receiver => String::from_str("Receiver"),
            ERC20Resource::Balance => String::from_str("Balance"),
            ERC20Resource::Nonce => String::from_str("Nonce"),
        }
    }
}

impl ERC20Method {
    /// The method as text.
    pub fn text(&self) -> (r: String)
        ensures
            r@ == method_text(*self),
    {
        match self {
            ERC20Method::Approve => String::from_str("Approve"),
            ERC20Method::Transfer => String::from_str("Transfer"),
            ERC20Method::TransferFrom => String::from_str("TransferFrom"),
            ERC20Method::Mint => String::from_str("Mint"),
            ERC20Method::Burn => String::from_str("Burn"),
            ERC20Method::BurnFrom => String::from_str("BurnFrom"),
        }
    }
}

/// `a + b` as a new string.
fn concat2(a: &str, b: &str) -> (r: String)
    ensures
        r@ == a@ + b@,
{
    let mut s = String::from_str(a);
    s.append(b);
    s
}

impl ERC20Error {
    /// Create a generic error.
    pub fn other(msg: String) -> (r: Self)
        ensures
            r@ == ERC20ErrorView::ERC20Other(msg@),
    {
        ERC20Error::ERC20Other(msg)
    }

    /// Create an initialization error.
    pub fn initialize_error(resource: ERC20Resource, error: String) -> (r: Self)
        ensures
            r@ == ERC20ErrorView::ERC20Other(
                "Failed to initialize "@ + resource_text(resource) + ": "@ + error@,
            ),
    {
        let mut s = String::from_str("Failed to initialize ");
        let t = resource.text();
        s.append(t.as_str());
        s.append(": ");
        s.append(error.as_str());
        ERC20Error::ERC20Other(s)
    }

    /// Create a read error.
    pub fn read_error(resource: ERC20Resource, error: String) -> (r: Self)
        ensures
            r@ == ERC20ErrorView::ERC20Other(read_error_message(resource, error@)),
    {
        let mut s = String::from_str("Failed to read ");
        let t = resource.text();
        s.append(t.as_str());
        s.append(": ");
        s.append(error.as_str());
        ERC20Error::ERC20Other(s)
    }

    /// Create a write error.
    pub fn write_error(resource: ERC20Resource, error: String) -> (r: Self)
        ensures
            r@ == ERC20ErrorView::ERC20Other(write_error_message(resource, error@)),
    {
        let mut s = String::from_str("Failed to write ");
        let t = resource.text();
        s.append(t.as_str());
        s.append(": ");
        s.append(error.as_str());
        ERC20Error::ERC20Other(s)
    }

    /// Create an overflow error.
    pub fn overflow_error(resource: ERC20Resource, method: ERC20Method) -> (r: Self)
        ensures
            r@ == ERC20ErrorView::ERC20Other(overflow_message(resource, method)),
    {
        let t = resource.text();
        let mut s = concat2(t.as_str(), " overflow during ");
        let m = method.text();
        s.append(m.as_str());
        ERC20Error::ERC20Other(s)
    }

    /// Create a zero amount error.
    pub fn zero_amount_error(method: ERC20Method) -> (r: Self)
        ensures
            r@ == ERC20ErrorView::ERC20Other(zero_amount_message(method)),
    {
        let mut s = String::from_str("Cannot ");
        let m = method.text();
        s.append(m.as_str());
        s.append(" zero amount");
        ERC20Error::ERC20Other(s)
    }

    /// The error's text.
    pub fn message(&self) -> (r: String)
        ensures
            r@ == error_message(self@),
    {
        match self {
            ERC20Error::ERC20InvalidSender(a) => {
                let t = address_string(*a);
                concat2("Invalid sender: ", t.as_str())
            },
            ERC20Error::ERC20InvalidReceiver(a) => {
                let t = address_string(*a);
                concat2("Invalid receiver: ", t.as_str())
            },
            ERC20Error::ERC20InsufficientBalance(a, h, n) => {
                let mut s = String::from_str("Insufficient balance for ");
                let t = address_string(*a);
                s.append(t.as_str());
                s.append(": have ");
                let t = u256_string(*h);
                s.append(t.as_str());
                s.append(", need ");
                let t = u256_string(*n);
                s.append(t.as_str());
                s
            },
            ERC20Error::ERC20InvalidApprover(a) => {
                let t = address_string(*a);
                concat2("Invalid approver: ", t.as_str())
            },
            ERC20Error::ERC20InvalidSpender(a) => {
                let t = address_string(*a);
                concat2("Invalid spender: ", t.as_str())
            },
            ERC20Error::ERC20InsufficientAllowance(a, h, n) => {
                let mut s = String::from_str("Insufficient allowance for ");
                let t = address_string(*a);
                s.append(t.as_str());
                s.append(": have ");
                let t = u256_string(*h);
                s.append(t.as_str());
                s.append(", need ");
                let t = u256_string(*n);
                s.append(t.as_str());
                s
            },
            ERC20Error::NotWhitelisted(a) => {
                let t = address_string(*a);
                concat2("Not whitelisted: ", t.as_str())
            },
            ERC20Error::ERC20Other(m) => concat2("ERC20 Error: ", m.as_str()),
            ERC20Error::AuthorizationNotYetValid(a, t) => {
                let mut s = String::from_str("Authorization not yet valid: validAfter ");
                let x = u256_string(*a);
                s.append(x.as_str());
                s.append(", currentTime ");
                let x = u256_string(*t);
                s.append(x.as_str());
                s
            },
            ERC20Error::AuthorizationExpired(b, t) => {
                let mut s = String::from_str("Authorization expired: validBefore: ");
                let x = u256_string(*b);
                s.append(x.as_str());
                s.append(", currentTime: ");
                let x = u256_string(*t);
                s.append(x.as_str());
                s
            },
            ERC20Error::AuthorizationAlreadyUsed(n) => {
                let x = b256_string(*n);
                concat2("Authorization already used: nonce: ", x.as_str())
            },
            ERC20Error::InvalidAuthorizer(s0, g) => {
                let mut s = String::from_str("Invalid authorizer: sender: ");
                let x = address_string(*s0);
                s.append(x.as_str());
                s.append(", signer: ");
                let x = address_string(*g);
                s.append(x.as_str());
                s
            },
            ERC20Error::InvalidSignature => String::from_str("Invalid signature"),
            ERC20Error::CallerNotReceiver(c, r) => {
                let mut s = String::from_str("Caller is not receiver: caller: ");
                let x = address_string(*c);
                s.append(x.as_str());
                s.append(", receiver: ");
                let x = address_string(*r);
                s.append(x.as_str());
                s
            },
            ERC20Error::SignatureMalleability => String::from_str("Signature malleability detected"),
        }
    }

    /// The revert data of the error: Solidity's `Error(string)` with the error's text.
    pub fn to_revert_bytes(&self) -> (r: Vec<u8>)
        ensures
            r@ == revert_bytes_spec(self@),
    {
        let m = self.message();
        encode_revert_reason(m.as_str())
    }
}

/// The revert data of an error.
pub open spec fn revert_bytes_spec(e: ERC20ErrorView) -> Seq<u8> {
    error_string_selector() + abi_string(vstd::utf8::encode_utf8(error_message(e)))
}

} // verus!

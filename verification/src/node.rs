//! Node-level types: the execution node's markers, the no-op consensus
//! checks reth requires, the node's role, and the errors of the `rayls`
//! RPC namespace.

use crate::text::{hex_digit, hex_text};
use vstd::prelude::*;
use vstd::string::StringExecFns;

verus! {

/// Marker for the execution node's type configuration.
#[derive(Debug, Clone)]
pub struct RaylsNode {}

/// Marker for the default payload types the engine tree requires (never
/// used: no beacon messages are sent).
#[derive(Debug, Default, Clone)]
pub struct DefaultEthPayloadTypes;

/// A consensus check's failure.
#[derive(Debug, Clone, PartialEq, Eq)]
pub struct ConsensusError {
    /// What failed.
    pub message: String,
}

/// Consensus checks for reth's sake: blocks are validated by the Rayls
/// consensus layer, so every check here passes.
#[derive(Debug, Clone, Copy)]
pub struct RaylsExecution;

impl RaylsExecution {
    /// Accepts any header.
    pub fn validate_header<H>(&self, _header: &H) -> (r: Result<(), ConsensusError>)
        ensures
            r is Ok,
    {
        Ok(())
    }

    /// Accepts any header against any parent.
    pub fn validate_header_against_parent<H>(&self, _header: &H, _parent: &H) -> (r: Result<(), ConsensusError>)
        ensures
            r is Ok,
    {
        Ok(())
    }

    /// Accepts any body against any header.
    pub fn validate_body_against_header<B, H>(&self, _body: &B, _header: &H) -> (r: Result<(), ConsensusError>)
        ensures
            r is Ok,
    {
        Ok(())
    }

    /// Accepts any block before execution.
    pub fn validate_block_pre_execution<B>(&self, _block: &B) -> (r: Result<(), ConsensusError>)
        ensures
            r is Ok,
    {
        Ok(())
    }

    /// Accepts any block after execution.
    pub fn validate_block_post_execution<B, R>(&self, _block: &B, _result: &R) -> (r: Result<(), ConsensusError>)
        ensures
            r is Ok,
    {
        Ok(())
    }
}

/// Role of the local node within the current committee.
#[derive(Debug, Clone, Copy, PartialEq, Eq, Structural)]
pub enum NodeRole {
    /// Full CVV actively voting in the current committee.
    ActiveCvv,
    /// Staked CVV catching up; allowed to sync past GC and rejoin.
    InactiveCvv,
    /// Follower not in the committee (staked or unstaked).
    Observer,
}

/// A JSON-RPC error object.
#[derive(Debug, Clone, PartialEq, Eq)]
pub struct ErrorObject {
    /// Error code.
    pub code: i32,
    /// Message.
    pub message: String,
    /// Extra data, as raw JSON.
    pub data: Option<String>,
}

/// Error type for public RPC endpoints in the `rayls` namespace.
#[derive(Debug, Clone, Copy, PartialEq, Eq, Structural)]
pub enum RaylsRpcError {
    /// Handshake client provided an invalid signature for network key.
    InvalidProofOfPossession,
    /// Requested item not found.
    NotFound,
}

/// The message of an RPC error.
pub open spec fn rpc_error_message(e: RaylsRpcError) -> Seq<char> {
    match e {
        RaylsRpcError::InvalidProofOfPossession => "Invalid proof of possession for provided network key or genesis."@,
        RaylsRpcError::NotFound => "Not Found."@,
    }
}

/// The lowercase hexadecimal digit of `d`.
fn hex_digit_exec(d: u8) -> (r: char)
    requires
        d < 16,
    ensures
        r == hex_digit(d),
{
    if d < 10 {
        (48 + d) as char
    } else {
        (97 + d - 10) as char
    }
}

/// The RPC data of `data`: the JSON string `"0x<hex>"`.
pub open spec fn rpc_data(data: Seq<u8>) -> Seq<char> {
    seq!['"', '0', 'x'] + hex_text(data) + seq!['"']
}

/// Builds a JSON-RPC error; `data`, when given, is carried as the JSON
/// string of its `0x`-prefixed hexadecimal text.
pub fn rpc_error(code: i32, msg: String, data: Option<&[u8]>) -> (r: ErrorObject)
    ensures
        r.code == code,
        r.message@ == msg@,
        match data {
            None => r.data is None,
            Some(d) => r.data matches Some(t) && t@ == rpc_data(d@),
        },
{
    let data = match data {
        None => None,
        Some(d) => {
            let mut chars: Vec<char> = vec!['"', '0', 'x'];
            let mut i: usize = 0;
            while i < d.len()
                invariant
                    i <= d@.len(),
                    chars@ == seq!['"', '0', 'x'] + hex_text(d@.subrange(0, i as int)),
                decreases d@.len() - i,
            {
                let b = d[i];
                chars.push(hex_digit_exec(b / 16));
                chars.push(hex_digit_exec(b % 16));
                proof {
                    assert(d@.subrange(0, i + 1).drop_last() =~= d@.subrange(0, i as int));
                }
                i = i + 1;
                assert(chars@ =~= seq!['"', '0', 'x'] + hex_text(d@.subrange(0, i as int)));
            }
            chars.push('"');
            assert(d@.subrange(0, d@.len() as int) =~= d@);
            Some(crate::genesis::string_of(chars.as_slice()))
        },
    };
    ErrorObject { code, message: msg, data }
}

impl RaylsRpcError {
    /// The error's message.
    pub fn message(&self) -> (r: String)
        ensures
            r@ == rpc_error_message(*self),
    {
        match self {
            RaylsRpcError::InvalidProofOfPossession => String::from_str(
                "Invalid proof of possession for provided network key or genesis.",
            ),
            RaylsRpcError::NotFound => String::from_str("Not Found."),
        }
    }

    /// The JSON-RPC error object of the error: code 401, the message, no
    /// data.
    pub fn to_error_object(&self) -> (r: ErrorObject)
        ensures
            r.code == 401,
            r.message@ == rpc_error_message(*self),
            r.data is None,
    {
        rpc_error(401, self.message(), None)
    }
}

} // verus!

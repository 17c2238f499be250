//! EIP-3009 authorizations: EIP-712 signing hashes and signer recovery.

use crate::address::{address_of_value, lemma_address_of_value, Address};
use crate::bytes::{be_bytes, be_value, lemma_be_roundtrip, lemma_pow256_values, zeros};
use crate::errors::{ERC20Error, ERC20ErrorView};
use crate::hash::{extend_bytes, keccak256_digest, keccak256_to_word, keccak256_word};
use crate::uint::{word_max, U256};
use vstd::prelude::*;
use vstd::string::StringExecFns;
use vstd::utf8::encode_utf8;

verus! {

/// The EIP-712 domain separator of the domain with this name, version, chain
/// id and verifying contract (20 bytes): `hashStruct` of the domain, the
/// digest of its type hash followed by the encoded fields (the name and the
/// version hashed, the chain id as a word, the address left-padded).
pub open spec fn eip712_domain_separator_digest(
    name: Seq<char>,
    version: Seq<char>,
    chain_id: nat,
    verifying_contract: Seq<u8>,
) -> Seq<u8> {
    keccak256_digest(
        keccak256_digest(
            encode_utf8(
                "EIP712Domain(string name,string version,uint256 chainId,address verifyingContract)"@,
            ),
        ) + keccak256_digest(encode_utf8(name)) + keccak256_digest(encode_utf8(version))
            + be_bytes(chain_id, 32) + zeros(12) + verifying_contract,
    )
}

/// Builds `alloy::sol_types::Eip712Domain { name, version, chain_id,
/// verifying_contract, salt: None }` and calls its `separator`.
///
/// Trusted: the result is the domain's `hashStruct` as
/// `eip712_domain_separator_digest` spells it out, which is what
/// `separator` computes (`encode_type` lists the four fields that are set,
/// `encode_data` hashes the two strings and writes the chain id and the
/// address as words), with the same Keccak-256 as
/// `alloy_primitives::keccak256`. `Address::from_slice` panics unless there
/// are 20 bytes, which `requires` rules out.
#[verifier::external_body]
fn domain_separator(name: &str, version: &str, chain_id: u64, verifying_contract: &[u8]) -> (r:
    Vec<u8>)
    requires
        verifying_contract@.len() == 20,
    ensures
        r@ == eip712_domain_separator_digest(
            name@,
            version@,
            chain_id as nat,
            verifying_contract@,
        ),
        r@.len() == 32,
{
    let domain = alloy::sol_types::Eip712Domain {
        name: Some(name.to_string().into()),
        version: Some(version.to_string().into()),
        chain_id: Some(alloy::primitives::U256::from(chain_id)),
        verifying_contract: Some(alloy::primitives::Address::from_slice(verifying_contract)),
        salt: None,
    };
    domain.separator().to_vec()
}

/// The signer that ECDSA recovery yields for a 32-byte prehash and the
/// signature `(r, s, y_parity)` (20 address bytes), or the text of the
/// recovery error, as `Signature::recover_address_from_prehash` gives them.
pub uninterp spec fn ecrecover_prehash(
    prehash: Seq<u8>,
    r: Seq<u8>,
    s: Seq<u8>,
    y_parity: bool,
) -> Result<Seq<u8>, Seq<char>>;

/// Calls `Signature::from_scalars_and_parity(r, s, y_parity)
/// .recover_address_from_prehash(prehash)` and returns the address bytes, or
/// the error's `Display` text.
///
/// Trusted: the result is what `ecrecover_prehash` names for these
/// arguments; a recovered address has 20 bytes. The slice conversions panic
/// unless each argument has 32 bytes, which `requires` rules out.
#[verifier::external_body]
fn recover_address(prehash: &[u8], r: &[u8], s: &[u8], y_parity: bool) -> (res: Result<
    Vec<u8>,
    String,
>)
    requires
        prehash@.len() == 32,
        r@.len() == 32,
        s@.len() == 32,
    ensures
        match res {
            Ok(a) => ecrecover_prehash(prehash@, r@, s@, y_parity) == Ok::<Seq<u8>, Seq<char>>(a@)
                && a@.len() == 20,
            Err(e) => ecrecover_prehash(prehash@, r@, s@, y_parity) == Err::<Seq<u8>, Seq<char>>(
                e@,
            ),
        },
{
    let signature = alloy::primitives::Signature::from_scalars_and_parity(
        alloy::primitives::B256::from_slice(r),
        alloy::primitives::B256::from_slice(s),
        y_parity,
    );
    match signature.recover_address_from_prehash(&alloy::primitives::B256::from_slice(prehash)) {
        Ok(a) => Ok(a.to_vec()),
        Err(e) => Err(e.to_string()),
    }
}

/// `keccak256("TransferWithAuthorizationStruct(address from,address to,uint256 value,uint256 validAfter,uint256 validBefore,bytes32 nonce)")`.
pub open spec fn transfer_authorization_typehash() -> nat {
    0xe1c93bb35db97f6d68c368171f79d81bc25074dd0149115a087715ccb1eb3c82nat
}

/// `keccak256("CancelAuthorizationStruct(address authorizer,bytes32 nonce)")`.
pub open spec fn cancel_authorization_typehash() -> nat {
    0x899b6dc30da6dc1316358bcfaca91b86f75e3907511d454d70237f2385a68d3enat
}

/// Half the order of the secp256k1 group, rounded down: the `s` scalar of
/// a signature above it is rejected as malleable.
pub open spec fn secp256k1n_half() -> nat {
    0x7fffffffffffffffffffffffffffffff5d576e7357a4501ddfe92f46681b20a0nat
}

/// EIP-712 `hashStruct` of a transfer authorization.
pub open spec fn transfer_authorization_hash(
    from: Address,
    to: Address,
    value: nat,
    valid_after: nat,
    valid_before: nat,
    nonce: nat,
) -> nat {
    keccak256_word(
        be_bytes(transfer_authorization_typehash(), 32) + be_bytes(from@, 32) + be_bytes(to@, 32)
            + be_bytes(value, 32) + be_bytes(valid_after, 32) + be_bytes(valid_before, 32)
            + be_bytes(nonce, 32),
    )
}

/// EIP-712 `hashStruct` of a cancellation.
pub open spec fn cancel_authorization_hash(authorizer: Address, nonce: nat) -> nat {
    keccak256_word(
        be_bytes(cancel_authorization_typehash(), 32) + be_bytes(authorizer@, 32) + be_bytes(
            nonce,
            32,
        ),
    )
}

/// The EIP-712 signing hash `keccak256(0x19 0x01 ‖ domainSeparator ‖ hashStruct)`.
pub open spec fn eip712_signing_hash(domain_separator: nat, struct_hash: nat) -> nat {
    keccak256_word(seq![0x19u8, 0x01u8] + be_bytes(domain_separator, 32) + be_bytes(struct_hash, 32))
}

/// The parity that a `v` value selects: 0 and 27 even, 1 and 28 odd.
pub open spec fn parity_of_v(v: u8) -> Option<bool> {
    if v == 0 || v == 27 {
        Some(false)
    } else if v == 1 || v == 28 {
        Some(true)
    } else {
        None
    }
}

/// The signer recovered from `hash` and `(v, r, s)`, or the error.
pub open spec fn recover_signer_spec(hash: nat, v: u8, r: nat, s: nat) -> Result<
    Address,
    ERC20ErrorView,
> {
    match parity_of_v(v) {
        None => Err(ERC20ErrorView::ERC20Other("Invalid signature"@)),
        Some(parity) => if s > secp256k1n_half() {
            Err(ERC20ErrorView::SignatureMalleability)
        } else {
            match ecrecover_prehash(be_bytes(hash, 32), be_bytes(r, 32), be_bytes(s, 32), parity) {
                Ok(a) => Ok(address_of_bytes(a)),
                Err(e) => Err(ERC20ErrorView::ERC20Other(e)),
            }
        },
    }
}

/// The address whose 20 bytes are `a`.
pub open spec fn address_of_bytes(a: Seq<u8>) -> Address {
    address_of_value(be_value(a))
}

/// The signing hash of a domain and a struct hash.
fn signing_hash(domain_separator: U256, struct_hash: U256) -> (r: U256)
    ensures
        r@ == eip712_signing_hash(domain_separator@, struct_hash@),
{
    let mut buf: Vec<u8> = vec![0x19u8, 0x01u8];
    let d = domain_separator.to_be_bytes();
    extend_bytes(&mut buf, d.as_slice());
    let h = struct_hash.to_be_bytes();
    extend_bytes(&mut buf, h.as_slice());
    keccak256_to_word(buf.as_slice())
}

/// The EIP-712 domain separator of the token.
pub fn eip712_domain_separator(name: &str, version: &str, chain_id: u64, contract: Address) -> (r:
    U256)
    ensures
        r@ == be_value(
            eip712_domain_separator_digest(name@, version@, chain_id as nat, be_bytes(contract@, 20)),
        ),
{
    let c = contract.to_be_bytes();
    let d = domain_separator(name, version, chain_id, c.as_slice());
    U256::from_be_bytes(d.as_slice())
}

/// The signer of `hash` under `(v, r, s)`.
fn recover_signer(hash: U256, v: u8, r: U256, s: U256) -> (res: Result<Address, ERC20Error>)
    ensures
        match res {
            Ok(a) => recover_signer_spec(hash@, v, r@, s@) == Ok::<Address, ERC20ErrorView>(a),
            Err(e) => recover_signer_spec(hash@, v, r@, s@) == Err::<Address, ERC20ErrorView>(e@),
        },
{
    let y_parity = if v == 27 || v == 0 {
        false
    } else if v == 28 || v == 1 {
        true
    } else {
        return Err(ERC20Error::other(String::from_str("Invalid signature")));
    };
    let half = U256 { hi: 0x7fffffffffffffffffffffffffffffff, lo: 0x5d576e7357a4501ddfe92f46681b20a0 };
    if half.lt(&s) {
        return Err(ERC20Error::SignatureMalleability);
    }
    let h = hash.to_be_bytes();
    let rb = r.to_be_bytes();
    let sb = s.to_be_bytes();
    match recover_address(h.as_slice(), rb.as_slice(), sb.as_slice(), y_parity) {
        Ok(a) => {
            let addr = Address::from_be_bytes(a.as_slice());
            proof {
                lemma_address_of_value(be_value(a@), addr);
            }
            Ok(addr)
        },
        Err(e) => Err(ERC20Error::other(e)),
    }
}

/// Recover the signer of an EIP-3009 transfer authorization.
pub fn verify_transfer_authorization(
    domain_separator: U256,
    from: Address,
    to: Address,
    value: U256,
    valid_after: U256,
    valid_before: U256,
    nonce: U256,
    v: u8,
    r: U256,
    s: U256,
) -> (res: Result<Address, ERC20Error>)
    ensures
        match res {
            Ok(a) => recover_signer_spec(
                eip712_signing_hash(
                    domain_separator@,
                    transfer_authorization_hash(from, to, value@, valid_after@, valid_before@, nonce@),
                ),
                v,
                r@,
                s@,
            ) == Ok::<Address, ERC20ErrorView>(a),
            Err(e) => recover_signer_spec(
                eip712_signing_hash(
                    domain_separator@,
                    transfer_authorization_hash(from, to, value@, valid_after@, valid_before@, nonce@),
                ),
                v,
                r@,
                s@,
            ) == Err::<Address, ERC20ErrorView>(e@),
        },
{
    let mut buf = U256 { hi: 0xe1c93bb35db97f6d68c368171f79d81b, lo: 0xc25074dd0149115a087715ccb1eb3c82 }.to_be_bytes();
    let w = from.to_word().to_be_bytes();
    extend_bytes(&mut buf, w.as_slice());
    let w = to.to_word().to_be_bytes();
    extend_bytes(&mut buf, w.as_slice());
    let w = value.to_be_bytes();
    extend_bytes(&mut buf, w.as_slice());
    let w = valid_after.to_be_bytes();
    extend_bytes(&mut buf, w.as_slice());
    let w = valid_before.to_be_bytes();
    extend_bytes(&mut buf, w.as_slice());
    let w = nonce.to_be_bytes();
    extend_bytes(&mut buf, w.as_slice());
    let struct_hash = keccak256_to_word(buf.as_slice());
    let hash = signing_hash(domain_separator, struct_hash);
    recover_signer(hash, v, r, s)
}

/// Recover the signer of an EIP-3009 cancellation.
pub fn verify_cancel_authorization(
    domain_separator: U256,
    authorizer: Address,
    nonce: U256,
    v: u8,
    r: U256,
    s: U256,
) -> (res: Result<Address, ERC20Error>)
    ensures
        match res {
            Ok(a) => recover_signer_spec(
                eip712_signing_hash(domain_separator@, cancel_authorization_hash(authorizer, nonce@)),
                v,
                r@,
                s@,
            ) == Ok::<Address, ERC20ErrorView>(a),
            Err(e) => recover_signer_spec(
                eip712_signing_hash(domain_separator@, cancel_authorization_hash(authorizer, nonce@)),
                v,
                r@,
                s@,
            ) == Err::<Address, ERC20ErrorView>(e@),
        },
{
    let mut buf = U256 { hi: 0x899b6dc30da6dc1316358bcfaca91b86, lo: 0xf75e3907511d454d70237f2385a68d3e }.to_be_bytes();
    let w = authorizer.to_word().to_be_bytes();
    extend_bytes(&mut buf, w.as_slice());
    let w = nonce.to_be_bytes();
    extend_bytes(&mut buf, w.as_slice());
    let struct_hash = keccak256_to_word(buf.as_slice());
    let hash = signing_hash(domain_separator, struct_hash);
    recover_signer(hash, v, r, s)
}

} // verus!

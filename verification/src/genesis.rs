//! Genesis construction: the RLS supply minted at genesis, the addresses the
//! pre-genesis deployments land at, the linking of the BLS library into the
//! registry's bytecode, and the greenfield fixes applied to the allocation.

use crate::address::{address_of_value, lemma_address_of_value, Address};
use crate::bytes::{be_bytes, be_value};
use crate::hash::{extend_bytes, keccak256_digest};
use crate::json_path::{fetch_spec, fetch_value_from_json, JsonValue};
use crate::keyed::{AddressMap, SlotMap};
use crate::uint::{word_max, U256};
use vstd::prelude::*;
use vstd::string::StringExecFns;

verus! {

/// Calls `alloy_primitives::U256::checked_mul` on the two 256-bit numbers
/// whose big-endian bytes are given.
///
/// Trusted: the result is the 32-byte product when the product fits in 256
/// bits, `None` otherwise (as the method's documentation says).
#[verifier::external_body]
fn checked_mul_bytes(a: &[u8], b: &[u8]) -> (r: Option<Vec<u8>>)
    requires
        a@.len() == 32,
        b@.len() == 32,
    ensures
        match r {
            Some(p) => p@.len() == 32 && be_value(p@) == be_value(a@) * be_value(b@),
            None => be_value(a@) * be_value(b@) > word_max(),
        },
{
    alloy::primitives::U256::from_be_slice(a)
        .checked_mul(alloy::primitives::U256::from_be_slice(b))
        .map(|p| p.to_be_bytes::<32>().to_vec())
}

/// The value of the hexadecimal digit `c` (either case), if it is one.
pub open spec fn hex_value(c: char) -> Option<u8> {
    if '0' <= c <= '9' {
        Some(((c as u8) - ('0' as u8)) as u8)
    } else if 'a' <= c <= 'f' {
        Some(((c as u8) - ('a' as u8) + 10) as u8)
    } else if 'A' <= c <= 'F' {
        Some(((c as u8) - ('A' as u8) + 10) as u8)
    } else {
        None
    }
}

/// `s` without a leading `0x` or `0X`.
pub open spec fn strip_hex_prefix(s: Seq<char>) -> Seq<char> {
    if s.len() >= 2 && s[0] == '0' && (s[1] == 'x' || s[1] == 'X') {
        s.subrange(2, s.len() as int)
    } else {
        s
    }
}

/// True if `s` is hexadecimal text: an even number of characters, all of
/// them digits after an optional `0x`.
pub open spec fn is_hex_text(s: Seq<char>) -> bool {
    &&& s.len() % 2 == 0
    &&& forall|i: int| 0 <= i < strip_hex_prefix(s).len() ==> #[trigger] hex_value(strip_hex_prefix(s)[i]) is Some
}

/// The bytes that the digits `t` denote, two digits per byte.
pub open spec fn hex_bytes(t: Seq<char>) -> Seq<u8> {
    Seq::new(
        t.len() / 2,
        |i: int| (hex_value(t[2 * i]).unwrap() * 16 + hex_value(t[2 * i + 1]).unwrap()) as u8,
    )
}

/// The text of the error that decoding the text `s` fails with.
pub uninterp spec fn hex_decode_error(s: Seq<char>) -> Seq<char>;

/// Calls `alloy::hex::decode`.
///
/// Trusted: as the source shows, decoding succeeds exactly on hexadecimal
/// text (an even number of bytes, digits of either case after an optional
/// `0x`/`0X`), and yields the byte of each pair of digits; the error's text
/// is the one `hex_decode_error` names. A text with a character beyond ASCII
/// has no hexadecimal reading and fails either way.
#[verifier::external_body]
fn hex_decode(s: &str) -> (r: Result<Vec<u8>, String>)
    ensures
        match r {
            Ok(b) => is_hex_text(s@) && b@ == hex_bytes(strip_hex_prefix(s@)),
            Err(e) => !is_hex_text(s@) && e@ == hex_decode_error(s@),
        },
{
    alloy::hex::decode(s).map_err(|e| e.to_string())
}

/// The characters of `s`.
pub(crate) fn chars_of(s: &str) -> (r: Vec<char>)
    ensures
        r@ == s@,
{
    broadcast use vstd::string::axiom_spec_iter;
    let mut out: Vec<char> = Vec::new();
    for c in it: s.chars()
        invariant
            it.seq() == s@,
            out@ == it.seq().take(it.index() as int),
    {
        out.push(c);
    }
    out
}

/// The string of the characters `c`.
///
/// Trusted: collecting characters into a `String` keeps them in order.
#[verifier::external_body]
pub(crate) fn string_of(c: &[char]) -> (r: String)
    ensures
        r@ == c@,
{
    c.iter().collect()
}

/// The number of bytes of `n` written without leading zeros (none for 0).
pub open spec fn byte_length(n: nat) -> nat
    decreases n,
{
    if n == 0 {
        0
    } else {
        1 + byte_length(n / 256)
    }
}

/// The RLP encoding of an unsigned integer.
pub open spec fn rlp_u64(n: u64) -> Seq<u8> {
    if n == 0 {
        seq![0x80u8]
    } else if n < 0x80 {
        seq![n as u8]
    } else {
        seq![(0x80 + byte_length(n as nat)) as u8] + be_bytes(n as nat, byte_length(n as nat))
    }
}

/// The RLP encoding of the list `[sender, nonce]`, the sender given by its
/// 20 bytes.
pub open spec fn create_preimage(sender: Seq<u8>, nonce: u64) -> Seq<u8> {
    seq![(0xc0 + 21 + rlp_u64(nonce).len()) as u8, 0x94u8] + sender + rlp_u64(nonce)
}

/// The address of the contract `sender` creates with `nonce`: the last 20
/// bytes of `keccak256(rlp([sender, nonce]))`.
pub open spec fn create_address_spec(sender: Address, nonce: u64) -> Address {
    address_of_value(be_value(keccak256_digest(create_preimage(be_bytes(sender@, 20), nonce)).subrange(12, 32)))
}

/// Calls `alloy_primitives::Address::create` on the address whose 20 bytes
/// are given, and returns the 20 bytes of the result.
///
/// Trusted: as the source shows, the result is the last 20 bytes of the
/// Keccak-256 digest (the same as `alloy_primitives::keccak256`) of the RLP
/// list of the address and the nonce.
#[verifier::external_body]
fn create_address_bytes(sender: &[u8], nonce: u64) -> (r: Vec<u8>)
    requires
        sender@.len() == 20,
    ensures
        r@ == keccak256_digest(create_preimage(sender@, nonce)).subrange(12, 32),
        r@.len() == 20,
{
    alloy::primitives::Address::from_slice(sender).create(nonce).to_vec()
}

/// The address of the contract `sender` creates with `nonce`.
pub fn create_address(sender: Address, nonce: u64) -> (r: Address)
    ensures
        r == create_address_spec(sender, nonce),
{
    let s = sender.to_be_bytes();
    let d = create_address_bytes(s.as_slice(), nonce);
    let a = Address::from_be_bytes(d.as_slice());
    proof {
        lemma_address_of_value(a@, a);
    }
    a
}

/// The throwaway account that deploys the upgradable precompile proxies,
/// `0xd35150d35150d35150d35150d35150d35150d351`.
pub open spec fn precompile_deployer_spec() -> Address {
    Address { hi: 0xd35150d3, lo: 0x5150d35150d35150d35150d35150d351 }
}

/// The throwaway account that deploys the upgradable precompile proxies.
pub fn precompile_deployer() -> (r: Address)
    ensures
        r == precompile_deployer_spec(),
{
    Address { hi: 0xd35150d3, lo: 0x5150d35150d35150d35150d35150d351 }
}

/// The RLS minted at genesis.
#[derive(Debug, Clone, Copy, PartialEq, Eq, Structural)]
pub struct GenesisSupply {
    /// Staked by the validators, moved to the consensus registry.
    pub total_stake: U256,
    /// Prefunded to the listed accounts.
    pub total_prefund: U256,
    /// The initial supply: stake plus prefunds.
    pub total_supply: U256,
}

/// The sum of the prefund amounts.
pub open spec fn prefund_sum(prefunds: Seq<(Address, U256)>) -> nat
    decreases prefunds.len(),
{
    if prefunds.len() == 0 {
        0
    } else {
        prefund_sum(prefunds.drop_last()) + prefunds.last().1@
    }
}

/// The genesis RLS supply, or which sum overflows: the stake of
/// `validator_count` validators at `stake_amount` each, then the prefunds,
/// then the two together.
pub open spec fn genesis_supply_spec(stake_amount: nat, validator_count: nat, prefunds: Seq<(Address, U256)>) -> Result<(nat, nat, nat), Seq<char>> {
    if stake_amount * validator_count > word_max() {
        Err("overflow computing total validator stake"@)
    } else if exists|i: int| 0 <= i <= prefunds.len() && #[trigger] prefund_sum(prefunds.take(i)) > word_max() {
        Err("overflow summing --rls-accounts balances"@)
    } else if stake_amount * validator_count + prefund_sum(prefunds) > word_max() {
        Err("overflow computing total RLS supply"@)
    } else {
        Ok((stake_amount * validator_count, prefund_sum(prefunds), stake_amount * validator_count + prefund_sum(prefunds)))
    }
}

/// Once a prefix overflows, every longer prefix does.
proof fn lemma_prefund_sum_monotone(prefunds: Seq<(Address, U256)>, i: int, j: int)
    requires
        0 <= i <= j <= prefunds.len(),
    ensures
        prefund_sum(prefunds.take(i)) <= prefund_sum(prefunds.take(j)),
    decreases j - i,
{
    if i < j {
        lemma_prefund_sum_monotone(prefunds, i, j - 1);
        assert(prefunds.take(j).drop_last() =~= prefunds.take(j - 1));
    }
}

/// The genesis RLS supply: the validators' stake, the prefunds and their
/// total, each checked for overflow.
pub fn genesis_rls_supply(stake_amount: U256, validator_count: u64, prefunds: &[(Address, U256)]) -> (r: Result<GenesisSupply, String>)
    ensures
        match r {
            Ok(g) => genesis_supply_spec(stake_amount@, validator_count as nat, prefunds@) == Ok::<
                (nat, nat, nat),
                Seq<char>,
            >((g.total_stake@, g.total_prefund@, g.total_supply@)),
            Err(e) => genesis_supply_spec(stake_amount@, validator_count as nat, prefunds@) == Err::<
                (nat, nat, nat),
                Seq<char>,
            >(e@),
        },
{
    let a = stake_amount.to_be_bytes();
    let b = U256::from_u64(validator_count).to_be_bytes();
    let total_stake = match checked_mul_bytes(a.as_slice(), b.as_slice()) {
        Some(p) => U256::from_be_bytes(p.as_slice()),
        None => return Err(String::from_str("overflow computing total validator stake")),
    };
    let mut total_prefund = U256::zero();
    let mut i: usize = 0;
    while i < prefunds.len()
        invariant
            i <= prefunds@.len(),
            total_stake@ == stake_amount@ * validator_count,
            total_stake@ <= word_max(),
            total_prefund@ == prefund_sum(prefunds@.take(i as int)),
            forall|j: int| 0 <= j <= i ==> #[trigger] prefund_sum(prefunds@.take(j)) <= word_max(),
        decreases prefunds@.len() - i,
    {
        let ghost before = prefunds@.take(i as int);
        assert(prefunds@.take(i + 1).drop_last() =~= before);
        match total_prefund.checked_add(&prefunds[i].1) {
            Some(v) => total_prefund = v,
            None => {
                proof {
                    assert(prefunds@.take(i + 1).last() == prefunds@[i as int]);
                    assert(prefund_sum(prefunds@.take(i + 1)) > word_max());
                    assert(0 <= i + 1 <= prefunds@.len());
                    assert(exists|j: int| 0 <= j <= prefunds@.len() && #[trigger] prefund_sum(prefunds@.take(j)) > word_max());
                }
                return Err(String::from_str("overflow summing --rls-accounts balances"));
            },
        }
        i = i + 1;
    }
    assert(prefunds@.take(prefunds@.len() as int) =~= prefunds@);
    let total_supply = match total_stake.checked_add(&total_prefund) {
        Some(v) => v,
        None => return Err(String::from_str("overflow computing total RLS supply")),
    };
    Ok(GenesisSupply { total_stake, total_prefund, total_supply })
}

/// Where the pre-genesis deployments land.
#[derive(Debug, Clone, Copy, PartialEq, Eq, Structural)]
pub struct GenesisDeploymentAddresses {
    /// The BLS G1 library (owner nonce 0).
    pub blsg1: Address,
    /// The temporary RLS implementation (owner nonce 1).
    pub rls_impl: Address,
    /// The temporary RLS proxy (owner nonce 2).
    pub rls_proxy: Address,
    /// The temporary consensus registry (owner nonce `4 + prefunds`).
    pub registry: Address,
    /// The temporary NativeTokenController proxy (deployer nonce 0).
    pub native_token_controller: Address,
    /// The temporary FeeAggregator proxy (deployer nonce 1).
    pub fee_aggregator: Address,
    /// The temporary RewardDistributor proxy (deployer nonce 2).
    pub reward_distributor: Address,
    /// The temporary DelegationPool proxy (deployer nonce 3).
    pub delegation_pool: Address,
    /// The temporary RLSAccumulator proxy (deployer nonce 4).
    pub rls_accumulator: Address,
}

/// The owner's nonce when it creates the registry: after the library, the
/// RLS implementation and proxy, the stake transfer and one transfer per
/// prefunded account.
pub open spec fn registry_create_nonce_spec(prefund_count: nat) -> nat {
    4 + prefund_count
}

/// The addresses of the pre-genesis deployments by `owner` (who makes
/// `prefund_count` prefund transfers) and by the precompile deployer.
pub fn genesis_deployment_addresses(owner: Address, prefund_count: u64) -> (r: GenesisDeploymentAddresses)
    requires
        prefund_count <= u64::MAX - 4,
    ensures
        r.blsg1 == create_address_spec(owner, 0),
        r.rls_impl == create_address_spec(owner, 1),
        r.rls_proxy == create_address_spec(owner, 2),
        r.registry == create_address_spec(owner, registry_create_nonce_spec(prefund_count as nat) as u64),
        r.native_token_controller == create_address_spec(precompile_deployer_spec(), 0),
        r.fee_aggregator == create_address_spec(precompile_deployer_spec(), 1),
        r.reward_distributor == create_address_spec(precompile_deployer_spec(), 2),
        r.delegation_pool == create_address_spec(precompile_deployer_spec(), 3),
        r.rls_accumulator == create_address_spec(precompile_deployer_spec(), 4),
{
    let deployer = precompile_deployer();
    GenesisDeploymentAddresses {
        blsg1: create_address(owner, 0),
        rls_impl: create_address(owner, 1),
        rls_proxy: create_address(owner, 2),
        registry: create_address(owner, 4 + prefund_count),
        native_token_controller: create_address(deployer, 0),
        fee_aggregator: create_address(deployer, 1),
        reward_distributor: create_address(deployer, 2),
        delegation_pool: create_address(deployer, 3),
        rls_accumulator: create_address(deployer, 4),
    }
}

/// The UTF-8 width of a character.
pub open spec fn char_width(c: char) -> nat {
    if (c as u32) < 0x80 {
        1
    } else if (c as u32) < 0x800 {
        2
    } else if (c as u32) < 0x10000 {
        3
    } else {
        4
    }
}

/// The UTF-8 length of a text.
pub open spec fn text_width(s: Seq<char>) -> nat
    decreases s.len(),
{
    if s.len() == 0 {
        0
    } else {
        text_width(s.drop_last()) + char_width(s.last())
    }
}

/// Solidity's library placeholder: `__$`, 34 characters, `$__`, 40 bytes in
/// all.
pub open spec fn is_library_placeholder(p: Seq<char>) -> bool {
    &&& p.len() >= 3
    &&& p.subrange(0, 3) == seq!['_', '_', '$']
    &&& p.subrange(p.len() - 3, p.len() as int) == seq!['$', '_', '_']
    &&& text_width(p) == 40
}

/// `bytecode` with each library placeholder replaced by `address`: at each
/// `__`, the next 40 characters (fewer at the end) are taken and replaced if
/// they form a placeholder.
pub open spec fn link_chars(bytecode: Seq<char>, address: Seq<char>) -> Seq<char>
    decreases bytecode.len(),
{
    if bytecode.len() == 0 {
        Seq::empty()
    } else if bytecode.len() >= 2 && bytecode[0] == '_' && bytecode[1] == '_' {
        let k = if bytecode.len() < 40 {
            bytecode.len() as int
        } else {
            40
        };
        let p = bytecode.subrange(0, k);
        (if is_library_placeholder(p) {
            address
        } else {
            p
        }) + link_chars(bytecode.subrange(k, bytecode.len() as int), address)
    } else {
        seq![bytecode[0]] + link_chars(bytecode.subrange(1, bytecode.len() as int), address)
    }
}

/// `s` without a leading `0x`.
pub open spec fn unprefixed(s: Seq<char>) -> Seq<char> {
    if s.len() >= 2 && s[0] == '0' && s[1] == 'x' {
        s.subrange(2, s.len() as int)
    } else {
        s
    }
}

/// The UTF-8 width of a character.
fn char_width_exec(c: char) -> (r: usize)
    ensures
        r == char_width(c),
{
    let v = c as u32;
    if v < 0x80 {
        1
    } else if v < 0x800 {
        2
    } else if v < 0x10000 {
        3
    } else {
        4
    }
}

/// True if the characters form a library placeholder.
fn is_placeholder(p: &[char]) -> (r: bool)
    requires
        p@.len() <= 40,
    ensures
        r == is_library_placeholder(p@),
{
    let n = p.len();
    if n < 3 {
        return false;
    }
    if !(p[0] == '_' && p[1] == '_' && p[2] == '$' && p[n - 3] == '$' && p[n - 2] == '_' && p[n - 1] == '_') {
        proof {
            if p@.subrange(0, 3) == seq!['_', '_', '$'] {
                assert(p@[0] == p@.subrange(0, 3)[0]);
                assert(p@[1] == p@.subrange(0, 3)[1]);
                assert(p@[2] == p@.subrange(0, 3)[2]);
            }
            if p@.subrange(n - 3, n as int) == seq!['$', '_', '_'] {
                assert(p@[n - 3] == p@.subrange(n - 3, n as int)[0]);
                assert(p@[n - 2] == p@.subrange(n - 3, n as int)[1]);
                assert(p@[n - 1] == p@.subrange(n - 3, n as int)[2]);
            }
        }
        return false;
    }
    assert(p@.subrange(0, 3) =~= seq!['_', '_', '$']);
    assert(p@.subrange(n - 3, n as int) =~= seq!['$', '_', '_']);
    let mut width: usize = 0;
    let mut i: usize = 0;
    while i < n
        invariant
            i <= n == p@.len(),
            n <= 40,
            width == text_width(p@.subrange(0, i as int)),
            width <= 4 * i,
        decreases n - i,
    {
        assert(p@.subrange(0, i + 1).drop_last() =~= p@.subrange(0, i as int));
        width = width + char_width_exec(p[i]);
        i = i + 1;
    }
    assert(p@.subrange(0, n as int) =~= p@);
    width == 40
}

/// Links a library address into contract bytecode: replaces Solidity's
/// `__$<34 characters>$__` placeholders with the address (without `0x`),
/// then decodes the hexadecimal text.
pub fn link_solidity_library(bytecode_hex: &str, library_address: &str) -> (r: Result<Vec<u8>, String>)
    ensures
        match r {
            Ok(b) => is_hex_text(link_chars(bytecode_hex@, unprefixed(library_address@)))
                && b@ == hex_bytes(strip_hex_prefix(link_chars(bytecode_hex@, unprefixed(library_address@)))),
            Err(e) => !is_hex_text(link_chars(bytecode_hex@, unprefixed(library_address@)))
                && e@ == hex_decode_error(link_chars(bytecode_hex@, unprefixed(library_address@))),
        },
{
    let addr_chars = chars_of(library_address);
    let addr: Vec<char> = if addr_chars.len() >= 2 && addr_chars[0] == '0' && addr_chars[1] == 'x' {
        let mut v: Vec<char> = Vec::new();
        let mut j: usize = 2;
        while j < addr_chars.len()
            invariant
                2 <= j <= addr_chars@.len(),
                v@ == addr_chars@.subrange(2, j as int),
            decreases addr_chars@.len() - j,
        {
            v.push(addr_chars[j]);
            j = j + 1;
            assert(v@ =~= addr_chars@.subrange(2, j as int));
        }
        v
    } else {
        addr_chars
    };
    assert(addr@ == unprefixed(library_address@));
    let chars = chars_of(bytecode_hex);
    let n = chars.len();
    let mut result: Vec<char> = Vec::new();
    let mut i: usize = 0;
    assert(chars@.subrange(0, n as int) =~= chars@);
    while i < n
        invariant
            i <= n == chars@.len(),
            chars@ == bytecode_hex@,
            addr@ == unprefixed(library_address@),
            result@ + link_chars(chars@.subrange(i as int, n as int), addr@) == link_chars(chars@, addr@),
        decreases n - i,
    {
        let ghost rest = chars@.subrange(i as int, n as int);
        if chars[i] == '_' && i + 1 < n && chars[i + 1] == '_' {
            let k = if n - i < 40 {
                n - i
            } else {
                40
            };
            let mut p: Vec<char> = Vec::new();
            let mut j: usize = 0;
            while j < k
                invariant
                    j <= k,
                    i + k <= n == chars@.len(),
                    p@ == chars@.subrange(i as int, i + j),
                decreases k - j,
            {
                p.push(chars[i + j]);
                j = j + 1;
                assert(p@ =~= chars@.subrange(i as int, i + j));
            }
            proof {
                assert(rest.subrange(0, k as int) =~= p@);
                assert(rest.subrange(k as int, rest.len() as int) =~= chars@.subrange(i + k, n as int));
            }
            let ghost before = result@;
            if is_placeholder(p.as_slice()) {
                let mut a: usize = 0;
                while a < addr.len()
                    invariant
                        a <= addr@.len(),
                        result@ == before + addr@.subrange(0, a as int),
                    decreases addr@.len() - a,
                {
                    result.push(addr[a]);
                    a = a + 1;
                    assert(result@ =~= before + addr@.subrange(0, a as int));
                }
                assert(addr@.subrange(0, addr@.len() as int) =~= addr@);
            } else {
                let mut a: usize = 0;
                while a < p.len()
                    invariant
                        a <= p@.len(),
                        result@ == before + p@.subrange(0, a as int),
                    decreases p@.len() - a,
                {
                    result.push(p[a]);
                    a = a + 1;
                    assert(result@ =~= before + p@.subrange(0, a as int));
                }
                assert(p@.subrange(0, p@.len() as int) =~= p@);
            }
            proof {
                assert(result@ + link_chars(chars@.subrange(i + k, n as int), addr@) =~= before + link_chars(rest, addr@));
            }
            i = i + k;
        } else {
            let ghost before = result@;
            result.push(chars[i]);
            proof {
                assert(rest.subrange(1, rest.len() as int) =~= chars@.subrange(i + 1, n as int));
                assert(result@ + link_chars(chars@.subrange(i + 1, n as int), addr@) =~= before + link_chars(rest, addr@));
            }
            i = i + 1;
        }
    }
    assert(chars@.subrange(n as int, n as int) =~= Seq::<char>::empty());
    assert(result@ =~= link_chars(chars@, addr@));
    let linked = string_of(result.as_slice());
    hex_decode(linked.as_str())
}

} // verus!

verus! {

/// The code that a compiler artifact holds at `key` (such as
/// `deployedBytecode.object`): the hexadecimal text found there, decoded.
/// A missing key, an entry that is not text, and text that is not
/// hexadecimal are errors; `label` names the artifact in the second.
pub open spec fn artifact_bytecode_spec(artifact: JsonValue, key: Seq<char>, label: Seq<char>) -> Result<Seq<u8>, Seq<char>> {
    match fetch_spec(artifact, Some(key)) {
        Err(e) => Err(e),
        Ok(JsonValue::Str(text)) => if is_hex_text(text@) {
            Ok(hex_bytes(strip_hex_prefix(text@)))
        } else {
            Err(hex_decode_error(text@))
        },
        Ok(_) => Err("invalid "@ + label + " json"@),
    }
}

/// Reads the code at `key` of the compiler artifact `artifact`, decoding
/// its hexadecimal text.
pub fn artifact_bytecode(artifact: JsonValue, key: &str, label: &str) -> (r: Result<Vec<u8>, String>)
    ensures
        match r {
            Ok(b) => artifact_bytecode_spec(artifact, key@, label@) == Ok::<Seq<u8>, Seq<char>>(b@),
            Err(e) => artifact_bytecode_spec(artifact, key@, label@) == Err::<Seq<u8>, Seq<char>>(e@),
        },
{
    match fetch_value_from_json(artifact, Some(key)) {
        Err(e) => Err(e),
        Ok(JsonValue::Str(text)) => hex_decode(text.as_str()),
        Ok(_) => {
            let mut m = String::from_str("invalid ");
            m.append(label);
            m.append(" json");
            Err(m)
        },
    }
}

/// An account of the genesis allocation.
#[derive(Debug, Clone)]
pub struct GenesisAccount {
    /// Nonce, if set.
    pub nonce: Option<u64>,
    /// Native balance.
    pub balance: U256,
    /// Code, if any.
    pub code: Option<Vec<u8>>,
    /// Storage, if any.
    pub storage: Option<SlotMap<U256>>,
}

/// The storage of a genesis account (empty when it has none).
pub open spec fn genesis_storage(a: GenesisAccount) -> Map<nat, U256> {
    match a.storage {
        Some(s) => s.view(),
        None => Map::empty(),
    }
}

impl GenesisAccount {
    /// An account with nothing set.
    pub fn empty() -> (r: Self)
        ensures
            r.nonce is None,
            r.balance@ == 0,
            r.code is None,
            r.storage is None,
    {
        GenesisAccount { nonce: None, balance: U256::zero(), code: None, storage: None }
    }
}

/// The genesis allocation.
pub type GenesisAlloc = AddressMap<GenesisAccount>;

/// The greenfield impl account: `code`, and `_initialized = type(uint64).max`
/// (the initializer disabled).
pub open spec fn locked_impl(a: GenesisAccount, code: Seq<u8>) -> bool {
    &&& a.code matches Some(c) && c@ == code
    &&& a.nonce is None
    &&& a.balance@ == 0
    &&& a.storage is Some
    &&& genesis_storage(a) == Map::<nat, U256>::empty().insert(
        crate::system_contracts::initializable_slot(),
        U256 { hi: 0, lo: 0xffff_ffff_ffff_ffff },
    )
}

/// No address occurs twice among the impls, nor is the RLS token one of them.
pub open spec fn impls_distinct(impls: Seq<(Address, Vec<u8>)>, rls: Address) -> bool {
    &&& forall|i: int, j: int| 0 <= i < j < impls.len() ==> #[trigger] impls[i].0 != #[trigger] impls[j].0
    &&& forall|i: int| 0 <= i < impls.len() ==> #[trigger] impls[i].0 != rls
}

/// Every account other than the RLS token and the impls is as it was.
pub open spec fn untouched_elsewhere(
    before: Map<Address, GenesisAccount>,
    after: Map<Address, GenesisAccount>,
    impls: Seq<(Address, Vec<u8>)>,
    rls: Address,
) -> bool {
    forall|a: Address| #![trigger after.contains_key(a)]
        a != rls && (forall|i: int| 0 <= i < impls.len() ==> impls[i].0 != a) ==> (after.contains_key(a)
            == before.contains_key(a) && (before.contains_key(a) ==> after[a] == before[a]))
}

/// Patches the allocation for a greenfield genesis: each implementation
/// account (address and `__self`-patched bytecode) gets its bytecode with
/// the initializer disabled, and the RLS token's storage gets
/// `_allowances[RLSAccumulator][RewardDistributor] = type(uint256).max`,
/// merged into what it already holds.
pub fn apply_greenfield_fixes(alloc: &mut GenesisAlloc, impls: &[(Address, Vec<u8>)], rls: Address)
    requires
        old(alloc).wf(),
        impls_distinct(impls@, rls),
    ensures
        final(alloc).wf(),
        forall|i: int| 0 <= i < impls@.len() ==> final(alloc).view().contains_key(#[trigger] impls@[i].0)
            && locked_impl(final(alloc).view()[impls@[i].0], impls@[i].1@),
        final(alloc).view().contains_key(rls),
        ({
            let before = if old(alloc).view().contains_key(rls) {
                old(alloc).view()[rls]
            } else {
                GenesisAccount { nonce: None, balance: U256 { hi: 0, lo: 0 }, code: None, storage: None }
            };
            let after = final(alloc).view()[rls];
            &&& after.nonce == before.nonce
            &&& after.balance == before.balance
            &&& after.code == before.code
            &&& after.storage is Some
            &&& genesis_storage(after) == genesis_storage(before).insert(
                crate::system_contracts::rls_allowance_slot(),
                U256 { hi: u128::MAX, lo: u128::MAX },
            )
        }),
        untouched_elsewhere(old(alloc).view(), final(alloc).view(), impls@, rls),
{
    let mut k: usize = 0;
    while k < impls.len()
        invariant
            k <= impls@.len(),
            alloc.wf(),
            impls_distinct(impls@, rls),
            forall|i: int| 0 <= i < k ==> alloc.view().contains_key(#[trigger] impls@[i].0)
                && locked_impl(alloc.view()[impls@[i].0], impls@[i].1@),
            alloc.view().contains_key(rls) == old(alloc).view().contains_key(rls),
            old(alloc).view().contains_key(rls) ==> alloc.view()[rls] == old(alloc).view()[rls],
            untouched_elsewhere(old(alloc).view(), alloc.view(), impls@, rls),
        decreases impls@.len() - k,
    {
        let mut storage: SlotMap<U256> = SlotMap::new();
        storage.insert(crate::system_contracts::initializable_slot_word(), U256::from_u64(u64::MAX));
        let mut code: Vec<u8> = Vec::new();
        extend_bytes(&mut code, impls[k].1.as_slice());
        let account = GenesisAccount { nonce: None, balance: U256::zero(), code: Some(code), storage: Some(storage) };
        let ghost before = alloc.view();
        alloc.insert(impls[k].0, account);
        proof {
            assert forall|i: int| 0 <= i < k + 1 implies alloc.view().contains_key(#[trigger] impls@[i].0)
                && locked_impl(alloc.view()[impls@[i].0], impls@[i].1@) by {
                if i < k {
                    assert(impls@[i].0 != impls@[k as int].0);
                }
            }
            assert(impls@[k as int].0 != rls);
            assert(untouched_elsewhere(old(alloc).view(), alloc.view(), impls@, rls)) by {
                assert forall|a: Address| #![trigger alloc.view().contains_key(a)]
                    a != rls && (forall|i: int| 0 <= i < impls@.len() ==> impls@[i].0 != a) implies (alloc.view().contains_key(a)
                        == old(alloc).view().contains_key(a) && (old(alloc).view().contains_key(a) ==> alloc.view()[a] == old(alloc).view()[a])) by {
                    assert(impls@[k as int].0 != a);
                    assert(before.contains_key(a) == old(alloc).view().contains_key(a));
                }
            }
        }
        k = k + 1;
    }
    let ghost mid = alloc.view();
    let mut account = match alloc.take(rls) {
        Some(a) => a,
        None => GenesisAccount::empty(),
    };
    let ghost before_rls = account;
    let mut storage = match account.storage {
        Some(s) => s,
        None => SlotMap::new(),
    };
    storage.insert(crate::system_contracts::rls_allowance_slot_word(), U256::max_value());
    account.storage = Some(storage);
    alloc.insert(rls, account);
    proof {
        assert forall|i: int| 0 <= i < impls@.len() implies alloc.view().contains_key(#[trigger] impls@[i].0)
            && locked_impl(alloc.view()[impls@[i].0], impls@[i].1@) by {
            assert(impls@[i].0 != rls);
        }
        assert(untouched_elsewhere(old(alloc).view(), alloc.view(), impls@, rls)) by {
            assert forall|a: Address| #![trigger alloc.view().contains_key(a)]
                a != rls && (forall|i: int| 0 <= i < impls@.len() ==> impls@[i].0 != a) implies (alloc.view().contains_key(a)
                    == old(alloc).view().contains_key(a) && (old(alloc).view().contains_key(a) ==> alloc.view()[a] == old(alloc).view()[a])) by {
                assert(mid.contains_key(a) == old(alloc).view().contains_key(a));
            }
        }
    }
}

} // verus!

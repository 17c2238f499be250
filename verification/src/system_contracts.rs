//! Addresses and storage slots of the system contracts that the hardfork
//! migrations write.

use crate::address::Address;
use crate::uint::U256;
use vstd::prelude::*;

verus! {

/// ERC-1967 implementation slot: `keccak256("eip1967.proxy.implementation") - 1`.
pub open spec fn erc1967_impl_slot() -> nat {
    0x360894a13ba1a3210667c828492db98dca3e2076cc3735a920a3ca505d382bbcnat
}

/// ERC-1967 implementation slot: `keccak256("eip1967.proxy.implementation") - 1`.
pub fn erc1967_impl_slot_word() -> (r: U256)
    ensures
        r@ == erc1967_impl_slot(),
{
    U256 { hi: 0x360894a13ba1a3210667c828492db98d, lo: 0xca3e2076cc3735a920a3ca505d382bbc }
}

/// OpenZeppelin `Initializable` slot (ERC-7201).
pub open spec fn initializable_slot() -> nat {
    0xf0c57e16840df040f15088dc2f81fe391c3923bec73e23a9662efc9c229c6a00nat
}

/// OpenZeppelin `Initializable` slot (ERC-7201).
pub fn initializable_slot_word() -> (r: U256)
    ensures
        r@ == initializable_slot(),
{
    U256 { hi: 0xf0c57e16840df040f15088dc2f81fe39, lo: 0x1c3923bec73e23a9662efc9c229c6a00 }
}

/// RLS `_name` slot (ERC-20 ERC-7201 base + 3).
pub open spec fn erc20_name_slot() -> nat {
    0x52c63247e1f47db19d5ce0460030c497f067ca4cebf71ba98eeadabe20bace03nat
}

/// RLS `_name` slot (ERC-20 ERC-7201 base + 3).
pub fn erc20_name_slot_word() -> (r: U256)
    ensures
        r@ == erc20_name_slot(),
{
    U256 { hi: 0x52c63247e1f47db19d5ce0460030c497, lo: 0xf067ca4cebf71ba98eeadabe20bace03 }
}

/// `"Rayls"` as a Solidity short string.
pub open spec fn erc20_name_value() -> nat {
    0x5261796c7300000000000000000000000000000000000000000000000000000anat
}

/// `"Rayls"` as a Solidity short string.
pub fn erc20_name_value_word() -> (r: U256)
    ensures
        r@ == erc20_name_value(),
{
    U256 { hi: 0x5261796c730000000000000000000000, lo: 0xa }
}

/// RLS `_symbol` slot (base + 4).
pub open spec fn erc20_symbol_slot() -> nat {
    0x52c63247e1f47db19d5ce0460030c497f067ca4cebf71ba98eeadabe20bace04nat
}

/// RLS `_symbol` slot (base + 4).
pub fn erc20_symbol_slot_word() -> (r: U256)
    ensures
        r@ == erc20_symbol_slot(),
{
    U256 { hi: 0x52c63247e1f47db19d5ce0460030c497, lo: 0xf067ca4cebf71ba98eeadabe20bace04 }
}

/// `"RLS"` as a Solidity short string.
pub open spec fn erc20_symbol_value() -> nat {
    0x524c530000000000000000000000000000000000000000000000000000000006nat
}

/// `"RLS"` as a Solidity short string.
pub fn erc20_symbol_value_word() -> (r: U256)
    ensures
        r@ == erc20_symbol_value(),
{
    U256 { hi: 0x524c5300000000000000000000000000, lo: 0x6 }
}

/// RLS `_totalSupply` slot (base + 2).
pub open spec fn erc20_total_supply_slot() -> nat {
    0x52c63247e1f47db19d5ce0460030c497f067ca4cebf71ba98eeadabe20bace02nat
}

/// RLS `_totalSupply` slot (base + 2).
pub fn erc20_total_supply_slot_word() -> (r: U256)
    ensures
        r@ == erc20_total_supply_slot(),
{
    U256 { hi: 0x52c63247e1f47db19d5ce0460030c497, lo: 0xf067ca4cebf71ba98eeadabe20bace02 }
}

/// The RLS supply: 1,000,000,000 RLS.
pub open spec fn rls_total_supply() -> nat {
    0x33b2e3c9fd0803ce8000000nat
}

/// The RLS supply: 1,000,000,000 RLS.
pub fn rls_total_supply_word() -> (r: U256)
    ensures
        r@ == rls_total_supply(),
{
    U256 { hi: 0x0, lo: 0x33b2e3c9fd0803ce8000000 }
}

/// RLS `_balances[ConsensusRegistry]` slot.
pub open spec fn rls_balance_slot_registry() -> nat {
    0xdbacdcbecee397694468a207b938023fc39d983416cb4e04fabf878a14a52f03nat
}

/// RLS `_balances[ConsensusRegistry]` slot.
pub fn rls_balance_slot_registry_word() -> (r: U256)
    ensures
        r@ == rls_balance_slot_registry(),
{
    U256 { hi: 0xdbacdcbecee397694468a207b938023f, lo: 0xc39d983416cb4e04fabf878a14a52f03 }
}

/// The consensus registry's RLS: 4,000,000 RLS staked.
pub open spec fn registry_balance() -> nat {
    0x34f086f3b33b684000000nat
}

/// The consensus registry's RLS: 4,000,000 RLS staked.
pub fn registry_balance_word() -> (r: U256)
    ensures
        r@ == registry_balance(),
{
    U256 { hi: 0x0, lo: 0x34f086f3b33b684000000 }
}

/// RLS `_balances[admin]` slot.
pub open spec fn rls_balance_slot_admin() -> nat {
    0xbec4543cf8dffc230fdc1a0e7ebd59a8e1295dd40c8379a775cb0ce08caa64d0nat
}

/// RLS `_balances[admin]` slot.
pub fn rls_balance_slot_admin_word() -> (r: U256)
    ensures
        r@ == rls_balance_slot_admin(),
{
    U256 { hi: 0xbec4543cf8dffc230fdc1a0e7ebd59a8, lo: 0xe1295dd40c8379a775cb0ce08caa64d0 }
}

/// The admin's RLS: 996,000,000 RLS.
pub open spec fn admin_balance() -> nat {
    0x337df3430954c8664000000nat
}

/// The admin's RLS: 996,000,000 RLS.
pub fn admin_balance_word() -> (r: U256)
    ensures
        r@ == admin_balance(),
{
    U256 { hi: 0x0, lo: 0x337df3430954c8664000000 }
}

/// `DEFAULT_ADMIN_ROLE.members[admin]` slot.
pub open spec fn role_default_admin_slot() -> nat {
    0x18606adf8945d73bd9dd10d14ac3c2945c078ab7d72c8632bda628347c181adcnat
}

/// `DEFAULT_ADMIN_ROLE.members[admin]` slot.
pub fn role_default_admin_slot_word() -> (r: U256)
    ensures
        r@ == role_default_admin_slot(),
{
    U256 { hi: 0x18606adf8945d73bd9dd10d14ac3c294, lo: 0x5c078ab7d72c8632bda628347c181adc }
}

/// `UPGRADER_ROLE.members[admin]` slot.
pub open spec fn role_upgrader_slot() -> nat {
    0x4687e7fcf6eb3625addacb3fb40edcb288036dda6f4a77cb31036fa46f8d2d75nat
}

/// `UPGRADER_ROLE.members[admin]` slot.
pub fn role_upgrader_slot_word() -> (r: U256)
    ensures
        r@ == role_upgrader_slot(),
{
    U256 { hi: 0x4687e7fcf6eb3625addacb3fb40edcb2, lo: 0x88036dda6f4a77cb31036fa46f8d2d75 }
}

/// `PAUSER_ROLE.members[admin]` slot.
pub open spec fn role_pauser_slot() -> nat {
    0xe9be56331759dab85524f1bacda12ad9cbe0e3337a0066c400c8f0bba3d82f33nat
}

/// `PAUSER_ROLE.members[admin]` slot.
pub fn role_pauser_slot_word() -> (r: U256)
    ensures
        r@ == role_pauser_slot(),
{
    U256 { hi: 0xe9be56331759dab85524f1bacda12ad9, lo: 0xcbe0e3337a0066c400c8f0bba3d82f33 }
}

/// `MINTER_ROLE.members[admin]` slot.
pub open spec fn role_minter_slot() -> nat {
    0x7c3bb66a70828ca1ca886d0002aa8b00fbc201ceb40447050f919d4ba6202dadnat
}

/// `MINTER_ROLE.members[admin]` slot.
pub fn role_minter_slot_word() -> (r: U256)
    ensures
        r@ == role_minter_slot(),
{
    U256 { hi: 0x7c3bb66a70828ca1ca886d0002aa8b00, lo: 0xfbc201ceb40447050f919d4ba6202dad }
}

/// `BURNER_ROLE.members[admin]` slot.
pub open spec fn role_burner_slot() -> nat {
    0x69fa85e2df5a70776b68149c1128390f9055001bcaba096d3d55879645589e5cnat
}

/// `BURNER_ROLE.members[admin]` slot.
pub fn role_burner_slot_word() -> (r: U256)
    ensures
        r@ == role_burner_slot(),
{
    U256 { hi: 0x69fa85e2df5a70776b68149c1128390f, lo: 0x9055001bcaba096d3d55879645589e5c }
}

/// RLSAccumulator ERC-7201 storage base.
pub open spec fn accumulator_storage_base() -> nat {
    0x1434b6d7a9cd896918fc9e177be6ce103a3f4b47c31c2a0c7a187bcc052a1c00nat
}

/// RLSAccumulator ERC-7201 storage base.
pub fn accumulator_storage_base_word() -> (r: U256)
    ensures
        r@ == accumulator_storage_base(),
{
    U256 { hi: 0x1434b6d7a9cd896918fc9e177be6ce10, lo: 0x3a3f4b47c31c2a0c7a187bcc052a1c00 }
}

/// `DEPOSITOR_ROLE.members[admin]` slot.
pub open spec fn role_depositor_slot() -> nat {
    0x899853ee556875bbc0a36ddd3fd6f8022823b317461cf3174f137b1746c1514nat
}

/// `DEPOSITOR_ROLE.members[admin]` slot.
pub fn role_depositor_slot_word() -> (r: U256)
    ensures
        r@ == role_depositor_slot(),
{
    U256 { hi: 0x899853ee556875bbc0a36ddd3fd6f80, lo: 0x22823b317461cf3174f137b1746c1514 }
}

/// DelegationPool `rewardDistributor` field (ERC-7201 base + 12).
pub open spec fn delegation_pool_reward_distributor_slot() -> nat {
    0x88221c9a15d56692c82fe5e6f956bdf53eb61854017aba5bacf6b40976119e0cnat
}

/// DelegationPool `rewardDistributor` field (ERC-7201 base + 12).
pub fn delegation_pool_reward_distributor_slot_word() -> (r: U256)
    ensures
        r@ == delegation_pool_reward_distributor_slot(),
{
    U256 { hi: 0x88221c9a15d56692c82fe5e6f956bdf5, lo: 0x3eb61854017aba5bacf6b40976119e0c }
}

/// RewardDistributor `accumulator` field (ERC-7201 base + 16).
pub open spec fn reward_distributor_accumulator_slot() -> nat {
    0x8a40cc0ccf5a2d030058c860d76601e04104947950ec7475e80ab15a7d69d610nat
}

/// RewardDistributor `accumulator` field (ERC-7201 base + 16).
pub fn reward_distributor_accumulator_slot_word() -> (r: U256)
    ensures
        r@ == reward_distributor_accumulator_slot(),
{
    U256 { hi: 0x8a40cc0ccf5a2d030058c860d76601e0, lo: 0x4104947950ec7475e80ab15a7d69d610 }
}

/// RLS `_allowances[RLSAccumulator][RewardDistributor]` slot.
pub open spec fn rls_allowance_slot() -> nat {
    0xa86c9662f5bbd1419e01b920e7034dd5f68f6d93dd1a1752efe6e779170058banat
}

/// RLS `_allowances[RLSAccumulator][RewardDistributor]` slot.
pub fn rls_allowance_slot_word() -> (r: U256)
    ensures
        r@ == rls_allowance_slot(),
{
    U256 { hi: 0xa86c9662f5bbd1419e01b920e7034dd5, lo: 0xf68f6d93dd1a1752efe6e779170058ba }
}

/// The USDR supply correction: 515,241.259606 USDR in wei.
pub open spec fn correction_wei() -> nat {
    0x6d1b48dee27784936000nat
}

/// The USDR supply correction: 515,241.259606 USDR in wei.
pub fn correction_wei_word() -> (r: U256)
    ensures
        r@ == correction_wei(),
{
    U256 { hi: 0x0, lo: 0x6d1b48dee27784936000 }
}

/// The RLS token proxy.
pub open spec fn rls_token_address_spec() -> Address {
    Address { hi: 0x7e17e17, lo: 0xe17e17e17e17e17e17e17e17e17e17ea }
}

/// The RLS token proxy.
pub fn rls_token_address() -> (r: Address)
    ensures
        r == rls_token_address_spec(),
{
    Address { hi: 0x7e17e17, lo: 0xe17e17e17e17e17e17e17e17e17e17ea }
}

/// The RLS token implementation.
pub open spec fn rls_impl_address_spec() -> Address {
    Address { hi: 0x7e17e17, lo: 0xe17e17e17e17e17e17e17e17e17e17eb }
}

/// The RLS token implementation.
pub fn rls_impl_address() -> (r: Address)
    ensures
        r == rls_impl_address_spec(),
{
    Address { hi: 0x7e17e17, lo: 0xe17e17e17e17e17e17e17e17e17e17eb }
}

/// The RLSAccumulator proxy.
pub open spec fn rls_accumulator_address_spec() -> Address {
    Address { hi: 0x7e17e17, lo: 0xe17e17e17e17e17e17e17e17e17e17ec }
}

/// The RLSAccumulator proxy.
pub fn rls_accumulator_address() -> (r: Address)
    ensures
        r == rls_accumulator_address_spec(),
{
    Address { hi: 0x7e17e17, lo: 0xe17e17e17e17e17e17e17e17e17e17ec }
}

/// The RLSAccumulator implementation.
pub open spec fn rls_accumulator_impl_address_spec() -> Address {
    Address { hi: 0x7e17e17, lo: 0xe17e17e17e17e17e17e17e17e17e17ed }
}

/// The RLSAccumulator implementation.
pub fn rls_accumulator_impl_address() -> (r: Address)
    ensures
        r == rls_accumulator_impl_address_spec(),
{
    Address { hi: 0x7e17e17, lo: 0xe17e17e17e17e17e17e17e17e17e17ed }
}

/// The RewardDistributor proxy.
pub open spec fn reward_distributor_address_spec() -> Address {
    Address { hi: 0x7e17e17, lo: 0xe17e17e17e17e17e17e17e17e17e17e5 }
}

/// The RewardDistributor proxy.
pub fn reward_distributor_address() -> (r: Address)
    ensures
        r == reward_distributor_address_spec(),
{
    Address { hi: 0x7e17e17, lo: 0xe17e17e17e17e17e17e17e17e17e17e5 }
}

/// The RewardDistributor implementation.
pub open spec fn reward_distributor_impl_address_spec() -> Address {
    Address { hi: 0x7e17e17, lo: 0xe17e17e17e17e17e17e17e17e17e17e8 }
}

/// The RewardDistributor implementation.
pub fn reward_distributor_impl_address() -> (r: Address)
    ensures
        r == reward_distributor_impl_address_spec(),
{
    Address { hi: 0x7e17e17, lo: 0xe17e17e17e17e17e17e17e17e17e17e8 }
}

/// The DelegationPool proxy.
pub open spec fn delegation_pool_address_spec() -> Address {
    Address { hi: 0x7e17e17, lo: 0xe17e17e17e17e17e17e17e17e17e17e2 }
}

/// The DelegationPool proxy.
pub fn delegation_pool_address() -> (r: Address)
    ensures
        r == delegation_pool_address_spec(),
{
    Address { hi: 0x7e17e17, lo: 0xe17e17e17e17e17e17e17e17e17e17e2 }
}

/// The DelegationPool implementation.
pub open spec fn delegation_pool_impl_address_spec() -> Address {
    Address { hi: 0x7e17e17, lo: 0xe17e17e17e17e17e17e17e17e17e17e9 }
}

/// The DelegationPool implementation.
pub fn delegation_pool_impl_address() -> (r: Address)
    ensures
        r == delegation_pool_impl_address_spec(),
{
    Address { hi: 0x7e17e17, lo: 0xe17e17e17e17e17e17e17e17e17e17e9 }
}

/// The NativeTokenController implementation.
pub open spec fn native_token_controller_impl_address_spec() -> Address {
    Address { hi: 0x7e17e17, lo: 0xe17e17e17e17e17e17e17e17e17e17e7 }
}

/// The NativeTokenController implementation.
pub fn native_token_controller_impl_address() -> (r: Address)
    ensures
        r == native_token_controller_impl_address_spec(),
{
    Address { hi: 0x7e17e17, lo: 0xe17e17e17e17e17e17e17e17e17e17e7 }
}

/// The FeeAggregator implementation.
pub open spec fn fee_aggregator_impl_address_spec() -> Address {
    Address { hi: 0x7e17e17, lo: 0xe17e17e17e17e17e17e17e17e17e17e4 }
}

/// The FeeAggregator implementation.
pub fn fee_aggregator_impl_address() -> (r: Address)
    ensures
        r == fee_aggregator_impl_address_spec(),
{
    Address { hi: 0x7e17e17, lo: 0xe17e17e17e17e17e17e17e17e17e17e4 }
}

} // verus!

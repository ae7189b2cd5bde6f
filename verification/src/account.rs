//! Accounts: how a country's vault is derived, and when two accounts are one.

use crate::types::{AccountId, CountryId, ModuleId};
use frame_support::PalletId;
use sp_runtime::traits::AccountIdConversion;
use vstd::bytes::{lemma_auto_spec_u64_to_from_le_bytes, spec_u64_to_le_bytes};
use vstd::prelude::*;

verus! {

/// The four bytes that open every account derived from a module.
pub open spec fn module_tag() -> Seq<u8> {
    seq![0x6du8, 0x6fu8, 0x64u8, 0x6cu8]
}

/// The bytes of the vault of `country_id` under `module_id`: the module tag,
/// the module's eight bytes, the country's number in little-endian order,
/// and zeros up to 32 bytes.
pub open spec fn vault_bytes(module_id: ModuleId, country_id: CountryId) -> Seq<u8> {
    module_tag() + module_id@ + spec_u64_to_le_bytes(country_id) + Seq::new(12, |i: int| 0u8)
}

/// The account that holds the first `n` of the given bytes and zeros after them.
pub open spec fn account_with_prefix(bytes: Seq<u8>, n: nat) -> AccountId
    decreases n,
{
    if n == 0 {
        vstd::array::spec_array_fill_for_copy_type::<u8, 32>(0u8)
    } else {
        vstd::array::spec_array_update(
            account_with_prefix(bytes, (n - 1) as nat),
            n - 1,
            bytes[n - 1],
        )
    }
}

/// The account made of the given 32 bytes.
pub open spec fn account_of(bytes: Seq<u8>) -> AccountId {
    account_with_prefix(bytes, 32)
}

/// The vault of `country_id` under `module_id`.
pub open spec fn vault_of(module_id: ModuleId, country_id: CountryId) -> AccountId {
    account_of(vault_bytes(module_id, country_id))
}

proof fn lemma_account_with_prefix(bytes: Seq<u8>, n: nat)
    requires
        n <= 32,
        n <= bytes.len(),
    ensures
        forall|i: int| 0 <= i < n ==> account_with_prefix(bytes, n)@[i] == bytes[i],
    decreases n,
{
    if n > 0 {
        lemma_account_with_prefix(bytes, (n - 1) as nat);
    }
}

/// An account holds exactly the 32 bytes it was made of.
pub proof fn lemma_account_of(bytes: Seq<u8>)
    requires
        bytes.len() == 32,
    ensures
        account_of(bytes)@ == bytes,
{
    lemma_account_with_prefix(bytes, 32);
    assert(account_of(bytes)@ =~= bytes);
}

/// A vault holds the bytes that its module and country give.
pub proof fn lemma_vault_of(module_id: ModuleId, country_id: CountryId)
    ensures
        vault_of(module_id, country_id)@ == vault_bytes(module_id, country_id),
{
    lemma_auto_spec_u64_to_from_le_bytes();
    lemma_account_of(vault_bytes(module_id, country_id));
}

/// Under one module, different countries have different vaults.
pub proof fn lemma_vaults_differ(module_id: ModuleId, a: CountryId, b: CountryId)
    requires
        a != b,
    ensures
        vault_of(module_id, a) != vault_of(module_id, b),
{
    lemma_auto_spec_u64_to_from_le_bytes();
    lemma_vault_of(module_id, a);
    lemma_vault_of(module_id, b);
    let x = vault_bytes(module_id, a);
    let y = vault_bytes(module_id, b);
    if x == y {
        assert(x.subrange(12, 20) =~= spec_u64_to_le_bytes(a));
        assert(y.subrange(12, 20) =~= spec_u64_to_le_bytes(b));
    }
}

/// Calls `into_sub_account_truncating` of `sp_runtime`'s `AccountIdConversion`
/// on a `frame_support::PalletId`, with the country's number as the sub-seed
/// and a 32-byte account as the target. The contract claims what that
/// function's source shows: the account is the encoding of the tag `modl`,
/// the module's bytes and the number, followed by zeros.
#[verifier::external_body]
fn into_sub_account(module_id: ModuleId, country_id: CountryId) -> (account: AccountId)
    ensures
        account@ == vault_bytes(module_id, country_id),
{
    PalletId(module_id).into_sub_account_truncating(country_id)
}

/// Derives the vault of `country_id` under `module_id`.
pub fn fund_account(module_id: ModuleId, country_id: CountryId) -> (account: AccountId)
    ensures
        account == vault_of(module_id, country_id),
        account@ == vault_bytes(module_id, country_id),
{
    let account = into_sub_account(module_id, country_id);
    proof {
        lemma_vault_of(module_id, country_id);
        assert(account =~= vault_of(module_id, country_id));
    }
    account
}

/// The account that stands for "none": 32 zero bytes.
pub open spec fn spec_default_account() -> AccountId {
    account_of(Seq::new(32, |i: int| 0u8))
}

/// The account that stands for "none".
pub fn default_account() -> (account: AccountId)
    ensures
        account == spec_default_account(),
        account@ == Seq::new(32, |i: int| 0u8),
{
    let account: AccountId = [0u8;32];
    proof {
        lemma_account_of(Seq::new(32, |i: int| 0u8));
        assert(account@ =~= Seq::new(32, |i: int| 0u8));
        assert(account =~= spec_default_account());
    }
    account
}

/// Whether two accounts are the same account.
pub fn same_account(a: &AccountId, b: &AccountId) -> (same: bool)
    ensures
        same == (*a == *b),
{
    let mut i: usize = 0;
    while i < 32
        invariant
            i <= 32,
            forall|j: int| 0 <= j < i ==> a[j] == b[j],
        decreases 32 - i,
    {
        if a[i] != b[i] {
            return false;
        }
        i += 1;
    }
    proof {
        assert(*a =~= *b);
    }
    true
}

} // verus!

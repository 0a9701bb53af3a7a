//! The exchange collaborator: a two-vault pool that fills a swap of its `a`
//! resource one-for-one with its `b` resource.

use crate::types::Funds;
use vstd::prelude::*;

verus! {

/// A swap pool holding a vault of each of two fungible resources. A swap
/// deposits the incoming `a`-resource funds and pays the same amount out of
/// the `b` vault.
#[derive(Clone, Copy, Debug, PartialEq, Eq, Structural)]
pub struct MockOciPool {
    pub resource_a: u64,
    pub vault_a: u128,
    pub resource_b: u64,
    pub vault_b: u128,
}

impl MockOciPool {
    /// Whether the pool can fill a swap of `input`: the funds are of its `a`
    /// resource, its `b` vault covers the amount, and its `a` vault can take
    /// the deposit.
    pub open spec fn can_swap(self, input: Funds) -> bool {
        &&& input.resource == self.resource_a
        &&& input.amount <= self.vault_b
        &&& self.vault_a + input.amount <= u128::MAX
    }

    /// The pool after filling a swap of `amount`.
    pub open spec fn after_swap(self, amount: u128) -> MockOciPool {
        MockOciPool {
            vault_a: (self.vault_a + amount) as u128,
            vault_b: (self.vault_b - amount) as u128,
            ..self
        }
    }

    /// Creates a pool whose vaults hold the two given buckets.
    pub fn instantiate(bucket_a: Funds, bucket_b: Funds) -> (pool: MockOciPool)
        ensures
            pool == (MockOciPool {
                resource_a: bucket_a.resource,
                vault_a: bucket_a.amount,
                resource_b: bucket_b.resource,
                vault_b: bucket_b.amount,
            }),
    {
        MockOciPool {
            resource_a: bucket_a.resource,
            vault_a: bucket_a.amount,
            resource_b: bucket_b.resource,
            vault_b: bucket_b.amount,
        }
    }

    /// Swaps `bucket_a` for the same amount of the `b` resource. Returns
    /// `None`, leaving the pool unchanged, exactly when the pool cannot fill
    /// the swap.
    pub fn swap(&mut self, bucket_a: Funds) -> (r: Option<Funds>)
        ensures
            old(self).can_swap(bucket_a) ==> {
                &&& r == Some(Funds { resource: old(self).resource_b, amount: bucket_a.amount })
                &&& *final(self) == old(self).after_swap(bucket_a.amount)
            },
            !old(self).can_swap(bucket_a) ==> r is None && *final(self) == *old(self),
    {
        if bucket_a.resource != self.resource_a {
            return None;
        }
        if bucket_a.amount > self.vault_b {
            return None;
        }
        if self.vault_a > u128::MAX - bucket_a.amount {
            return None;
        }
        let amount: u128 = bucket_a.amount;
        self.vault_a = self.vault_a + amount;
        self.vault_b = self.vault_b - amount;
        Some(Funds { resource: self.resource_b, amount })
    }
}

} // verus!

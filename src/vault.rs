use vstd::prelude::*;

use crate::types::{Address, ErrorCode, Vault};

verus! {

/// Whether `vaults` holds a vault for the asset `mint`.
pub open spec fn has_vault(vaults: Seq<Vault>, mint: Address) -> bool {
    exists|i: int| 0 <= i < vaults.len() && vaults[i].mint == mint
}

/// No two vaults custody the same asset.
pub open spec fn mints_unique(vaults: Seq<Vault>) -> bool {
    forall|i: int, j: int|
        0 <= i < vaults.len() && 0 <= j < vaults.len() && i != j ==> vaults[i].mint
            != vaults[j].mint
}

/// The vaults that exist, at most one per asset.
pub struct VaultRegistry {
    pub vaults: Vec<Vault>,
}

impl VaultRegistry {
    pub open spec fn view(&self) -> Seq<Vault> {
        self.vaults@
    }

    pub open spec fn wf(&self) -> bool {
        mints_unique(self@)
    }

    pub fn new() -> (r: VaultRegistry)
        ensures
            r@ == Seq::<Vault>::empty(),
            r.wf(),
    {
        VaultRegistry { vaults: Vec::new() }
    }

    /// The vault for the asset `mint`, if there is one.
    pub fn find(&self, mint: Address) -> (r: Option<Vault>)
        ensures
            r is None <==> !has_vault(self@, mint),
            r is Some ==> r->Some_0.mint == mint && self@.contains(r->Some_0),
    {
        let mut i: usize = 0;
        while i < self.vaults.len()
            invariant
                0 <= i <= self.vaults.len(),
                forall|k: int| 0 <= k < i ==> self.vaults@[k].mint != mint,
            decreases self.vaults.len() - i,
        {
            if self.vaults[i].mint == mint {
                proof {
                    assert(self@[i as int] == self.vaults@[i as int]);
                }
                return Some(self.vaults[i]);
            }
            i = i + 1;
        }
        None
    }
}

/// Creates the vault for the asset `mint`, administered by `authority`; `bump`
/// is the salt that lets the vault sign for its escrow. Fails with
/// `AlreadyInitialized` where the asset already has a vault.
pub fn initialize_vault(registry: &mut VaultRegistry, authority: Address, mint: Address, bump: u8) -> (r:
    Result<Vault, ErrorCode>)
    ensures
        r is Err <==> has_vault(old(registry)@, mint),
        r is Err ==> *final(registry) == *old(registry) && r == Err::<Vault, ErrorCode>(
            ErrorCode::AlreadyInitialized,
        ),
        r is Ok ==> r == Ok::<Vault, ErrorCode>((Vault { authority, mint, bump })) 
            && final(registry)@ == old(registry)@.push((Vault { authority, mint, bump })),
        old(registry).wf() ==> final(registry).wf(),
{
    if registry.find(mint).is_some() {
        return Err(ErrorCode::AlreadyInitialized);
    }
    let vault = Vault { authority, mint, bump };
    registry.vaults.push(vault);
    proof {
        let s = registry@;
        assert forall|i: int, j: int|
            0 <= i < s.len() && 0 <= j < s.len() && i != j && old(registry).wf() implies s[i].mint
            != s[j].mint by {
            if i < s.len() - 1 && j < s.len() - 1 {
                assert(s[i] == old(registry)@[i] && s[j] == old(registry)@[j]);
            } else if i < s.len() - 1 {
                assert(s[i] == old(registry)@[i]);
            } else {
                assert(s[j] == old(registry)@[j]);
            }
        }
    }
    Ok(vault)
}

} // verus!

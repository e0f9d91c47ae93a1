//! The keyed record the registry stores for one registered seed: free-text
//! provenance fields, lab expectations, and the handle of the asset created
//! for it.

use vstd::prelude::*;

verus! {

/// One registered seed record, keyed by its free-text `id`.
#[derive(Debug)]
pub struct SeedData {
    pub id: String,
    pub created_at: u64,
    pub creator: u64,
    pub variety: String,
    pub batch: String,
    pub origin_country: String,
    pub seed_bank: String,
    pub expected_thc: Option<u32>,
    pub expected_cbd: Option<u32>,
    pub organic_certified: bool,
    pub nft_id: u128,
    pub nft_contract: u64,
}

impl Clone for SeedData {
    fn clone(&self) -> (res: Self)
        ensures
            res == *self,
    {
        SeedData {
            id: self.id.clone(),
            created_at: self.created_at,
            creator: self.creator,
            variety: self.variety.clone(),
            batch: self.batch.clone(),
            origin_country: self.origin_country.clone(),
            seed_bank: self.seed_bank.clone(),
            expected_thc: self.expected_thc,
            expected_cbd: self.expected_cbd,
            organic_certified: self.organic_certified,
            nft_id: self.nft_id,
            nft_contract: self.nft_contract,
        }
    }
}

} // verus!

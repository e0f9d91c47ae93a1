use seed_tracking::contract::{Error, SeedNFTContract};
use seed_tracking::lifecycle::LifecycleState;
use seed_tracking::metadata::OpenSeaMetadata;
use seed_tracking::roles::Role;

fn fresh() -> SeedNFTContract {
    let mut c = SeedNFTContract::new();
    c.initialize(1, "Cannabis Seed NFT".to_string(), "CSNFT".to_string())
        .unwrap();
    c
}

fn mint_token(c: &mut SeedNFTContract, owner: u64, token_id: u128, now: u64) {
    c.mint(
        owner,
        token_id,
        "Cannabis Seed NFT".to_string(),
        "A tracked seed".to_string(),
        "ipfs://seed".to_string(),
        None,
        Vec::new(),
        now,
    )
    .unwrap();
}

#[test]
fn test_initialize() {
    let mut c = SeedNFTContract::new();
    let admin = 1u64;
    let name = "Cannabis Seed NFT".to_string();
    let symbol = "CSNFT".to_string();

    c.initialize(admin, name.clone(), symbol.clone()).unwrap();

    assert_eq!(c.name(), name);
    assert_eq!(c.symbol(), symbol);
    assert!(c.has_role(admin, Role::Admin));
    assert!(!c.is_paused());
}

#[test]
fn test_mint() {
    let mut c = fresh();
    let owner = 10u64;

    let token_id = 1u128;
    mint_token(&mut c, owner, token_id, 5);

    assert_eq!(c.balance_of(owner), 1);
    assert_eq!(c.owner_of(token_id), Some(owner));

    let metadata = c.get_metadata(token_id);
    assert!(metadata.is_some());
    if let Some(meta) = metadata {
        assert_eq!(meta.state.to_u32(), LifecycleState::Seed.to_u32());
    }
}

#[test]
fn test_state_transitions() {
    let mut c = fresh();
    let admin = 1u64;
    let cultivator = 2u64;
    let processor = 3u64;
    let dispensary = 4u64;
    let owner = 10u64;

    c.grant_role(admin, cultivator, Role::Cultivator).unwrap();
    c.grant_role(admin, processor, Role::Processor).unwrap();
    c.grant_role(admin, dispensary, Role::Dispensary).unwrap();

    let token_id = 1u128;
    mint_token(&mut c, owner, token_id, 5);

    c.update_state(
        cultivator,
        token_id,
        LifecycleState::Germinated.to_u32(),
        None,
        None,
        None,
        None,
        6,
    )
    .unwrap();

    let metadata = c.get_metadata(token_id).unwrap();
    assert_eq!(metadata.state.to_u32(), LifecycleState::Germinated.to_u32());

    let history = c.get_history(token_id);
    assert_eq!(history.len(), 1);
}

#[test]
fn test_whitelist() {
    let mut c = fresh();
    let admin = 1u64;
    let account = 20u64;

    assert!(!c.is_whitelisted(account));

    c.add_to_whitelist(admin, account).unwrap();
    assert!(c.is_whitelisted(account));

    c.remove_from_whitelist(admin, account).unwrap();
    assert!(!c.is_whitelisted(account));
}

#[test]
fn test_roles() {
    let mut c = fresh();
    let admin = 1u64;
    let user = 20u64;

    assert!(!c.has_role(user, Role::Cultivator));

    c.grant_role(admin, user, Role::Cultivator).unwrap();
    assert!(c.has_role(user, Role::Cultivator));

    c.revoke_role(admin, user, Role::Cultivator).unwrap();
    assert!(!c.has_role(user, Role::Cultivator));
}

#[test]
fn test_pause() {
    let mut c = fresh();
    let admin = 1u64;

    assert!(!c.is_paused());

    c.pause(admin).unwrap();
    assert!(c.is_paused());

    c.unpause(admin).unwrap();
    assert!(!c.is_paused());
}

#[test]
fn test_metadata_update() {
    let mut c = fresh();
    let admin = 1u64;
    let cultivator = 2u64;
    let owner = 10u64;

    c.grant_role(admin, cultivator, Role::Cultivator).unwrap();

    let token_id = 1u128;
    mint_token(&mut c, owner, token_id, 5);

    let location = Some("40.7128,-74.0060".to_string());
    let temperature = Some(25i32);
    let humidity = Some(60u32);
    let lab_analysis = Some("THC: 20%, CBD: 2%".to_string());

    c.update_metadata(
        cultivator,
        token_id,
        location.clone(),
        temperature,
        humidity,
        lab_analysis.clone(),
        None,
        7,
    )
    .unwrap();

    let metadata = c.get_metadata(token_id).unwrap();
    assert_eq!(metadata.location, location);
    assert_eq!(metadata.temperature, temperature);
    assert_eq!(metadata.humidity, humidity);
    assert_eq!(metadata.lab_analysis, lab_analysis);
}

#[test]
fn test_stage_encoding_is_stable() {
    let stages = [
        (LifecycleState::Seed, 0u32),
        (LifecycleState::Germinated, 1),
        (LifecycleState::PlantVegetative, 2),
        (LifecycleState::PlantFlowering, 3),
        (LifecycleState::PlantHarvested, 4),
        (LifecycleState::Processed, 5),
        (LifecycleState::Distributed, 6),
        (LifecycleState::Consumed, 7),
    ];
    for (stage, code) in stages {
        assert_eq!(stage.to_u32(), code);
        assert_eq!(LifecycleState::from_u32(code), Some(stage));
    }
    assert_eq!(LifecycleState::from_u32(8), None);
    assert_eq!(LifecycleState::from_u32(99), None);
}

#[test]
fn test_successor_relation_is_strict() {
    // Exactly one move from each stage but the terminal one; no self-loops,
    // no skips, no reversals.
    let all = [
        LifecycleState::Seed,
        LifecycleState::Germinated,
        LifecycleState::PlantVegetative,
        LifecycleState::PlantFlowering,
        LifecycleState::PlantHarvested,
        LifecycleState::Processed,
        LifecycleState::Distributed,
        LifecycleState::Consumed,
    ];
    for from in all {
        for to in all {
            let allowed = to.to_u32() == from.to_u32() + 1;
            assert_eq!(from.can_transition_to(to), allowed);
        }
    }
}

#[test]
fn test_scenario_germination() {
    // Mint handle 1 at Seed, grant Cultivator, move to Germinated.
    let mut c = fresh();
    let cultivator = 2u64;
    let owner = 10u64;
    c.grant_role(1, cultivator, Role::Cultivator).unwrap();
    mint_token(&mut c, owner, 1, 100);

    let event = c
        .update_state(cultivator, 1, 1, None, None, None, None, 101)
        .unwrap();
    assert_eq!(event.from_state, 0);
    assert_eq!(event.to_state, 1);
    assert_eq!(event.updated_by, cultivator);

    assert_eq!(
        c.get_metadata(1).unwrap().state.to_u32(),
        LifecycleState::Germinated.to_u32()
    );
    let history = c.get_history(1);
    assert_eq!(history.len(), 1);
    assert_eq!(history[0].from_state.to_u32(), LifecycleState::Seed.to_u32());
    assert_eq!(
        history[0].to_state.to_u32(),
        LifecycleState::Germinated.to_u32()
    );
}

#[test]
fn test_scenario_skipping_a_stage_fails() {
    // From Seed straight to PlantFlowering: rejected, nothing changes.
    let mut c = fresh();
    let cultivator = 2u64;
    c.grant_role(1, cultivator, Role::Cultivator).unwrap();
    mint_token(&mut c, 10, 1, 100);

    let r = c.update_state(
        cultivator,
        1,
        LifecycleState::PlantFlowering.to_u32(),
        None,
        None,
        None,
        None,
        101,
    );
    assert_eq!(r.unwrap_err(), Error::InvalidStateTransition);
    assert_eq!(c.get_metadata(1).unwrap().state.to_u32(), 0);
    assert_eq!(c.get_history(1).len(), 0);
}

#[test]
fn test_scenario_consumed_records_owner() {
    // Advance an asset through the whole chain; entering Consumed records the
    // asset's owner as consumer, not the dispensary that performed the move.
    let mut c = fresh();
    let cultivator = 2u64;
    let processor = 3u64;
    let dispensary = 4u64;
    let owner = 10u64;
    c.grant_role(1, cultivator, Role::Cultivator).unwrap();
    c.grant_role(1, processor, Role::Processor).unwrap();
    c.grant_role(1, dispensary, Role::Dispensary).unwrap();
    mint_token(&mut c, owner, 1, 100);

    for target in 1..=4u32 {
        c.update_state(cultivator, 1, target, None, None, None, None, 100 + target as u64)
            .unwrap();
    }
    c.update_state(processor, 1, 5, None, None, None, None, 105)
        .unwrap();
    c.update_state(dispensary, 1, 6, None, None, None, None, 106)
        .unwrap();
    c.update_state(dispensary, 1, 7, None, None, None, None, 107)
        .unwrap();

    let meta = c.get_metadata(1).unwrap();
    assert_eq!(meta.state.to_u32(), LifecycleState::Consumed.to_u32());
    assert_eq!(meta.processor, Some(processor));
    assert_eq!(meta.distributor, Some(dispensary));
    assert_eq!(meta.consumer, Some(owner));
    assert_eq!(c.get_history(1).len(), 7);
}

#[test]
fn test_consumed_is_terminal() {
    // From Consumed every transition request fails, whatever role the caller
    // holds and whatever the target.
    let mut c = fresh();
    let worker = 2u64;
    c.grant_role(1, worker, Role::Cultivator).unwrap();
    c.grant_role(1, worker, Role::Processor).unwrap();
    c.grant_role(1, worker, Role::Dispensary).unwrap();
    mint_token(&mut c, 10, 1, 100);
    for target in 1..=7u32 {
        c.update_state(worker, 1, target, None, None, None, None, 100 + target as u64)
            .unwrap();
    }

    for target in 0..=9u32 {
        let r = c.update_state(worker, 1, target, None, None, None, None, 200);
        assert_eq!(r.unwrap_err(), Error::InvalidStateTransition);
    }
    assert_eq!(c.get_history(1).len(), 7);
    assert_eq!(c.get_metadata(1).unwrap().state.to_u32(), 7);
}

#[test]
fn test_pause_gate() {
    // Once paused, every state-changing call on the asset fails with Paused
    // and changes nothing, until unpause.
    let mut c = fresh();
    let cultivator = 2u64;
    c.grant_role(1, cultivator, Role::Cultivator).unwrap();
    c.add_to_whitelist(1, 20).unwrap();
    mint_token(&mut c, 10, 1, 100);

    c.pause(1).unwrap();

    let r = c.update_state(cultivator, 1, 1, None, None, None, None, 101);
    assert_eq!(r.unwrap_err(), Error::Paused);
    let r = c.update_metadata(
        cultivator,
        1,
        Some("site-a".to_string()),
        None,
        None,
        None,
        None,
        101,
    );
    assert_eq!(r.unwrap_err(), Error::Paused);
    let r = c.transfer_from(10, 10, 20, 1);
    assert_eq!(r.unwrap_err(), Error::Paused);
    let r = c.approve(10, 20, 1);
    assert_eq!(r.unwrap_err(), Error::Paused);

    assert_eq!(c.get_metadata(1).unwrap().state.to_u32(), 0);
    assert_eq!(c.get_metadata(1).unwrap().location, None);
    assert_eq!(c.get_history(1).len(), 0);
    assert_eq!(c.owner_of(1), Some(10));

    c.unpause(1).unwrap();
    c.update_state(cultivator, 1, 1, None, None, None, None, 102)
        .unwrap();
    assert_eq!(c.get_metadata(1).unwrap().state.to_u32(), 1);
}

#[test]
fn test_grant_and_whitelist_idempotent() {
    // Granting (or revoking, or whitelisting) twice looks exactly like doing
    // it once.
    let mut c = fresh();
    c.grant_role(1, 2, Role::Cultivator).unwrap();
    c.grant_role(1, 2, Role::Cultivator).unwrap();
    assert!(c.has_role(2, Role::Cultivator));
    assert!(!c.has_role(2, Role::Processor));

    c.revoke_role(1, 2, Role::Cultivator).unwrap();
    c.revoke_role(1, 2, Role::Cultivator).unwrap();
    assert!(!c.has_role(2, Role::Cultivator));

    c.add_to_whitelist(1, 20).unwrap();
    c.add_to_whitelist(1, 20).unwrap();
    assert!(c.is_whitelisted(20));
    c.remove_from_whitelist(1, 20).unwrap();
    assert!(!c.is_whitelisted(20));
}

#[test]
fn test_partial_update_keeps_other_fields() {
    // Supplying only a location leaves temperature, humidity and lab analysis
    // exactly as they were.
    let mut c = fresh();
    let cultivator = 2u64;
    c.grant_role(1, cultivator, Role::Cultivator).unwrap();
    mint_token(&mut c, 10, 1, 100);

    c.update_metadata(
        cultivator,
        1,
        Some("site-a".to_string()),
        Some(21),
        Some(55),
        Some("clean".to_string()),
        None,
        101,
    )
    .unwrap();

    c.update_metadata(
        cultivator,
        1,
        Some("site-b".to_string()),
        None,
        None,
        None,
        None,
        102,
    )
    .unwrap();

    let meta = c.get_metadata(1).unwrap();
    assert_eq!(meta.location, Some("site-b".to_string()));
    assert_eq!(meta.temperature, Some(21));
    assert_eq!(meta.humidity, Some(55));
    assert_eq!(meta.lab_analysis, Some("clean".to_string()));
    assert_eq!(meta.updated_at, 102);
}

#[test]
fn test_opensea_merge_replaces_only_supplied_fields() {
    let mut c = fresh();
    let cultivator = 2u64;
    c.grant_role(1, cultivator, Role::Cultivator).unwrap();
    mint_token(&mut c, 10, 1, 100);

    let update = OpenSeaMetadata {
        name: Some("Renamed".to_string()),
        description: None,
        image: None,
        external_url: Some("https://example.test/seed/1".to_string()),
        attributes: None,
    };
    c.update_metadata(cultivator, 1, None, None, None, None, Some(update), 101)
        .unwrap();

    let meta = c.get_metadata(1).unwrap();
    assert_eq!(meta.name, "Renamed".to_string());
    assert_eq!(meta.description, "A tracked seed".to_string());
    assert_eq!(meta.image, "ipfs://seed".to_string());
    assert_eq!(
        meta.external_url,
        Some("https://example.test/seed/1".to_string())
    );
}

#[test]
fn test_error_conditions() {
    let mut c = SeedNFTContract::new();
    c.initialize(1, "n".to_string(), "s".to_string()).unwrap();
    let r = c.initialize(1, "n".to_string(), "s".to_string());
    assert_eq!(r.unwrap_err(), Error::AlreadyInitialized);

    mint_token(&mut c, 10, 1, 100);
    let r = c.mint(
        11,
        1,
        "n".to_string(),
        "d".to_string(),
        "i".to_string(),
        None,
        Vec::new(),
        101,
    );
    assert_eq!(r.unwrap_err(), Error::AlreadyExists);

    // Unknown handle.
    let r = c.update_state(1, 7, 1, None, None, None, None, 101);
    assert_eq!(r.unwrap_err(), Error::Unauthorized);
    c.grant_role(1, 2, Role::Cultivator).unwrap();
    let r = c.update_state(2, 7, 1, None, None, None, None, 101);
    assert_eq!(r.unwrap_err(), Error::TokenNotFound);

    // Target stage outside the encoding, and the initial stage as target.
    let r = c.update_state(2, 1, 42, None, None, None, None, 101);
    assert_eq!(r.unwrap_err(), Error::InvalidStateTransition);
    let r = c.update_state(2, 1, 0, None, None, None, None, 101);
    assert_eq!(r.unwrap_err(), Error::InvalidStateTransition);

    // A caller without the target stage's role.
    let r = c.update_state(2, 1, 5, None, None, None, None, 101);
    assert_eq!(r.unwrap_err(), Error::Unauthorized);

    // Metadata updates demand the Cultivator role and a known handle.
    let r = c.update_metadata(9, 1, None, None, None, None, None, 101);
    assert_eq!(r.unwrap_err(), Error::Unauthorized);
    let r = c.update_metadata(2, 7, None, None, None, None, None, 101);
    assert_eq!(r.unwrap_err(), Error::TokenNotFound);
}

#[test]
fn test_transfer_and_approval() {
    let mut c = fresh();
    mint_token(&mut c, 10, 1, 100);

    // Recipient must be whitelisted.
    let r = c.transfer_from(10, 10, 20, 1);
    assert_eq!(r.unwrap_err(), Error::NotWhitelisted);

    c.add_to_whitelist(1, 20).unwrap();
    c.add_to_whitelist(1, 30).unwrap();

    // Only the owner or an approved spender may move the token.
    let r = c.transfer_from(99, 10, 20, 1);
    assert_eq!(r.unwrap_err(), Error::Unauthorized);
    let r = c.transfer_from(10, 11, 20, 1);
    assert_eq!(r.unwrap_err(), Error::Unauthorized);
    let r = c.transfer_from(10, 10, 20, 9);
    assert_eq!(r.unwrap_err(), Error::TokenNotFound);

    c.transfer_from(10, 10, 20, 1).unwrap();
    assert_eq!(c.owner_of(1), Some(20));
    assert_eq!(c.balance_of(10), 0);
    assert_eq!(c.balance_of(20), 1);

    // Approval lets a third party move it once; the approval then lapses.
    let r = c.approve(10, 30, 1);
    assert_eq!(r.unwrap_err(), Error::Unauthorized);
    c.approve(20, 30, 1).unwrap();
    c.transfer_from(30, 20, 30, 1).unwrap();
    assert_eq!(c.owner_of(1), Some(30));
    let r = c.transfer_from(30, 30, 20, 1);
    assert!(r.is_ok());
    let r = c.transfer_from(30, 20, 30, 1);
    assert_eq!(r.unwrap_err(), Error::Unauthorized);
}

#[test]
fn test_history_counts_successful_updates_only() {
    // The log grows by exactly one per successful transition; failures leave
    // it alone; the newest record always matches the ledger's stage.
    let mut c = fresh();
    let cultivator = 2u64;
    c.grant_role(1, cultivator, Role::Cultivator).unwrap();
    mint_token(&mut c, 10, 1, 100);
    mint_token(&mut c, 10, 2, 100);

    c.update_state(cultivator, 1, 1, None, None, None, None, 101)
        .unwrap();
    assert!(c.update_state(cultivator, 1, 5, None, None, None, None, 102).is_err());
    c.update_state(cultivator, 1, 2, None, None, None, None, 103)
        .unwrap();

    let history = c.get_history(1);
    assert_eq!(history.len(), 2);
    assert_eq!(
        history[1].to_state.to_u32(),
        c.get_metadata(1).unwrap().state.to_u32()
    );
    assert_eq!(history[0].timestamp, 101);
    assert_eq!(history[1].timestamp, 103);
    // The untouched asset has no history.
    assert_eq!(c.get_history(2).len(), 0);
}

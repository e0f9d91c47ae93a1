use std::collections::HashMap;

use seed_tracking::registry::Registry;
use seed_tracking::roles::{Role, RoleFlags};
use seed_tracking::seed_registry::{Error, SeedRegistry};

fn fresh() -> SeedRegistry {
    let mut r = SeedRegistry::new();
    r.initialize(1, 99).unwrap();
    r
}

fn register(r: &mut SeedRegistry, creator: u64, id: &str, variety: &str, batch: &str) -> Result<u128, Error> {
    r.register_seed(
        creator,
        id.to_string(),
        variety.to_string(),
        batch.to_string(),
        "Colombia".to_string(),
        "Bank-001".to_string(),
        Some(20),
        Some(2),
        true,
        1000,
    )
}

#[test]
fn test_test_initialize() {
    let mut r = SeedRegistry::new();
    let admin = 1u64;
    let nft_contract = 99u64;

    r.initialize(admin, nft_contract).unwrap();

    assert_eq!(r.get_seed_count(), 0);
    assert!(r.has_role(admin, Role::Admin));
}

#[test]
fn test_register_seed() {
    let mut r = SeedRegistry::new();
    let admin = 1u64;
    let cultivator = 2u64;
    let nft_contract = 99u64;

    r.initialize(admin, nft_contract).unwrap();
    r.grant_role(admin, cultivator, Role::Cultivator).unwrap();

    let seed_id = "SEED-001".to_string();
    let variety = "Indica".to_string();
    let batch = "BATCH-2024-001".to_string();
    let origin_country = "Colombia".to_string();
    let seed_bank = "Bank-001".to_string();
    let _ = (seed_id, variety, batch, origin_country, seed_bank, 12345u64);

    assert_eq!(r.get_seed_count(), 0);
}

#[test]
fn test_test_roles() {
    let mut r = SeedRegistry::new();
    let admin = 1u64;
    let user = 2u64;
    let nft_contract = 99u64;

    r.initialize(admin, nft_contract).unwrap();

    assert!(!r.has_role(user, Role::Cultivator));

    r.grant_role(admin, user, Role::Cultivator).unwrap();
    assert!(r.has_role(user, Role::Cultivator));

    r.revoke_role(admin, user, Role::Cultivator).unwrap();
    assert!(!r.has_role(user, Role::Cultivator));
}

#[test]
fn test_test_pause() {
    let mut r = SeedRegistry::new();
    let admin = 1u64;
    let nft_contract = 99u64;

    r.initialize(admin, nft_contract).unwrap();

    assert!(!r.is_paused());

    r.pause(admin).unwrap();
    assert!(r.is_paused());

    r.unpause(admin).unwrap();
    assert!(!r.is_paused());
}

#[test]
fn test_queries() {
    let mut r = SeedRegistry::new();
    let admin = 1u64;
    let nft_contract = 99u64;

    r.initialize(admin, nft_contract).unwrap();

    let all_ids = r.get_all_seed_ids();
    assert_eq!(all_ids.len(), 0);

    let by_variety = r.query_seeds_by_variety("Indica".to_string());
    assert_eq!(by_variety.len(), 0);

    let by_batch = r.query_seeds_by_batch("BATCH-001".to_string());
    assert_eq!(by_batch.len(), 0);

    let by_creator = r.query_seeds_by_creator(admin);
    assert_eq!(by_creator.len(), 0);
}

#[test]
fn test_register_assigns_sequential_handles() {
    let mut r = fresh();
    r.grant_role(1, 2, Role::Cultivator).unwrap();

    assert_eq!(register(&mut r, 2, "SEED-001", "Indica", "B1"), Ok(1));
    assert_eq!(register(&mut r, 2, "SEED-002", "Sativa", "B1"), Ok(2));
    assert_eq!(r.get_seed_count(), 2);

    let data = r.get_seed("SEED-001".to_string()).unwrap();
    assert_eq!(data.id, "SEED-001".to_string());
    assert_eq!(data.variety, "Indica".to_string());
    assert_eq!(data.batch, "B1".to_string());
    assert_eq!(data.creator, 2);
    assert_eq!(data.created_at, 1000);
    assert_eq!(data.nft_id, 1);
    assert_eq!(data.nft_contract, 99);
    assert_eq!(data.expected_thc, Some(20));
    assert_eq!(data.organic_certified, true);

    assert!(r.get_seed("SEED-404".to_string()).is_none());

    // Re-registering an id is refused and changes nothing.
    let dup = register(&mut r, 2, "SEED-001", "Other", "B2");
    assert_eq!(dup.unwrap_err(), Error::AlreadyExists);
    assert_eq!(r.get_seed_count(), 2);
    assert_eq!(
        r.get_seed("SEED-001".to_string()).unwrap().variety,
        "Indica".to_string()
    );
}

#[test]
fn test_register_authorization_and_pause() {
    let mut r = fresh();

    // No Cultivator role: refused.
    let res = register(&mut r, 5, "SEED-001", "Indica", "B1");
    assert_eq!(res.unwrap_err(), Error::Unauthorized);

    r.grant_role(1, 2, Role::Cultivator).unwrap();
    r.pause(1).unwrap();
    let res = register(&mut r, 2, "SEED-001", "Indica", "B1");
    assert_eq!(res.unwrap_err(), Error::Paused);
    assert_eq!(r.get_seed_count(), 0);

    r.unpause(1).unwrap();
    assert!(register(&mut r, 2, "SEED-001", "Indica", "B1").is_ok());
}

#[test]
fn test_register_before_initialize() {
    // A registry that somehow holds a cultivator but no collection handle
    // refuses registration as not initialized.
    let mut roles = HashMap::new();
    roles.insert(
        2u64,
        RoleFlags {
            admin: false,
            cultivator: true,
            processor: false,
            dispensary: false,
            consumer: false,
        },
    );
    let mut r = SeedRegistry {
        registry: Registry {
            initialized: false,
            paused: false,
            roles,
            seed_count: 0,
            seeds: Vec::new(),
            nft_contract: None,
        },
    };
    let res = register(&mut r, 2, "SEED-001", "Indica", "B1");
    assert_eq!(res.unwrap_err(), Error::NotInitialized);
}

#[test]
fn test_batch_registration_skips_known_ids() {
    let mut r = fresh();
    r.grant_role(1, 2, Role::Cultivator).unwrap();
    assert_eq!(register(&mut r, 2, "SEED-002", "Sativa", "B0"), Ok(1));

    let ids = vec![
        "SEED-001".to_string(),
        "SEED-002".to_string(),
        "SEED-003".to_string(),
        "SEED-001".to_string(),
    ];
    let varieties = vec![
        "Indica".to_string(),
        "Sativa".to_string(),
        "Hybrid".to_string(),
        "Indica".to_string(),
    ];
    let batches = vec!["B1".to_string(); 4];
    let origins = vec!["Colombia".to_string(); 4];
    let banks = vec!["Bank-001".to_string(); 4];
    let thcs = vec![None; 4];
    let cbds = vec![None; 4];
    let organics = vec![false; 4];

    let handles = r
        .register_seeds_batch(
            2, ids, varieties, batches, origins, banks, thcs, cbds, organics, 2000,
        )
        .unwrap();

    // SEED-002 already existed and the second SEED-001 repeats the first, so
    // only two new records are created.
    assert_eq!(handles, vec![2u128, 3u128]);
    assert_eq!(r.get_seed_count(), 3);
    let all = r.get_all_seed_ids();
    assert_eq!(
        all,
        vec![
            "SEED-002".to_string(),
            "SEED-001".to_string(),
            "SEED-003".to_string()
        ]
    );
}

#[test]
fn test_batch_rejects_bad_input() {
    let mut r = fresh();
    r.grant_role(1, 2, Role::Cultivator).unwrap();

    // Mismatched lengths.
    let res = r.register_seeds_batch(
        2,
        vec!["SEED-001".to_string()],
        vec![],
        vec!["B1".to_string()],
        vec!["C".to_string()],
        vec!["K".to_string()],
        vec![None],
        vec![None],
        vec![true],
        2000,
    );
    assert_eq!(res.unwrap_err(), Error::InvalidInput);

    // More than 100 entries.
    let mut ids = Vec::new();
    for i in 0..101 {
        ids.push(format!("SEED-{i}"));
    }
    let n = ids.len();
    let res = r.register_seeds_batch(
        2,
        ids,
        vec!["V".to_string(); n],
        vec!["B".to_string(); n],
        vec!["C".to_string(); n],
        vec!["K".to_string(); n],
        vec![None; n],
        vec![None; n],
        vec![false; n],
        2000,
    );
    assert_eq!(res.unwrap_err(), Error::InvalidInput);
    assert_eq!(r.get_seed_count(), 0);
}

#[test]
fn test_queries_filter_by_field() {
    let mut r = fresh();
    r.grant_role(1, 2, Role::Cultivator).unwrap();
    r.grant_role(1, 3, Role::Cultivator).unwrap();
    register(&mut r, 2, "SEED-001", "Indica", "B1").unwrap();
    register(&mut r, 3, "SEED-002", "Sativa", "B1").unwrap();
    register(&mut r, 2, "SEED-003", "Indica", "B2").unwrap();

    assert_eq!(
        r.query_seeds_by_variety("Indica".to_string()),
        vec!["SEED-001".to_string(), "SEED-003".to_string()]
    );
    assert_eq!(
        r.query_seeds_by_variety("Ruderalis".to_string()),
        Vec::<String>::new()
    );
    assert_eq!(
        r.query_seeds_by_batch("B1".to_string()),
        vec!["SEED-001".to_string(), "SEED-002".to_string()]
    );
    assert_eq!(
        r.query_seeds_by_creator(3),
        vec!["SEED-002".to_string()]
    );
}

#[test]
fn test_registry_admin_surface() {
    let mut r = SeedRegistry::new();
    r.initialize(1, 99).unwrap();
    let res = r.initialize(1, 99);
    assert_eq!(res.unwrap_err(), Error::AlreadyInitialized);

    assert_eq!(r.get_nft_contract(), Some(99));
    let res = r.set_nft_contract(5, 77);
    assert_eq!(res.unwrap_err(), Error::Unauthorized);
    r.set_nft_contract(1, 77).unwrap();
    assert_eq!(r.get_nft_contract(), Some(77));

    let res = r.pause(5);
    assert_eq!(res.unwrap_err(), Error::Unauthorized);
    let res = r.grant_role(5, 6, Role::Cultivator);
    assert_eq!(res.unwrap_err(), Error::Unauthorized);
}

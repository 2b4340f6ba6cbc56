use mind::decimal::{parse_decimal, write_decimal};
use mind::knowledge_identity::KnowledgeIdentityMint;
use mind::technical_seed::{SeedNodeBody, SeedNodeKind, SeedRelationKind, TechnicalSeedDataset};

fn mint_with(used: &[&str]) -> KnowledgeIdentityMint {
    KnowledgeIdentityMint::from_identities(used.iter().map(|code| code.to_string()).collect())
}

#[test]
fn the_first_unused_draw_is_the_identity() {
    let mint = mint_with(&[]);
    assert_eq!(mint.identity_for_draws(5, &vec![Ok([0; 8])]), Ok(Some("10000".to_string())));
    let mint = mint_with(&["10000"]);
    let draws = vec![Ok([0; 8]), Ok([0, 0, 0, 0, 0, 0, 0, 1])];
    assert_eq!(mint.identity_for_draws(5, &draws), Ok(Some("10001".to_string())));
}

#[test]
fn a_failed_draw_before_a_fresh_one_is_an_error() {
    let mint = mint_with(&["10000"]);
    assert_eq!(mint.identity_for_draws(5, &vec![Err(getrandom::Error::UNSUPPORTED)]), Err(()));
    let draws = vec![Ok([0; 8]), Err(getrandom::Error::UNSUPPORTED), Ok([0, 0, 0, 0, 0, 0, 0, 1])];
    assert_eq!(mint.identity_for_draws(5, &draws), Err(()));
    // A failed draw after a fresh one is never looked at.
    let draws = vec![Ok([0, 0, 0, 0, 0, 0, 0, 2]), Err(getrandom::Error::UNSUPPORTED)];
    assert_eq!(mint.identity_for_draws(5, &draws), Ok(Some("10002".to_string())));
}

#[test]
fn when_the_draws_run_out_the_least_unused_code_is_taken() {
    let mint = mint_with(&["0000", "0001", "0003"]);
    assert_eq!(mint.identity_for_draws(4, &Vec::new()), Ok(Some("0002".to_string())));
    let used_draws = vec![Ok([0; 8]); 5];
    assert_eq!(mint.identity_for_draws(4, &used_draws), Ok(Some("0002".to_string())));
}

#[test]
fn only_the_attempts_allowed_are_looked_at() {
    let mint = mint_with(&["10000"]);
    let mut draws = vec![Ok([0; 8]); 128];
    draws.push(Ok([0, 0, 0, 0, 0, 0, 0, 9]));
    assert_eq!(mint.identity_for_draws(5, &draws), Ok(Some("10001".to_string())));
}

#[test]
fn with_working_draws_minting_does_not_fail_while_codes_are_free() {
    let mint = mint_with(&["0000", "0001"]);
    let identity = mint.next_identity().expect("randomness works and codes are free");
    assert_eq!(identity.len(), 4);
    assert!(identity != "0000" && identity != "0001");
}

#[test]
fn decimal_text_reads_back() {
    assert_eq!(write_decimal(0), "0");
    assert_eq!(write_decimal(750), "750");
    assert_eq!(write_decimal(u64::MAX), "18446744073709551615");
    for value in [0u64, 7, 10, 65535, 1_000_000] {
        assert_eq!(parse_decimal(&write_decimal(value)), Some(value));
    }
}

#[test]
fn seed_dataset_holds_the_public_first_slice() {
    let dataset = TechnicalSeedDataset::public_first_slice();
    assert_eq!(dataset.nodes().len(), 48);
    assert_eq!(dataset.relations().len(), 72);
    let keys = dataset.all_node_keys();
    for (i, a) in keys.iter().enumerate() {
        for b in keys.iter().skip(i + 1) {
            assert_ne!(a, b);
        }
    }
    for (kind, source, target) in dataset.all_relation_triples() {
        assert!(keys.contains(&source), "{kind:?} source {source}");
        assert!(keys.contains(&target), "{kind:?} target {target}");
    }
    assert_eq!(keys[0], "component:mind");
    let first = &dataset.all_relation_triples()[0];
    assert_eq!(first.0, SeedRelationKind::OwnsRepository);
    assert_eq!((first.1.as_str(), first.2.as_str()), ("component:mind", "repo:mind"));
    assert_eq!(dataset.nodes()[0].kind, SeedNodeKind::Component);
    match &dataset.nodes()[0].body {
        SeedNodeBody::Component { component, summary } => {
            assert_eq!(component, "mind");
            assert_eq!(summary, "Persona central mind daemon");
        }
        other => panic!("expected the mind component, got {other:?}"),
    }
}

#[test]
fn seed_dataset_names_its_landmark_keys() {
    let dataset = TechnicalSeedDataset::public_first_slice();
    let keys = dataset.all_node_keys();
    for key in [
        dataset.mind_component_key(),
        dataset.signal_mind_contract_key(),
        dataset.durable_storage_claim_key(),
        dataset.primary_irfi_epic_key(),
        dataset.primary_irfi_slice_claim_key(),
        dataset.mind_nix_check_witness_key(),
        dataset.signal_mind_nix_check_witness_key(),
    ] {
        assert!(keys.contains(&key), "{key} is a seed node");
    }
    assert_eq!(dataset.signal_mind_contract_key(), "contract:signal-mind:ordinary");
}

#[test]
fn seed_dataset_records_minds_storage_dependency() {
    let dataset = TechnicalSeedDataset::public_first_slice();
    let triples = dataset.all_relation_triples();
    assert!(triples.iter().any(|(kind, source, target)| {
        *kind == SeedRelationKind::StorageDependency && source == "component:mind" && target == "storage:mind:mind.sema"
    }));
    let storage = dataset
        .nodes()
        .iter()
        .find(|node| node.stable_key == "storage:mind:mind.sema")
        .expect("the store is a seed node");
    assert_eq!(storage.kind, SeedNodeKind::StorageResource);
    match &storage.body {
        SeedNodeBody::StorageResource { owner, name, path } => {
            assert_eq!(owner, "component:mind");
            assert_eq!(name, "mind.sema");
            assert_eq!(path, "/home/li/.local/state/mind/mind.sema");
        }
        other => panic!("expected a storage resource, got {other:?}"),
    }
}

use pdb_claims::access::{SecretKey, Secrets};
use pdb_claims::store::ClaimStore;
use pdb_claims::workflow::{
    admin_view, do_check, register, AdminOutcome, CheckOutcome, RegisterOutcome, TemplateParams,
};

fn params(name: &str, pdb: &str, id: &str) -> TemplateParams {
    TemplateParams {
        name: String::from(name),
        pdb: String::from(pdb),
        mcgill_id: String::from(id),
    }
}

fn secrets() -> Secrets {
    Secrets { user: String::from("user-token"), admin: String::from("admin-token") }
}

#[test]
fn register_stores_the_normalized_pdb_and_lookup_finds_it() {
    let mut store = ClaimStore::new();
    let mut reg = params("Alice", "2aro", "260000001");
    let outcome = register(&mut store, &mut reg);
    assert!(matches!(outcome, RegisterOutcome::Inserted));
    assert_eq!(reg.pdb, "2ARO");
    match do_check(&store, "260000001") {
        CheckOutcome::Found(pdb) => assert_eq!(pdb, "2ARO"),
        _ => panic!("expected the claimed PDB id"),
    }
}

#[test]
fn register_rejects_invalid_input_without_touching_the_store() {
    let mut store = ClaimStore::new();
    let mut reg = params("  ", "2AR", "12345678");
    let outcome = register(&mut store, &mut reg);
    match outcome {
        RegisterOutcome::Rejected(fb) => {
            assert_eq!(fb.name_msg.as_deref(), Some("Please enter a valid name."));
            assert_eq!(fb.pdb_msg.as_deref(), Some("Please enter a valid PDB id (e.g. 2ARO)."));
            assert_eq!(
                fb.mcgill_id_msg.as_deref(),
                Some("Please enter a valid 9-digit McGill ID.")
            );
        }
        _ => panic!("expected a rejection"),
    }
    assert_eq!(store.len(), 0);
}

#[test]
fn second_claim_for_the_same_pdb_is_refused() {
    let mut store = ClaimStore::new();
    let first = register(&mut store, &mut params("Alice", "2ARO", "260000001"));
    assert!(matches!(first, RegisterOutcome::Inserted));
    let second = register(&mut store, &mut params("Bob", "2aro", "260000002"));
    assert!(matches!(second, RegisterOutcome::DuplicatePdb));
    assert_eq!(store.len(), 1);
}

#[test]
fn second_claim_for_the_same_university_id_names_the_stored_pdb() {
    let mut store = ClaimStore::new();
    let first = register(&mut store, &mut params("Alice", "2aro", "260123456"));
    assert!(matches!(first, RegisterOutcome::Inserted));
    let second = register(&mut store, &mut params("Alice", "1xyz", "260123456"));
    match second {
        RegisterOutcome::DuplicateUniversityId(pdb) => assert_eq!(pdb, "2ARO"),
        _ => panic!("expected the already-registered PDB id"),
    }
    assert_eq!(store.len(), 1);
}

#[test]
fn lookup_returns_the_exact_stored_pdb_and_nothing_else() {
    let mut store = ClaimStore::new();
    assert!(store.insert_claim(
        String::from("2ARO"),
        String::from("260000001"),
        String::from("Alice")
    ));
    assert!(store.insert_claim(
        String::from("1XYZ"),
        String::from("260000002"),
        String::from("Bob")
    ));
    assert_eq!(store.find_pdb_for("260000001").as_deref(), Some("2ARO"));
    assert_eq!(store.find_pdb_for("260000002").as_deref(), Some("1XYZ"));
    assert_eq!(store.find_pdb_for("999999999"), None);
}

#[test]
fn insert_refuses_either_duplicate_and_keeps_the_store() {
    let mut store = ClaimStore::new();
    assert!(store.insert_claim(
        String::from("2ARO"),
        String::from("260000001"),
        String::from("Alice")
    ));
    assert!(!store.insert_claim(
        String::from("2ARO"),
        String::from("260000002"),
        String::from("Bob")
    ));
    assert!(!store.insert_claim(
        String::from("1XYZ"),
        String::from("260000001"),
        String::from("Carol")
    ));
    assert_eq!(store.len(), 1);
    let all = store.list_all_claims();
    assert_eq!(all.len(), 1);
    assert_eq!(all[0].pdb_id, "2ARO");
    assert_eq!(all[0].university_id, "260000001");
    assert_eq!(all[0].claimant_name, "Alice");
}

#[test]
fn admin_listing_holds_exactly_the_registered_claims() {
    let mut store = ClaimStore::new();
    assert!(matches!(
        register(&mut store, &mut params("Alice", "2aro", "260000001")),
        RegisterOutcome::Inserted
    ));
    assert!(matches!(
        register(&mut store, &mut params("Bob", "1xyz", "260000002")),
        RegisterOutcome::Inserted
    ));
    match admin_view(&SecretKey::Admin, &store) {
        AdminOutcome::Listing(claims) => {
            assert_eq!(claims.len(), 2);
            assert!(claims.iter().any(|c| c.pdb_id == "2ARO"
                && c.university_id == "260000001"
                && c.claimant_name == "Alice"));
            assert!(claims.iter().any(|c| c.pdb_id == "1XYZ"
                && c.university_id == "260000002"
                && c.claimant_name == "Bob"));
        }
        AdminOutcome::NotFound => panic!("admin scope must see the listing"),
    }
}

#[test]
fn user_scope_gets_not_found_on_the_admin_route() {
    let mut store = ClaimStore::new();
    assert!(matches!(
        register(&mut store, &mut params("Alice", "2aro", "260000001")),
        RegisterOutcome::Inserted
    ));
    let outcome = admin_view(&SecretKey::User, &store);
    assert!(matches!(outcome, AdminOutcome::NotFound));
}

#[test]
fn check_rejects_a_malformed_id_and_misses_an_unknown_one() {
    let store = ClaimStore::new();
    assert!(matches!(do_check(&store, "12345"), CheckOutcome::InvalidId));
    assert!(matches!(do_check(&store, "260000001"), CheckOutcome::NotFound));
}

#[test]
fn secret_key_classifies_the_path_segment() {
    let s = secrets();
    assert_eq!(SecretKey::from_param("user-token", &s), Ok(SecretKey::User));
    assert_eq!(SecretKey::from_param("admin-token", &s), Ok(SecretKey::Admin));
    assert!(SecretKey::from_param("wrong", &s).is_err());
    assert!(SecretKey::from_param("", &s).is_err());
}

#[test]
fn user_secret_wins_where_the_secrets_coincide() {
    let s = Secrets { user: String::from("same"), admin: String::from("same") };
    assert_eq!(SecretKey::from_param("same", &s), Ok(SecretKey::User));
}

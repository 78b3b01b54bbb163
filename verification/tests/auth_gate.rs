use ai_gateway::auth::{authorize_project, find_matching_key, key_prefix, parse_bearer_token};
use ai_gateway::entities::{Project, ProjectApiKey, ProjectStatus};
use ai_gateway::errors::AppError;
use ai_gateway::vault::EncryptionService;

fn vault() -> EncryptionService {
    EncryptionService::new(&EncryptionService::generate_key()).unwrap()
}

fn credential(vault: &EncryptionService, secret: &str) -> ProjectApiKey {
    let key_hash = vault.encrypt(secret).unwrap();
    let prefix: String = secret.chars().take(9).collect();
    let suffix: String = secret.chars().rev().take(4).collect();
    ProjectApiKey::new(
        "proj_1".to_string(),
        "test key".to_string(),
        key_hash,
        prefix,
        suffix,
    )
}

#[test]
fn missing_authorization_header_is_rejected_generically() {
    let r = parse_bearer_token(None);
    match r {
        Err(e) => {
            // 401 with a generic missing/invalid message, no project detail.
            assert_eq!(e.status_code(), 401);
            assert_eq!(e, AppError::AuthenticationError("Missing Authorization header".to_string()));
        }
        Ok(t) => panic!("accepted a missing header as {:?}", t),
    }
}

#[test]
fn non_bearer_header_is_rejected() {
    let h = "Basic cGs6c2VjcmV0".to_string();
    assert_eq!(
        parse_bearer_token(Some(&h)),
        Err(AppError::AuthenticationError("Invalid Authorization header format".to_string()))
    );
}

#[test]
fn empty_token_is_rejected() {
    let h = "Bearer    ".to_string();
    assert_eq!(
        parse_bearer_token(Some(&h)),
        Err(AppError::AuthenticationError("Empty API key".to_string()))
    );
}

#[test]
fn token_without_public_prefix_is_rejected() {
    let h = "Bearer sk_live_12345".to_string();
    assert_eq!(
        parse_bearer_token(Some(&h)),
        Err(AppError::AuthenticationError("Invalid API key format".to_string()))
    );
}

#[test]
fn valid_bearer_token_is_extracted_and_trimmed() {
    let h = "Bearer  pk_live_abc123 ".to_string();
    assert_eq!(parse_bearer_token(Some(&h)), Ok("pk_live_abc123".to_string()));
}

#[test]
fn prefix_is_first_nine_characters() {
    assert_eq!(key_prefix("pk_live_abc123"), "pk_live_a");
    assert_eq!(key_prefix("pk_x"), "pk_x");
}

#[test]
fn matching_secret_resolves_owning_active_project() {
    let v = vault();
    let secret = "pk_live_correct-horse";
    let candidates = vec![credential(&v, secret)];
    let idx = find_matching_key(&v, secret, &candidates, 1_700_000_000_000).unwrap();
    assert_eq!(idx, 0);
    assert_eq!(candidates[idx].project_id, "proj_1");

    let project = Project::new("proj_1".into(), "demo".into(), "org_1".into());
    assert!(authorize_project(&project).is_ok());
}

#[test]
fn wrong_secret_with_same_prefix_fails() {
    let v = vault();
    // Both secrets share the nine-character indexing prefix.
    let candidates = vec![credential(&v, "pk_live_aaaa1111")];
    let r = find_matching_key(&v, "pk_live_aaaa2222", &candidates, 0);
    assert_eq!(r, Err(AppError::AuthenticationError("Invalid API key".to_string())));
}

#[test]
fn expired_credential_never_matches() {
    let v = vault();
    let mut c = credential(&v, "pk_live_expired");
    c.expires_at = Some(1_000);
    let r = find_matching_key(&v, "pk_live_expired", &vec![c], 2_000);
    assert_eq!(r, Err(AppError::AuthenticationError("Invalid API key".to_string())));
}

#[test]
fn unexpired_and_unbounded_credentials_match() {
    let v = vault();
    let mut c = credential(&v, "pk_live_fresh");
    c.expires_at = Some(10_000);
    assert_eq!(find_matching_key(&v, "pk_live_fresh", &vec![c], 5_000), Ok(0));
}

#[test]
fn revoked_credential_never_matches() {
    let v = vault();
    let mut c = credential(&v, "pk_live_revoked");
    c.revoke();
    let r = find_matching_key(&v, "pk_live_revoked", &vec![c], 0);
    assert!(r.is_err());
}

#[test]
fn corrupted_record_does_not_abort_the_scan() {
    let v = vault();
    let mut bad = credential(&v, "pk_live_token");
    bad.key_hash = "garbage-not-a-blob".to_string();
    let good = credential(&v, "pk_live_token");
    let candidates = vec![bad, good];
    assert_eq!(find_matching_key(&v, "pk_live_token", &candidates, 0), Ok(1));
}

#[test]
fn first_match_wins_in_repository_order() {
    let v = vault();
    let candidates = vec![
        credential(&v, "pk_live_other"),
        credential(&v, "pk_live_mine"),
        credential(&v, "pk_live_mine"),
    ];
    assert_eq!(find_matching_key(&v, "pk_live_mine", &candidates, 0), Ok(1));
}

#[test]
fn inactive_project_yields_authorization_error() {
    // A matching, active credential whose owning project is suspended must
    // produce a 403 authorization error, not a 401 authentication error.
    let mut project = Project::new("proj_1".into(), "demo".into(), "org_1".into());
    project.set_status(ProjectStatus::Suspended);
    let r = authorize_project(&project);
    match r {
        Err(e) => {
            assert_eq!(e.status_code(), 403);
            assert_eq!(e, AppError::AuthorizationError("Project is not active".to_string()));
        }
        Ok(()) => panic!("authorized a suspended project"),
    }
}

#[test]
fn every_non_active_status_is_refused() {
    for status in [
        ProjectStatus::Inactive,
        ProjectStatus::Suspended,
        ProjectStatus::Archived,
        ProjectStatus::Deleted,
    ] {
        let mut project = Project::new("p".into(), "n".into(), "o".into());
        project.set_status(status);
        assert!(authorize_project(&project).is_err());
    }
}

use forge_move::error::AppError;
use forge_move::forge::{
    bearer_token, endpoint_url, site_ready_step, status_error, CreateSiteRequest, Database,
    ListDatabaseResponse, ListUserResponse, ReadyStep, User, FORGE_API_VERSION, FORGE_BASE_URL,
};

fn db(id: u32, name: &str) -> Database {
    Database {
        id,
        name: name.to_string(),
        status: "installed".to_string(),
        created_at: "2024-10-15".to_string(),
    }
}

#[test]
fn database_found_by_name_first_match() {
    let list = ListDatabaseResponse { databases: vec![db(1, "a"), db(2, "shop"), db(3, "shop")] };
    assert_eq!(list.id_by_name("shop").unwrap(), 2);
    match list.id_by_name("none") {
        Err(AppError::ForgeAPIError(m)) => {
            assert_eq!(m, "Could not find database with the name: none")
        }
        other => panic!("unexpected {:?}", other),
    }
}

#[test]
fn user_found_by_name() {
    let user = User {
        id: 7,
        name: "bob".to_string(),
        status: "installed".to_string(),
        created_at: String::new(),
        databases: vec![2],
    };
    let list = ListUserResponse { users: vec![user] };
    assert_eq!(list.id_by_name("bob").unwrap(), 7);
    assert!(list.id_by_name("alice").is_err());
}

#[test]
fn endpoint_urls() {
    assert_eq!(
        endpoint_url(FORGE_BASE_URL, FORGE_API_VERSION, "42", "sites", None),
        "https://forge.laravel.com/api/v1/servers/42/sites"
    );
    assert_eq!(
        endpoint_url(FORGE_BASE_URL, FORGE_API_VERSION, "42", "databases", Some("9")),
        "https://forge.laravel.com/api/v1/servers/42/databases/9"
    );
}

#[test]
fn headers_and_errors() {
    assert_eq!(bearer_token("abc"), "Bearer abc");
    match status_error("404 Not Found", "missing") {
        AppError::ForgeAPIError(m) => assert_eq!(m, "Request returned error 404 Not Found: missing"),
        other => panic!("unexpected {:?}", other),
    }
}

#[test]
fn default_site_request() {
    let r = CreateSiteRequest::default();
    assert_eq!(r.project_type, "php");
    assert_eq!(r.username, "forge");
    assert_eq!(r.php_version, "php83");
    assert!(r.domain.is_empty() && r.aliases.is_empty() && !r.isolated);
}

#[test]
fn site_readiness_decisions() {
    assert_eq!(site_ready_step(1, "installed"), ReadyStep::Ready);
    assert_eq!(site_ready_step(1, "installing"), ReadyStep::Retry);
    assert_eq!(site_ready_step(9, "installing"), ReadyStep::Retry);
    assert_eq!(site_ready_step(10, "installing"), ReadyStep::GiveUp);
}

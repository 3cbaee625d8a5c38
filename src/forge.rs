use vstd::prelude::*;

use crate::error::{cat, cat3, cat4, AppError, AppResult};

verus! {

/// The address of the hosting provider's API.
pub const FORGE_BASE_URL: &'static str = "https://forge.laravel.com";

/// The version of the API this client speaks.
pub const FORGE_API_VERSION: &'static str = "v1";

/// How many times the state of a new site is read before giving up.
pub const SITE_READY_ATTEMPTS: u32 = 10;

/// The request that creates a site on a server.
#[derive(Debug, Clone)]
pub struct CreateSiteRequest {
    pub domain: String,
    pub project_type: String,
    pub aliases: Vec<String>,
    pub directory: String,
    pub isolated: bool,
    pub username: String,
    pub database: String,
    pub php_version: String,
}

impl Default for CreateSiteRequest {
    /// A PHP 8.3 site of the `forge` user, with no domain yet.
    fn default() -> (r: Self)
        ensures
            r.domain@ == Seq::<char>::empty(),
            r.project_type@ == "php"@,
            r.aliases@.len() == 0,
            r.directory@ == Seq::<char>::empty(),
            !r.isolated,
            r.username@ == "forge"@,
            r.database@ == Seq::<char>::empty(),
            r.php_version@ == "php83"@,
    {
        CreateSiteRequest {
            domain: String::new(),
            project_type: String::from_str("php"),
            aliases: Vec::new(),
            directory: String::new(),
            isolated: false,
            username: String::from_str("forge"),
            database: String::new(),
            php_version: String::from_str("php83"),
        }
    }
}

/// A site as the API describes it.
#[derive(Debug, Clone)]
pub struct Site {
    pub id: u32,
    pub server_id: u32,
    pub name: String,
    pub aliases: Vec<String>,
    pub directory: String,
    pub wildcards: bool,
    pub status: String,
    pub repository: Option<String>,
    pub repository_provider: Option<String>,
    pub repository_branch: Option<String>,
    pub repository_status: Option<String>,
    pub quick_deploy: bool,
    pub project_type: String,
    pub php_version: String,
    pub app: Option<String>,
    pub app_status: Option<String>,
    pub slack_channel: Option<String>,
    pub telegram_chat_id: Option<String>,
    pub telegram_chat_title: Option<String>,
    pub teams_webhook_url: Option<String>,
    pub discord_webhook_url: Option<String>,
    pub created_at: String,
    pub telegram_secret: String,
    pub username: String,
    pub deployment_url: String,
    pub is_secured: bool,
    pub web_directory: String,
    pub isolated: Option<bool>,
    pub tags: Option<Vec<String>>,
}

/// One site, as a read returns it.
#[derive(Debug, Clone)]
pub struct SiteResponse {
    pub site: Site,
}

/// The site that a creation made.
#[derive(Debug, Clone)]
pub struct CreateSiteResponse {
    pub site: Site,
}

/// The sites of a server.
#[derive(Debug, Clone)]
pub struct ListSiteResponse {
    pub sites: Vec<Site>,
}

/// The request that creates a database and its user on a server.
#[derive(Debug, Clone)]
pub struct CreateDatabaseRequest {
    pub name: String,
    pub user: String,
    pub password: String,
}

/// A database as the API describes it.
#[derive(Debug, Clone)]
pub struct Database {
    pub id: u32,
    pub name: String,
    pub status: String,
    pub created_at: String,
}

/// One database, as a read returns it.
#[derive(Debug, Clone)]
pub struct DatabaseResponse {
    pub database: Database,
}

/// The database that a creation made.
#[derive(Debug, Clone)]
pub struct CreateDatabaseResponse {
    pub database: Database,
}

/// The databases of a server.
#[derive(Debug, Clone)]
pub struct ListDatabaseResponse {
    pub databases: Vec<Database>,
}

/// The request that creates a database user.
#[derive(Debug, Clone)]
pub struct CreateUserRequest {
    pub name: String,
    pub password: String,
    pub databases: Vec<u32>,
}

/// A database user as the API describes it.
#[derive(Debug, Clone)]
pub struct User {
    pub id: u32,
    pub name: String,
    pub status: String,
    pub created_at: String,
    pub databases: Vec<u32>,
}

/// One database user, as a read returns it.
#[derive(Debug, Clone)]
pub struct UserResponse {
    pub user: User,
}

/// The database users of a server.
#[derive(Debug, Clone)]
pub struct ListUserResponse {
    pub users: Vec<User>,
}

/// The request that changes which databases a user may reach.
#[derive(Debug, Clone)]
pub struct UpdateUserRequest {
    pub databases: Vec<u32>,
}

/// Whether `i` is the first position in `names` that holds `name`.
pub open spec fn first_named(names: Seq<Seq<char>>, name: Seq<char>, i: int) -> bool {
    &&& 0 <= i < names.len()
    &&& names[i] == name
    &&& forall|j: int| 0 <= j < i ==> names[j] != name
}

/// The outcome of a lookup by name: the id of the first entry so named, or
/// an API error when there is none.
pub open spec fn lookup_by_name(
    names: Seq<Seq<char>>,
    ids: Seq<u32>,
    name: Seq<char>,
    r: AppResult<u32>,
) -> bool {
    match r {
        Ok(id) => exists|i: int| first_named(names, name, i) && ids[i] == id,
        Err(e) => (forall|j: int| 0 <= j < names.len() ==> names[j] != name) && e is ForgeAPIError,
    }
}

impl ListSiteResponse {
    pub open spec fn names(&self) -> Seq<Seq<char>> {
        self.sites@.map_values(|s: Site| s.name@)
    }

    pub open spec fn ids(&self) -> Seq<u32> {
        self.sites@.map_values(|s: Site| s.id)
    }

    /// The id of the first site named `site_name`.
    pub fn id_by_name(&self, site_name: &str) -> (r: AppResult<u32>)
        ensures
            lookup_by_name(self.names(), self.ids(), site_name@, r),
    {
        let wanted = String::from_str(site_name);
        let mut k: usize = 0;
        while k < self.sites.len()
            invariant
                k <= self.sites@.len(),
                forall|j: int| 0 <= j < k ==> self.names()[j] != site_name@,
                wanted@ == site_name@,
            decreases self.sites@.len() - k,
        {
            assert(self.names()[k as int] == self.sites@[k as int].name@);
            assert(self.ids()[k as int] == self.sites@[k as int].id);
            if self.sites[k].name == wanted {
                assert(first_named(self.names(), site_name@, k as int));
                return Ok(self.sites[k].id);
            }
            k = k + 1;
        }
        Err(AppError::ForgeAPIError(cat("Could not find site with the name: ", site_name)))
    }
}

impl ListDatabaseResponse {
    pub open spec fn names(&self) -> Seq<Seq<char>> {
        self.databases@.map_values(|d: Database| d.name@)
    }

    pub open spec fn ids(&self) -> Seq<u32> {
        self.databases@.map_values(|d: Database| d.id)
    }

    /// The id of the first database named `database_name`.
    pub fn id_by_name(&self, database_name: &str) -> (r: AppResult<u32>)
        ensures
            lookup_by_name(self.names(), self.ids(), database_name@, r),
    {
        let wanted = String::from_str(database_name);
        let mut k: usize = 0;
        while k < self.databases.len()
            invariant
                k <= self.databases@.len(),
                forall|j: int| 0 <= j < k ==> self.names()[j] != database_name@,
                wanted@ == database_name@,
            decreases self.databases@.len() - k,
        {
            assert(self.names()[k as int] == self.databases@[k as int].name@);
            assert(self.ids()[k as int] == self.databases@[k as int].id);
            if self.databases[k].name == wanted {
                assert(first_named(self.names(), database_name@, k as int));
                return Ok(self.databases[k].id);
            }
            k = k + 1;
        }
        Err(
            AppError::ForgeAPIError(
                cat("Could not find database with the name: ", database_name),
            ),
        )
    }
}

impl ListUserResponse {
    pub open spec fn names(&self) -> Seq<Seq<char>> {
        self.users@.map_values(|u: User| u.name@)
    }

    pub open spec fn ids(&self) -> Seq<u32> {
        self.users@.map_values(|u: User| u.id)
    }

    /// The id of the first database user named `user_name`.
    pub fn id_by_name(&self, user_name: &str) -> (r: AppResult<u32>)
        ensures
            lookup_by_name(self.names(), self.ids(), user_name@, r),
    {
        let wanted = String::from_str(user_name);
        let mut k: usize = 0;
        while k < self.users.len()
            invariant
                k <= self.users@.len(),
                forall|j: int| 0 <= j < k ==> self.names()[j] != user_name@,
                wanted@ == user_name@,
            decreases self.users@.len() - k,
        {
            assert(self.names()[k as int] == self.users@[k as int].name@);
            assert(self.ids()[k as int] == self.users@[k as int].id);
            if self.users[k].name == wanted {
                assert(first_named(self.names(), user_name@, k as int));
                return Ok(self.users[k].id);
            }
            k = k + 1;
        }
        Err(AppError::ForgeAPIError(cat("Could not find user with the name: ", user_name)))
    }
}

/// `<base>/api/<version>/servers/<server_id>/<endpoint>`, followed by
/// `/<resource_id>` when one is given.
pub open spec fn endpoint_url_spec(
    base: Seq<char>,
    version: Seq<char>,
    server_id: Seq<char>,
    endpoint: Seq<char>,
    resource_id: Option<Seq<char>>,
) -> Seq<char> {
    let head = base + "/api/"@ + version + "/servers/"@ + server_id + "/"@ + endpoint;
    match resource_id {
        Some(id) => head + "/"@ + id,
        None => head,
    }
}

/// The address of an API endpoint on a server, or of one resource under it.
pub fn endpoint_url(
    base: &str,
    version: &str,
    server_id: &str,
    endpoint: &str,
    resource_id: Option<&str>,
) -> (r: String)
    ensures
        r@ == endpoint_url_spec(
            base@,
            version@,
            server_id@,
            endpoint@,
            match resource_id {
                Some(id) => Some(id@),
                None => None,
            },
        ),
{
    let a = cat4(base, "/api/", version, "/servers/");
    let b = cat4(a.as_str(), server_id, "/", endpoint);
    match resource_id {
        Some(id) => cat3(b.as_str(), "/", id),
        None => b,
    }
}

/// The value of the `Authorization` header for `api_key`.
pub fn bearer_token(api_key: &str) -> (r: String)
    ensures
        r@ == "Bearer "@ + api_key@,
{
    cat("Bearer ", api_key)
}

/// The error of a request that the API answered with a failure status.
pub fn status_error(status: &str, details: &str) -> (e: AppError)
    ensures
        match e {
            AppError::ForgeAPIError(m) => m@ == "Request returned error "@ + status@ + ": "@
                + details@,
            _ => false,
        },
{
    AppError::ForgeAPIError(cat4("Request returned error ", status, ": ", details))
}

/// What to do after reading the state of a new site.
#[derive(Debug, Clone, Copy, PartialEq, Eq, Structural)]
pub enum ReadyStep {
    /// The site is installed.
    Ready,
    /// Wait, then read the state again.
    Retry,
    /// The last attempt has been spent.
    GiveUp,
}

/// The decision after the `attempt`-th read of a site's state (counting
/// from 1): ready once it reads `installed`, else another try while
/// attempts remain.
pub fn site_ready_step(attempt: u32, status: &str) -> (r: ReadyStep)
    ensures
        status@ == "installed"@ ==> r == ReadyStep::Ready,
        status@ != "installed"@ && attempt < SITE_READY_ATTEMPTS ==> r == ReadyStep::Retry,
        status@ != "installed"@ && attempt >= SITE_READY_ATTEMPTS ==> r == ReadyStep::GiveUp,
{
    let installed = String::from_str("installed");
    let seen = String::from_str(status);
    if installed == seen {
        ReadyStep::Ready
    } else if attempt < SITE_READY_ATTEMPTS {
        ReadyStep::Retry
    } else {
        ReadyStep::GiveUp
    }
}

/// The error of a site that did not become ready in time.
pub fn site_not_ready() -> (e: AppError)
    ensures
        e is ForgeAPIError,
{
    AppError::ForgeAPIError(
        String::from_str("Site is taking too long to reach 'ready' state in the expected timeframe"),
    )
}

} // verus!

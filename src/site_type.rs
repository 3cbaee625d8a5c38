use vstd::prelude::*;

use crate::credentials::{
    env_pattern, env_value, extract_env_value, extract_value, lookup_failure, wordpress_pattern,
    wordpress_value, DatabaseCredentials,
};
use crate::error::{AppError, AppResult};

verus! {

/// A WordPress installation: its settings live in `public/wp-config.php`.
#[derive(Debug, Clone, Copy, PartialEq, Eq, Structural)]
pub struct WordPressSite;

/// A Laravel application: its settings live in `.env`, beside `artisan`.
#[derive(Debug, Clone, Copy, PartialEq, Eq, Structural)]
pub struct LaravelSite;

/// A site of plain HTML files, with no database.
#[derive(Debug, Clone, Copy, PartialEq, Eq, Structural)]
pub struct StaticHtmlSite;

/// The kind of application found in a source tree.
#[derive(Debug, Clone, Copy, PartialEq, Eq, Structural)]
pub enum SiteType {
    Wordpress(WordPressSite),
    Laravel(LaravelSite),
    StaticHtml(StaticHtmlSite),
}

/// Which marker files exist in a source tree.
#[derive(Debug, Clone, Copy, PartialEq, Eq, Structural)]
pub struct SiteMarkers {
    /// `public/wp-config.php`
    pub wp_config: bool,
    /// `.env`
    pub env_file: bool,
    /// `artisan`
    pub artisan: bool,
    /// `index.html`
    pub index_html: bool,
}

/// The marker file of a WordPress tree, relative to its root.
pub const WP_CONFIG_MARKER: &'static str = "public/wp-config.php";

/// The settings file of a Laravel tree, relative to its root.
pub const ENV_MARKER: &'static str = ".env";

/// The command-line entry point of a Laravel tree, relative to its root.
pub const ARTISAN_MARKER: &'static str = "artisan";

/// The front page of a static tree, relative to its root.
pub const INDEX_HTML_MARKER: &'static str = "index.html";

/// The site type that the markers select, first rule that applies:
/// WordPress, then Laravel, then static HTML.
pub open spec fn detected_spec(m: SiteMarkers) -> Option<SiteType> {
    if m.wp_config {
        Some(SiteType::Wordpress(WordPressSite))
    } else if m.env_file && m.artisan {
        Some(SiteType::Laravel(LaravelSite))
    } else if m.index_html {
        Some(SiteType::StaticHtml(StaticHtmlSite))
    } else {
        None
    }
}

/// Chooses the site type of the tree at `root_path` from its marker files.
///
/// A tree with `public/wp-config.php` is WordPress whatever else it holds;
/// one with both `.env` and `artisan` is Laravel even if it has an
/// `index.html`; a tree with no marker is an unknown site type.
pub fn detect_site_type(root_path: &str, markers: SiteMarkers) -> (r: AppResult<SiteType>)
    ensures
        markers.wp_config ==> r == Ok::<SiteType, AppError>(SiteType::Wordpress(WordPressSite)),
        match detected_spec(markers) {
            Some(t) => r == Ok::<SiteType, AppError>(t),
            None => match r {
                Err(AppError::UnknownSiteType(p)) => p@ == root_path@,
                _ => false,
            },
        },
{
    if markers.wp_config {
        Ok(SiteType::Wordpress(WordPressSite))
    } else if markers.env_file && markers.artisan {
        Ok(SiteType::Laravel(LaravelSite))
    } else if markers.index_html {
        Ok(SiteType::StaticHtml(StaticHtmlSite))
    } else {
        Err(AppError::UnknownSiteType(String::from_str(root_path)))
    }
}

/// The credentials that a WordPress configuration gives, or the error of the
/// first of `DB_USER`, `DB_PASSWORD`, `DB_NAME` that cannot be found.
pub open spec fn wordpress_credentials(
    content: Seq<char>,
    r: AppResult<Option<DatabaseCredentials>>,
) -> bool {
    let u = wordpress_value(content, "DB_USER"@);
    let p = wordpress_value(content, "DB_PASSWORD"@);
    let d = wordpress_value(content, "DB_NAME"@);
    match r {
        Ok(Some(c)) => u == Some(c.username@) && p == Some(c.password@) && d == Some(
            c.database@,
        ),
        Ok(None) => false,
        Err(e) => if u is None {
            lookup_failure(e, wordpress_pattern("DB_USER"@), "DB_USER"@)
        } else if p is None {
            lookup_failure(e, wordpress_pattern("DB_PASSWORD"@), "DB_PASSWORD"@)
        } else {
            d is None && lookup_failure(e, wordpress_pattern("DB_NAME"@), "DB_NAME"@)
        },
    }
}

/// The credentials that a `.env` file gives, or the error of the first of
/// `DB_USERNAME`, `DB_PASSWORD`, `DB_DATABASE` that cannot be found.
pub open spec fn laravel_credentials(
    content: Seq<char>,
    r: AppResult<Option<DatabaseCredentials>>,
) -> bool {
    let u = env_value(content, "DB_USERNAME"@);
    let p = env_value(content, "DB_PASSWORD"@);
    let d = env_value(content, "DB_DATABASE"@);
    match r {
        Ok(Some(c)) => u == Some(c.username@) && p == Some(c.password@) && d == Some(
            c.database@,
        ),
        Ok(None) => false,
        Err(e) => if u is None {
            lookup_failure(e, env_pattern("DB_USERNAME"@), "DB_USERNAME"@)
        } else if p is None {
            lookup_failure(e, env_pattern("DB_PASSWORD"@), "DB_PASSWORD"@)
        } else {
            d is None && lookup_failure(e, env_pattern("DB_DATABASE"@), "DB_DATABASE"@)
        },
    }
}

impl WordPressSite {
    /// Reads `DB_USER`, `DB_PASSWORD` and `DB_NAME` from the text of
    /// `public/wp-config.php`.
    pub fn get_database_credentials(&self, config_content: &str) -> (r: AppResult<
        Option<DatabaseCredentials>,
    >)
        ensures
            wordpress_credentials(config_content@, r),
    {
        let username = match extract_value(config_content, "DB_USER") {
            Ok(v) => v,
            Err(e) => return Err(e),
        };
        let password = match extract_value(config_content, "DB_PASSWORD") {
            Ok(v) => v,
            Err(e) => return Err(e),
        };
        let database = match extract_value(config_content, "DB_NAME") {
            Ok(v) => v,
            Err(e) => return Err(e),
        };
        Ok(Some(DatabaseCredentials { username, password, database }))
    }
}

impl LaravelSite {
    /// Reads `DB_USERNAME`, `DB_PASSWORD` and `DB_DATABASE` from the text of
    /// `.env`.
    pub fn get_database_credentials(&self, config_content: &str) -> (r: AppResult<
        Option<DatabaseCredentials>,
    >)
        ensures
            laravel_credentials(config_content@, r),
    {
        let username = match extract_env_value(config_content, "DB_USERNAME") {
            Ok(v) => v,
            Err(e) => return Err(e),
        };
        let password = match extract_env_value(config_content, "DB_PASSWORD") {
            Ok(v) => v,
            Err(e) => return Err(e),
        };
        let database = match extract_env_value(config_content, "DB_DATABASE") {
            Ok(v) => v,
            Err(e) => return Err(e),
        };
        Ok(Some(DatabaseCredentials { username, password, database }))
    }
}

impl StaticHtmlSite {
    /// A static site has no database: no credentials, and no error.
    pub fn get_database_credentials(&self, config_content: &str) -> (r: AppResult<
        Option<DatabaseCredentials>,
    >)
        ensures
            r matches Ok(None),
    {
        Ok(None)
    }
}

impl SiteType {
    /// Whether sites of this type have a database to move.
    pub open spec fn has_database(self) -> bool {
        !(self is StaticHtml)
    }

    /// The settings file that holds the database credentials, relative to
    /// the tree's root; none for a static site.
    pub fn config_file(&self) -> (r: Option<&'static str>)
        ensures
            r is Some <==> self.has_database(),
            self is Wordpress ==> r == Some(WP_CONFIG_MARKER),
            self is Laravel ==> r == Some(ENV_MARKER),
    {
        match self {
            SiteType::Wordpress(_) => Some(WP_CONFIG_MARKER),
            SiteType::Laravel(_) => Some(ENV_MARKER),
            SiteType::StaticHtml(_) => None,
        }
    }
}


impl SiteType {
    /// The database credentials found in `config_content`, the text of
    /// this type's settings file; none for a static site.
    pub fn get_database_credentials(&self, config_content: &str) -> (r: AppResult<
        Option<DatabaseCredentials>,
    >)
        ensures
            self is Wordpress ==> wordpress_credentials(config_content@, r),
            self is Laravel ==> laravel_credentials(config_content@, r),
            self is StaticHtml ==> r matches Ok(None),
    {
        match self {
            SiteType::Wordpress(site) => site.get_database_credentials(config_content),
            SiteType::Laravel(site) => site.get_database_credentials(config_content),
            SiteType::StaticHtml(site) => site.get_database_credentials(config_content),
        }
    }
}

} // verus!

use forge_move::credentials::{extract_env_value, extract_value};
use forge_move::error::AppError;
use forge_move::site_type::{
    detect_site_type, LaravelSite, SiteMarkers, SiteType, StaticHtmlSite, WordPressSite,
};

fn markers(wp_config: bool, env_file: bool, artisan: bool, index_html: bool) -> SiteMarkers {
    SiteMarkers { wp_config, env_file, artisan, index_html }
}

#[test]
fn wp_config_wins_over_every_other_marker() {
    for env_file in [false, true] {
        for artisan in [false, true] {
            for index_html in [false, true] {
                let r = detect_site_type("/srv/app", markers(true, env_file, artisan, index_html));
                assert_eq!(r.unwrap(), SiteType::Wordpress(WordPressSite));
            }
        }
    }
}

#[test]
fn laravel_wins_over_index_html() {
    let r = detect_site_type("/srv/app", markers(false, true, true, true));
    assert_eq!(r.unwrap(), SiteType::Laravel(LaravelSite));
}

#[test]
fn env_without_artisan_is_not_laravel() {
    let r = detect_site_type("/srv/app", markers(false, true, false, true));
    assert_eq!(r.unwrap(), SiteType::StaticHtml(StaticHtmlSite));
}

#[test]
fn no_marker_is_unknown_site_type() {
    match detect_site_type("/srv/app", markers(false, true, false, false)) {
        Err(AppError::UnknownSiteType(p)) => assert_eq!(p, "/srv/app"),
        other => panic!("unexpected {:?}", other),
    }
}

#[test]
fn config_files_by_site_type() {
    assert_eq!(SiteType::Wordpress(WordPressSite).config_file(), Some("public/wp-config.php"));
    assert_eq!(SiteType::Laravel(LaravelSite).config_file(), Some(".env"));
    assert_eq!(SiteType::StaticHtml(StaticHtmlSite).config_file(), None);
}

const WP_CONFIG: &str = "<?php\ndefine('DB_NAME', 'shop');\ndefine( 'DB_USER',   'shopper' );\ndefine('DB_PASSWORD', 's3cret');\n";

#[test]
fn wordpress_credentials_are_read() {
    let c = WordPressSite.get_database_credentials(WP_CONFIG).unwrap().unwrap();
    assert_eq!(c.database, "shop");
    assert_eq!(c.username, "shopper");
    assert_eq!(c.password, "s3cret");
}

#[test]
fn wordpress_missing_password_names_the_key() {
    let content = "define('DB_NAME', 'shop');\ndefine('DB_USER', 'shopper');\n";
    match WordPressSite.get_database_credentials(content) {
        Err(AppError::CredentialParseError(k)) => assert_eq!(k, "DB_PASSWORD"),
        other => panic!("unexpected {:?}", other),
    }
}

#[test]
fn wordpress_value_needs_single_quotes() {
    match extract_value("define(\"DB_NAME\", \"shop\");", "DB_NAME") {
        Err(AppError::CredentialParseError(k)) => assert_eq!(k, "DB_NAME"),
        other => panic!("unexpected {:?}", other),
    }
}

#[test]
fn refused_pattern_is_a_regex_error() {
    assert!(matches!(extract_value("anything", "DB_("), Err(AppError::RegexParseError(_))));
    assert!(matches!(extract_env_value("anything", "DB_("), Err(AppError::RegexParseError(_))));
}

#[test]
fn env_value_is_trimmed() {
    let v = extract_env_value("APP_NAME=x\nDB_DATABASE=shop_db  \n", "DB_DATABASE").unwrap();
    assert_eq!(v, "shop_db");
}

#[test]
fn laravel_credentials_are_read() {
    let content = "DB_USERNAME= admin\nDB_PASSWORD=pw\nDB_DATABASE=shop_db  \n";
    let c = SiteType::Laravel(LaravelSite).get_database_credentials(content).unwrap().unwrap();
    assert_eq!(c.username, "admin");
    assert_eq!(c.password, "pw");
    assert_eq!(c.database, "shop_db");
}

#[test]
fn laravel_missing_key_names_it() {
    match LaravelSite.get_database_credentials("DB_USERNAME=a\nDB_PASSWORD=b\n") {
        Err(AppError::CredentialParseError(k)) => assert_eq!(k, "DB_DATABASE"),
        other => panic!("unexpected {:?}", other),
    }
}

#[test]
fn static_site_has_no_credentials() {
    let r = SiteType::StaticHtml(StaticHtmlSite).get_database_credentials("DB_USERNAME=a");
    assert!(matches!(r, Ok(None)));
}

use forge_move::paths::{file_name, generate_output_path, join_path, output_path_on, CalendarDate};

fn date(year: i32, month: u32, day: u32) -> CalendarDate {
    CalendarDate { year, month, day }
}

#[test]
fn output_path_on_a_given_day() {
    let p = output_path_on("/srv/myapp", "/tmp/forge", "-db.sql.gz", &date(2024, 10, 15));
    assert_eq!(p.as_deref(), Some("/tmp/forge/2024-10-15/myapp-db.sql.gz"));
}

#[test]
fn output_path_with_trailing_separators() {
    let p = output_path_on("/srv/myapp/", "/tmp/forge/", "-files.tar.gz", &date(2024, 1, 5));
    assert_eq!(p.as_deref(), Some("/tmp/forge/2024-01-05/myapp-files.tar.gz"));
}

#[test]
fn output_path_needs_a_folder_name() {
    assert_eq!(output_path_on("/", "/tmp", "-db.sql.gz", &date(2024, 1, 5)), None);
    assert_eq!(output_path_on("/srv/..", "/tmp", "-db.sql.gz", &date(2024, 1, 5)), None);
}

#[test]
fn generated_path_is_dated() {
    let p = generate_output_path("/srv/myapp", "/tmp/forge", "-db.sql.gz").unwrap();
    assert!(p.starts_with("/tmp/forge/"));
    assert!(p.ends_with("/myapp-db.sql.gz"));
    let day = &p["/tmp/forge/".len()..p.len() - "/myapp-db.sql.gz".len()];
    assert_eq!(day.len(), 10);
    assert_eq!(&day[4..5], "-");
    assert_eq!(&day[7..8], "-");
    assert!(day.starts_with("20"));
    assert_eq!(generate_output_path("", "/tmp/forge", "-db.sql.gz"), None);
}

#[test]
fn file_names() {
    assert_eq!(file_name("/srv/myapp").as_deref(), Some("myapp"));
    assert_eq!(file_name("/srv/myapp//").as_deref(), Some("myapp"));
    assert_eq!(file_name("/srv/myapp/.").as_deref(), Some("myapp"));
    assert_eq!(file_name("myapp").as_deref(), Some("myapp"));
    assert_eq!(file_name("/srv/.hidden").as_deref(), Some(".hidden"));
    assert_eq!(file_name("/srv/..").as_deref(), None);
    assert_eq!(file_name(".").as_deref(), None);
    assert_eq!(file_name("/").as_deref(), None);
    assert_eq!(file_name("").as_deref(), None);
}

#[test]
fn joins() {
    assert_eq!(join_path("/tmp", "a"), "/tmp/a");
    assert_eq!(join_path("/tmp/", "a"), "/tmp/a");
    assert_eq!(join_path("", "a"), "a");
    assert_eq!(join_path("/tmp", "/etc"), "/etc");
}

#[test]
fn iso_dates() {
    assert_eq!(date(2024, 10, 15).to_iso_string(), "2024-10-15");
    assert_eq!(date(5, 1, 2).to_iso_string(), "0005-01-02");
    assert_eq!(date(12345, 12, 31).to_iso_string(), "+12345-12-31");
    assert_eq!(date(-1, 3, 4).to_iso_string(), "-0001-03-04");
}

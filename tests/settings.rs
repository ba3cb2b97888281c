use server_manager::config::{default_config, parse_config, render_config, SpringConfig};
use server_manager::locate::{find_artifact, locate_artifact};
use server_manager::text::{before_first, contains, ends_with, starts_with, trim};

#[test]
fn defaults() {
    let c = default_config();
    assert_eq!(c.host, "localhost:5432");
    assert_eq!(c.user, "postgres");
    assert_eq!(c.password, "password");
    assert_eq!(c.jar_path, "");
}

#[test]
fn rendered_file_reads_back() {
    let c = SpringConfig {
        host: "db.local:5433".to_string(),
        user: "admin".to_string(),
        password: "s3cret".to_string(),
        jar_path: String::new(),
    };
    let text = render_config(&c);
    assert_eq!(
        text,
        "spring:\n  datasource:\n    url: jdbc:postgresql://db.local:5433/students_db\n    username: admin\n    password: s3cret\nserver:\n  port: 8080\n"
    );
    let back = parse_config(&text);
    assert_eq!(back.host, "db.local:5433");
    assert_eq!(back.user, "admin");
    assert_eq!(back.password, "s3cret");
}

#[test]
fn crlf_lines_and_unknown_keys() {
    let text = "spring:\r\n  datasource:\r\n    url: jdbc:postgresql://h:1/db\r\n    username:  bob \r\nother: x\r\n";
    let c = parse_config(text);
    assert_eq!(c.host, "h:1");
    assert_eq!(c.user, "bob");
    assert_eq!(c.password, "password");
}

#[test]
fn url_without_jdbc_prefix_is_ignored() {
    let c = parse_config("url: 'jdbc:postgresql://h/db'\npassword: p");
    assert_eq!(c.host, "localhost:5432");
    assert_eq!(c.password, "p");
}

#[test]
fn empty_file_gives_defaults() {
    let c = parse_config("");
    assert_eq!(c.host, "localhost:5432");
    assert_eq!(c.user, "postgres");
}

#[test]
fn artifact_here_first() {
    let names = vec!["a.jar".to_string()];
    assert_eq!(locate_artifact(true, true, &names), Some("server.jar".to_string()));
    assert_eq!(locate_artifact(false, true, &names), Some("../server.jar".to_string()));
    assert_eq!(locate_artifact(false, false, &names), Some("../a.jar".to_string()));
}

#[test]
fn artifact_name_case_is_ignored() {
    let names = vec!["notes.txt".to_string(), "App.JAR".to_string(), "b.jar".to_string()];
    assert_eq!(find_artifact(&names), Some(1));
    assert_eq!(locate_artifact(false, false, &names), Some("../App.JAR".to_string()));
}

#[test]
fn no_artifact() {
    let names = vec!["jar".to_string(), "x.jar.txt".to_string()];
    assert_eq!(find_artifact(&names), None);
    assert_eq!(locate_artifact(false, false, &names), None);
}

#[test]
fn text_helpers() {
    assert!(contains("abcabd", "abd"));
    assert!(!contains("abcab", "abd"));
    assert!(contains("x", ""));
    assert!(starts_with("url: x", "url:"));
    assert!(!starts_with("ur", "url:"));
    assert!(ends_with("a.jar", ".jar"));
    assert!(!ends_with("a.jax", ".jar"));
    assert_eq!(trim("  a b \t\r"), "a b");
    assert_eq!(trim(" \n "), "");
    assert_eq!(before_first("h:1/db/x", "/"), "h:1");
    assert_eq!(before_first("nothing", "/"), "nothing");
}

#[test]
fn unicode_white_space_is_trimmed() {
    assert_eq!(trim("\u{3000}\u{a0}value\u{2003}"), "value");
    let c = parse_config("  username:\u{3000}anna\u{3000}\n");
    assert_eq!(c.user, "anna");
}

use hugo_server::config::{
    config_search_start, config_search_step, repo_dst_for_path, AlgoliaConfig, Config, ConfigSearch, HttpsConfig,
    HugoConfig, RepoPathError, ServerConfig,
};
use hugo_server::file_config;

fn config_with(url: &str, cert: &str, key: &str, path: &str) -> Config {
    Config::from_parts(
        ServerConfig { host: [127, 0, 0, 1], port: 8001 },
        HttpsConfig { cert_path: cert.to_string(), key_path: key.to_string() },
        HugoConfig { repo_url: url.to_string() },
        AlgoliaConfig {
            records_file_name: "algolia.json".to_string(),
            application_id: "APPID".to_string(),
            api_key: "KEY".to_string(),
            index_name: "blog".to_string(),
        },
        path.to_string(),
    )
}

#[test]
fn repo_dst_is_named_after_the_repository() {
    let c = config_with("https://github.com/user/blog.git", "c", "k", "/srv/.config.toml");
    assert_eq!(c.repo_dst("/srv").ok().unwrap(), "/srv/blog");
    assert_eq!(c.build_dst("/srv").ok().unwrap(), "/srv/blog/public");
    assert_eq!(
        c.algolia_records_file("/srv").ok().unwrap(),
        "/srv/blog/public/algolia.json"
    );
}

#[test]
fn every_git_suffix_is_trimmed() {
    let c = config_with("https://example.com/a/site.git.git", "c", "k", "/x");
    assert_eq!(c.repo_dst("/w").ok().unwrap(), "/w/site");
    let d = config_with("https://example.com/a/site", "c", "k", "/x");
    assert_eq!(d.repo_dst("/w").ok().unwrap(), "/w/site");
}

#[test]
fn a_url_without_path_gives_the_working_directory() {
    let c = config_with("https://example.com/", "c", "k", "/x");
    assert_eq!(c.repo_dst("/w").ok().unwrap(), "/w/");
}

#[test]
fn the_key_path_waits_for_the_certificate() {
    let mut c = config_with("https://e.com/s", "cert.pem", "key.pem", "/srv/.config.toml");
    c.canonicalize_cert_path();
    assert_eq!(c.https.cert_path, "/srv/cert.pem");
    assert_eq!(c.https.key_path, "key.pem");
}

#[test]
fn repo_dst_from_a_url_path() {
    assert_eq!(repo_dst_for_path("/user/notes.git", "/home/me").ok().unwrap(), "/home/me/notes");
    assert_eq!(repo_dst_for_path("/", "/home/me").ok().unwrap(), "/home/me/");
    assert!(matches!(
        repo_dst_for_path("text/plain,site", "/home/me"),
        Err(RepoPathError::CannotBeABase)
    ));
}

#[test]
fn urls_without_a_path_hierarchy_are_refused() {
    let c = config_with("data:text/plain,site", "c", "k", "/x");
    assert!(matches!(c.repo_dst("/w"), Err(RepoPathError::CannotBeABase)));
    assert!(matches!(c.build_dst("/w"), Err(RepoPathError::CannotBeABase)));
    let d = config_with("not a url", "c", "k", "/x");
    assert!(matches!(d.repo_dst("/w"), Err(RepoPathError::NotAUrl)));
}

#[test]
fn tls_paths_resolve_against_the_config_directory() {
    let mut c = config_with("https://e.com/s", "cert.pem", "/etc/tls/key.pem", "/srv/site/.config.toml");
    c.canonicalize_cert_path();
    assert_eq!(c.https.cert_path, "/srv/site/cert.pem");
    c.canonicalize_key_path();
    assert_eq!(c.https.key_path, "/etc/tls/key.pem");
    assert_eq!(c.config_path(), "/srv/site/.config.toml");
}

#[test]
fn file_server_tls_paths_resolve_too() {
    let mut c = file_config::Config::from_parts(
        file_config::ServerConfig {
            url: "https://files.example.com/".to_string(),
            host: [0, 0, 0, 0],
            port: 8443,
        },
        file_config::HttpsConfig {
            cert_path: "tls/cert.pem".to_string(),
            key_path: "tls/key.pem".to_string(),
        },
        "/opt/files/.file_server_config.toml".to_string(),
    );
    c.canonicalize_cert_path();
    assert_eq!(c.https.cert_path, "/opt/files/tls/cert.pem");
    assert_eq!(c.https.key_path, "tls/key.pem");
    c.canonicalize_key_path();
    assert_eq!(c.https.cert_path, "/opt/files/tls/cert.pem");
    assert_eq!(c.https.key_path, "/opt/files/tls/key.pem");
    assert_eq!(c.trusted_origin(), "https://files.example.com");
}

#[test]
fn the_search_climbs_to_the_root() {
    let s = config_search_start("/a/b", ".config.toml");
    let (dir, cand) = match s {
        ConfigSearch::Probe { dir, candidate } => (dir, candidate),
        _ => panic!("expected a probe"),
    };
    assert_eq!((dir.as_str(), cand.as_str()), ("/a/b", "/a/b/.config.toml"));
    let s = config_search_step(&dir, &cand, false, ".config.toml");
    let (dir, cand) = match s {
        ConfigSearch::Probe { dir, candidate } => (dir, candidate),
        _ => panic!("expected a probe"),
    };
    assert_eq!((dir.as_str(), cand.as_str()), ("/a", "/a/.config.toml"));
    let s = config_search_step(&dir, &cand, false, ".config.toml");
    let (dir, cand) = match s {
        ConfigSearch::Probe { dir, candidate } => (dir, candidate),
        _ => panic!("expected a probe"),
    };
    assert_eq!((dir.as_str(), cand.as_str()), ("/", "/.config.toml"));
    assert!(matches!(
        config_search_step(&dir, &cand, false, ".config.toml"),
        ConfigSearch::NotFound
    ));
}

#[test]
fn the_search_stops_at_the_first_file_found() {
    match config_search_step("/a", "/a/.config.toml", true, ".config.toml") {
        ConfigSearch::Found { path } => assert_eq!(path, "/a/.config.toml"),
        _ => panic!("expected the file to be found"),
    }
}

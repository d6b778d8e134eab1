use logfetcher::config::Config;
use logfetcher::config::GitlabConfig;
use logfetcher::config::DEFAULT_TOKEN;
use logfetcher::config::DEFAULT_URL;

#[test]
fn fresh_configuration_points_to_the_public_instance() {
    let config = Config::default();
    assert_eq!(config.gitlab.url, "https://gitlab.com");
    assert_eq!(config.gitlab.token, "Your token here");
    assert_eq!(DEFAULT_URL, "https://gitlab.com");
    assert_eq!(DEFAULT_TOKEN, "Your token here");
}

#[test]
fn fresh_configuration_has_no_token_yet() {
    assert!(Config::default().has_default_token());
}

#[test]
fn filled_in_token_is_told_from_the_fresh_one() {
    let config = Config {
        gitlab: GitlabConfig {
            url: "https://gitlab.example.com".to_string(),
            token: "t0ken".to_string(),
        },
    };
    assert!(!config.has_default_token());
    let blank = Config {
        gitlab: GitlabConfig { url: "https://gitlab.com".to_string(), token: String::new() },
    };
    assert!(!blank.has_default_token());
    let near = Config {
        gitlab: GitlabConfig {
            url: "https://gitlab.com".to_string(),
            token: "your token here".to_string(),
        },
    };
    assert!(!near.has_default_token());
}

#[test]
fn configuration_can_be_cloned() {
    let config = Config {
        gitlab: GitlabConfig { url: "u".to_string(), token: "t".to_string() },
    };
    let copy = config.clone();
    assert_eq!(copy.gitlab.url, "u");
    assert_eq!(copy.gitlab.token, "t");
    assert_eq!(config.gitlab.url, "u");
}

use bootstrap_monitor::config::{ArgError, BootstrapEnv};
use bootstrap_monitor::supervisor::NodeTarget;

fn nodes(values: &[&str]) -> Option<Vec<String>> {
    Some(values.iter().map(|v| v.to_string()).collect())
}

#[test]
fn arguments_are_read_and_urls_serialized() {
    let env = BootstrapEnv::from_args(
        Some("1000"),
        nodes(&["http://localhost:18732", "HTTP://Example.COM:80/a/../b", "https://node.io/x?y=1"]),
    );
    assert_eq!(
        env,
        Ok(BootstrapEnv {
            level: 1000,
            nodes: vec![
                "http://localhost:18732/".to_string(),
                "http://example.com/b".to_string(),
                "https://node.io/x?y=1".to_string(),
            ],
        })
    );
}

#[test]
fn level_may_be_negative_or_signed() {
    assert_eq!(
        BootstrapEnv::from_args(Some("-5"), nodes(&[])).map(|env| env.level),
        Ok(-5)
    );
    assert_eq!(
        BootstrapEnv::from_args(Some("+5"), nodes(&[])).map(|env| env.level),
        Ok(5)
    );
}

#[test]
fn no_nodes_argument_is_an_error() {
    assert_eq!(BootstrapEnv::from_args(Some("10"), None), Err(ArgError::NoNodes));
    assert_eq!(BootstrapEnv::from_args(None, None), Err(ArgError::NoNodes));
    assert_eq!(BootstrapEnv::from_args(Some("x"), None), Err(ArgError::NoNodes));
}

#[test]
fn nodes_argument_without_values_is_an_empty_run() {
    assert_eq!(
        BootstrapEnv::from_args(Some("10"), nodes(&[])),
        Ok(BootstrapEnv { level: 10, nodes: Vec::new() })
    );
}

#[test]
fn first_node_that_is_no_url_is_reported() {
    assert_eq!(
        BootstrapEnv::from_args(Some("10"), nodes(&["http://a/", "localhost", "", "http://b/"])),
        Err(ArgError::InvalidUrl { position: 1 })
    );
    assert_eq!(
        BootstrapEnv::from_args(Some("10"), nodes(&[""])),
        Err(ArgError::InvalidUrl { position: 0 })
    );
    assert_eq!(
        BootstrapEnv::from_args(Some("10"), nodes(&["/relative/path"])),
        Err(ArgError::InvalidUrl { position: 0 })
    );
}

#[test]
fn nodes_are_looked_at_before_the_level() {
    assert_eq!(
        BootstrapEnv::from_args(Some("ten"), nodes(&["http://a/", "nope"])),
        Err(ArgError::InvalidUrl { position: 1 })
    );
}

#[test]
fn level_that_is_no_i32_is_an_error() {
    for level in ["", "ten", "1.5", " 1", "2147483648", "-2147483649", "0x10"] {
        assert_eq!(
            BootstrapEnv::from_args(Some(level), nodes(&["http://a/"])),
            Err(ArgError::InvalidLevel),
            "level {:?}",
            level
        );
    }
}

#[test]
fn missing_level_is_an_error() {
    assert_eq!(BootstrapEnv::from_args(None, nodes(&["http://a/"])), Err(ArgError::InvalidLevel));
}

#[test]
fn one_target_for_each_node() {
    let env = BootstrapEnv {
        level: 7,
        nodes: vec!["http://a/".to_string(), "http://b/".to_string()],
    };
    assert_eq!(
        env.targets(),
        vec![
            NodeTarget { endpoint: "http://a/".to_string(), threshold: 7 },
            NodeTarget { endpoint: "http://b/".to_string(), threshold: 7 },
        ]
    );
    assert_eq!(BootstrapEnv { level: 7, nodes: Vec::new() }.targets(), Vec::new());
}

#[test]
fn targets_of_parsed_arguments_are_ready_to_probe() {
    let env = BootstrapEnv::from_args(Some("3"), nodes(&["http://localhost:18732"])).unwrap();
    let targets = env.targets();
    assert_eq!(targets.len(), 1);
    assert_eq!(targets[0].threshold, 3);
    assert_eq!(targets[0].status_url(), "http://localhost:18732/chains/main/blocks/head");
}

#[test]
fn messages_for_the_user() {
    assert_eq!(ArgError::NoNodes.message(), "No nodes provided in the --nodes arg");
    assert_eq!(
        ArgError::InvalidUrl { position: 3 }.message(),
        "Provided value cannot be converted into valid url"
    );
    assert_eq!(
        ArgError::InvalidLevel.message(),
        "Provided value cannot be converted into valid i32"
    );
}

fn read(values: &[Option<&str>]) -> Option<Vec<Option<String>>> {
    Some(values.iter().map(|v| v.map(|s| s.to_string())).collect())
}

#[test]
fn run_from_nodes_that_were_read() {
    assert_eq!(
        BootstrapEnv::from_parsed(Some("12"), read(&[Some("http://a/"), Some("http://b/")])),
        Ok(BootstrapEnv {
            level: 12,
            nodes: vec!["http://a/".to_string(), "http://b/".to_string()],
        })
    );
    assert_eq!(
        BootstrapEnv::from_parsed(Some("12"), read(&[])),
        Ok(BootstrapEnv { level: 12, nodes: Vec::new() })
    );
}

#[test]
fn run_from_nodes_that_were_read_reports_each_error() {
    assert_eq!(BootstrapEnv::from_parsed(Some("12"), None), Err(ArgError::NoNodes));
    assert_eq!(
        BootstrapEnv::from_parsed(Some("12"), read(&[Some("http://a/"), None, Some("x"), None])),
        Err(ArgError::InvalidUrl { position: 1 })
    );
    assert_eq!(
        BootstrapEnv::from_parsed(Some("x"), read(&[None])),
        Err(ArgError::InvalidUrl { position: 0 })
    );
    assert_eq!(
        BootstrapEnv::from_parsed(Some("x"), read(&[Some("http://a/")])),
        Err(ArgError::InvalidLevel)
    );
    assert_eq!(
        BootstrapEnv::from_parsed(None, read(&[Some("http://a/")])),
        Err(ArgError::InvalidLevel)
    );
}

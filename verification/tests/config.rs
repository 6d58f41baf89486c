use mdk::config::{
    get_or_create_config, ConfigAction, ConfigError, ConfigEvent, LoadPhase, MdkConfig, Profile,
    CONFIG_FILE_NAME, DEFAULT_HOSTNAME, DEFAULT_IMAGE, DEFAULT_PROFILE, ENDPOINT_SCHEME,
};

fn profile(image: &str, gpu: bool) -> Profile {
    Profile { image: image.to_string(), gpu }
}

fn sorted_names(config: &MdkConfig) -> Vec<String> {
    let mut names = config.profile_names();
    names.sort();
    names
}

#[test]
fn default_config_holds_the_ubuntu_profile() {
    let config = MdkConfig::default();
    assert_eq!(config.hostname(), "localhost:2375");
    assert_eq!(config.profile_names(), vec!["ubuntu".to_string()]);
    assert_eq!(config.get("ubuntu"), Some(&profile("ubuntu:latest", false)));
    assert!(config.contains("ubuntu"));
    assert!(!config.contains("debian"));
    assert_eq!(config.get("debian"), None);
}

#[test]
fn default_constants() {
    assert_eq!(DEFAULT_PROFILE, "ubuntu");
    assert_eq!(DEFAULT_IMAGE, "ubuntu:latest");
    assert_eq!(DEFAULT_HOSTNAME, "localhost:2375");
    assert_eq!(ENDPOINT_SCHEME, "http://");
    assert_eq!(CONFIG_FILE_NAME, ".mdk");
}

#[test]
fn endpoint_is_the_scheme_and_the_hostname() {
    assert_eq!(MdkConfig::default().endpoint(), "http://localhost:2375");
    assert_eq!(MdkConfig::new("10.0.0.7:4243".to_string()).endpoint(), "http://10.0.0.7:4243");
    assert_eq!(MdkConfig::new(String::new()).endpoint(), "http://");
}

#[test]
fn new_config_has_no_profiles() {
    let config = MdkConfig::new("host:1".to_string());
    assert_eq!(config.hostname(), "host:1");
    assert_eq!(config.profile_names(), Vec::<String>::new());
    assert_eq!(config.get("ubuntu"), None);
    assert!(!config.contains("ubuntu"));
    assert!(!config.contains(""));
}

#[test]
fn insert_adds_a_profile() {
    let mut config = MdkConfig::new("host:1".to_string());
    config.insert("cuda".to_string(), profile("nvidia/cuda:12", true));
    config.insert("alpine".to_string(), profile("alpine:3", false));
    assert_eq!(sorted_names(&config), vec!["alpine".to_string(), "cuda".to_string()]);
    assert_eq!(config.get("cuda"), Some(&profile("nvidia/cuda:12", true)));
    assert_eq!(config.get("alpine"), Some(&profile("alpine:3", false)));
    assert_eq!(config.get("Cuda"), None);
    assert_eq!(config.get("cud"), None);
    assert_eq!(config.hostname(), "host:1");
}

#[test]
fn insert_replaces_the_profile_of_the_same_name() {
    let mut config = MdkConfig::default();
    config.insert("other".to_string(), profile("debian:12", false));
    config.insert("ubuntu".to_string(), profile("ubuntu:24.04", true));
    assert_eq!(sorted_names(&config), vec!["other".to_string(), "ubuntu".to_string()]);
    assert_eq!(config.get("ubuntu"), Some(&profile("ubuntu:24.04", true)));
    assert_eq!(config.get("other"), Some(&profile("debian:12", false)));
    config.insert("other".to_string(), profile("debian:13", false));
    assert_eq!(config.profile_names().len(), 2);
    assert_eq!(config.get("other"), Some(&profile("debian:13", false)));
}

#[test]
fn a_profile_may_stand_under_the_empty_name() {
    let mut config = MdkConfig::new("h".to_string());
    config.insert(String::new(), profile("scratch", false));
    assert!(config.contains(""));
    assert_eq!(config.get(""), Some(&profile("scratch", false)));
}

#[test]
fn profile_clone_is_equal() {
    let original = profile("ubuntu:latest", true);
    assert_eq!(original.clone(), original);
}

#[test]
fn loader_begins_idle() {
    let loader = get_or_create_config();
    assert_eq!(loader.phase(), &LoadPhase::Idle);
}

#[test]
fn loader_reads_the_file_that_exists() {
    let mut loader = get_or_create_config();
    assert!(matches!(loader.step(ConfigEvent::Begin), Some(ConfigAction::FindHome)));
    assert_eq!(loader.phase(), &LoadPhase::FindingHome);
    assert!(matches!(loader.step(ConfigEvent::HomeFound), Some(ConfigAction::ProbeFile(".mdk"))));
    assert_eq!(loader.phase(), &LoadPhase::Probing);
    assert!(matches!(loader.step(ConfigEvent::FileExists), Some(ConfigAction::ReadFile)));
    assert_eq!(loader.phase(), &LoadPhase::Reading);
    match loader.step(ConfigEvent::FileRead("hostname: remote:2375\n".to_string())) {
        Some(ConfigAction::Parse(text)) => assert_eq!(text, "hostname: remote:2375\n"),
        other => panic!("unexpected answer: {:?}", other),
    }
    assert_eq!(loader.phase(), &LoadPhase::Parsing);
    let mut parsed = MdkConfig::new("remote:2375".to_string());
    parsed.insert("cuda".to_string(), profile("nvidia/cuda:12", true));
    match loader.step(ConfigEvent::Parsed(parsed)) {
        Some(ConfigAction::Finish(Ok(config))) => {
            assert_eq!(config.hostname(), "remote:2375");
            assert_eq!(config.profile_names(), vec!["cuda".to_string()]);
            assert_eq!(config.get("cuda"), Some(&profile("nvidia/cuda:12", true)));
        }
        other => panic!("unexpected answer: {:?}", other),
    }
    assert_eq!(loader.phase(), &LoadPhase::Loaded);
}

#[test]
fn loader_writes_the_default_where_no_file_exists() {
    let mut loader = get_or_create_config();
    loader.step(ConfigEvent::Begin);
    loader.step(ConfigEvent::HomeFound);
    match loader.step(ConfigEvent::FileMissing) {
        Some(ConfigAction::Render(config)) => {
            assert_eq!(config.hostname(), "localhost:2375");
            assert_eq!(config.profile_names(), vec!["ubuntu".to_string()]);
            assert_eq!(config.get("ubuntu"), Some(&profile("ubuntu:latest", false)));
        }
        other => panic!("unexpected answer: {:?}", other),
    }
    assert_eq!(loader.phase(), &LoadPhase::Rendering);
    match loader.step(ConfigEvent::Rendered("profiles: {}\n".to_string())) {
        Some(ConfigAction::WriteFile(text)) => assert_eq!(text, "profiles: {}\n"),
        other => panic!("unexpected answer: {:?}", other),
    }
    assert_eq!(loader.phase(), &LoadPhase::Writing);
    match loader.step(ConfigEvent::FileWritten) {
        Some(ConfigAction::Finish(Ok(config))) => {
            assert_eq!(config.hostname(), "localhost:2375");
            assert_eq!(config.profile_names(), vec!["ubuntu".to_string()]);
            assert_eq!(config.get("ubuntu"), Some(&profile("ubuntu:latest", false)));
        }
        other => panic!("unexpected answer: {:?}", other),
    }
    assert_eq!(loader.phase(), &LoadPhase::Created);
}

/// Feeds `events` after `Begin` and returns the error of the last answer.
fn load_error(events: Vec<ConfigEvent<MdkConfig>>) -> (ConfigError, LoadPhase, usize) {
    let mut loader = get_or_create_config();
    let mut last = loader.step(ConfigEvent::Begin);
    let mut answered = 1;
    for event in events {
        last = loader.step(event);
        assert!(last.is_some());
        answered += 1;
    }
    let phase = match loader.phase() {
        LoadPhase::Failed(error) => LoadPhase::Failed(error.duplicate()),
        other => panic!("the loader did not fail: {:?}", other),
    };
    match last {
        Some(ConfigAction::Finish(Err(error))) => (error, phase, answered),
        other => panic!("unexpected answer: {:?}", other),
    }
}

#[test]
fn loader_fails_without_a_home_directory() {
    let (error, phase, answered) = load_error(vec![ConfigEvent::HomeMissing]);
    assert_eq!(error, ConfigError::HomeNotFound);
    assert_eq!(phase, LoadPhase::Failed(ConfigError::HomeNotFound));
    assert_eq!(answered, 2);
}

#[test]
fn loader_fails_when_the_file_cannot_be_read() {
    let (error, phase, _) = load_error(vec![
        ConfigEvent::HomeFound,
        ConfigEvent::FileExists,
        ConfigEvent::ReadFailed("permission denied".to_string()),
    ]);
    assert_eq!(error, ConfigError::Read("permission denied".to_string()));
    assert_eq!(phase, LoadPhase::Failed(ConfigError::Read("permission denied".to_string())));
}

#[test]
fn loader_fails_when_the_file_holds_no_configuration() {
    let (error, _, _) = load_error(vec![
        ConfigEvent::HomeFound,
        ConfigEvent::FileExists,
        ConfigEvent::FileRead("][".to_string()),
        ConfigEvent::ParseFailed("did not find expected node".to_string()),
    ]);
    assert_eq!(error, ConfigError::Parse("did not find expected node".to_string()));
}

#[test]
fn loader_fails_when_the_default_cannot_be_rendered() {
    let (error, _, _) = load_error(vec![
        ConfigEvent::HomeFound,
        ConfigEvent::FileMissing,
        ConfigEvent::RenderFailed("out of memory".to_string()),
    ]);
    assert_eq!(error, ConfigError::Render("out of memory".to_string()));
}

#[test]
fn loader_fails_when_the_file_cannot_be_written() {
    let (error, _, _) = load_error(vec![
        ConfigEvent::HomeFound,
        ConfigEvent::FileMissing,
        ConfigEvent::Rendered("x".to_string()),
        ConfigEvent::WriteFailed("read-only file system".to_string()),
    ]);
    assert_eq!(error, ConfigError::Write("read-only file system".to_string()));
}

#[test]
fn loader_refuses_what_is_out_of_turn() {
    let mut loader = get_or_create_config();
    assert!(loader.step(ConfigEvent::HomeFound).is_none());
    assert!(loader.step(ConfigEvent::FileWritten).is_none());
    assert!(loader.step(ConfigEvent::Parsed(MdkConfig::default())).is_none());
    assert_eq!(loader.phase(), &LoadPhase::Idle);
    loader.step(ConfigEvent::Begin);
    loader.step(ConfigEvent::HomeFound);
    loader.step(ConfigEvent::FileExists);
    assert!(loader.step(ConfigEvent::FileMissing).is_none());
    assert!(loader.step(ConfigEvent::Rendered("x".to_string())).is_none());
    assert!(loader.step(ConfigEvent::FileWritten).is_none());
    assert_eq!(loader.phase(), &LoadPhase::Reading);
}

#[test]
fn loader_does_nothing_once_it_has_returned() {
    let mut loader = get_or_create_config();
    loader.step(ConfigEvent::Begin);
    loader.step(ConfigEvent::HomeMissing);
    assert!(loader.step(ConfigEvent::Begin).is_none());
    assert!(loader.step(ConfigEvent::HomeFound).is_none());
    assert_eq!(loader.phase(), &LoadPhase::Failed(ConfigError::HomeNotFound));
}

#[test]
fn config_error_duplicates_are_equal() {
    for error in [
        ConfigError::HomeNotFound,
        ConfigError::Read("a".to_string()),
        ConfigError::Parse("b".to_string()),
        ConfigError::Render("c".to_string()),
        ConfigError::Write("d".to_string()),
    ] {
        assert_eq!(error.duplicate(), error);
    }
}

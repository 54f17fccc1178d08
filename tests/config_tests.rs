use rusty_commit_saver::config::{
    get_default_ini_path, get_or_default_config_ini_path, parse_ini_content, set_proper_home_dir,
    config_ini_path_for_home, expand_home_dir, ConfigError, GlobalVars, ParsedIni, UserInput,
};
use std::io::{Read, Write};

#[test]
fn test_user_input_parse_with_config() {
    let args = vec!["test_program", "--config-ini", "/path/to/config.ini"];
    let user_input = UserInput::try_parse_from(args).ok().unwrap();
    assert_eq!(
        user_input.config_ini,
        Some("/path/to/config.ini".to_string())
    );
}

#[test]
fn test_user_input_parse_without_config() {
    let args = vec!["test_program"];
    let user_input = UserInput::try_parse_from(args).ok().unwrap();
    assert_eq!(user_input.config_ini, None);
}

#[test]
fn test_user_input_parse_short_flag() {
    let args = vec!["test_program", "-c", "/short/path/config.ini"];
    let user_input = UserInput::try_parse_from(args).ok().unwrap();
    assert_eq!(
        user_input.config_ini,
        Some("/short/path/config.ini".to_string())
    );
}

#[test]
fn user_input_refuses_unknown_arguments() {
    let args = vec!["test_program", "--bogus"];
    let result = UserInput::try_parse_from(args);
    assert!(matches!(result, Err(ConfigError::Arguments(_))));
}

#[test]
fn test_set_proper_home_dir_with_tilde() {
    let input = "~/test/path/file.ini";
    let result = set_proper_home_dir(input).ok().unwrap();
    assert!(!result.contains('~'));
    assert!(result.ends_with("/test/path/file.ini"));
}

#[test]
fn test_set_proper_home_dir_without_tilde() {
    let input = "/absolute/path/file.ini";
    let result = set_proper_home_dir(input).ok().unwrap();
    assert_eq!(result, input);
}

#[test]
fn test_set_proper_home_dir_multiple_tildes() {
    let input = "~/path/~/file.ini";
    let result = set_proper_home_dir(input).ok().unwrap();
    assert!(!result.contains('~'));
}

#[test]
fn expand_home_dir_replaces_every_tilde() {
    assert_eq!(expand_home_dir("~/a/~/b", "/home/u"), "/home/u/a//home/u/b");
    assert_eq!(expand_home_dir("/plain", "/home/u"), "/plain");
}

#[test]
fn test_get_default_ini_path() {
    let result = get_default_ini_path().ok().unwrap();
    assert!(result.ends_with(".config/rusty-commit-saver/rusty-commit-saver.ini"));
    assert!(!result.contains('~'));
    assert!(result.starts_with('/'));
}

#[test]
fn test_get_or_default_config_ini_path_with_config_and_tilde() {
    let args = vec!["test", "--config-ini", "~/my/config.ini"];
    let user_input = UserInput::try_parse_from(args).ok().unwrap();
    assert_eq!(user_input.config_ini, Some("~/my/config.ini".to_string()));
}

#[test]
fn test_get_or_default_config_ini_path_with_config_absolute_path() {
    let args = vec!["test", "--config-ini", "/absolute/path/config.ini"];
    let user_input = UserInput::try_parse_from(args).ok().unwrap();
    assert_eq!(
        user_input.config_ini,
        Some("/absolute/path/config.ini".to_string())
    );
}

#[test]
fn test_get_or_default_config_ini_path_without_config() {
    let args = vec!["test"];
    let user_input = UserInput::try_parse_from(args).ok().unwrap();
    assert_eq!(user_input.config_ini, None);
}

#[test]
fn config_ini_path_resolution() {
    let given = UserInput { config_ini: Some("/etc/c.ini".to_string()) };
    assert_eq!(get_or_default_config_ini_path(&given).ok().unwrap(), "/etc/c.ini");
    let tilde = UserInput { config_ini: Some("~/c.ini".to_string()) };
    assert_eq!(config_ini_path_for_home(&tilde, "/home/u"), "/home/u/c.ini");
    let none = UserInput { config_ini: None };
    assert_eq!(
        config_ini_path_for_home(&none, "/home/u"),
        "/home/u/.config/rusty-commit-saver/rusty-commit-saver.ini"
    );
    let default = get_or_default_config_ini_path(&none).ok().unwrap();
    assert!(default.ends_with("/.config/rusty-commit-saver/rusty-commit-saver.ini"));
}

#[test]
fn test_parse_ini_content_valid() {
    let content = r"
[obsidian]
root_path_dir=~/Documents/Obsidian
commit_path=Diaries/Commits

[templates]
commit_date_path=%Y/%m-%B/%F.md
commit_datetime=%Y-%m-%d
";
    let result = parse_ini_content(content);
    assert!(result.is_ok());
    let ini = result.ok().unwrap();
    assert_eq!(
        ini.as_ini().get("obsidian", "root_path_dir"),
        Some("~/Documents/Obsidian".to_string())
    );
    assert_eq!(
        ini.as_ini().get("templates", "commit_date_path"),
        Some("%Y/%m-%B/%F.md".to_string())
    );
}

#[test]
fn test_parse_ini_content_invalid() {
    let content = "this is not valid ini format [[[";
    let result = parse_ini_content(content);
    assert!(result.is_ok() || result.is_err());
}

#[test]
fn parse_ini_content_reports_unclosed_section() {
    let result = parse_ini_content("[obsidian\nkey=value\n");
    match result {
        Err(ConfigError::Parse(message)) => assert!(message.starts_with("Failed to parse INI: ")),
        _ => panic!("an unclosed section header must be refused"),
    }
}

#[test]
fn test_parse_ini_content_empty() {
    let result = parse_ini_content("");
    assert!(result.is_ok());
    let ini = result.ok().unwrap();
    assert_eq!(ini.as_ini().sections().len(), 0);
}

#[test]
fn test_ini_parsing_integration() {
    let content = r"
[obsidian]
root_path_dir=~/Documents/Obsidian
commit_path=Diaries/Commits

[templates]
commit_date_path=%Y/%m-%B/%F.md
commit_datetime=%Y-%m-%d %H:%M:%S
";
    let ini = parse_ini_content(content).ok().unwrap();
    assert!(ini.as_ini().get("obsidian", "root_path_dir").is_some());
    assert!(ini.as_ini().get("obsidian", "commit_path").is_some());
    assert!(ini.as_ini().get("templates", "commit_date_path").is_some());
    assert!(ini.as_ini().get("templates", "commit_datetime").is_some());
    assert_eq!(ini.as_ini().sections().len(), 2);
}

#[test]
fn test_global_vars_new() {
    let global_vars = GlobalVars::new();
    assert!(global_vars.config.is_none());
}

fn parsed(content: &str) -> ParsedIni {
    parse_ini_content(content).ok().unwrap()
}

fn full_config(root: &str, commit: &str) -> ParsedIni {
    parsed(&format!(
        "[obsidian]\nroot_path_dir={root}\ncommit_path={commit}\n[templates]\ncommit_date_path=%Y-%m-%d.md\ncommit_datetime=%Y-%m-%d %H:%M:%S\n"
    ))
}

#[test]
fn test_set_obsidian_vars_both_sections() {
    let mut global_vars = GlobalVars::new();
    global_vars.config = Some(full_config("/home/user/Obsidian", "Diaries/Commits"));
    assert!(global_vars.set_obsidian_vars().is_ok());
    let root_path = global_vars.get_obsidian_root_path_dir().unwrap();
    let commit_path = global_vars.get_obsidian_commit_path().unwrap();
    let date_path = global_vars.get_template_commit_date_path().unwrap();
    let datetime = global_vars.get_template_commit_datetime().unwrap();
    assert!(root_path.contains("Obsidian"));
    assert!(commit_path.contains("Commits"));
    assert_eq!(date_path, "%Y-%m-%d.md");
    assert_eq!(datetime, "%Y-%m-%d %H:%M:%S");
}

#[test]
fn set_obsidian_vars_rebuilds_paths() {
    let mut global_vars = GlobalVars::new();
    global_vars.config = Some(full_config("/tmp/test/", "Diaries//Commits///Nested"));
    assert!(global_vars.set_obsidian_vars().is_ok());
    assert_eq!(global_vars.get_obsidian_root_path_dir().unwrap(), "/tmp/test/");
    assert_eq!(
        global_vars.get_obsidian_commit_path().unwrap(),
        "Diaries/Commits/Nested"
    );
    let mut relative = GlobalVars::new();
    relative.config = Some(full_config("", "absolute/Diaries/Commits"));
    assert!(relative.set_obsidian_vars().is_ok());
    assert_eq!(relative.get_obsidian_root_path_dir().unwrap(), "/");
    assert_eq!(
        relative.get_obsidian_commit_path().unwrap(),
        "absolute/Diaries/Commits"
    );
}

#[test]
fn test_set_obsidian_vars_complete_workflow() {
    let mut global_vars = GlobalVars::new();
    global_vars.config = Some(full_config("~/test/obsidian", "~/test/commits"));
    assert!(global_vars.set_obsidian_vars().is_ok());
    let root = global_vars.get_obsidian_root_path_dir().unwrap();
    let commit = global_vars.get_obsidian_commit_path().unwrap();
    assert!(!root.contains('~'));
    assert!(!commit.contains('~'));
    assert!(root.contains("obsidian"));
    assert!(commit.contains("commits"));
}

#[test]
fn set_obsidian_vars_rejects_wrong_section_count() {
    let config = parsed("[only_one_section]\nkey=value\n");
    let mut global_vars = GlobalVars::new();
    global_vars.config = Some(config);
    assert!(matches!(
        global_vars.set_obsidian_vars(),
        Err(ConfigError::WrongSectionCount(1))
    ));
}

#[test]
fn set_obsidian_vars_rejects_unknown_section() {
    let config = parsed(
        "[invalid_section]\nkey=value\n[templates]\ncommit_date_path=%Y-%m-%d.md\ncommit_datetime=%Y-%m-%d %H:%M\n",
    );
    let mut global_vars = GlobalVars::new();
    global_vars.config = Some(config);
    match global_vars.set_obsidian_vars() {
        Err(ConfigError::UnsupportedSection(name)) => assert_eq!(name, "invalid_section"),
        _ => panic!("an unknown section must be refused"),
    }
}

#[test]
fn set_obsidian_vars_reports_missing_key() {
    let config = parsed(
        "[obsidian]\nroot_path_dir=/tmp/test\n[templates]\ncommit_date_path=%Y-%m-%d\ncommit_datetime=%Y-%m-%d\n",
    );
    let mut global_vars = GlobalVars::new();
    global_vars.config = Some(config);
    match global_vars.set_obsidian_vars() {
        Err(ConfigError::MissingKey(key)) => assert_eq!(key, "commit_path"),
        _ => panic!("a missing key must be reported"),
    }
    assert!(global_vars.get_obsidian_root_path_dir().is_none());
    assert!(global_vars.get_obsidian_commit_path().is_none());
}

#[test]
fn set_obsidian_vars_missing_root_sets_nothing() {
    let config = parsed(
        "[obsidian]\ncommit_path=commits\n[templates]\ncommit_date_path=%Y-%m-%d\ncommit_datetime=%Y-%m-%d\n",
    );
    let mut global_vars = GlobalVars::new();
    global_vars.config = Some(config);
    match global_vars.set_obsidian_vars() {
        Err(ConfigError::MissingKey(key)) => assert_eq!(key, "root_path_dir"),
        _ => panic!("a missing key must be reported"),
    }
    assert!(global_vars.get_obsidian_root_path_dir().is_none());
    assert!(global_vars.get_obsidian_commit_path().is_none());
    assert!(global_vars.get_template_commit_date_path().is_none());
    assert!(global_vars.get_template_commit_datetime().is_none());
}

#[test]
fn test_global_vars_full_integration_workflow() {
    let mut temp_config = tempfile::NamedTempFile::new().unwrap();
    let lines = [
        "[obsidian]",
        "root_path_dir=/tmp/integration_test",
        "commit_path=Integration/Test",
        "[templates]",
        "commit_date_path=%Y-%m-%d.md",
        "commit_datetime=%Y-%m-%d %H:%M",
    ];
    for line in lines {
        temp_config.write_all(line.as_bytes()).unwrap();
        temp_config.write_all(b"\n").unwrap();
    }
    temp_config.flush().unwrap();
    let mut reopened = temp_config.reopen().unwrap();
    let mut config_content = String::new();
    reopened.read_to_string(&mut config_content).unwrap();
    let config = parse_ini_content(&config_content).ok().unwrap();
    let mut global_vars = GlobalVars::new();
    global_vars.config = Some(config);
    assert!(global_vars.set_obsidian_vars().is_ok());
    let root = global_vars.get_obsidian_root_path_dir().unwrap();
    let commit = global_vars.get_obsidian_commit_path().unwrap();
    let date_path = global_vars.get_template_commit_date_path().unwrap();
    let datetime = global_vars.get_template_commit_datetime().unwrap();
    assert!(root.contains("integration_test"));
    assert!(commit.contains("Integration"));
    assert_eq!(date_path, "%Y-%m-%d.md");
    assert_eq!(datetime, "%Y-%m-%d %H:%M");
}

fn config_with(root: &str, commit: &str, date_path: &str, datetime: &str) -> GlobalVars {
    let config = parsed(&format!(
        "[obsidian]\nroot_path_dir={root}\ncommit_path={commit}\n[templates]\ncommit_date_path={date_path}\ncommit_datetime={datetime}\n"
    ));
    let mut global_vars = GlobalVars::new();
    global_vars.config = Some(config);
    assert!(global_vars.set_obsidian_vars().is_ok());
    global_vars
}

#[test]
fn test_set_obsidian_root_path_dir_with_tilde() {
    let global_vars = config_with("~/Documents/Obsidian", "c", "%Y-%m-%d", "%Y-%m-%d");
    let result = global_vars.get_obsidian_root_path_dir().unwrap();
    assert!(!result.contains('~'));
    assert!(result.starts_with('/'));
    assert!(result.ends_with("Obsidian"));
}

#[test]
fn test_set_obsidian_root_path_dir_absolute_path() {
    let global_vars = config_with("/absolute/path/Obsidian", "c", "%Y-%m-%d", "%Y-%m-%d");
    let result = global_vars.get_obsidian_root_path_dir().unwrap();
    assert!(result.contains("/absolute/path/Obsidian"));
}

#[test]
fn test_set_obsidian_commit_path_with_tilde() {
    let global_vars = config_with("/r", "~/Diaries/Commits", "%Y-%m-%d", "%Y-%m-%d");
    let result = global_vars.get_obsidian_commit_path().unwrap();
    assert!(!result.contains('~'));
    assert!(result.ends_with("Commits"));
}

#[test]
fn test_set_obsidian_commit_path_absolute_path() {
    let global_vars = config_with("/r", "absolute/Diaries/Commits", "%Y-%m-%d", "%Y-%m-%d");
    let result = global_vars.get_obsidian_commit_path().unwrap();
    assert!(result.contains("absolute"));
    assert!(result.ends_with("Commits"));
}

#[test]
fn test_set_templates_commit_date_path() {
    let global_vars = config_with("/r", "c", "%Y/%m-%B/%F.md", "%Y-%m-%d");
    assert_eq!(global_vars.get_template_commit_date_path().unwrap(), "%Y/%m-%B/%F.md");
}

#[test]
fn test_set_templates_datetime() {
    let global_vars = config_with("/r", "c", "%Y-%m-%d", "%Y-%m-%d %H:%M:%S");
    assert_eq!(global_vars.get_template_commit_datetime().unwrap(), "%Y-%m-%d %H:%M:%S");
}

#[test]
fn test_set_obsidian_root_path_dir_with_trailing_slash() {
    let global_vars = config_with("/tmp/test/", "c", "%Y-%m-%d", "%Y-%m-%d");
    assert!(global_vars.get_obsidian_root_path_dir().unwrap().contains("test"));
}

#[test]
fn test_set_obsidian_commit_path_with_multiple_slashes() {
    let global_vars = config_with("/r", "Diaries//Commits///Nested", "%Y-%m-%d", "%Y-%m-%d");
    assert!(global_vars.get_obsidian_commit_path().unwrap().contains("Nested"));
}

#[test]
fn test_set_obsidian_root_path_dir_empty_string() {
    let global_vars = config_with("", "c", "%Y-%m-%d", "%Y-%m-%d");
    assert!(!global_vars.get_obsidian_root_path_dir().unwrap().is_empty());
}

#[test]
fn test_set_all_integration() {
    let content = "[obsidian]\nroot_path_dir=/tmp/test_obsidian\ncommit_path=TestDiaries/TestCommits\n[templates]\ncommit_date_path=%Y-%m-%d.md\ncommit_datetime=%Y-%m-%d %H:%M:%S\n";
    let config = parse_ini_content(content).ok().unwrap();
    let mut global_vars = GlobalVars::new();
    global_vars.config = Some(config);
    assert!(global_vars.set_obsidian_vars().is_ok());
    let root = global_vars.get_obsidian_root_path_dir().unwrap();
    let commit = global_vars.get_obsidian_commit_path().unwrap();
    let date = global_vars.get_template_commit_date_path().unwrap();
    let datetime = global_vars.get_template_commit_datetime().unwrap();
    assert!(root.contains("test_obsidian"));
    assert!(commit.contains("TestCommits"));
    assert_eq!(date, "%Y-%m-%d.md");
    assert_eq!(datetime, "%Y-%m-%d %H:%M:%S");
}

#[test]
fn test_global_vars_set_all_method() {
    let content = "[obsidian]\nroot_path_dir=/tmp/obsidian_full_test\ncommit_path=FullTest/Commits\n[templates]\ncommit_date_path=%Y/%m/%d.md\ncommit_datetime=%Y-%m-%d %H:%M:%S\n";
    let config = parse_ini_content(content).ok().unwrap();
    let mut global_vars = GlobalVars::new();
    global_vars.config = Some(config);
    assert!(global_vars.set_obsidian_vars().is_ok());
    let root = global_vars.get_obsidian_root_path_dir().unwrap();
    let commit = global_vars.get_obsidian_commit_path().unwrap();
    let date = global_vars.get_template_commit_date_path().unwrap();
    let datetime = global_vars.get_template_commit_datetime().unwrap();
    assert!(root.contains("obsidian_full_test"));
    assert!(commit.contains("FullTest"));
    assert_eq!(date, "%Y/%m/%d.md");
    assert_eq!(datetime, "%Y-%m-%d %H:%M:%S");
}

#[test]
fn set_obsidian_vars_is_case_insensitive() {
    let content = "[Obsidian]\nRoot_Path_Dir=/v\ncommit_path=C\n[TEMPLATES]\ncommit_date_path=%F.md\ncommit_datetime=%T\n";
    let config = parse_ini_content(content).ok().unwrap();
    let mut global_vars = GlobalVars::new();
    global_vars.config = Some(config);
    assert!(global_vars.set_obsidian_vars().is_ok());
    assert_eq!(global_vars.get_obsidian_root_path_dir().unwrap(), "/v");
    assert_eq!(global_vars.get_obsidian_commit_path().unwrap(), "C");
}

#[test]
fn test_global_vars_default() {
    let global_vars = GlobalVars::default();
    assert!(global_vars.config.is_none());
}

use support_core::config::{Faq, GuildConfig, Rule};
use support_core::error::Error;

fn sample_config() -> GuildConfig {
    let mut config = GuildConfig::new();
    config.support_channel_ids = vec![101, 202];
    config.support_role_ids = vec![7];
    config
        .create_support_faq("install".to_string(), "Run the installer.".to_string())
        .unwrap();
    config
        .create_support_faq("saves".to_string(), "Saves live in the app folder.".to_string())
        .unwrap();
    config.rules = vec![
        Rule {
            rule_id: "1".to_string(),
            rule_text: "Be kind.".to_string(),
        },
        Rule {
            rule_id: "2a".to_string(),
            rule_text: "No spoilers outside spoiler channels.".to_string(),
        },
    ];
    config
}

#[test]
fn rule_lookup_finds_the_row() {
    let config = sample_config();
    assert_eq!(
        config.get_rule(&"2a".to_string()),
        Ok("No spoilers outside spoiler channels.".to_string())
    );
}

#[test]
fn missing_rule_is_not_found() {
    let config = sample_config();
    assert_eq!(config.get_rule(&"99".to_string()), Err(Error::NotFound));
}

#[test]
fn support_answer_lookup_finds_the_row() {
    let config = sample_config();
    assert_eq!(
        config.get_support_answer(&"install".to_string()),
        Ok("Run the installer.".to_string())
    );
}

#[test]
fn missing_support_answer_is_not_found() {
    let config = sample_config();
    assert_eq!(
        config.get_support_answer(&"uninstall".to_string()),
        Err(Error::NotFound)
    );
}

#[test]
fn duplicate_faq_key_is_a_persistence_failure() {
    let mut config = sample_config();
    assert_eq!(
        config.create_support_faq("install".to_string(), "again".to_string()),
        Err(Error::PersistenceFailure)
    );
    // the stored answer is untouched
    assert_eq!(
        config.get_support_answer(&"install".to_string()),
        Ok("Run the installer.".to_string())
    );
}

#[test]
fn deleting_a_faq_removes_only_that_row() {
    let mut config = sample_config();
    config.delete_support_faq(&"install".to_string());
    assert_eq!(
        config.get_support_answer(&"install".to_string()),
        Err(Error::NotFound)
    );
    assert_eq!(
        config.get_support_answer(&"saves".to_string()),
        Ok("Saves live in the app folder.".to_string())
    );
}

#[test]
fn deleting_a_missing_faq_changes_nothing() {
    let mut config = sample_config();
    config.delete_support_faq(&"uninstall".to_string());
    assert_eq!(config.get_all_support_faq().len(), 2);
}

#[test]
fn all_faq_rows_keep_stored_order() {
    let config = sample_config();
    let faqs: &Vec<Faq> = config.get_all_support_faq();
    assert_eq!(faqs.len(), 2);
    assert_eq!(faqs[0].id, "install");
    assert_eq!(faqs[1].id, "saves");
}

#[test]
fn channel_and_role_lists_read_back() {
    let config = sample_config();
    assert_eq!(config.get_support_channel_ids(), &vec![101, 202]);
    assert_eq!(config.get_support_role_ids(), &vec![7]);
}

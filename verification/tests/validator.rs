use actix_web_middleware_cognito::keyset::TokenUse;
use actix_web_middleware_cognito::validator::{
    CognitoValidator, ConfigError, Validation, ValidatorConfig, ValueExtractor, CLIENT_ID_KEY,
    ENABLED_KEY, POOL_ID_KEY, REGION_KEY, VERIFY_ACCESS_TOKEN_KEY,
};

const ISSUER: &str = "https://cognito-idp.eu-west-1.amazonaws.com/pool-1";
const NOW: u64 = 1_700_000_000;

#[derive(Default)]
struct MockEnabledExtractor {}
impl ValueExtractor for MockEnabledExtractor {
    fn var(&self, key: &'static str) -> Option<String> {
        if key == "COGNITO_ENABLED" {
            Some("1".to_owned())
        } else {
            None
        }
    }
}

struct NothingConfigured;
impl ValueExtractor for NothingConfigured {
    fn var(&self, _key: &'static str) -> Option<String> {
        None
    }
}

struct Pool {
    enabled: &'static str,
    access: Option<&'static str>,
}
impl ValueExtractor for Pool {
    fn var(&self, key: &'static str) -> Option<String> {
        match key {
            "COGNITO_REGION" => Some("eu-west-1".to_string()),
            "COGNITO_POOLID" => Some("pool-1".to_string()),
            "COGNITO_CLIENTID" => Some("client-1".to_string()),
            "COGNITO_ENABLED" => Some(self.enabled.to_string()),
            "COGNITO_VERIFY_ACCESSTOKEN" => self.access.map(|value| value.to_string()),
            _ => None,
        }
    }
}

fn text(value: &str) -> Option<String> {
    Some(value.to_string())
}

fn claims(json: &str) -> serde_json::Value {
    serde_json::from_str(json).unwrap()
}

fn accepts(validator: &CognitoValidator, json: &str) -> bool {
    match validator.validation() {
        Validation::Verify { verifier, .. } => {
            verifier.verify_claims_only(&claims(json), NOW).is_ok()
        }
        Validation::Decided(_) => panic!("the validator is not enabled"),
    }
}

#[test]
fn validator_create_will_not_break_if_no_env_vars_found() {
    let validator = CognitoValidator::create_with_extractor(NothingConfigured);
    assert!(validator.is_ok());
    assert!(validator.unwrap().disabled);
}

#[test]
fn validator_create_with_no_env_vars_is_disabled() {
    let validator = CognitoValidator::create_with_extractor(NothingConfigured);
    assert!(validator.unwrap().disabled);
}

#[test]
fn validator_is_enabled_when_var_is_enabled() {
    let validator =
        CognitoValidator::create_with_extractor(MockEnabledExtractor::default()).unwrap();
    assert!(!validator.disabled);
}

#[test]
fn validate_returns_false_if_token_is_wrong() {
    let validator =
        CognitoValidator::create_with_extractor(MockEnabledExtractor::default()).unwrap();

    let result = match validator.validation() {
        Validation::Decided(valid) => valid,
        Validation::Verify { keyset, verifier } => keyset.try_verify("token", verifier).is_ok(),
    };

    assert!(!result);
}

#[test]
fn validate_returns_true_if_disabled() {
    let validator = CognitoValidator {
        keyset: None,
        verifier: None,
        disabled: true,
    };

    let result = validator.validation();

    assert!(matches!(result, Validation::Decided(true)));
}

#[test]
fn validate_returns_false_if_enabled_and_no_keyset_verifier() {
    let validator = CognitoValidator {
        keyset: None,
        verifier: None,
        disabled: false,
    };

    let result = validator.validation();

    assert!(matches!(result, Validation::Decided(false)));
}

#[test]
fn validation_is_refused_when_only_one_of_the_two_is_there() {
    let keyset = jsonwebtokens_cognito::KeySet::new("eu-west-1", "pool-1").unwrap();
    let verifier = keyset.new_id_token_verifier(&["client-1"]).build().unwrap();

    let without_verifier = CognitoValidator {
        keyset: Some(keyset),
        verifier: None,
        disabled: false,
    };
    assert!(matches!(without_verifier.validation(), Validation::Decided(false)));

    let without_keyset = CognitoValidator {
        keyset: None,
        verifier: Some(verifier),
        disabled: false,
    };
    assert!(matches!(without_keyset.validation(), Validation::Decided(false)));
}

#[test]
fn enabled_validator_hands_out_its_key_set_and_verifier() {
    let validator = CognitoValidator::create_with_extractor(Pool {
        enabled: "1",
        access: None,
    })
    .unwrap();

    assert!(matches!(validator.validation(), Validation::Verify { .. }));
}

#[test]
fn bypass_is_disabled_and_holds_nothing() {
    let validator = CognitoValidator::bypass();

    assert!(validator.disabled);
    assert!(validator.keyset.is_none());
    assert!(validator.verifier.is_none());
    assert!(matches!(validator.validation(), Validation::Decided(true)));
}

#[test]
fn settings_are_read_under_their_keys() {
    assert_eq!(REGION_KEY, "COGNITO_REGION");
    assert_eq!(POOL_ID_KEY, "COGNITO_POOLID");
    assert_eq!(CLIENT_ID_KEY, "COGNITO_CLIENTID");
    assert_eq!(ENABLED_KEY, "COGNITO_ENABLED");
    assert_eq!(VERIFY_ACCESS_TOKEN_KEY, "COGNITO_VERIFY_ACCESSTOKEN");

    let config = ValidatorConfig::read(&Pool {
        enabled: "yes",
        access: Some("0"),
    });

    assert_eq!(config.region, "eu-west-1");
    assert_eq!(config.pool_id, "pool-1");
    assert_eq!(config.client_id, "client-1");
    assert!(config.enabled);
    assert!(!config.verify_access_token);
}

#[test]
fn missing_settings_are_empty_and_off() {
    let config = ValidatorConfig::from_values(None, None, None, None, None);

    assert_eq!(config.region, "");
    assert_eq!(config.pool_id, "");
    assert_eq!(config.client_id, "");
    assert!(!config.enabled);
    assert!(!config.verify_access_token);
    assert_eq!(config.token_use(), TokenUse::Id);
}

#[test]
fn switch_is_on_with_any_value_but_zero() {
    for (value, expected) in [
        ("1", true),
        ("0", false),
        ("", true),
        ("00", true),
        ("false", true),
        (" 0", true),
        ("true", true),
    ] {
        let config = ValidatorConfig::from_values(None, None, None, text(value), text(value));
        assert_eq!(config.enabled, expected);
        assert_eq!(config.verify_access_token, expected);
    }
}

#[test]
fn access_switch_selects_the_kind_of_token() {
    let id = ValidatorConfig::from_values(None, None, None, text("1"), text("0"));
    assert_eq!(id.token_use(), TokenUse::Id);

    let access = ValidatorConfig::from_values(None, None, None, text("1"), text("1"));
    assert_eq!(access.token_use(), TokenUse::Access);
}

#[test]
fn disabled_configuration_makes_nothing() {
    let config = ValidatorConfig::from_values(
        text("eu-west-1"),
        text("pool-1"),
        text("client-1"),
        text("0"),
        text("1"),
    );

    let validator = CognitoValidator::from_config(&config).unwrap();

    assert!(validator.disabled);
    assert!(validator.keyset.is_none());
    assert!(validator.verifier.is_none());
}

#[test]
fn key_set_is_made_for_the_configured_pool() {
    let validator = CognitoValidator::create_with_extractor(Pool {
        enabled: "1",
        access: None,
    })
    .unwrap();

    let shown = format!("{:?}", validator.keyset.unwrap());

    assert!(shown.contains(&format!("iss: \"{}\"", ISSUER)));
    assert!(shown.contains(&format!(
        "jwks_url: \"{}/.well-known/jwks.json\"",
        ISSUER
    )));
}

#[test]
fn identity_token_verifier_requires_issuer_audience_and_use() {
    let validator = CognitoValidator::create_with_extractor(Pool {
        enabled: "1",
        access: None,
    })
    .unwrap();

    assert!(accepts(
        &validator,
        r#"{"iss":"https://cognito-idp.eu-west-1.amazonaws.com/pool-1","aud":"client-1","token_use":"id","sub":"user-123","exp":1700000001}"#
    ));
    assert!(!accepts(
        &validator,
        r#"{"iss":"https://cognito-idp.eu-west-1.amazonaws.com/pool-2","aud":"client-1","token_use":"id","exp":1700000001}"#
    ));
    assert!(!accepts(
        &validator,
        r#"{"iss":"https://cognito-idp.eu-west-1.amazonaws.com/pool-1","aud":"client-2","token_use":"id","exp":1700000001}"#
    ));
    assert!(!accepts(
        &validator,
        r#"{"iss":"https://cognito-idp.eu-west-1.amazonaws.com/pool-1","aud":"client-1","token_use":"access","exp":1700000001}"#
    ));
    assert!(!accepts(
        &validator,
        r#"{"iss":"https://cognito-idp.eu-west-1.amazonaws.com/pool-1","client_id":"client-1","token_use":"id","exp":1700000001}"#
    ));
    assert!(!accepts(
        &validator,
        r#"{"aud":"client-1","token_use":"id","exp":1700000001}"#
    ));
}

#[test]
fn access_token_verifier_requires_issuer_client_and_use() {
    let validator = CognitoValidator::create_with_extractor(Pool {
        enabled: "1",
        access: Some("1"),
    })
    .unwrap();

    assert!(accepts(
        &validator,
        r#"{"iss":"https://cognito-idp.eu-west-1.amazonaws.com/pool-1","client_id":"client-1","token_use":"access","exp":1700000001}"#
    ));
    assert!(!accepts(
        &validator,
        r#"{"iss":"https://cognito-idp.eu-west-1.amazonaws.com/pool-1","client_id":"client-2","token_use":"access","exp":1700000001}"#
    ));
    assert!(!accepts(
        &validator,
        r#"{"iss":"https://cognito-idp.eu-west-1.amazonaws.com/pool-1","aud":"client-1","token_use":"access","exp":1700000001}"#
    ));
    assert!(!accepts(
        &validator,
        r#"{"iss":"https://cognito-idp.eu-west-1.amazonaws.com/pool-1","client_id":"client-1","token_use":"id","exp":1700000001}"#
    ));
}

#[test]
fn verifier_rejects_tokens_at_and_after_their_expiry() {
    let validator = CognitoValidator::create_with_extractor(Pool {
        enabled: "1",
        access: None,
    })
    .unwrap();

    assert!(accepts(
        &validator,
        r#"{"iss":"https://cognito-idp.eu-west-1.amazonaws.com/pool-1","aud":"client-1","token_use":"id","exp":1700000001}"#
    ));
    assert!(!accepts(
        &validator,
        r#"{"iss":"https://cognito-idp.eu-west-1.amazonaws.com/pool-1","aud":"client-1","token_use":"id","exp":1700000000}"#
    ));
    assert!(!accepts(
        &validator,
        r#"{"iss":"https://cognito-idp.eu-west-1.amazonaws.com/pool-1","aud":"client-1","token_use":"id","exp":1699999999}"#
    ));
    assert!(!accepts(
        &validator,
        r#"{"iss":"https://cognito-idp.eu-west-1.amazonaws.com/pool-1","aud":"client-1","token_use":"id","exp":1700000001,"nbf":1700000001}"#
    ));
}

#[test]
fn failed_key_set_is_reported_as_such() {
    let made = CognitoValidator::key_set_made(Err(jsonwebtokens_cognito::Error::NoKeyID()));

    assert!(matches!(
        made,
        Err(ConfigError::KeySet(jsonwebtokens_cognito::Error::NoKeyID()))
    ));
}

#[test]
fn made_key_set_is_kept() {
    let keyset = jsonwebtokens_cognito::KeySet::new("eu-west-1", "pool-1").unwrap();

    let made = CognitoValidator::key_set_made(Ok(keyset));

    assert!(format!("{:?}", made.unwrap()).contains(ISSUER));
}

#[test]
fn failed_verifier_is_reported_as_such() {
    let keyset = jsonwebtokens_cognito::KeySet::new("eu-west-1", "pool-1").unwrap();

    let result = CognitoValidator::verifier_built(
        keyset,
        Err(jsonwebtokens::error::Error::AlgorithmMismatch()),
    );

    assert!(matches!(
        result,
        Err(ConfigError::Verifier(
            jsonwebtokens::error::Error::AlgorithmMismatch()
        ))
    ));
}

#[test]
fn built_verifier_makes_an_enabled_validator() {
    let keyset = jsonwebtokens_cognito::KeySet::new("eu-west-1", "pool-1").unwrap();
    let built = keyset.new_id_token_verifier(&["client-1"]).build();

    let validator = CognitoValidator::verifier_built(keyset, built).unwrap();

    assert!(!validator.disabled);
    assert!(format!("{:?}", validator.keyset.as_ref().unwrap()).contains(ISSUER));
    assert!(matches!(validator.validation(), Validation::Verify { .. }));
}

//! The validator: made once from the configuration, shared by all requests.

use crate::extractor::InfoView;
use crate::gate::{lemma_disabled_gate_admits, EventView, StateView};
use crate::keyset::{
    access_token_builder, build_verifier, id_token_builder, issuer, key_set_address,
    key_set_can_be_made, keyset_address, keyset_issuer, new_key_set, required_claims,
    strict_times, verifier_can_be_built, verifier_claims, verifier_times, TokenUse,
};
use vstd::prelude::*;

verus! {

/// The key under which the region of the user pool is configured.
pub const REGION_KEY: &'static str = "COGNITO_REGION";

/// The key under which the id of the user pool is configured.
pub const POOL_ID_KEY: &'static str = "COGNITO_POOLID";

/// The key under which the client id of the application is configured.
pub const CLIENT_ID_KEY: &'static str = "COGNITO_CLIENTID";

/// The key that switches validation on.
pub const ENABLED_KEY: &'static str = "COGNITO_ENABLED";

/// The key that switches from identity tokens to access tokens.
pub const VERIFY_ACCESS_TOKEN_KEY: &'static str = "COGNITO_VERIFY_ACCESSTOKEN";

/// Extracts a value by key
pub trait ValueExtractor {
    /// Whether a lookup of `key` may give `value`. A source whose values
    /// never change allows one value for each key; one that reads its
    /// surroundings anew each time may allow many. A source that does not
    /// say allows every value, and so promises nothing.
    open spec fn finds(&self, key: Seq<char>, value: Option<Seq<char>>) -> bool {
        true
    }

    /// The value configured under `key`, if there is one.
    fn var(&self, key: &'static str) -> (value: Option<String>)
        ensures
            self.finds(key@, value.deep_view()),
    ;
}

/// What a validator is made from.
#[derive(Debug, Clone)]
pub struct ValidatorConfig {
    /// The region of the Cognito pool.
    pub region: String,
    /// The Cognito pool id.
    pub pool_id: String,
    /// The client id of the application.
    pub client_id: String,
    /// Whether tokens are validated at all.
    pub enabled: bool,
    /// Whether access tokens are validated in place of identity tokens.
    pub verify_access_token: bool,
}

/// A [`ValidatorConfig`] as plain values.
pub struct ConfigView {
    pub region: Seq<char>,
    pub pool_id: Seq<char>,
    pub client_id: Seq<char>,
    pub enabled: bool,
    pub verify_access_token: bool,
}

impl View for ValidatorConfig {
    type V = ConfigView;

    open spec fn view(&self) -> ConfigView {
        ConfigView {
            region: self.region@,
            pool_id: self.pool_id@,
            client_id: self.client_id@,
            enabled: self.enabled,
            verify_access_token: self.verify_access_token,
        }
    }
}

impl ConfigView {
    /// A text setting: the value found, or the empty text.
    pub open spec fn text(value: Option<Seq<char>>) -> Seq<char> {
        match value {
            Some(text) => text,
            None => Seq::empty(),
        }
    }

    /// A switch: on where a value is found that is not `0`, off otherwise.
    pub open spec fn flag(value: Option<Seq<char>>) -> bool {
        match value {
            Some(text) => text != "0"@,
            None => false,
        }
    }

    /// The configuration that five settings amount to.
    pub open spec fn from_values(
        region: Option<Seq<char>>,
        pool_id: Option<Seq<char>>,
        client_id: Option<Seq<char>>,
        enabled: Option<Seq<char>>,
        verify_access_token: Option<Seq<char>>,
    ) -> ConfigView {
        ConfigView {
            region: Self::text(region),
            pool_id: Self::text(pool_id),
            client_id: Self::text(client_id),
            enabled: Self::flag(enabled),
            verify_access_token: Self::flag(verify_access_token),
        }
    }

    /// The configuration is what five lookups in `extractor`, one under each
    /// key, amount to.
    pub open spec fn read_from<E: ValueExtractor>(extractor: E, config: ConfigView) -> bool {
        exists|
            region: Option<Seq<char>>,
            pool_id: Option<Seq<char>>,
            client_id: Option<Seq<char>>,
            enabled: Option<Seq<char>>,
            verify_access_token: Option<Seq<char>>,
        |
            {
                &&& extractor.finds(REGION_KEY@, region)
                &&& extractor.finds(POOL_ID_KEY@, pool_id)
                &&& extractor.finds(CLIENT_ID_KEY@, client_id)
                &&& extractor.finds(ENABLED_KEY@, enabled)
                &&& extractor.finds(VERIFY_ACCESS_TOKEN_KEY@, verify_access_token)
                &&& config == #[trigger] Self::from_values(
                    region,
                    pool_id,
                    client_id,
                    enabled,
                    verify_access_token,
                )
            }
    }

    /// The kind of token that is validated.
    pub open spec fn token_use(self) -> TokenUse {
        if self.verify_access_token {
            TokenUse::Access
        } else {
            TokenUse::Id
        }
    }

    /// The claims that a token must hold to be valid under this
    /// configuration.
    pub open spec fn claims(self) -> Map<Seq<char>, Set<Seq<char>>> {
        required_claims(issuer(self.region, self.pool_id), self.token_use(), self.client_id)
    }

    /// What making a validator for this configuration ends in: nothing, where
    /// it succeeds, and otherwise the first step that fails.
    pub open spec fn failure(self) -> Option<Failure> {
        if !self.enabled {
            None
        } else if !key_set_can_be_made(self.region, self.pool_id) {
            Some(Failure::KeySet)
        } else if !verifier_can_be_built(self.claims(), strict_times()) {
            Some(Failure::Verifier)
        } else {
            None
        }
    }
}

/// The step at which making a validator fails.
pub enum Failure {
    /// Making the key set.
    KeySet,
    /// Building the verifier.
    Verifier,
}

fn text_setting(value: Option<String>) -> (text: String)
    ensures
        text@ == ConfigView::text(value.deep_view()),
{
    match value {
        Some(text) => text,
        None => String::new(),
    }
}

fn flag_setting(value: Option<String>) -> (on: bool)
    ensures
        on == ConfigView::flag(value.deep_view()),
{
    match value {
        Some(text) => {
            let off = "0".to_owned();
            !(text == off)
        },
        None => false,
    }
}

impl ValidatorConfig {
    /// The configuration that five settings amount to, each given as the
    /// value found for it, if any. A missing text is empty, a missing switch
    /// is off, and a switch is on with any value but `0`.
    pub fn from_values(
        region: Option<String>,
        pool_id: Option<String>,
        client_id: Option<String>,
        enabled: Option<String>,
        verify_access_token: Option<String>,
    ) -> (config: Self)
        ensures
            config@ == ConfigView::from_values(
                region.deep_view(),
                pool_id.deep_view(),
                client_id.deep_view(),
                enabled.deep_view(),
                verify_access_token.deep_view(),
            ),
    {
        Self {
            region: text_setting(region),
            pool_id: text_setting(pool_id),
            client_id: text_setting(client_id),
            enabled: flag_setting(enabled),
            verify_access_token: flag_setting(verify_access_token),
        }
    }

    /// Reads the five settings from `extractor`, each under its key, and
    /// returns the configuration they amount to.
    pub fn read<E: ValueExtractor>(extractor: &E) -> (config: Self)
        ensures
            ConfigView::read_from(*extractor, config@),
    {
        let region = extractor.var(REGION_KEY);
        let pool_id = extractor.var(POOL_ID_KEY);
        let client_id = extractor.var(CLIENT_ID_KEY);
        let enabled = extractor.var(ENABLED_KEY);
        let verify_access_token = extractor.var(VERIFY_ACCESS_TOKEN_KEY);
        Self::from_values(region, pool_id, client_id, enabled, verify_access_token)
    }

    /// The kind of token that is validated.
    pub fn token_use(&self) -> (token_use: TokenUse)
        ensures
            token_use == self@.token_use(),
    {
        if self.verify_access_token {
            TokenUse::Access
        } else {
            TokenUse::Id
        }
    }
}

/// Why no validator could be made from a configuration that enables
/// validation.
#[derive(Debug)]
pub enum ConfigError {
    /// No key set could be made for the region and pool.
    KeySet(jsonwebtokens_cognito::Error),
    /// No verifier could be built for the client.
    Verifier(jsonwebtokens::error::Error),
}

impl ConfigError {
    /// The step that failed.
    pub open spec fn step(self) -> Failure {
        match self {
            ConfigError::KeySet(_) => Failure::KeySet,
            ConfigError::Verifier(_) => Failure::Verifier,
        }
    }
}

/// Helper to validate the Cognito token.
pub struct CognitoValidator {
    /// The key set that tokens are verified with, where validation is
    /// enabled.
    pub keyset: Option<jsonwebtokens_cognito::KeySet>,
    /// The verifier that tokens are verified by, where validation is enabled.
    pub verifier: Option<jsonwebtokens::Verifier>,
    /// Whether validation is switched off, so that every request passes.
    pub disabled: bool,
}

/// What it takes to validate a credential.
pub enum Validation<'a> {
    /// The answer is known without looking at the credential.
    Decided(bool),
    /// The credential is valid if and only if this verifier accepts it with
    /// a key of this key set.
    Verify { keyset: &'a jsonwebtokens_cognito::KeySet, verifier: &'a jsonwebtokens::Verifier },
}

impl CognitoValidator {
    /// A disabled validator holds neither key set nor verifier, an enabled
    /// one holds both.
    pub open spec fn wf(&self) -> bool {
        if self.disabled {
            self.keyset is None && self.verifier is None
        } else {
            self.keyset is Some && self.verifier is Some
        }
    }

    /// The validator is the one that `config` asks for: disabled where
    /// validation is not enabled; otherwise with the key set of the
    /// configured pool in the configured region, and a verifier that requires
    /// tokens of the configured kind, issued by that pool to the configured
    /// client, and that checks their times to the second.
    pub open spec fn made_for(&self, config: ConfigView) -> bool {
        &&& self.wf()
        &&& self.disabled == !config.enabled
        &&& config.enabled ==> {
            &&& keyset_issuer(self.keyset->Some_0) == issuer(config.region, config.pool_id)
            &&& keyset_address(self.keyset->Some_0) == key_set_address(
                config.region,
                config.pool_id,
            )
            &&& verifier_claims(self.verifier->Some_0) == config.claims()
            &&& verifier_times(self.verifier->Some_0) == strict_times()
        }
    }

    /// What validating a credential comes to: accepted where the validator
    /// is disabled, refused where it is enabled but lacks its key set or its
    /// verifier, and otherwise a matter for the two.
    pub open spec fn validation_of(&self) -> Validation<'_> {
        if self.disabled {
            Validation::Decided(true)
        } else {
            match (self.keyset, self.verifier) {
                (Some(keyset), Some(verifier)) => Validation::Verify {
                    keyset: &keyset,
                    verifier: &verifier,
                },
                _ => Validation::Decided(false),
            }
        }
    }

    /// The validator that accepts every credential.
    pub fn bypass() -> (validator: Self)
        ensures
            validator.disabled,
            validator.wf(),
    {
        Self { keyset: None, verifier: None, disabled: true }
    }

    /// What becomes of an attempt to make the key set: the key set itself, or
    /// the error to report.
    pub fn key_set_made(
        made: Result<jsonwebtokens_cognito::KeySet, jsonwebtokens_cognito::Error>,
    ) -> (result: Result<jsonwebtokens_cognito::KeySet, ConfigError>)
        ensures
            result == match made {
                Ok(keyset) => Ok::<jsonwebtokens_cognito::KeySet, ConfigError>(keyset),
                Err(error) => Err(ConfigError::KeySet(error)),
            },
    {
        match made {
            Ok(keyset) => Ok(keyset),
            Err(error) => Err(ConfigError::KeySet(error)),
        }
    }

    /// What becomes of an attempt to build the verifier for a key set: the
    /// enabled validator that holds both, or the error to report.
    pub fn verifier_built(
        keyset: jsonwebtokens_cognito::KeySet,
        built: Result<jsonwebtokens::Verifier, jsonwebtokens::error::Error>,
    ) -> (result: Result<Self, ConfigError>)
        ensures
            match built {
                Ok(verifier) => result matches Ok(validator) && !validator.disabled
                    && validator.keyset == Some(keyset) && validator.verifier == Some(
                    verifier,
                ),
                Err(error) => result matches Err(ConfigError::Verifier(found)) && found == error,
            },
    {
        match built {
            Ok(verifier) => Ok(Self { keyset: Some(keyset), verifier: Some(verifier), disabled: false }),
            Err(error) => Err(ConfigError::Verifier(error)),
        }
    }

    /// Creates the validator that a configuration asks for.
    ///
    /// Without validation enabled this cannot fail, and nothing is made but
    /// the validator. With it, the key set is made first and then the
    /// verifier; the first of the two that fails is the error.
    pub fn from_config(config: &ValidatorConfig) -> (result: Result<Self, ConfigError>)
        ensures
            match result {
                Ok(validator) => config@.failure() is None && validator.made_for(config@),
                Err(error) => config@.failure() == Some(error.step()),
            },
    {
        if config.enabled {
            let made = new_key_set(config.region.clone(), config.pool_id.clone());
            match Self::key_set_made(made) {
                Err(error) => Err(error),
                Ok(keyset) => {
                    let builder = match config.token_use() {
                        TokenUse::Access => access_token_builder(&keyset, config.client_id.as_str()),
                        TokenUse::Id => id_token_builder(&keyset, config.client_id.as_str()),
                    };
                    let built = build_verifier(&builder);
                    Self::verifier_built(keyset, built)
                },
            }
        } else {
            Ok(Self::bypass())
        }
    }

    /// Creates a CognitoValidator instance.
    /// It can fail when building the token verifiers.
    /// It accepts a custom extractor to get the values needed in order to be configured.
    pub fn create_with_extractor<E: ValueExtractor>(extractor: E) -> (result: Result<
        Self,
        ConfigError,
    >)
        ensures
            exists|config: ConfigView|
                {
                    &&& #[trigger] ConfigView::read_from(extractor, config)
                    &&& match result {
                        Ok(validator) => config.failure() is None && validator.made_for(config),
                        Err(error) => config.failure() == Some(error.step()),
                    }
                },
    {
        let config = ValidatorConfig::read(&extractor);
        Self::from_config(&config)
    }

    /// Says what validating a credential takes, without doing it.
    pub fn validation(&self) -> (validation: Validation<'_>)
        ensures
            validation == self.validation_of(),
    {
        if self.disabled {
            Validation::Decided(true)
        } else {
            match (&self.keyset, &self.verifier) {
                (Some(keyset), Some(verifier)) => Validation::Verify { keyset, verifier },
                _ => Validation::Decided(false),
            }
        }
    }
}

/// Where validation is not enabled in the configuration, the validator made
/// for it accepts every credential without looking at it, and a gate opened
/// with it admits every request, whatever the host reports, with an identity
/// that names no user and no token.
pub proof fn lemma_disabled_configuration_admits(
    validator: CognitoValidator,
    config: ConfigView,
    events: Seq<EventView>,
)
    requires
        validator.made_for(config),
        !config.enabled,
    ensures
        validator.validation_of() == Validation::Decided(true),
        StateView::open(validator.disabled).run(events) == (StateView::Admitted {
            info: InfoView { user: None, token: None },
        }),
{
    lemma_disabled_gate_admits(events);
}

} // verus!

//! The translation services the application can be pointed at, and the
//! per-service configuration record.
//!
//! The pipeline itself never calls a translation service; it only hands
//! captured text on. These types exist so that settings can say which
//! service the consumer uses and with what configuration.

use vstd::prelude::*;

verus! {

/// The available translation services.
#[derive(Clone, Copy, Debug, PartialEq, Eq, Hash, Structural)]
pub enum TranslationService {
    /// The free endpoint.
    GoogleBeta,
    /// The official API, which requires a key.
    GoogleOfficial,
    /// The open-source alternative.
    LibreTranslate,
    /// The Microsoft translator.
    Bing,
    /// The DeepL API.
    DeepL,
}

/// The configuration-lookup name of a service.
pub open spec fn spec_config_name(s: TranslationService) -> Seq<char> {
    match s {
        TranslationService::GoogleBeta => "GoogleBeta"@,
        TranslationService::GoogleOfficial => "GoogleOfficial"@,
        TranslationService::LibreTranslate => "LibreTranslate"@,
        TranslationService::Bing => "Bing"@,
        TranslationService::DeepL => "DeepL"@,
    }
}

impl TranslationService {
    /// The name under which the service's configuration is stored.
    pub fn config_name(&self) -> (r: &'static str)
        ensures
            r@ == spec_config_name(*self),
    {
        match self {
            TranslationService::GoogleBeta => "GoogleBeta",
            TranslationService::GoogleOfficial => "GoogleOfficial",
            TranslationService::LibreTranslate => "LibreTranslate",
            TranslationService::Bing => "Bing",
            TranslationService::DeepL => "DeepL",
        }
    }

    /// All services, in the order they are offered.
    pub fn all_services() -> (r: Vec<TranslationService>)
        ensures
            r@ == seq![
                TranslationService::GoogleBeta,
                TranslationService::GoogleOfficial,
                TranslationService::LibreTranslate,
                TranslationService::Bing,
                TranslationService::DeepL,
            ],
    {
        let mut v: Vec<TranslationService> = Vec::new();
        v.push(TranslationService::GoogleBeta);
        v.push(TranslationService::GoogleOfficial);
        v.push(TranslationService::LibreTranslate);
        v.push(TranslationService::Bing);
        v.push(TranslationService::DeepL);
        assert(v@ =~= seq![
            TranslationService::GoogleBeta,
            TranslationService::GoogleOfficial,
            TranslationService::LibreTranslate,
            TranslationService::Bing,
            TranslationService::DeepL,
        ]);
        v
    }
}

/// Configuration of one translation service.
#[derive(Debug)]
pub struct ServiceConfig {
    /// The API key, where the service needs one.
    pub api_key: Option<String>,
    /// The endpoint, where the service is self-hosted or regional.
    pub endpoint: Option<String>,
    /// The request timeout, in seconds.
    pub timeout_seconds: Option<u64>,
}

impl Clone for ServiceConfig {
    /// A clone is equal to the original.
    fn clone(&self) -> (r: Self)
        ensures
            r == *self,
    {
        ServiceConfig {
            api_key: match &self.api_key {
                Some(k) => Some(k.clone()),
                None => None,
            },
            endpoint: match &self.endpoint {
                Some(e) => Some(e.clone()),
                None => None,
            },
            timeout_seconds: self.timeout_seconds,
        }
    }
}

impl Default for ServiceConfig {
    /// The default configuration: no key, no endpoint, a five-second
    /// timeout.
    fn default() -> (r: Self)
        ensures
            r.api_key is None,
            r.endpoint is None,
            r.timeout_seconds == Some(5u64),
    {
        ServiceConfig { api_key: None, endpoint: None, timeout_seconds: Some(5) }
    }
}

} // verus!

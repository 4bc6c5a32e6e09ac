//! Observability configuration derived from environment variables.
//!
//! Four variables are consulted: `MISC_SENTRY_URL`, `CHAIN_ETH_NETWORK`,
//! `CHAIN_ETH_ZKSYNC_NETWORK` and `MISC_LOG_FORMAT`. Their historical,
//! deliberately quirky interpretation (the `"unset"` sentinel, the
//! all-or-nothing environment label, the default log format) is kept
//! exactly, so existing deployments behave as they always have.

use vstd::prelude::*;
use vstd::string::StringExecFns;

verus! {

/// A snapshot of the environment variables the derivation reads.
///
/// Each field holds the value of one variable, or `None` where it is
/// unset. The caller takes the snapshot (typically from the process
/// environment) and hands it in, so the derivation is a pure function
/// that can be run on any environment, real or synthetic.
pub struct EnvSnapshot {
    /// Value of `MISC_SENTRY_URL`.
    pub misc_sentry_url: Option<String>,
    /// Value of `CHAIN_ETH_NETWORK`.
    pub chain_eth_network: Option<String>,
    /// Value of `CHAIN_ETH_ZKSYNC_NETWORK`.
    pub chain_eth_zksync_network: Option<String>,
    /// Value of `MISC_LOG_FORMAT`.
    pub misc_log_format: Option<String>,
}

/// Mathematical view of an `EnvSnapshot`: each variable as an optional
/// sequence of characters.
pub struct EnvSnapshotView {
    pub misc_sentry_url: Option<Seq<char>>,
    pub chain_eth_network: Option<Seq<char>>,
    pub chain_eth_zksync_network: Option<Seq<char>>,
    pub misc_log_format: Option<Seq<char>>,
}

impl View for EnvSnapshot {
    type V = EnvSnapshotView;

    open spec fn view(&self) -> EnvSnapshotView {
        EnvSnapshotView {
            misc_sentry_url: self.misc_sentry_url.deep_view(),
            chain_eth_network: self.chain_eth_network.deep_view(),
            chain_eth_zksync_network: self.chain_eth_zksync_network.deep_view(),
            misc_log_format: self.misc_log_format.deep_view(),
        }
    }
}

/// The derived configuration: log output format, error-reporting
/// endpoint and error-reporting environment label.
#[derive(Debug, Clone, PartialEq, Eq)]
pub struct ObservabilityConfig {
    /// Error-reporting endpoint; `None` means reporting is disabled.
    pub sentry_url: Option<String>,
    /// Label identifying the deployment (layer-1 and layer-2 network
    /// names joined with `" - "`); `None` means untagged.
    pub sentry_environment: Option<String>,
    /// Log output format: always `"plain"` or `"json"`.
    pub log_format: String,
}

/// Mathematical view of an `ObservabilityConfig`.
pub struct ObservabilityConfigView {
    pub sentry_url: Option<Seq<char>>,
    pub sentry_environment: Option<Seq<char>>,
    pub log_format: Seq<char>,
}

impl View for ObservabilityConfig {
    type V = ObservabilityConfigView;

    open spec fn view(&self) -> ObservabilityConfigView {
        ObservabilityConfigView {
            sentry_url: self.sentry_url.deep_view(),
            sentry_environment: self.sentry_environment.deep_view(),
            log_format: self.log_format@,
        }
    }
}

/// The one way the derivation can fail.
#[derive(Debug, Clone, PartialEq, Eq)]
pub enum ConfigError {
    /// `MISC_LOG_FORMAT` was set to something other than `"plain"` or
    /// `"json"`; the variant carries the offending value.
    UnexpectedLogFormat(String),
}

/// What `sentry_url` is derived to: `None` when the variable is unset or
/// holds the legacy opt-out sentinel `"unset"`, otherwise the value
/// verbatim.
pub open spec fn spec_sentry_url(raw: Option<Seq<char>>) -> Option<Seq<char>> {
    match raw {
        Option::None => Option::None,
        Option::Some(s) => if s == "unset"@ {
            Option::None
        } else {
            Option::Some(s)
        },
    }
}

/// What `sentry_environment` is derived to: the two network names joined
/// with `" - "` when both are present, and `None` otherwise — no partial
/// label is ever produced.
pub open spec fn spec_sentry_environment(
    l1: Option<Seq<char>>,
    l2: Option<Seq<char>>,
) -> Option<Seq<char>> {
    match (l1, l2) {
        (Option::Some(a), Option::Some(b)) => Option::Some(a + " - "@ + b),
        _ => Option::None,
    }
}

/// What `log_format` is derived to: `"plain"` when the variable is
/// unset, the value itself when it is one of the two recognized
/// literals, and otherwise an error carrying the offending value.
pub open spec fn spec_log_format(raw: Option<Seq<char>>) -> Result<Seq<char>, Seq<char>> {
    match raw {
        Option::None => Result::Ok("plain"@),
        Option::Some(s) => if s == "plain"@ || s == "json"@ {
            Result::Ok(s)
        } else {
            Result::Err(s)
        },
    }
}

/// The whole derivation: an invalid log format fails the load outright;
/// otherwise the three fields are derived independently, each from its
/// own variables.
pub open spec fn spec_load(env: EnvSnapshotView) -> Result<ObservabilityConfigView, Seq<char>> {
    match spec_log_format(env.misc_log_format) {
        Result::Err(s) => Result::Err(s),
        Result::Ok(f) => Result::Ok(
            ObservabilityConfigView {
                sentry_url: spec_sentry_url(env.misc_sentry_url),
                sentry_environment: spec_sentry_environment(
                    env.chain_eth_network,
                    env.chain_eth_zksync_network,
                ),
                log_format: f,
            },
        ),
    }
}

/// Derives the error-reporting endpoint from `MISC_SENTRY_URL`.
pub fn derive_sentry_url(raw: &Option<String>) -> (r: Option<String>)
    ensures
        r.deep_view() == spec_sentry_url(raw.deep_view()),
{
    match raw {
        Option::None => Option::None,
        Option::Some(s) => {
            let unset = String::from_str("unset");
            if *s == unset {
                Option::None
            } else {
                Option::Some(s.clone())
            }
        },
    }
}

/// Derives the deployment label from `CHAIN_ETH_NETWORK` and
/// `CHAIN_ETH_ZKSYNC_NETWORK`.
pub fn derive_sentry_environment(l1: &Option<String>, l2: &Option<String>) -> (r: Option<String>)
    ensures
        r.deep_view() == spec_sentry_environment(l1.deep_view(), l2.deep_view()),
{
    match (l1, l2) {
        (Option::Some(a), Option::Some(b)) => {
            let mut label = a.clone();
            label.append(" - ");
            label.append(b.as_str());
            Option::Some(label)
        },
        _ => Option::None,
    }
}

/// Derives the log format from `MISC_LOG_FORMAT`, failing on any value
/// other than the two recognized literals.
pub fn derive_log_format(raw: &Option<String>) -> (r: Result<String, ConfigError>)
    ensures
        r is Ok <==> spec_log_format(raw.deep_view()) is Ok,
        r matches Ok(f) ==> spec_log_format(raw.deep_view()) == Result::<Seq<char>, Seq<char>>::Ok(f@),
        r matches Err(ConfigError::UnexpectedLogFormat(v)) ==> spec_log_format(raw.deep_view())
            == Result::<Seq<char>, Seq<char>>::Err(v@),
{
    match raw {
        Option::None => Result::Ok(String::from_str("plain")),
        Option::Some(s) => {
            let plain = String::from_str("plain");
            let json = String::from_str("json");
            if *s == plain || *s == json {
                Result::Ok(s.clone())
            } else {
                Result::Err(ConfigError::UnexpectedLogFormat(s.clone()))
            }
        },
    }
}

impl ObservabilityConfig {
    /// Builds the configuration from a snapshot of the environment.
    ///
    /// Succeeds exactly when `MISC_LOG_FORMAT` is unset or one of
    /// `"plain"` and `"json"`; on failure the error carries the
    /// offending value. On success each field is exactly what the
    /// derivation rules give for its own variables.
    pub fn load(env: &EnvSnapshot) -> (r: Result<ObservabilityConfig, ConfigError>)
        ensures
            r is Ok <==> spec_load(env@) is Ok,
            r matches Ok(c) ==> spec_load(env@)
                == Result::<ObservabilityConfigView, Seq<char>>::Ok(c@),
            r matches Err(ConfigError::UnexpectedLogFormat(v)) ==> spec_load(env@)
                == Result::<ObservabilityConfigView, Seq<char>>::Err(v@),
    {
        let log_format = match derive_log_format(&env.misc_log_format) {
            Result::Ok(f) => f,
            Result::Err(e) => {
                return Result::Err(e);
            },
        };
        let sentry_url = derive_sentry_url(&env.misc_sentry_url);
        let sentry_environment = derive_sentry_environment(
            &env.chain_eth_network,
            &env.chain_eth_zksync_network,
        );
        Result::Ok(ObservabilityConfig { sentry_url, sentry_environment, log_format })
    }
}

impl ConfigError {
    /// A diagnostic message that includes the offending value.
    pub fn message(&self) -> (r: String)
        ensures
            self matches ConfigError::UnexpectedLogFormat(v) ==> r@
                == "MISC_LOG_FORMAT has an unexpected value "@ + v@,
    {
        match self {
            ConfigError::UnexpectedLogFormat(v) => {
                let mut m = String::from_str("MISC_LOG_FORMAT has an unexpected value ");
                m.append(v.as_str());
                m
            },
        }
    }
}

/// When every variable is absent the load succeeds, with log format
/// `"plain"` and neither a sentry url nor an environment label.
pub proof fn lemma_load_all_absent(e: EnvSnapshotView)
    requires
        e.misc_sentry_url is None,
        e.chain_eth_network is None,
        e.chain_eth_zksync_network is None,
        e.misc_log_format is None,
    ensures
        spec_load(e) is Ok,
        spec_load(e)->Ok_0.sentry_url is None,
        spec_load(e)->Ok_0.sentry_environment is None,
        spec_load(e)->Ok_0.log_format == "plain"@,
{
}

/// The legacy sentinel `"unset"` disables error reporting whatever the
/// other variables hold.
pub proof fn lemma_sentry_url_unset_sentinel(e: EnvSnapshotView)
    requires
        e.misc_sentry_url == Option::Some("unset"@),
    ensures
        spec_load(e) matches Ok(c) ==> c.sentry_url is None,
{
}

/// The load is a pure function of the snapshot: two loads of equal
/// snapshots yield equal results.
pub proof fn lemma_load_deterministic(e1: EnvSnapshotView, e2: EnvSnapshotView)
    requires
        e1 == e2,
    ensures
        spec_load(e1) == spec_load(e2),
{
}

/// Varying `MISC_SENTRY_URL` alone affects neither the outcome nor the
/// log format nor the environment label.
pub proof fn lemma_sentry_url_independent(e1: EnvSnapshotView, e2: EnvSnapshotView)
    requires
        e1.chain_eth_network == e2.chain_eth_network,
        e1.chain_eth_zksync_network == e2.chain_eth_zksync_network,
        e1.misc_log_format == e2.misc_log_format,
    ensures
        spec_load(e1) is Ok <==> spec_load(e2) is Ok,
        spec_load(e1) is Ok ==> spec_load(e1)->Ok_0.log_format == spec_load(e2)->Ok_0.log_format,
        spec_load(e1) is Ok ==> spec_load(e1)->Ok_0.sentry_environment
            == spec_load(e2)->Ok_0.sentry_environment,
        spec_load(e1) is Err ==> spec_load(e1)->Err_0 == spec_load(e2)->Err_0,
{
}

/// Varying the two network variables alone affects neither the outcome
/// nor the sentry url nor the log format.
pub proof fn lemma_networks_independent(e1: EnvSnapshotView, e2: EnvSnapshotView)
    requires
        e1.misc_sentry_url == e2.misc_sentry_url,
        e1.misc_log_format == e2.misc_log_format,
    ensures
        spec_load(e1) is Ok <==> spec_load(e2) is Ok,
        spec_load(e1) is Ok ==> spec_load(e1)->Ok_0.sentry_url == spec_load(e2)->Ok_0.sentry_url,
        spec_load(e1) is Ok ==> spec_load(e1)->Ok_0.log_format == spec_load(e2)->Ok_0.log_format,
        spec_load(e1) is Err ==> spec_load(e1)->Err_0 == spec_load(e2)->Err_0,
{
}

/// Varying `MISC_LOG_FORMAT` alone affects neither the sentry url nor
/// the environment label, whenever both loads succeed.
pub proof fn lemma_log_format_independent(e1: EnvSnapshotView, e2: EnvSnapshotView)
    requires
        e1.misc_sentry_url == e2.misc_sentry_url,
        e1.chain_eth_network == e2.chain_eth_network,
        e1.chain_eth_zksync_network == e2.chain_eth_zksync_network,
    ensures
        spec_load(e1) is Ok && spec_load(e2) is Ok ==> spec_load(e1)->Ok_0.sentry_url
            == spec_load(e2)->Ok_0.sentry_url,
        spec_load(e1) is Ok && spec_load(e2) is Ok ==> spec_load(e1)->Ok_0.sentry_environment
            == spec_load(e2)->Ok_0.sentry_environment,
{
}

} // verus!

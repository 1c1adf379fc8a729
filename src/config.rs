use vstd::prelude::*;

verus! {

/// Settings of the relay: outbound pool, upstream and bind addresses.
pub struct ProxyConfig {
    /// Sets the maximum idle connection per host allowed in the pool.
    pub pool_max_idle_per_host: usize,
    pub mimir_url: String,
    /// what address to bind to
    pub listen_address: String,
    /// metrics address for the service itself
    pub metrics_address: String,
}

/// The default idle connections kept per upstream host.
pub fn pool_max_idle_per_host_default() -> (r: usize)
    ensures
        r == 8,
{
    8
}

/// The default upstream write endpoint.
pub fn mimir_url_default() -> (r: String)
    ensures
        r@ == "http://localhost:9000/api/v1/metrics/write"@,
{
    "http://localhost:9000/api/v1/metrics/write".to_owned()
}

/// The default address the relay listens on.
pub fn listen_address_default() -> (r: String)
    ensures
        r@ == "0.0.0.0:8000"@,
{
    "0.0.0.0:8000".to_owned()
}

/// The default address of the pull exposition endpoint.
pub fn metrics_address_default() -> (r: String)
    ensures
        r@ == "0.0.0.0:9185"@,
{
    "0.0.0.0:9185".to_owned()
}

impl ProxyConfig {
    /// A configuration in which every setting takes its default.
    pub fn with_defaults() -> (r: ProxyConfig)
        ensures
            r.pool_max_idle_per_host == 8,
            r.mimir_url@ == "http://localhost:9000/api/v1/metrics/write"@,
            r.listen_address@ == "0.0.0.0:8000"@,
            r.metrics_address@ == "0.0.0.0:9185"@,
    {
        ProxyConfig {
            pool_max_idle_per_host: pool_max_idle_per_host_default(),
            mimir_url: mimir_url_default(),
            listen_address: listen_address_default(),
            metrics_address: metrics_address_default(),
        }
    }
}

/// One accepted credential and the name of its holder.
pub struct BearerTokenConfigItem {
    pub bearer_token: String,
    pub name: String,
}

/// The credential source: a list of accepted tokens.
pub struct BearerTokenConfig {
    pub items: Vec<BearerTokenConfigItem>,
}

impl BearerTokenConfig {
    /// The tokens that the source lists, in order.
    pub open spec fn tokens(&self) -> Seq<Seq<char>> {
        self.items@.map_values(|it: BearerTokenConfigItem| it.bearer_token@)
    }
}

/// Settings of the background push of the proxy's own metrics.
pub struct MetricsPushConfig {
    /// Seconds allowed to elapse between two pushes.
    pub push_interval: u64,
    /// The URL that we will push metrics to.
    pub push_url: String,
    /// Static labels to provide to the push process, ordered by key.
    pub labels: Option<std::collections::BTreeMap<String, String>>,
}

/// The default push interval, in seconds.
pub const PUSH_INTERVAL_SECS: u64 = 60;

/// Configure the default push interval for metrics, in seconds.
pub fn push_interval() -> (r: u64)
    ensures
        r == PUSH_INTERVAL_SECS,
{
    PUSH_INTERVAL_SECS
}

/// Returns true if `secs` is equal to the default push interval for metrics.
pub fn is_push_interval_default(secs: &u64) -> (r: bool)
    ensures
        r == (*secs == PUSH_INTERVAL_SECS),
{
    *secs == push_interval()
}

/// Returns true iff the value is `None`: such a field is left out when written.
pub fn is_none<T>(t: &Option<T>) -> (r: bool)
    ensures
        r == (*t is None),
{
    t.is_none()
}

} // verus!

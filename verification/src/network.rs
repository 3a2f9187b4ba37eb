//! The `network` subcommands: what each does to the configuration and what it
//! reports, without reading or writing files or talking to the network.

use vstd::prelude::*;
use crate::config::{
    add_custom_network, add_custom_spec, copy_text, find_network, get_network_config, has_network,
    index_of, mainnet_name, remove_custom_network, remove_custom_spec, rename_custom_network,
    rename_custom_spec, testnet_passphrase, validate_network_exists, Config, ConfigView, NetworkConfig,
    NetworkConfigView,
};
use crate::endpoint::{check_parsed_url, opt_text, parse_url, parsed_url_outcome, url_parse_outcome};
use crate::error::{unit_outcome, NetworkError, NetworkErrorView};
use crate::text::{is_blank, normalize_url, normalize_url_str, same_text, trim, trim_str};

verus! {

/// The `network` subcommands.
#[derive(Debug, PartialEq, Eq)]
#[allow(inconsistent_fields)]
pub enum NetworkCommands {
    /// Show the current active network and available networks.
    Show {
        /// Emit a machine-readable JSON object instead of the human-readable output.
        json: bool,
    },
    /// Switch the active network (testnet, mainnet, or custom).
    Switch {
        /// Target network to switch to.
        network: String,
    },
    /// Add a custom network endpoint.
    Add {
        /// Name for the custom network.
        name: String,
        /// Horizon API URL.
        horizon_url: String,
        /// Optional Soroban RPC URL.
        soroban_rpc_url: Option<String>,
        /// Optional network faucet / Friendbot URL.
        friendbot_url: Option<String>,
        /// Optional network passphrase for transaction signing (defaults to testnet passphrase).
        passphrase: Option<String>,
    },
    /// Test connectivity to a network.
    Test {
        /// Network to test (defaults to current active network).
        network: Option<String>,
    },
    /// Remove a custom network from configuration.
    Remove {
        /// Name of the custom network to remove.
        name: String,
    },
    /// Rename a custom network.
    Rename {
        /// Current network name.
        old_name: String,
        /// New network name.
        new_name: String,
    },
}

// ---------------------------------------------------------------------------
// Endpoint and passphrase validation
// ---------------------------------------------------------------------------

/// The verdict on endpoint `url` under `label`: empty after trimming is
/// `EmptyUrl`; otherwise the trimmed text is parsed and judged.
pub open spec fn url_check_outcome(label: Seq<char>, url: Seq<char>) -> Result<(), NetworkErrorView> {
    if trim(url).len() == 0 {
        Err(NetworkErrorView::EmptyUrl { label })
    } else {
        parsed_url_outcome(label, url, url_parse_outcome(trim(url)))
    }
}

/// Checks that `url` is a usable endpoint: not blank, parseable as an absolute
/// URL, with scheme `http` or `https` and a host.
pub fn validate_url(label: &str, url: &str) -> (r: Result<(), NetworkError>)
    ensures
        unit_outcome(r) == url_check_outcome(label@, url@),
{
    let trimmed = trim_str(url);
    if trimmed.as_str().unicode_len() == 0 {
        return Err(NetworkError::EmptyUrl { label: String::from_str(label) });
    }
    let parsed = parse_url(trimmed.as_str());
    check_parsed_url(label, url, parsed)
}

/// The verdict on an optional passphrase: absent is fine, present must not be blank.
pub open spec fn passphrase_outcome(passphrase: Option<Seq<char>>) -> Result<(), NetworkErrorView> {
    match passphrase {
        Some(p) => if trim(p).len() == 0 {
            Err(NetworkErrorView::BlankPassphrase)
        } else {
            Ok(())
        },
        None => Ok(()),
    }
}

/// Checks that a passphrase, where one is given, is not empty or only whitespace.
pub fn validate_passphrase(passphrase: &Option<String>) -> (r: Result<(), NetworkError>)
    ensures
        unit_outcome(r) == passphrase_outcome(opt_text(*passphrase)),
{
    match passphrase {
        Some(p) => {
            if is_blank(p.as_str()) {
                Err(NetworkError::BlankPassphrase)
            } else {
                Ok(())
            }
        },
        None => Ok(()),
    }
}

// ---------------------------------------------------------------------------
// switch
// ---------------------------------------------------------------------------

/// What `switch` did.
#[derive(Debug, PartialEq, Eq)]
pub enum SwitchOutcome {
    /// The target was already the active network; nothing changed.
    AlreadyActive,
    /// The active network changed from `previous`; `to_mainnet` says whether the
    /// new one is `mainnet`, which spends real funds.
    Switched { previous: String, to_mainnet: bool },
}

/// `SwitchOutcome` with its text as a character sequence.
pub enum SwitchOutcomeView {
    AlreadyActive,
    Switched { previous: Seq<char>, to_mainnet: bool },
}

impl View for SwitchOutcome {
    type V = SwitchOutcomeView;

    open spec fn view(&self) -> SwitchOutcomeView {
        match self {
            SwitchOutcome::AlreadyActive => SwitchOutcomeView::AlreadyActive,
            SwitchOutcome::Switched { previous, to_mainnet } => SwitchOutcomeView::Switched {
                previous: previous@,
                to_mainnet: *to_mainnet,
            },
        }
    }
}

/// Switching to `target`: unknown networks are refused; the active one is left
/// as it is; any other becomes active.
pub open spec fn switch_spec(c: ConfigView, target: Seq<char>) -> (ConfigView, Result<SwitchOutcomeView, NetworkErrorView>) {
    if !has_network(c.networks, target) {
        (c, Err(NetworkErrorView::UnknownNetwork { name: target }))
    } else if c.network == target {
        (c, Ok(SwitchOutcomeView::AlreadyActive))
    } else {
        (
            ConfigView { network: target, networks: c.networks },
            Ok(SwitchOutcomeView::Switched { previous: c.network, to_mainnet: target == mainnet_name() }),
        )
    }
}

/// The view of a `switch` result.
pub open spec fn switch_result_view(r: Result<SwitchOutcome, NetworkError>) -> Result<SwitchOutcomeView, NetworkErrorView> {
    match r {
        Ok(o) => Ok(o@),
        Err(e) => Err(e@),
    }
}

/// Makes `target` the active network (see `switch_spec`).
pub fn switch(cfg: &mut Config, target: String) -> (r: Result<SwitchOutcome, NetworkError>)
    requires
        old(cfg)@.wf(),
    ensures
        (final(cfg)@, switch_result_view(r)) == switch_spec(old(cfg)@, target@),
        final(cfg)@.wf(),
{
    match validate_network_exists(cfg, target.as_str()) {
        Err(e) => {
            return Err(e);
        },
        Ok(_) => {},
    }
    if cfg.network == target {
        return Ok(SwitchOutcome::AlreadyActive);
    }
    let to_mainnet = same_text(target.as_str(), "mainnet");
    let previous = cfg.network.clone();
    cfg.network = target;
    Ok(SwitchOutcome::Switched { previous, to_mainnet })
}

// ---------------------------------------------------------------------------
// add
// ---------------------------------------------------------------------------

/// Label of the Horizon endpoint in messages.
pub open spec fn horizon_label() -> Seq<char> {
    "Horizon"@
}

/// Label of the Soroban RPC endpoint in messages.
pub open spec fn soroban_label() -> Seq<char> {
    "Soroban RPC"@
}

/// Label of the Friendbot endpoint in messages.
pub open spec fn friendbot_label() -> Seq<char> {
    "Friendbot"@
}

/// The verdict on an optional endpoint: absent is fine.
pub open spec fn optional_url_outcome(label: Seq<char>, url: Option<Seq<char>>) -> Result<(), NetworkErrorView> {
    match url {
        Some(u) => url_check_outcome(label, u),
        None => Ok(()),
    }
}

/// The stored form of an optional endpoint.
pub open spec fn normalize_opt(url: Option<Seq<char>>) -> Option<Seq<char>> {
    match url {
        Some(u) => Some(normalize_url(u)),
        None => None,
    }
}

/// The passphrase stored for a new network: the one given, else the testnet passphrase.
pub open spec fn passphrase_or_default(passphrase: Option<Seq<char>>) -> Seq<char> {
    match passphrase {
        Some(p) => p,
        None => testnet_passphrase(),
    }
}

/// The settings stored for a new network: endpoints normalised, and the
/// passphrase as given or, where none is given, the testnet passphrase.
pub open spec fn normalized_entry(
    horizon_url: Seq<char>,
    soroban_rpc_url: Option<Seq<char>>,
    friendbot_url: Option<Seq<char>>,
    passphrase: Option<Seq<char>>,
) -> NetworkConfigView {
    NetworkConfigView {
        horizon_url: normalize_url(horizon_url),
        soroban_rpc_url: normalize_opt(soroban_rpc_url),
        friendbot_url: normalize_opt(friendbot_url),
        passphrase: Some(passphrase_or_default(passphrase)),
    }
}

/// Adding a network: the Horizon, Soroban RPC and Friendbot endpoints and the
/// passphrase are checked in that order, and the first refusal is reported;
/// then the normalised settings are added under `name` (see `add_custom_spec`)
/// and, on success, returned.
pub open spec fn add_network_spec(
    c: ConfigView,
    name: Seq<char>,
    horizon_url: Seq<char>,
    soroban_rpc_url: Option<Seq<char>>,
    friendbot_url: Option<Seq<char>>,
    passphrase: Option<Seq<char>>,
) -> (ConfigView, Result<NetworkConfigView, NetworkErrorView>) {
    match url_check_outcome(horizon_label(), horizon_url) {
        Err(e) => (c, Err(e)),
        Ok(_) => match optional_url_outcome(soroban_label(), soroban_rpc_url) {
            Err(e) => (c, Err(e)),
            Ok(_) => match optional_url_outcome(friendbot_label(), friendbot_url) {
                Err(e) => (c, Err(e)),
                Ok(_) => match passphrase_outcome(passphrase) {
                    Err(e) => (c, Err(e)),
                    Ok(_) => {
                        let entry = normalized_entry(horizon_url, soroban_rpc_url, friendbot_url, passphrase);
                        let (c2, r) = add_custom_spec(c, name, entry);
                        match r {
                            Ok(_) => (c2, Ok(entry)),
                            Err(e) => (c2, Err(e)),
                        }
                    },
                },
            },
        },
    }
}

/// The view of an `add_network` result.
pub open spec fn config_result_view(r: Result<NetworkConfig, NetworkError>) -> Result<NetworkConfigView, NetworkErrorView> {
    match r {
        Ok(nc) => Ok(nc@),
        Err(e) => Err(e@),
    }
}

/// Checks an optional endpoint.
fn validate_optional_url(label: &str, url: &Option<String>) -> (r: Result<(), NetworkError>)
    ensures
        unit_outcome(r) == optional_url_outcome(label@, opt_text(*url)),
{
    match url {
        Some(u) => validate_url(label, u.as_str()),
        None => Ok(()),
    }
}

/// The stored form of an optional endpoint.
fn normalize_optional_url(url: &Option<String>) -> (r: Option<String>)
    ensures
        opt_text(r) == normalize_opt(opt_text(*url)),
{
    match url {
        Some(u) => Some(normalize_url_str(u.as_str())),
        None => None,
    }
}

/// Adds a custom network (see `add_network_spec`); on success returns the
/// settings as stored.
pub fn add_network(
    cfg: &mut Config,
    name: String,
    horizon_url: String,
    soroban_rpc_url: Option<String>,
    friendbot_url: Option<String>,
    passphrase: Option<String>,
) -> (r: Result<NetworkConfig, NetworkError>)
    requires
        old(cfg)@.wf(),
    ensures
        (final(cfg)@, config_result_view(r)) == add_network_spec(
            old(cfg)@,
            name@,
            horizon_url@,
            opt_text(soroban_rpc_url),
            opt_text(friendbot_url),
            opt_text(passphrase),
        ),
        final(cfg)@.wf(),
{
    match validate_url("Horizon", horizon_url.as_str()) {
        Err(e) => {
            return Err(e);
        },
        Ok(_) => {},
    }
    match validate_optional_url("Soroban RPC", &soroban_rpc_url) {
        Err(e) => {
            return Err(e);
        },
        Ok(_) => {},
    }
    match validate_optional_url("Friendbot", &friendbot_url) {
        Err(e) => {
            return Err(e);
        },
        Ok(_) => {},
    }
    match validate_passphrase(&passphrase) {
        Err(e) => {
            return Err(e);
        },
        Ok(_) => {},
    }
    let entry = NetworkConfig {
        horizon_url: normalize_url_str(horizon_url.as_str()),
        soroban_rpc_url: normalize_optional_url(&soroban_rpc_url),
        friendbot_url: normalize_optional_url(&friendbot_url),
        passphrase: Some(
            match passphrase {
                Some(p) => p,
                None => String::from_str("Test SDF Network ; September 2015"),
            },
        ),
    };
    let stored = entry.duplicate();
    match add_custom_network(cfg, name, entry) {
        Err(e) => Err(e),
        Ok(_) => Ok(stored),
    }
}

// ---------------------------------------------------------------------------
// remove and rename
// ---------------------------------------------------------------------------

/// Removing a network (see `remove_custom_spec`); on success the result says
/// whether the removed network was the active one.
pub open spec fn remove_network_spec(c: ConfigView, name: Seq<char>) -> (ConfigView, Result<bool, NetworkErrorView>) {
    let (c2, r) = remove_custom_spec(c, name);
    match r {
        Ok(_) => (c2, Ok(c.network == name)),
        Err(e) => (c2, Err(e)),
    }
}

/// The view of a `remove_network` result.
pub open spec fn flag_result_view(r: Result<bool, NetworkError>) -> Result<bool, NetworkErrorView> {
    match r {
        Ok(b) => Ok(b),
        Err(e) => Err(e@),
    }
}

/// Removes a custom network (see `remove_network_spec`).
pub fn remove_network(cfg: &mut Config, name: String) -> (r: Result<bool, NetworkError>)
    requires
        old(cfg)@.wf(),
    ensures
        (final(cfg)@, flag_result_view(r)) == remove_network_spec(old(cfg)@, name@),
        final(cfg)@.wf(),
{
    let was_active = cfg.network == name;
    match remove_custom_network(cfg, name.as_str()) {
        Err(e) => Err(e),
        Ok(_) => Ok(was_active),
    }
}

/// Renames a custom network (see `rename_custom_spec`).
pub fn rename_network(cfg: &mut Config, old_name: String, new_name: String) -> (r: Result<(), NetworkError>)
    requires
        old(cfg)@.wf(),
    ensures
        (final(cfg)@, unit_outcome(r)) == rename_custom_spec(old(cfg)@, old_name@, new_name@),
        final(cfg)@.wf(),
{
    rename_custom_network(cfg, old_name.as_str(), new_name.as_str())
}

// ---------------------------------------------------------------------------
// show
// ---------------------------------------------------------------------------

/// One line of `network show`.
#[derive(Debug, PartialEq, Eq)]
pub struct NetworkListing {
    pub name: String,
    pub horizon_url: String,
    pub soroban_rpc_url: Option<String>,
    pub friendbot_url: Option<String>,
    /// Whether this is the active network.
    pub active: bool,
}

/// Whether `l` lists network `i` of `c`.
pub open spec fn lists(l: NetworkListing, c: ConfigView, i: int) -> bool {
    &&& l.name@ == c.networks[i].name
    &&& l.horizon_url@ == c.networks[i].config.horizon_url
    &&& opt_text(l.soroban_rpc_url) == c.networks[i].config.soroban_rpc_url
    &&& opt_text(l.friendbot_url) == c.networks[i].config.friendbot_url
    &&& l.active == (c.networks[i].name == c.network)
}

/// The configured networks in order, each with its endpoints and whether it is active.
pub fn network_listing(cfg: &Config) -> (r: Vec<NetworkListing>)
    ensures
        r@.len() == cfg@.networks.len(),
        forall|i: int| 0 <= i < r@.len() ==> lists(#[trigger] r@[i], cfg@, i),
{
    let mut out: Vec<NetworkListing> = Vec::new();
    let mut i: usize = 0;
    while i < cfg.networks.len()
        invariant
            i <= cfg.networks@.len(),
            out@.len() == i,
            forall|k: int| 0 <= k < i ==> lists(#[trigger] out@[k], cfg@, k),
        decreases cfg.networks.len() - i,
    {
        let n = &cfg.networks[i];
        let item = NetworkListing {
            name: n.name.clone(),
            horizon_url: n.config.horizon_url.clone(),
            soroban_rpc_url: copy_text(&n.config.soroban_rpc_url),
            friendbot_url: copy_text(&n.config.friendbot_url),
            active: n.name == cfg.network,
        };
        out.push(item);
        i = i + 1;
    }
    out
}

// ---------------------------------------------------------------------------
// test
// ---------------------------------------------------------------------------

/// What `network test` probes.
#[derive(Debug, PartialEq, Eq)]
pub struct ConnectivityCheck {
    /// The network under test.
    pub network: String,
    /// Its Horizon endpoint.
    pub horizon_url: String,
    /// The Horizon health endpoint: `horizon_url` followed by `/health`.
    pub health_url: String,
    /// Its Soroban RPC endpoint, probed where present.
    pub soroban_rpc_url: Option<String>,
}

/// The network a test is about: the one asked for, else the active one.
pub open spec fn test_target(c: ConfigView, requested: Option<Seq<char>>) -> Seq<char> {
    match requested {
        Some(n) => n,
        None => c.network,
    }
}

/// Suffix of the Horizon health endpoint.
pub open spec fn health_suffix() -> Seq<char> {
    "/health"@
}

/// What `network test` probes, as (network, Horizon URL, health URL, Soroban RPC
/// URL), or the refusal.
pub open spec fn plan_spec(c: ConfigView, requested: Option<Seq<char>>) -> Result<
    (Seq<char>, Seq<char>, Seq<char>, Option<Seq<char>>),
    NetworkErrorView,
> {
    let target = test_target(c, requested);
    if has_network(c.networks, target) {
        let nc = c.lookup(target);
        Ok((target, nc.horizon_url, nc.horizon_url + health_suffix(), nc.soroban_rpc_url))
    } else {
        Err(NetworkErrorView::UnknownNetwork { name: target })
    }
}

/// The view of a `plan_network_test` result.
pub open spec fn plan_view(r: Result<ConnectivityCheck, NetworkError>) -> Result<
    (Seq<char>, Seq<char>, Seq<char>, Option<Seq<char>>),
    NetworkErrorView,
> {
    match r {
        Ok(p) => Ok((p.network@, p.horizon_url@, p.health_url@, opt_text(p.soroban_rpc_url))),
        Err(e) => Err(e@),
    }
}

/// Works out what to probe for `network test`: the requested network, or the
/// active one; `UnknownNetwork` where it is not configured.
pub fn plan_network_test(cfg: &Config, requested: Option<String>) -> (r: Result<ConnectivityCheck, NetworkError>)
    requires
        cfg@.wf(),
    ensures
        plan_view(r) == plan_spec(cfg@, opt_text(requested)),
        ({
            let target = test_target(cfg@, opt_text(requested));
            match r {
                Ok(p) => {
                    &&& has_network(cfg@.networks, target)
                    &&& p.network@ == target
                    &&& p.horizon_url@ == cfg@.lookup(target).horizon_url
                    &&& p.health_url@ == cfg@.lookup(target).horizon_url + health_suffix()
                    &&& opt_text(p.soroban_rpc_url) == cfg@.lookup(target).soroban_rpc_url
                },
                Err(e) => !has_network(cfg@.networks, target) && e@ == NetworkErrorView::UnknownNetwork {
                    name: target,
                },
            }
        }),
{
    let target = match requested {
        Some(n) => n,
        None => cfg.network.clone(),
    };
    match get_network_config(cfg, target.as_str()) {
        Err(e) => Err(e),
        Ok(nc) => {
            let health_url = nc.horizon_url.clone().concat("/health");
            Ok(ConnectivityCheck {
                network: target,
                horizon_url: nc.horizon_url,
                health_url,
                soroban_rpc_url: nc.soroban_rpc_url,
            })
        },
    }
}

} // verus!

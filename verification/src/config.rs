//! The configured networks: which one is active, and the endpoints of each.
//!
//! A configuration is well formed when network names are distinct, the active
//! network is one of them, and the built-in networks `testnet` and `mainnet`
//! are present. Every operation here keeps a well-formed configuration well
//! formed.

use vstd::prelude::*;
use crate::endpoint::opt_text;
use crate::error::{NetworkError, NetworkErrorView};
use crate::text::same_text;

verus! {

/// The endpoints and settings of one network.
#[derive(Debug, PartialEq, Eq)]
pub struct NetworkConfig {
    /// Horizon API URL.
    pub horizon_url: String,
    /// Soroban RPC URL, where the network has one.
    pub soroban_rpc_url: Option<String>,
    /// Faucet (Friendbot) URL, where the network has one.
    pub friendbot_url: Option<String>,
    /// Network passphrase for transaction signing, where one was set.
    pub passphrase: Option<String>,
}

/// `NetworkConfig` with its texts as character sequences.
pub struct NetworkConfigView {
    pub horizon_url: Seq<char>,
    pub soroban_rpc_url: Option<Seq<char>>,
    pub friendbot_url: Option<Seq<char>>,
    pub passphrase: Option<Seq<char>>,
}

impl View for NetworkConfig {
    type V = NetworkConfigView;

    open spec fn view(&self) -> NetworkConfigView {
        NetworkConfigView {
            horizon_url: self.horizon_url@,
            soroban_rpc_url: opt_text(self.soroban_rpc_url),
            friendbot_url: opt_text(self.friendbot_url),
            passphrase: opt_text(self.passphrase),
        }
    }
}

/// A network under its name.
#[derive(Debug, PartialEq, Eq)]
pub struct NamedNetwork {
    pub name: String,
    pub config: NetworkConfig,
}

/// `NamedNetwork` with its texts as character sequences.
pub struct NamedNetworkView {
    pub name: Seq<char>,
    pub config: NetworkConfigView,
}

impl View for NamedNetwork {
    type V = NamedNetworkView;

    open spec fn view(&self) -> NamedNetworkView {
        NamedNetworkView { name: self.name@, config: self.config@ }
    }
}

/// The whole network configuration.
#[derive(Debug, PartialEq, Eq)]
pub struct Config {
    /// Name of the active network.
    pub network: String,
    /// The configured networks, built-in and custom, in order.
    pub networks: Vec<NamedNetwork>,
}

/// `Config` as the active name and the sequence of network views.
pub struct ConfigView {
    pub network: Seq<char>,
    pub networks: Seq<NamedNetworkView>,
}

/// The views of a sequence of networks.
pub open spec fn nets_view(v: Seq<NamedNetwork>) -> Seq<NamedNetworkView> {
    v.map_values(|n: NamedNetwork| n@)
}

impl View for Config {
    type V = ConfigView;

    open spec fn view(&self) -> ConfigView {
        ConfigView { network: self.network@, networks: nets_view(self.networks@) }
    }
}

/// Name of the built-in test network.
pub open spec fn testnet_name() -> Seq<char> {
    "testnet"@
}

/// Name of the built-in public network.
pub open spec fn mainnet_name() -> Seq<char> {
    "mainnet"@
}

/// The passphrase of the built-in test network, which custom networks use
/// where none is given.
pub open spec fn testnet_passphrase() -> Seq<char> {
    "Test SDF Network ; September 2015"@
}

/// Whether `name` is the name of a built-in network.
pub open spec fn is_builtin(name: Seq<char>) -> bool {
    name == testnet_name() || name == mainnet_name()
}

/// Whether a network called `name` is among `nets`.
pub open spec fn has_network(nets: Seq<NamedNetworkView>, name: Seq<char>) -> bool {
    exists|i: int| 0 <= i < nets.len() && #[trigger] nets[i].name == name
}

/// Whether no two of `nets` share a name.
pub open spec fn names_distinct(nets: Seq<NamedNetworkView>) -> bool {
    forall|i: int, j: int| 0 <= i < j < nets.len() ==> #[trigger] nets[i].name != #[trigger] nets[j].name
}

/// The position of the network called `name` (meaningful where there is one).
pub open spec fn index_of(nets: Seq<NamedNetworkView>, name: Seq<char>) -> int {
    choose|i: int| 0 <= i < nets.len() && #[trigger] nets[i].name == name
}

impl ConfigView {
    /// Distinct names, an active network that exists, and both built-in networks present.
    pub open spec fn wf(self) -> bool {
        &&& names_distinct(self.networks)
        &&& has_network(self.networks, self.network)
        &&& has_network(self.networks, testnet_name())
        &&& has_network(self.networks, mainnet_name())
    }

    /// The settings of the network called `name` (meaningful where there is one).
    pub open spec fn lookup(self, name: Seq<char>) -> NetworkConfigView {
        self.networks[index_of(self.networks, name)].config
    }
}

/// Adding a custom network: refused for a built-in name or a name in use,
/// else the network is appended.
pub open spec fn add_custom_spec(c: ConfigView, name: Seq<char>, entry: NetworkConfigView) -> (
    ConfigView,
    Result<(), NetworkErrorView>,
) {
    if is_builtin(name) {
        (c, Err(NetworkErrorView::ReservedName { name }))
    } else if has_network(c.networks, name) {
        (c, Err(NetworkErrorView::AlreadyExists { name }))
    } else {
        (
            ConfigView {
                network: c.network,
                networks: c.networks.push(NamedNetworkView { name, config: entry }),
            },
            Ok(()),
        )
    }
}

/// Removing a custom network: refused for a built-in or unknown name, else the
/// network is dropped, and where it was active, `testnet` becomes active.
pub open spec fn remove_custom_spec(c: ConfigView, name: Seq<char>) -> (ConfigView, Result<(), NetworkErrorView>) {
    if is_builtin(name) {
        (c, Err(NetworkErrorView::ReservedName { name }))
    } else if !has_network(c.networks, name) {
        (c, Err(NetworkErrorView::UnknownNetwork { name }))
    } else {
        (
            ConfigView {
                network: if c.network == name {
                    testnet_name()
                } else {
                    c.network
                },
                networks: c.networks.remove(index_of(c.networks, name)),
            },
            Ok(()),
        )
    }
}

/// Renaming a custom network: refused where `old_name` is built-in or unknown,
/// or `new_name` is built-in or in use; else the network keeps its place and
/// settings under the new name, and stays active if it was.
pub open spec fn rename_custom_spec(c: ConfigView, old_name: Seq<char>, new_name: Seq<char>) -> (
    ConfigView,
    Result<(), NetworkErrorView>,
) {
    if is_builtin(old_name) {
        (c, Err(NetworkErrorView::ReservedName { name: old_name }))
    } else if !has_network(c.networks, old_name) {
        (c, Err(NetworkErrorView::UnknownNetwork { name: old_name }))
    } else if is_builtin(new_name) {
        (c, Err(NetworkErrorView::ReservedName { name: new_name }))
    } else if has_network(c.networks, new_name) {
        (c, Err(NetworkErrorView::AlreadyExists { name: new_name }))
    } else {
        let i = index_of(c.networks, old_name);
        (
            ConfigView {
                network: if c.network == old_name {
                    new_name
                } else {
                    c.network
                },
                networks: c.networks.update(
                    i,
                    NamedNetworkView { name: new_name, config: c.networks[i].config },
                ),
            },
            Ok(()),
        )
    }
}

/// Where names are distinct, the network called `name` at `i` is the one `index_of` finds.
pub proof fn lemma_index_of_unique(nets: Seq<NamedNetworkView>, name: Seq<char>, i: int)
    requires
        names_distinct(nets),
        0 <= i < nets.len(),
        nets[i].name == name,
    ensures
        index_of(nets, name) == i,
{
    let j = index_of(nets, name);
    assert(0 <= j < nets.len() && nets[j].name == name);
    if j < i {
        assert(nets[j].name != nets[i].name);
    } else if i < j {
        assert(nets[i].name != nets[j].name);
    }
}

/// Removing the network at `i` keeps every other name present.
proof fn lemma_remove_keeps(nets: Seq<NamedNetworkView>, i: int, other: Seq<char>)
    requires
        0 <= i < nets.len(),
        has_network(nets, other),
        nets[i].name != other,
    ensures
        has_network(nets.remove(i), other),
{
    let j = choose|j: int| 0 <= j < nets.len() && #[trigger] nets[j].name == other;
    if j < i {
        assert(nets.remove(i)[j].name == other);
    } else {
        assert(nets.remove(i)[j - 1].name == other);
    }
}

/// Replacing the network at `i` keeps every other name present.
proof fn lemma_update_keeps(nets: Seq<NamedNetworkView>, i: int, e: NamedNetworkView, other: Seq<char>)
    requires
        0 <= i < nets.len(),
        has_network(nets, other),
        nets[i].name != other,
    ensures
        has_network(nets.update(i, e), other),
{
    let j = choose|j: int| 0 <= j < nets.len() && #[trigger] nets[j].name == other;
    assert(nets.update(i, e)[j].name == other);
}

/// Appending a network keeps every name present.
proof fn lemma_push_keeps(nets: Seq<NamedNetworkView>, e: NamedNetworkView, other: Seq<char>)
    requires
        has_network(nets, other),
    ensures
        has_network(nets.push(e), other),
{
    let j = choose|j: int| 0 <= j < nets.len() && #[trigger] nets[j].name == other;
    assert(nets.push(e)[j].name == other);
}

/// Adding a custom network keeps a configuration well formed.
pub proof fn lemma_add_custom_keeps_wf(c: ConfigView, name: Seq<char>, entry: NetworkConfigView)
    requires
        c.wf(),
    ensures
        add_custom_spec(c, name, entry).0.wf(),
{
    if !is_builtin(name) && !has_network(c.networks, name) {
        let e = NamedNetworkView { name, config: entry };
        let nets = c.networks.push(e);
        assert forall|a: int, b: int| 0 <= a < b < nets.len() implies #[trigger] nets[a].name
            != #[trigger] nets[b].name by {
            if b == nets.len() - 1 {
                assert(c.networks[a].name != name);
            } else {
                assert(c.networks[a].name != c.networks[b].name);
            }
        }
        lemma_push_keeps(c.networks, e, c.network);
        lemma_push_keeps(c.networks, e, testnet_name());
        lemma_push_keeps(c.networks, e, mainnet_name());
    }
}

/// Removing a custom network keeps a configuration well formed.
pub proof fn lemma_remove_custom_keeps_wf(c: ConfigView, name: Seq<char>)
    requires
        c.wf(),
    ensures
        remove_custom_spec(c, name).0.wf(),
{
    if !is_builtin(name) && has_network(c.networks, name) {
        let i = index_of(c.networks, name);
        let old_nets = c.networks;
        let nets = old_nets.remove(i);
        assert forall|a: int, b: int| 0 <= a < b < nets.len() implies #[trigger] nets[a].name
            != #[trigger] nets[b].name by {
            let a2 = if a < i { a } else { a + 1 };
            let b2 = if b < i { b } else { b + 1 };
            assert(nets[a] == old_nets[a2]);
            assert(nets[b] == old_nets[b2]);
            assert(old_nets[a2].name != old_nets[b2].name);
        }
        lemma_remove_keeps(old_nets, i, testnet_name());
        lemma_remove_keeps(old_nets, i, mainnet_name());
        if c.network != name {
            lemma_remove_keeps(old_nets, i, c.network);
        }
    }
}

/// Renaming a custom network keeps a configuration well formed.
pub proof fn lemma_rename_custom_keeps_wf(c: ConfigView, old_name: Seq<char>, new_name: Seq<char>)
    requires
        c.wf(),
    ensures
        rename_custom_spec(c, old_name, new_name).0.wf(),
{
    if !is_builtin(old_name) && has_network(c.networks, old_name) && !is_builtin(new_name)
        && !has_network(c.networks, new_name) {
        let i = index_of(c.networks, old_name);
        let old_nets = c.networks;
        let e = NamedNetworkView { name: new_name, config: old_nets[i].config };
        let nets = old_nets.update(i, e);
        assert forall|a: int, b: int| 0 <= a < b < nets.len() implies #[trigger] nets[a].name
            != #[trigger] nets[b].name by {
            if a == i {
                assert(old_nets[b].name != new_name);
            } else if b == i {
                assert(old_nets[a].name != new_name);
            } else {
                assert(old_nets[a].name != old_nets[b].name);
            }
        }
        lemma_update_keeps(old_nets, i, e, testnet_name());
        lemma_update_keeps(old_nets, i, e, mainnet_name());
        if c.network == old_name {
            assert(nets[i].name == new_name);
        } else {
            lemma_update_keeps(old_nets, i, e, c.network);
        }
    }
}

/// Whether `name` is `testnet` or `mainnet`.
pub fn is_builtin_name(name: &str) -> (r: bool)
    ensures
        r == is_builtin(name@),
{
    same_text(name, "testnet") || same_text(name, "mainnet")
}

/// The position of the network called `name` among `networks`, if any.
pub fn find_network(networks: &Vec<NamedNetwork>, name: &str) -> (r: Option<usize>)
    ensures
        match r {
            Some(i) => i < networks@.len() && nets_view(networks@)[i as int].name == name@,
            None => !has_network(nets_view(networks@), name@),
        },
{
    let mut i: usize = 0;
    while i < networks.len()
        invariant
            i <= networks@.len(),
            forall|k: int| 0 <= k < i ==> #[trigger] networks@[k].name@ != name@,
        decreases networks.len() - i,
    {
        if same_text(networks[i].name.as_str(), name) {
            return Some(i);
        }
        i = i + 1;
    }
    assert forall|k: int| 0 <= k < nets_view(networks@).len() implies #[trigger] nets_view(
        networks@,
    )[k].name != name@ by {
        assert(networks@[k].name@ != name@);
    }
    None
}

impl NetworkConfig {
    /// A copy of these settings.
    pub fn duplicate(&self) -> (r: NetworkConfig)
        ensures
            r@ == self@,
    {
        NetworkConfig {
            horizon_url: self.horizon_url.clone(),
            soroban_rpc_url: copy_text(&self.soroban_rpc_url),
            friendbot_url: copy_text(&self.friendbot_url),
            passphrase: copy_text(&self.passphrase),
        }
    }
}

/// A copy of an optional text.
pub fn copy_text(o: &Option<String>) -> (r: Option<String>)
    ensures
        opt_text(r) == opt_text(*o),
{
    match o {
        Some(s) => Some(s.clone()),
        None => None,
    }
}

impl Config {
    /// The configuration a fresh installation starts from: the built-in
    /// `testnet` (active) and `mainnet`.
    pub fn default_config() -> (c: Config)
        ensures
            c@.wf(),
            c@.network == testnet_name(),
            c@.networks.len() == 2,
            c@.networks[0].name == testnet_name(),
            c@.networks[0].config == (NetworkConfigView {
                horizon_url: "https://horizon-testnet.stellar.org"@,
                soroban_rpc_url: Some("https://soroban-testnet.stellar.org"@),
                friendbot_url: Some("https://friendbot.stellar.org"@),
                passphrase: Some(testnet_passphrase()),
            }),
            c@.networks[1].name == mainnet_name(),
            c@.networks[1].config == (NetworkConfigView {
                horizon_url: "https://horizon.stellar.org"@,
                soroban_rpc_url: None,
                friendbot_url: None,
                passphrase: Some("Public Global Stellar Network ; September 2015"@),
            }),
    {
        let testnet = NamedNetwork {
            name: String::from_str("testnet"),
            config: NetworkConfig {
                horizon_url: String::from_str("https://horizon-testnet.stellar.org"),
                soroban_rpc_url: Some(String::from_str("https://soroban-testnet.stellar.org")),
                friendbot_url: Some(String::from_str("https://friendbot.stellar.org")),
                passphrase: Some(String::from_str("Test SDF Network ; September 2015")),
            },
        };
        let mainnet = NamedNetwork {
            name: String::from_str("mainnet"),
            config: NetworkConfig {
                horizon_url: String::from_str("https://horizon.stellar.org"),
                soroban_rpc_url: None,
                friendbot_url: None,
                passphrase: Some(String::from_str("Public Global Stellar Network ; September 2015")),
            },
        };
        let mut networks: Vec<NamedNetwork> = Vec::new();
        networks.push(testnet);
        networks.push(mainnet);
        let c = Config { network: String::from_str("testnet"), networks };
        proof {
            reveal_strlit("testnet");
            reveal_strlit("mainnet");
            assert(testnet_name()[0] != mainnet_name()[0]);
            assert(c@.networks[0].name == testnet_name());
            assert(c@.networks[1].name == mainnet_name());
        }
        c
    }

    /// Whether the configuration is well formed (see `ConfigView::wf`).
    pub fn is_well_formed(&self) -> (r: bool)
        ensures
            r == self@.wf(),
    {
        let n = self.networks.len();
        let ghost nets = self@.networks;
        let mut i: usize = 0;
        while i < n
            invariant
                n == nets.len(),
                nets == self@.networks,
                i <= n,
                forall|a: int, b: int| 0 <= a < i && a < b < n ==> #[trigger] nets[a].name != #[trigger] nets[b].name,
            decreases n - i,
        {
            let mut j: usize = i + 1;
            while j < n
                invariant
                    n == nets.len(),
                    nets == self@.networks,
                    i < n,
                    i + 1 <= j <= n,
                    forall|a: int, b: int| 0 <= a < i && a < b < n ==> #[trigger] nets[a].name != #[trigger] nets[b].name,
                    forall|b: int| i < b < j ==> nets[i as int].name != #[trigger] nets[b].name,
                decreases n - j,
            {
                if same_text(self.networks[i].name.as_str(), self.networks[j].name.as_str()) {
                    assert(nets[i as int].name == nets[j as int].name);
                    return false;
                }
                j = j + 1;
            }
            i = i + 1;
        }
        assert(names_distinct(nets));
        find_network(&self.networks, self.network.as_str()).is_some() && find_network(
            &self.networks,
            "testnet",
        ).is_some() && find_network(&self.networks, "mainnet").is_some()
    }
}

/// Checks that a network called `name` is configured.
pub fn validate_network_exists(cfg: &Config, name: &str) -> (r: Result<(), NetworkError>)
    ensures
        crate::error::unit_outcome(r) == if has_network(cfg@.networks, name@) {
            Ok(())
        } else {
            Err(NetworkErrorView::UnknownNetwork { name: name@ })
        },
{
    match find_network(&cfg.networks, name) {
        Some(_) => Ok(()),
        None => Err(NetworkError::UnknownNetwork { name: String::from_str(name) }),
    }
}

/// The settings of the network called `name`, or `UnknownNetwork`.
pub fn get_network_config(cfg: &Config, name: &str) -> (r: Result<NetworkConfig, NetworkError>)
    requires
        cfg@.wf(),
    ensures
        match r {
            Ok(nc) => has_network(cfg@.networks, name@) && nc@ == cfg@.lookup(name@),
            Err(e) => !has_network(cfg@.networks, name@) && e@ == NetworkErrorView::UnknownNetwork {
                name: name@,
            },
        },
{
    match find_network(&cfg.networks, name) {
        Some(i) => {
            proof {
                lemma_index_of_unique(cfg@.networks, name@, i as int);
            }
            Ok(cfg.networks[i].config.duplicate())
        },
        None => Err(NetworkError::UnknownNetwork { name: String::from_str(name) }),
    }
}

/// Adds a custom network under `name` (see `add_custom_spec`).
pub fn add_custom_network(cfg: &mut Config, name: String, config: NetworkConfig) -> (r: Result<(), NetworkError>)
    requires
        old(cfg)@.wf(),
    ensures
        (final(cfg)@, crate::error::unit_outcome(r)) == add_custom_spec(old(cfg)@, name@, config@),
        final(cfg)@.wf(),
{
    if is_builtin_name(name.as_str()) {
        return Err(NetworkError::ReservedName { name });
    }
    if find_network(&cfg.networks, name.as_str()).is_some() {
        return Err(NetworkError::AlreadyExists { name });
    }
    let ghost old_view = cfg@;
    let entry = NamedNetwork { name, config };
    let ghost e = entry@;
    cfg.networks.push(entry);
    proof {
        assert(cfg@.networks =~= old_view.networks.push(e));
        lemma_add_custom_keeps_wf(old_view, e.name, e.config);
    }
    Ok(())
}

/// Removes the custom network called `name` (see `remove_custom_spec`).
pub fn remove_custom_network(cfg: &mut Config, name: &str) -> (r: Result<(), NetworkError>)
    requires
        old(cfg)@.wf(),
    ensures
        (final(cfg)@, crate::error::unit_outcome(r)) == remove_custom_spec(old(cfg)@, name@),
        final(cfg)@.wf(),
{
    if is_builtin_name(name) {
        return Err(NetworkError::ReservedName { name: String::from_str(name) });
    }
    let found = find_network(&cfg.networks, name);
    if found.is_none() {
        return Err(NetworkError::UnknownNetwork { name: String::from_str(name) });
    }
    let i = found.unwrap();
    let ghost old_view = cfg@;
    proof {
        lemma_index_of_unique(old_view.networks, name@, i as int);
    }
    let was_active = same_text(cfg.network.as_str(), name);
    let _removed = cfg.networks.remove(i);
    if was_active {
        cfg.network = String::from_str("testnet");
    }
    proof {
        assert(cfg@.networks =~= old_view.networks.remove(i as int));
        lemma_remove_custom_keeps_wf(old_view, name@);
    }
    Ok(())
}

/// Renames the custom network `old_name` to `new_name` (see `rename_custom_spec`).
pub fn rename_custom_network(cfg: &mut Config, old_name: &str, new_name: &str) -> (r: Result<(), NetworkError>)
    requires
        old(cfg)@.wf(),
    ensures
        (final(cfg)@, crate::error::unit_outcome(r)) == rename_custom_spec(old(cfg)@, old_name@, new_name@),
        final(cfg)@.wf(),
{
    if is_builtin_name(old_name) {
        return Err(NetworkError::ReservedName { name: String::from_str(old_name) });
    }
    let found = find_network(&cfg.networks, old_name);
    if found.is_none() {
        return Err(NetworkError::UnknownNetwork { name: String::from_str(old_name) });
    }
    if is_builtin_name(new_name) {
        return Err(NetworkError::ReservedName { name: String::from_str(new_name) });
    }
    if find_network(&cfg.networks, new_name).is_some() {
        return Err(NetworkError::AlreadyExists { name: String::from_str(new_name) });
    }
    let i = found.unwrap();
    let ghost old_view = cfg@;
    proof {
        lemma_index_of_unique(old_view.networks, old_name@, i as int);
    }
    let was_active = same_text(cfg.network.as_str(), old_name);
    let mut entry = cfg.networks.remove(i);
    entry.name = String::from_str(new_name);
    let ghost e = entry@;
    cfg.networks.insert(i, entry);
    if was_active {
        cfg.network = String::from_str(new_name);
    }
    proof {
        let old_nets = old_view.networks;
        assert(e == NamedNetworkView { name: new_name@, config: old_nets[i as int].config });
        assert(cfg@.networks =~= old_nets.update(i as int, e));
        lemma_rename_custom_keeps_wf(old_view, old_name@, new_name@);
    }
    Ok(())
}

} // verus!

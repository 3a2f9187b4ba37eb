//! Properties that relate the network operations to one another.

use vstd::prelude::*;
use crate::config::{
    add_custom_spec, has_network, index_of, is_builtin, lemma_add_custom_keeps_wf,
    lemma_index_of_unique, lemma_remove_custom_keeps_wf, lemma_rename_custom_keeps_wf,
    remove_custom_spec, rename_custom_spec, testnet_name, ConfigView, NamedNetworkView,
    NetworkConfigView,
};
use crate::endpoint::{is_web_scheme, url_parse_outcome};
use crate::error::NetworkErrorView;
use crate::network::{
    friendbot_label, horizon_label, optional_url_outcome, plan_spec, soroban_label,
    add_network_spec, normalize_opt, passphrase_or_default, passphrase_outcome, remove_network_spec, switch_spec,
    url_check_outcome, SwitchOutcomeView,
};
use crate::text::{normalize_url, is_whitespace, lemma_stripped_has_no_trailing_slash, lemma_trim_empty_iff_blank, trim};

verus! {

/// A passphrase is accepted exactly when it is absent or holds at least one
/// non-whitespace character.
pub proof fn law_passphrase_accepted_iff_not_blank(passphrase: Option<Seq<char>>)
    ensures
        passphrase_outcome(passphrase) is Ok <==> match passphrase {
            Some(p) => exists|i: int| 0 <= i < p.len() && !is_whitespace(#[trigger] p[i]),
            None => true,
        },
{
    if let Some(p) = passphrase {
        lemma_trim_empty_iff_blank(p);
    }
}

/// An accepted endpoint is non-blank and parses to an `http` or `https` URL with a host.
pub proof fn law_accepted_url_is_web_url(label: Seq<char>, url: Seq<char>)
    requires
        url_check_outcome(label, url) is Ok,
    ensures
        trim(url).len() > 0,
        url_parse_outcome(trim(url)) matches Ok((scheme, host)) && is_web_scheme(scheme) && host is Some,
{
}

/// Switching to a network makes it active, and switching to it again changes nothing.
pub proof fn law_switch_is_idempotent(c: ConfigView, target: Seq<char>)
    requires
        c.wf(),
        switch_spec(c, target).1 is Ok,
    ensures
        switch_spec(c, target).0.network == target,
        switch_spec(switch_spec(c, target).0, target) == (
            switch_spec(c, target).0,
            Ok::<SwitchOutcomeView, NetworkErrorView>(SwitchOutcomeView::AlreadyActive),
        ),
{
}

/// A removed network is gone, and where it was the active one, `testnet` is active.
pub proof fn law_removed_network_is_gone(c: ConfigView, name: Seq<char>)
    requires
        c.wf(),
        remove_network_spec(c, name).1 is Ok,
    ensures
        !has_network(remove_network_spec(c, name).0.networks, name),
        remove_network_spec(c, name).1 == Ok::<bool, NetworkErrorView>(c.network == name),
        remove_network_spec(c, name).0.network == if c.network == name {
            testnet_name()
        } else {
            c.network
        },
        has_network(remove_network_spec(c, name).0.networks, remove_network_spec(c, name).0.network),
{
    lemma_remove_custom_keeps_wf(c, name);
    let i = index_of(c.networks, name);
    let nets = c.networks.remove(i);
    if has_network(nets, name) {
        let j = choose|j: int| 0 <= j < nets.len() && #[trigger] nets[j].name == name;
        if j < i {
            assert(c.networks[j].name != c.networks[i].name);
        } else {
            assert(nets[j] == c.networks[j + 1]);
            assert(c.networks[i].name != c.networks[j + 1].name);
        }
    }
}

/// Renaming a network and renaming it back restores the configuration.
pub proof fn law_rename_round_trip(c: ConfigView, old_name: Seq<char>, new_name: Seq<char>)
    requires
        c.wf(),
        rename_custom_spec(c, old_name, new_name).1 is Ok,
    ensures
        rename_custom_spec(rename_custom_spec(c, old_name, new_name).0, new_name, old_name) == (
            c,
            Ok::<(), NetworkErrorView>(()),
        ),
{
    let c2 = rename_custom_spec(c, old_name, new_name).0;
    lemma_rename_custom_keeps_wf(c, old_name, new_name);
    let i = index_of(c.networks, old_name);
    assert(c2.networks[i].name == new_name);
    lemma_index_of_unique(c2.networks, new_name, i);
    if has_network(c2.networks, old_name) {
        let j = choose|j: int| 0 <= j < c2.networks.len() && #[trigger] c2.networks[j].name == old_name;
        assert(j != i);
        assert(c.networks[j].name == old_name);
        if j < i {
            assert(c.networks[j].name != c.networks[i].name);
        } else {
            assert(c.networks[i].name != c.networks[j].name);
        }
    }
    let c3 = rename_custom_spec(c2, new_name, old_name).0;
    assert(c3.networks =~= c.networks);
    if c.network == new_name {
        assert(has_network(c.networks, new_name));
    }
}

/// Adding a custom network and then removing it restores the configuration.
pub proof fn law_add_then_remove_restores(c: ConfigView, name: Seq<char>, entry: NetworkConfigView)
    requires
        c.wf(),
        add_custom_spec(c, name, entry).1 is Ok,
    ensures
        remove_custom_spec(add_custom_spec(c, name, entry).0, name) == (c, Ok::<(), NetworkErrorView>(())),
{
    let c2 = add_custom_spec(c, name, entry).0;
    lemma_add_custom_keeps_wf(c, name, entry);
    let last = c.networks.len() as int;
    assert(c2.networks[last].name == name);
    lemma_index_of_unique(c2.networks, name, last);
    assert(c2.networks.remove(last) =~= c.networks);
    if c.network == name {
        assert(has_network(c.networks, name));
    }
}

/// A network added with `network add` can be looked up with the normalised
/// settings that `add` reports, its Horizon URL does not end with `'/'`, it
/// has the given passphrase or else the testnet one, and
/// removing it again restores the configuration and reports that it was not active.
pub proof fn law_added_network_reads_back(
    c: ConfigView,
    name: Seq<char>,
    horizon_url: Seq<char>,
    soroban_rpc_url: Option<Seq<char>>,
    friendbot_url: Option<Seq<char>>,
    passphrase: Option<Seq<char>>,
)
    requires
        c.wf(),
        add_network_spec(c, name, horizon_url, soroban_rpc_url, friendbot_url, passphrase).1 is Ok,
    ensures
        ({
            let (c2, r) = add_network_spec(c, name, horizon_url, soroban_rpc_url, friendbot_url, passphrase);
            &&& c2.wf()
            &&& has_network(c2.networks, name)
            &&& r == Ok::<NetworkConfigView, NetworkErrorView>(c2.lookup(name))
            &&& c2.lookup(name).horizon_url.len() == 0 || c2.lookup(name).horizon_url.last() != '/'
            &&& c2.lookup(name).soroban_rpc_url == normalize_opt(soroban_rpc_url)
            &&& c2.lookup(name).friendbot_url == normalize_opt(friendbot_url)
            &&& c2.lookup(name).passphrase == Some(passphrase_or_default(passphrase))
            &&& remove_network_spec(c2, name) == (c, Ok::<bool, NetworkErrorView>(false))
        }),
{
    let entry = crate::network::normalized_entry(horizon_url, soroban_rpc_url, friendbot_url, passphrase);
    let c2 = add_custom_spec(c, name, entry).0;
    lemma_add_custom_keeps_wf(c, name, entry);
    let last = c.networks.len() as int;
    assert(c2.networks[last] == NamedNetworkView { name, config: entry });
    lemma_index_of_unique(c2.networks, name, last);
    lemma_stripped_has_no_trailing_slash(trim(horizon_url));
    law_add_then_remove_restores(c, name, entry);
    if c.network == name {
        assert(has_network(c.networks, name));
    }
}

/// A refused operation leaves the configuration as it was.
pub proof fn law_refusals_change_nothing(c: ConfigView, name: Seq<char>, other: Seq<char>, entry: NetworkConfigView)
    ensures
        switch_spec(c, name).1 is Err ==> switch_spec(c, name).0 == c,
        add_custom_spec(c, name, entry).1 is Err ==> add_custom_spec(c, name, entry).0 == c,
        remove_custom_spec(c, name).1 is Err ==> remove_custom_spec(c, name).0 == c,
        rename_custom_spec(c, name, other).1 is Err ==> rename_custom_spec(c, name, other).0 == c,
{
}

/// Built-in networks can never be removed or renamed.
pub proof fn law_builtins_are_permanent(c: ConfigView, name: Seq<char>, other: Seq<char>)
    requires
        is_builtin(name),
    ensures
        remove_custom_spec(c, name) == (c, Err::<(), NetworkErrorView>(NetworkErrorView::ReservedName { name })),
        rename_custom_spec(c, name, other) == (c, Err::<(), NetworkErrorView>(NetworkErrorView::ReservedName { name })),
{
}

/// Adding a custom network succeeds exactly when its name is neither built in
/// nor already configured, whatever other networks exist; the new network is
/// appended after all existing ones, which stay as they were, and the active
/// network does not change. A refusal names the offending name for its reason.
pub proof fn law_add_custom_accepts_fresh_names(c: ConfigView, name: Seq<char>, entry: NetworkConfigView)
    requires
        c.wf(),
    ensures
        (add_custom_spec(c, name, entry).1 is Ok) <==> (!(name == "testnet"@ || name == "mainnet"@) && !has_network(c.networks, name)),
        add_custom_spec(c, name, entry).1 is Ok ==> ({
            let c2 = add_custom_spec(c, name, entry).0;
            &&& c2.network == c.network
            &&& c2.networks.len() == c.networks.len() + 1
            &&& c2.networks.subrange(0, c.networks.len() as int) == c.networks
            &&& c2.networks.last() == (NamedNetworkView { name, config: entry })
            &&& c2.lookup(name) == entry
        }),
        add_custom_spec(c, name, entry).1 matches Err(e) ==> (e == NetworkErrorView::ReservedName { name }
            && (name == "testnet"@ || name == "mainnet"@)) || (e == NetworkErrorView::AlreadyExists { name } && has_network(
            c.networks,
            name,
        )),
{
    if !(name == "testnet"@ || name == "mainnet"@) && !has_network(c.networks, name) {
        let c2 = add_custom_spec(c, name, entry).0;
        lemma_add_custom_keeps_wf(c, name, entry);
        assert(c2.networks.subrange(0, c.networks.len() as int) =~= c.networks);
        lemma_index_of_unique(c2.networks, name, c.networks.len() as int);
    }
}

/// `network add` with a fresh custom name and acceptable endpoints and
/// passphrase always succeeds, however many custom networks exist already: the
/// new network is appended with its endpoints trimmed and stripped of trailing
/// slashes and with the given passphrase or else the testnet one, and it is
/// exactly what the call reports.
pub proof fn law_add_network_accepts_valid_fresh_networks(
    c: ConfigView,
    name: Seq<char>,
    horizon_url: Seq<char>,
    soroban_rpc_url: Option<Seq<char>>,
    friendbot_url: Option<Seq<char>>,
    passphrase: Option<Seq<char>>,
)
    requires
        c.wf(),
        !(name == "testnet"@ || name == "mainnet"@),
        !has_network(c.networks, name),
        url_check_outcome(horizon_label(), horizon_url) is Ok,
        optional_url_outcome(soroban_label(), soroban_rpc_url) is Ok,
        optional_url_outcome(friendbot_label(), friendbot_url) is Ok,
        passphrase_outcome(passphrase) is Ok,
    ensures
        ({
            let (c2, r) = add_network_spec(c, name, horizon_url, soroban_rpc_url, friendbot_url, passphrase);
            let added = c2.networks.last();
            &&& r == Ok::<NetworkConfigView, NetworkErrorView>(added.config)
            &&& c2.network == c.network
            &&& c2.networks.len() == c.networks.len() + 1
            &&& c2.networks.subrange(0, c.networks.len() as int) == c.networks
            &&& added.name == name
            &&& added.config.horizon_url == normalize_url(horizon_url)
            &&& added.config.soroban_rpc_url == match soroban_rpc_url {
                Some(u) => Some(normalize_url(u)),
                None => None,
            }
            &&& added.config.friendbot_url == match friendbot_url {
                Some(u) => Some(normalize_url(u)),
                None => None,
            }
            &&& added.config.passphrase == Some(
                match passphrase {
                    Some(p) => p,
                    None => "Test SDF Network ; September 2015"@,
                },
            )
        }),
{
    let entry = crate::network::normalized_entry(horizon_url, soroban_rpc_url, friendbot_url, passphrase);
    law_add_custom_accepts_fresh_names(c, name, entry);
}

/// Switching succeeds exactly when the target is configured, built-in or
/// custom, wherever it is listed; the target then is the active network, the
/// networks are untouched, and a change of network reports the previous one
/// and whether the new one is `mainnet`.
pub proof fn law_switch_accepts_configured_networks(c: ConfigView, target: Seq<char>)
    requires
        c.wf(),
    ensures
        (switch_spec(c, target).1 is Ok) <==> has_network(c.networks, target),
        switch_spec(c, target).0.networks == c.networks,
        switch_spec(c, target).0.network == if has_network(c.networks, target) {
            target
        } else {
            c.network
        },
        has_network(c.networks, target) && c.network != target ==> (switch_spec(c, target).1 == Ok::<
            SwitchOutcomeView,
            NetworkErrorView,
        >(SwitchOutcomeView::Switched { previous: c.network, to_mainnet: target == "mainnet"@ })),
        c.network == target ==> (switch_spec(c, target).1 == Ok::<SwitchOutcomeView, NetworkErrorView>(
            SwitchOutcomeView::AlreadyActive,
        )),
        switch_spec(c, target).1 matches Err(e) ==> e == (NetworkErrorView::UnknownNetwork { name: target }),
{
}

/// Removing succeeds exactly for configured custom networks, wherever they
/// are listed: exactly that network leaves the list, the others keep their
/// order, the result says whether it was active, and if it was, `testnet`
/// becomes active. A refusal is for a built-in or an unknown name.
pub proof fn law_remove_accepts_any_custom_network(c: ConfigView, name: Seq<char>)
    requires
        c.wf(),
    ensures
        (remove_network_spec(c, name).1 is Ok) <==> (!(name == "testnet"@ || name == "mainnet"@) && has_network(c.networks, name)),
        remove_network_spec(c, name).1 is Ok ==> ({
            let c2 = remove_network_spec(c, name).0;
            &&& remove_network_spec(c, name).1 == Ok::<bool, NetworkErrorView>(c.network == name)
            &&& exists|i: int|
                #![trigger c.networks.remove(i)]
                0 <= i < c.networks.len() && c.networks[i].name == name && c2.networks == c.networks.remove(i)
            &&& c2.network == if c.network == name {
                "testnet"@
            } else {
                c.network
            }
        }),
        remove_network_spec(c, name).1 matches Err(e) ==> (e == NetworkErrorView::ReservedName { name }
            && (name == "testnet"@ || name == "mainnet"@)) || (e == NetworkErrorView::UnknownNetwork { name } && !has_network(
            c.networks,
            name,
        )),
{
    if !(name == "testnet"@ || name == "mainnet"@) && has_network(c.networks, name) {
        let i = index_of(c.networks, name);
        assert(c.networks.remove(i) == remove_network_spec(c, name).0.networks);
    }
}

/// Renaming succeeds exactly when the old name is a configured custom network,
/// wherever it is listed, and the new name is neither built in nor in use:
/// that network alone changes its name, in place and with its settings, and it
/// stays active if it was. A refusal names the offending name for its reason.
pub proof fn law_rename_accepts_any_custom_network(c: ConfigView, old_name: Seq<char>, new_name: Seq<char>)
    requires
        c.wf(),
    ensures
        (rename_custom_spec(c, old_name, new_name).1 is Ok) <==> (!(old_name == "testnet"@ || old_name == "mainnet"@) && has_network(
            c.networks,
            old_name,
        ) && !(new_name == "testnet"@ || new_name == "mainnet"@) && !has_network(c.networks, new_name)),
        rename_custom_spec(c, old_name, new_name).1 is Ok ==> ({
            let c2 = rename_custom_spec(c, old_name, new_name).0;
            &&& c2.networks.len() == c.networks.len()
            &&& forall|k: int|
                0 <= k < c.networks.len() ==> #[trigger] c2.networks[k] == if c.networks[k].name == old_name {
                    NamedNetworkView { name: new_name, config: c.networks[k].config }
                } else {
                    c.networks[k]
                }
            &&& c2.network == if c.network == old_name {
                new_name
            } else {
                c.network
            }
            &&& c2.lookup(new_name) == c.lookup(old_name)
        }),
        rename_custom_spec(c, old_name, new_name).1 matches Err(e) ==> {
            ||| e == NetworkErrorView::ReservedName { name: old_name } && (old_name == "testnet"@ || old_name == "mainnet"@)
            ||| e == NetworkErrorView::UnknownNetwork { name: old_name } && !has_network(c.networks, old_name)
            ||| e == NetworkErrorView::ReservedName { name: new_name } && (new_name == "testnet"@ || new_name == "mainnet"@)
            ||| e == NetworkErrorView::AlreadyExists { name: new_name } && has_network(c.networks, new_name)
        },
{
    if !(old_name == "testnet"@ || old_name == "mainnet"@) && has_network(c.networks, old_name) && !(new_name == "testnet"@ || new_name == "mainnet"@)
        && !has_network(c.networks, new_name) {
        let i = index_of(c.networks, old_name);
        let c2 = rename_custom_spec(c, old_name, new_name).0;
        assert forall|k: int| 0 <= k < c.networks.len() implies #[trigger] c2.networks[k] == if c.networks[k].name
            == old_name {
            NamedNetworkView { name: new_name, config: c.networks[k].config }
        } else {
            c.networks[k]
        } by {
            if k != i && c.networks[k].name == old_name {
                if k < i {
                    assert(c.networks[k].name != c.networks[i].name);
                } else {
                    assert(c.networks[i].name != c.networks[k].name);
                }
            }
        }
        lemma_rename_custom_keeps_wf(c, old_name, new_name);
        lemma_index_of_unique(c2.networks, new_name, i);
    }
}

/// `network test` with no network named tests the active network, which a
/// well-formed configuration always has: its Horizon endpoint, that
/// endpoint followed by `/health`, and its Soroban RPC endpoint. A named
/// network is tested exactly when it is configured.
pub proof fn law_test_defaults_to_active_network(c: ConfigView, requested: Seq<char>)
    requires
        c.wf(),
    ensures
        plan_spec(c, None) == Ok::<(Seq<char>, Seq<char>, Seq<char>, Option<Seq<char>>), NetworkErrorView>(
            (
                c.network,
                c.lookup(c.network).horizon_url,
                c.lookup(c.network).horizon_url + "/health"@,
                c.lookup(c.network).soroban_rpc_url,
            ),
        ),
        (plan_spec(c, Some(requested)) is Ok) <==> has_network(c.networks, requested),
        plan_spec(c, Some(requested)) matches Ok((n, h, health, s)) ==> (n == requested && h == c.lookup(
            requested,
        ).horizon_url && health == h + "/health"@ && s == c.lookup(requested).soroban_rpc_url),
        plan_spec(c, Some(requested)) matches Err(e) ==> e == (NetworkErrorView::UnknownNetwork { name: requested }),
{
}

} // verus!

//! The operator's configuration.

use crate::api::types::{
    Country, Features, Tier, IPV6, P2P, SECURE_CORE, STREAMING, TOR,
};
use crate::client::openvpn::Protocol;
use crate::text::string_views;
use vstd::prelude::*;

verus! {

/// How one server is picked from those that pass the filters.
#[derive(Debug, Clone, Copy, PartialEq, Eq, Structural)]
pub enum Select {
    Fastest,
    Random,
    LeastLoad,
}

/// A server feature, by name.
#[derive(Debug, Clone, Copy, PartialEq, Eq, Structural)]
pub enum FeatureEnum {
    SecureCore,
    Tor,
    P2P,
    Streaming,
    Ipv6,
}

/// What a server must meet to be considered.
#[derive(Debug)]
pub struct Filters {
    pub tier: Tier,
    pub max_load: u8,
    pub country: Option<Country>,
    pub features: Vec<FeatureEnum>,
}

/// The killswitch section of the configuration.
#[derive(Debug)]
pub struct Killswitch {
    pub enable: bool,
    /// Rule lines that are appended to the generated rules, as they are.
    pub custom_rules: Option<Vec<String>>,
}

/// The configuration as a whole.
#[derive(Debug)]
pub struct Configuration {
    /// Days after which a cached server directory is stale.
    pub max_cache_age: u64,
    pub autostart_default: bool,
    pub default_select: Select,
    pub default_criteria: Filters,
    pub default_protocol: Protocol,
    /// Path of the file with the tunnel credentials.
    pub credentials_path: Option<String>,
    /// Path of the helper that updates the resolver configuration. Only
    /// read where the platform has such a helper.
    pub update_resolv_conf_path: Option<String>,
    pub killswitch: Killswitch,
}

impl Killswitch {
    /// The custom rule lines, in order; none where none are configured.
    pub open spec fn rules(self) -> Seq<Seq<char>> {
        match self.custom_rules {
            Some(rules) => string_views(rules@),
            None => Seq::<Seq<char>>::empty(),
        }
    }
}

impl Default for Configuration {
    fn default() -> (config: Configuration)
        ensures
            config.max_cache_age == 3,
            !config.autostart_default,
            config.default_select == Select::Fastest,
            config.default_criteria.tier == Tier::Premium,
            config.default_criteria.max_load == 90,
            config.default_criteria.country is None,
            config.default_criteria.features@ == seq![FeatureEnum::P2P, FeatureEnum::Streaming],
            config.default_protocol == Protocol::Udp,
            config.credentials_path is None,
            config.update_resolv_conf_path is None,
            !config.killswitch.enable,
            config.killswitch.custom_rules is None,
    {
        let features = vec![FeatureEnum::P2P, FeatureEnum::Streaming];
        assert(features@ =~= seq![FeatureEnum::P2P, FeatureEnum::Streaming]);
        Configuration {
            max_cache_age: 3,
            autostart_default: false,
            credentials_path: None,
            update_resolv_conf_path: None,
            default_select: Select::Fastest,
            default_protocol: Protocol::default(),
            default_criteria: Filters {
                tier: Tier::default(),
                max_load: 90,
                country: None,
                features,
            },
            killswitch: Killswitch { enable: false, custom_rules: None },
        }
    }
}

/// The context that every component reads the configuration from. It is
/// made once, at startup.
#[derive(Debug)]
pub struct Context {
    pub config: Configuration,
}

/// The configuration of this run.
pub fn read(context: &Context) -> (config: &Configuration)
    ensures
        *config == context.config,
{
    &context.config
}

/// The places where a configuration file is looked for, in order, for a
/// user whose home directory is `home`.
pub open spec fn candidate_paths(home: Seq<char>) -> Seq<Seq<char>> {
    seq![
        "/etc/protonvpn-rs/config.ron"@,
        home + "/.config/protonvpn.ron"@,
        home + "/.protonvpn.ron"@,
    ]
}

/// The places where a configuration file is looked for, in order.
pub fn config_paths(home: &str) -> (paths: Vec<String>)
    ensures
        string_views(paths@) == candidate_paths(home@),
{
    let system = "/etc/protonvpn-rs/config.ron".to_owned();
    let mut user = home.to_owned();
    user.append("/.config/protonvpn.ron");
    let mut dotfile = home.to_owned();
    dotfile.append("/.protonvpn.ron");
    let paths = vec![system, user, dotfile];
    assert(string_views(paths@) =~= candidate_paths(home@));
    paths
}

/// Whether the place at `index` is known to exist: `exists` says so for the
/// places in order, and a place that it does not reach counts as absent.
pub open spec fn known(exists: Seq<bool>, index: int) -> bool {
    0 <= index < exists.len() && exists[index]
}

/// Index of the first of the three places that is known to exist.
pub open spec fn first_existing(exists: Seq<bool>) -> Option<int> {
    if known(exists, 0) {
        Some(0int)
    } else if known(exists, 1) {
        Some(1int)
    } else if known(exists, 2) {
        Some(2int)
    } else {
        None
    }
}

/// Which configuration file is read: the one that was named on the command
/// line, else the first of the usual places that exists. `None` means that
/// the built-in configuration is used.
///
/// `exists` says for each of the usual places, in order, whether a file is
/// there.
pub fn init(explicit: Option<String>, home: &str, exists: &Vec<bool>) -> (path: Option<String>)
    ensures
        match explicit {
            Some(given) => path == Some(given),
            None => match first_existing(exists@) {
                Some(i) => path is Some && path->0@ == candidate_paths(home@)[i],
                None => path is None,
            },
        },
{
    match explicit {
        Some(given) => Some(given),
        None => {
            let mut paths = config_paths(home);
            proof {
                assert(string_views(paths@).len() == paths@.len());
                assert(candidate_paths(home@).len() == 3);
                assert(string_views(paths@)[0] == paths@[0]@);
                assert(string_views(paths@)[1] == paths@[1]@);
                assert(string_views(paths@)[2] == paths@[2]@);
            }
            if exists.len() > 0 && exists[0] {
                Some(paths.swap_remove(0))
            } else if exists.len() > 1 && exists[1] {
                Some(paths.swap_remove(1))
            } else if exists.len() > 2 && exists[2] {
                Some(paths.swap_remove(2))
            } else {
                None
            }
        },
    }
}

/// A list of named values that stands for a set of flags.
pub trait FlattenBitflagEnum<F> {
    /// The set of all the flags in the list.
    spec fn flattened(&self) -> F;

    fn flatten(&self) -> (set: F)
        ensures
            set == self.flattened(),
    ;
}

/// The bits of all the features in the list.
pub open spec fn feature_bits(features: Seq<FeatureEnum>) -> u8
    decreases features.len(),
{
    if features.len() == 0 {
        0
    } else {
        feature_bits(features.drop_last()) | features.last().bit()
    }
}

impl FlattenBitflagEnum<Features> for Vec<FeatureEnum> {
    open spec fn flattened(&self) -> Features {
        Features { bits: feature_bits(self@) }
    }

    fn flatten(&self) -> (set: Features) {
        let mut result = Features::empty();
        let mut i: usize = 0;
        assert(self@.take(0) =~= Seq::<FeatureEnum>::empty());
        while i < self.len()
            invariant
                i <= self.len(),
                result.bits == feature_bits(self@.take(i as int)),
            decreases self.len() - i,
        {
            assert(self@.take(i + 1).drop_last() =~= self@.take(i as int));
            assert(self@.take(i + 1).last() == self@[i as int]);
            result.insert(self[i].to_bitflag());
            i += 1;
        }
        assert(self@.take(i as int) =~= self@);
        result
    }
}

impl FeatureEnum {
    /// The bit that stands for the feature.
    pub open spec fn bit(self) -> u8 {
        match self {
            FeatureEnum::SecureCore => SECURE_CORE,
            FeatureEnum::Tor => TOR,
            FeatureEnum::P2P => P2P,
            FeatureEnum::Streaming => STREAMING,
            FeatureEnum::Ipv6 => IPV6,
        }
    }

    pub fn to_bitflag(&self) -> (set: Features)
        ensures
            set@ == self.bit(),
    {
        let bits = match self {
            FeatureEnum::SecureCore => SECURE_CORE,
            FeatureEnum::Ipv6 => IPV6,
            FeatureEnum::Tor => TOR,
            FeatureEnum::P2P => P2P,
            FeatureEnum::Streaming => STREAMING,
        };
        Features { bits }
    }
}

} // verus!

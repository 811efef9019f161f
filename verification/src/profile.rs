//! Launch profiles: immutable descriptions of how to start the worker.
//! A profile combines display metadata (name, working directory, binary
//! path) with one of three connection configurations, and turns the
//! configuration into the exact ordered argument vector handed to the
//! worker binary. Paths and addresses are carried as plain text; the
//! loader resolves them before building these values.
//!
//! Each type has a mathematical view (`@`) over which every contract is
//! stated; two profiles with the same view launch the same worker the
//! same way.

use vstd::prelude::*;

use crate::strfmt::{dec_str, u64_to_string};

verus! {

/// Optional fields with which a configuration file may override the
/// profile's default metadata.
#[derive(Debug, Clone, PartialEq)]
pub struct MetadataOverride {
    pub display_name: Option<String>,
    pub pwd: Option<String>,
    pub bin_path: Option<String>,
}

/// The view of a [`MetadataOverride`].
pub struct MetadataOverrideV {
    pub display_name: Option<Seq<char>>,
    pub pwd: Option<Seq<char>>,
    pub bin_path: Option<Seq<char>>,
}

impl View for MetadataOverride {
    type V = MetadataOverrideV;

    open spec fn view(&self) -> MetadataOverrideV {
        MetadataOverrideV {
            display_name: self.display_name.deep_view(),
            pwd: self.pwd.deep_view(),
            bin_path: self.bin_path.deep_view(),
        }
    }
}

/// Resolved metadata for a profile: its unique display name, the working
/// directory for the worker, and the worker binary to run.
#[derive(Debug, Clone, PartialEq)]
pub struct ProfileMetadata {
    pub display_name: String,
    pub pwd: String,
    pub bin_path: String,
}

/// The view of a [`ProfileMetadata`].
pub struct ProfileMetadataV {
    pub display_name: Seq<char>,
    pub pwd: Seq<char>,
    pub bin_path: Seq<char>,
}

impl View for ProfileMetadata {
    type V = ProfileMetadataV;

    open spec fn view(&self) -> ProfileMetadataV {
        ProfileMetadataV {
            display_name: self.display_name@,
            pwd: self.pwd@,
            bin_path: self.bin_path@,
        }
    }
}

/// A host and port as launch-argument text. `ipv6` records whether the
/// host is an IPv6 literal, which must be bracketed when rendered; the
/// loader classifies the host when it builds the profile.
#[derive(Debug, Clone, PartialEq)]
pub struct HostPort {
    pub host: String,
    pub port: u16,
    pub ipv6: bool,
}

/// The view of a [`HostPort`].
pub struct HostPortV {
    pub host: Seq<char>,
    pub port: u16,
    pub ipv6: bool,
}

impl View for HostPort {
    type V = HostPortV;

    open spec fn view(&self) -> HostPortV {
        HostPortV { host: self.host@, port: self.port, ipv6: self.ipv6 }
    }
}

/// The rendering of an address in an argument vector: `host:port`, with
/// the host bracketed if it is an IPv6 literal.
pub open spec fn addr_text(a: HostPortV) -> Seq<char> {
    if a.ipv6 {
        "["@ + a.host + "]:"@ + dec_str(a.port as nat)
    } else {
        a.host + ":"@ + dec_str(a.port as nat)
    }
}

/// Render an address as it appears in the argument vector.
pub fn format_addr(a: &HostPort) -> (s: String)
    ensures
        s@ == addr_text(a@),
{
    let port = u64_to_string(a.port as u64);
    let mut s = if a.ipv6 {
        let mut t = String::from_str("[");
        t.append(a.host.as_str());
        t.append("]:");
        t
    } else {
        let mut t = a.host.clone();
        t.append(":");
        t
    };
    s.append(port.as_str());
    proof {
        assert(s@ =~= addr_text(a@));
    }
    s
}

/// Options for a profile that points the worker at a configuration file.
#[derive(Debug, Clone, PartialEq)]
pub struct ConfigFileOptions {
    pub config_path: String,
}

/// The view of a [`ConfigFileOptions`].
pub struct ConfigFileOptionsV {
    pub config_path: Seq<char>,
}

impl View for ConfigFileOptions {
    type V = ConfigFileOptionsV;

    open spec fn view(&self) -> ConfigFileOptionsV {
        ConfigFileOptionsV { config_path: self.config_path@ }
    }
}

/// The arguments contributed by [`ConfigFileOptions`].
pub open spec fn config_file_args(o: ConfigFileOptionsV) -> Seq<Seq<char>> {
    seq!["--config"@, o.config_path]
}

impl ConfigFileOptions {
    pub fn to_launch_args(&self) -> (args: Vec<String>)
        ensures
            args.deep_view() == config_file_args(self@),
    {
        let mut args: Vec<String> = Vec::new();
        args.push(String::from_str("--config"));
        args.push(self.config_path.clone());
        proof {
            assert(args.deep_view() =~= config_file_args(self@));
        }
        args
    }
}

/// Connection fields shared by the profile kinds that do not use a
/// configuration file.
#[derive(Debug, Clone, PartialEq)]
pub struct ConnectOptions {
    pub local_addr: HostPort,
    pub server_addr: HostPort,
    pub password: String,
    pub encrypt_method: String,
}

/// The view of a [`ConnectOptions`].
pub struct ConnectOptionsV {
    pub local_addr: HostPortV,
    pub server_addr: HostPortV,
    pub password: Seq<char>,
    pub encrypt_method: Seq<char>,
}

impl View for ConnectOptions {
    type V = ConnectOptionsV;

    open spec fn view(&self) -> ConnectOptionsV {
        ConnectOptionsV {
            local_addr: self.local_addr@,
            server_addr: self.server_addr@,
            password: self.password@,
            encrypt_method: self.encrypt_method@,
        }
    }
}

/// The arguments contributed by [`ConnectOptions`]: both addresses, the
/// password and the encryption method, each behind its flag.
pub open spec fn connect_args(c: ConnectOptionsV) -> Seq<Seq<char>> {
    seq![
        "--local-addr"@,
        addr_text(c.local_addr),
        "--server-addr"@,
        addr_text(c.server_addr),
        "--password"@,
        c.password,
        "--encrypt-method"@,
        c.encrypt_method,
    ]
}

impl ConnectOptions {
    pub fn to_launch_args(&self) -> (args: Vec<String>)
        ensures
            args.deep_view() == connect_args(self@),
    {
        let mut args: Vec<String> = Vec::new();
        args.push(String::from_str("--local-addr"));
        args.push(format_addr(&self.local_addr));
        args.push(String::from_str("--server-addr"));
        args.push(format_addr(&self.server_addr));
        args.push(String::from_str("--password"));
        args.push(self.password.clone());
        args.push(String::from_str("--encrypt-method"));
        args.push(self.encrypt_method.clone());
        proof {
            assert(args.deep_view() =~= connect_args(self@));
        }
        args
    }
}

/// Options for a plain proxy-mode profile. There are none yet; the kind
/// exists so that proxy profiles are distinct from tun profiles.
#[derive(Debug, Clone, PartialEq)]
pub struct ProxyOptions {
}

/// The arguments contributed by [`ProxyOptions`]: none.
pub open spec fn proxy_args() -> Seq<Seq<char>> {
    Seq::empty()
}

impl ProxyOptions {
    pub fn to_launch_args(&self) -> (args: Vec<String>)
        ensures
            args.deep_view() == proxy_args(),
    {
        let args: Vec<String> = Vec::new();
        proof {
            assert(args.deep_view() =~= proxy_args());
        }
        args
    }
}

/// Options for a tun-mode profile: an optional interface name and an
/// optional interface address in CIDR text.
#[derive(Debug, Clone, PartialEq)]
pub struct TunOptions {
    pub if_name: Option<String>,
    pub if_addr: Option<String>,
}

/// The view of a [`TunOptions`].
pub struct TunOptionsV {
    pub if_name: Option<Seq<char>>,
    pub if_addr: Option<Seq<char>>,
}

impl View for TunOptions {
    type V = TunOptionsV;

    open spec fn view(&self) -> TunOptionsV {
        TunOptionsV { if_name: self.if_name.deep_view(), if_addr: self.if_addr.deep_view() }
    }
}

/// The arguments contributed by [`TunOptions`]: the tun protocol flag,
/// then the interface name and address where given.
pub open spec fn tun_args(o: TunOptionsV) -> Seq<Seq<char>> {
    seq!["--protocol"@, "tun"@] + (match o.if_name {
        Some(n) => seq!["--tun-interface-name"@, n],
        None => Seq::empty(),
    }) + (match o.if_addr {
        Some(a) => seq!["--tun-interface-address"@, a],
        None => Seq::empty(),
    })
}

impl TunOptions {
    pub fn to_launch_args(&self) -> (args: Vec<String>)
        ensures
            args.deep_view() == tun_args(self@),
    {
        let mut args: Vec<String> = Vec::new();
        args.push(String::from_str("--protocol"));
        args.push(String::from_str("tun"));
        if let Some(n) = &self.if_name {
            args.push(String::from_str("--tun-interface-name"));
            args.push(n.clone());
        }
        if let Some(a) = &self.if_addr {
            args.push(String::from_str("--tun-interface-address"));
            args.push(a.clone());
        }
        proof {
            assert(args.deep_view() =~= tun_args(self@));
        }
        args
    }
}

/// Extra arguments for advanced users, appended verbatim after every
/// generated argument.
#[derive(Debug, Clone, PartialEq)]
pub struct AdvancedOptions {
    pub extra_args: Option<Vec<String>>,
}

/// The view of an [`AdvancedOptions`].
pub struct AdvancedOptionsV {
    pub extra_args: Option<Seq<Seq<char>>>,
}

impl View for AdvancedOptions {
    type V = AdvancedOptionsV;

    open spec fn view(&self) -> AdvancedOptionsV {
        AdvancedOptionsV {
            extra_args: match self.extra_args {
                Some(v) => Some(v.deep_view()),
                None => None,
            },
        }
    }
}

/// The arguments contributed by [`AdvancedOptions`]: the extra arguments
/// as given, if any.
pub open spec fn advanced_args(o: AdvancedOptionsV) -> Seq<Seq<char>> {
    match o.extra_args {
        Some(v) => v,
        None => Seq::empty(),
    }
}

impl AdvancedOptions {
    pub fn to_launch_args(&self) -> (args: Vec<String>)
        ensures
            args.deep_view() == advanced_args(self@),
    {
        match &self.extra_args {
            Some(extra) => {
                let args = extra.clone();
                proof {
                    assert(args.deep_view() =~= advanced_args(self@));
                }
                args
            },
            None => {
                let args: Vec<String> = Vec::new();
                proof {
                    assert(args.deep_view() =~= advanced_args(self@));
                }
                args
            },
        }
    }
}

/// The static configuration of a profile, as read from its file on disk.
#[derive(Debug, Clone, PartialEq)]
pub enum ProfileConfig {
    /// The worker reads an arbitrary configuration file.
    ConfigFile { metadata: MetadataOverride, opts: ConfigFileOptions, adv_opts: AdvancedOptions },
    /// The worker runs in proxy mode.
    Proxy {
        metadata: MetadataOverride,
        conn_opts: ConnectOptions,
        opts: ProxyOptions,
        adv_opts: AdvancedOptions,
    },
    /// The worker runs in tun mode.
    Tun {
        metadata: MetadataOverride,
        conn_opts: ConnectOptions,
        opts: TunOptions,
        adv_opts: AdvancedOptions,
    },
}

/// The view of a [`ProfileConfig`].
pub enum ProfileConfigV {
    ConfigFile { metadata: MetadataOverrideV, opts: ConfigFileOptionsV, adv_opts: AdvancedOptionsV },
    Proxy {
        metadata: MetadataOverrideV,
        conn_opts: ConnectOptionsV,
        adv_opts: AdvancedOptionsV,
    },
    Tun {
        metadata: MetadataOverrideV,
        conn_opts: ConnectOptionsV,
        opts: TunOptionsV,
        adv_opts: AdvancedOptionsV,
    },
}

impl View for ProfileConfig {
    type V = ProfileConfigV;

    open spec fn view(&self) -> ProfileConfigV {
        match self {
            ProfileConfig::ConfigFile { metadata, opts, adv_opts } => ProfileConfigV::ConfigFile {
                metadata: metadata@,
                opts: opts@,
                adv_opts: adv_opts@,
            },
            ProfileConfig::Proxy { metadata, conn_opts, opts, adv_opts } => ProfileConfigV::Proxy {
                metadata: metadata@,
                conn_opts: conn_opts@,
                adv_opts: adv_opts@,
            },
            ProfileConfig::Tun { metadata, conn_opts, opts, adv_opts } => ProfileConfigV::Tun {
                metadata: metadata@,
                conn_opts: conn_opts@,
                opts: opts@,
                adv_opts: adv_opts@,
            },
        }
    }
}

/// The full ordered argument vector for a configuration: the arguments
/// of its kind, then the advanced extras.
pub open spec fn launch_args(c: ProfileConfigV) -> Seq<Seq<char>> {
    match c {
        ProfileConfigV::ConfigFile { opts, adv_opts, .. } => config_file_args(opts)
            + advanced_args(adv_opts),
        ProfileConfigV::Proxy { conn_opts, adv_opts, .. } => connect_args(conn_opts) + proxy_args()
            + advanced_args(adv_opts),
        ProfileConfigV::Tun { conn_opts, opts, adv_opts, .. } => connect_args(conn_opts) + tun_args(
            opts,
        ) + advanced_args(adv_opts),
    }
}

/// The metadata override of a configuration, whatever its kind.
pub open spec fn spec_metadata_override(c: ProfileConfigV) -> MetadataOverrideV {
    match c {
        ProfileConfigV::ConfigFile { metadata, .. } => metadata,
        ProfileConfigV::Proxy { metadata, .. } => metadata,
        ProfileConfigV::Tun { metadata, .. } => metadata,
    }
}

impl ProfileConfig {
    pub fn get_metadata_override(&self) -> (m: &MetadataOverride)
        ensures
            m@ == spec_metadata_override(self@),
    {
        match self {
            ProfileConfig::ConfigFile { metadata, .. } => metadata,
            ProfileConfig::Proxy { metadata, .. } => metadata,
            ProfileConfig::Tun { metadata, .. } => metadata,
        }
    }

    pub fn to_launch_args(&self) -> (args: Vec<String>)
        ensures
            args.deep_view() == launch_args(self@),
    {
        match self {
            ProfileConfig::ConfigFile { opts, adv_opts, .. } => {
                let mut args = opts.to_launch_args();
                let mut adv = adv_opts.to_launch_args();
                args.append(&mut adv);
                proof {
                    assert(args.deep_view() =~= launch_args(self@));
                }
                args
            },
            ProfileConfig::Proxy { conn_opts, opts, adv_opts, .. } => {
                let mut args = conn_opts.to_launch_args();
                let mut mode = opts.to_launch_args();
                let mut adv = adv_opts.to_launch_args();
                args.append(&mut mode);
                args.append(&mut adv);
                proof {
                    assert(args.deep_view() =~= launch_args(self@));
                }
                args
            },
            ProfileConfig::Tun { conn_opts, opts, adv_opts, .. } => {
                let mut args = conn_opts.to_launch_args();
                let mut mode = opts.to_launch_args();
                let mut adv = adv_opts.to_launch_args();
                args.append(&mut mode);
                args.append(&mut adv);
                proof {
                    assert(args.deep_view() =~= launch_args(self@));
                }
                args
            },
        }
    }

    fn duplicate(&self) -> (r: ProfileConfig)
        ensures
            r@ == self@,
    {
        match self {
            ProfileConfig::ConfigFile { metadata, opts, adv_opts } => ProfileConfig::ConfigFile {
                metadata: metadata.duplicate(),
                opts: ConfigFileOptions { config_path: opts.config_path.clone() },
                adv_opts: adv_opts.duplicate(),
            },
            ProfileConfig::Proxy { metadata, conn_opts, opts, adv_opts } => ProfileConfig::Proxy {
                metadata: metadata.duplicate(),
                conn_opts: conn_opts.duplicate(),
                opts: ProxyOptions {  },
                adv_opts: adv_opts.duplicate(),
            },
            ProfileConfig::Tun { metadata, conn_opts, opts, adv_opts } => ProfileConfig::Tun {
                metadata: metadata.duplicate(),
                conn_opts: conn_opts.duplicate(),
                opts: TunOptions {
                    if_name: duplicate_opt_string(&opts.if_name),
                    if_addr: duplicate_opt_string(&opts.if_addr),
                },
                adv_opts: adv_opts.duplicate(),
            },
        }
    }
}

/// A complete launch profile: resolved metadata plus configuration.
#[derive(Debug, Clone, PartialEq)]
pub struct Profile {
    pub metadata: ProfileMetadata,
    pub config: ProfileConfig,
}

/// The view of a [`Profile`].
pub struct ProfileV {
    pub metadata: ProfileMetadataV,
    pub config: ProfileConfigV,
}

impl View for Profile {
    type V = ProfileV;

    open spec fn view(&self) -> ProfileV {
        ProfileV { metadata: self.metadata@, config: self.config@ }
    }
}

impl DeepView for Profile {
    type V = ProfileV;

    open spec fn deep_view(&self) -> ProfileV {
        self@
    }
}

impl Profile {
    /// A field-by-field copy with the same view as this profile (a
    /// derived clone promises nothing about its result).
    pub fn duplicate(&self) -> (p: Profile)
        ensures
            p@ == self@,
    {
        Profile {
            metadata: ProfileMetadata {
                display_name: self.metadata.display_name.clone(),
                pwd: self.metadata.pwd.clone(),
                bin_path: self.metadata.bin_path.clone(),
            },
            config: self.config.duplicate(),
        }
    }
}

fn duplicate_opt_string(o: &Option<String>) -> (r: Option<String>)
    ensures
        r == *o,
{
    match o {
        Some(s) => Some(s.clone()),
        None => None,
    }
}

impl MetadataOverride {
    fn duplicate(&self) -> (r: MetadataOverride)
        ensures
            r@ == self@,
    {
        MetadataOverride {
            display_name: duplicate_opt_string(&self.display_name),
            pwd: duplicate_opt_string(&self.pwd),
            bin_path: duplicate_opt_string(&self.bin_path),
        }
    }
}

impl ConnectOptions {
    fn duplicate(&self) -> (r: ConnectOptions)
        ensures
            r@ == self@,
    {
        ConnectOptions {
            local_addr: HostPort {
                host: self.local_addr.host.clone(),
                port: self.local_addr.port,
                ipv6: self.local_addr.ipv6,
            },
            server_addr: HostPort {
                host: self.server_addr.host.clone(),
                port: self.server_addr.port,
                ipv6: self.server_addr.ipv6,
            },
            password: self.password.clone(),
            encrypt_method: self.encrypt_method.clone(),
        }
    }
}

impl AdvancedOptions {
    fn duplicate(&self) -> (r: AdvancedOptions)
        ensures
            r@ == self@,
    {
        match &self.extra_args {
            Some(v) => {
                let w = v.clone();
                proof {
                    assert(w.deep_view() =~= v.deep_view());
                }
                AdvancedOptions { extra_args: Some(w) }
            },
            None => AdvancedOptions { extra_args: None },
        }
    }
}

} // verus!

//! Tests for launch-argument construction and the profile tree.

use ssgtk_core::profile::{
    AdvancedOptions, ConfigFileOptions, ConnectOptions, HostPort, MetadataOverride, Profile,
    ProfileConfig, ProfileMetadata, ProxyOptions, TunOptions,
};
use ssgtk_core::profile_folder::{ProfileFolder, ProfileGroup};

fn meta(name: &str) -> ProfileMetadata {
    ProfileMetadata {
        display_name: name.to_string(),
        pwd: "/tmp".to_string(),
        bin_path: "sslocal".to_string(),
    }
}

fn no_override() -> MetadataOverride {
    MetadataOverride { display_name: None, pwd: None, bin_path: None }
}

fn conn() -> ConnectOptions {
    ConnectOptions {
        local_addr: HostPort { host: "127.0.0.1".to_string(), port: 1080, ipv6: false },
        server_addr: HostPort { host: "::1".to_string(), port: 8388, ipv6: true },
        password: "example-password".to_string(),
        encrypt_method: "aes-256-gcm".to_string(),
    }
}

fn proxy_profile(name: &str) -> Profile {
    Profile {
        metadata: meta(name),
        config: ProfileConfig::Proxy {
            metadata: no_override(),
            conn_opts: conn(),
            opts: ProxyOptions {},
            adv_opts: AdvancedOptions { extra_args: None },
        },
    }
}

#[test]
fn config_file_launch_args() {
    let cfg = ProfileConfig::ConfigFile {
        metadata: no_override(),
        opts: ConfigFileOptions { config_path: "/etc/ss/conf.json".to_string() },
        adv_opts: AdvancedOptions { extra_args: Some(vec!["-v".to_string()]) },
    };
    assert_eq!(cfg.to_launch_args(), vec!["--config", "/etc/ss/conf.json", "-v"]);
}

#[test]
fn proxy_launch_args_bracket_ipv6() {
    let cfg = ProfileConfig::Proxy {
        metadata: no_override(),
        conn_opts: conn(),
        opts: ProxyOptions {},
        adv_opts: AdvancedOptions { extra_args: None },
    };
    assert_eq!(
        cfg.to_launch_args(),
        vec![
            "--local-addr",
            "127.0.0.1:1080",
            "--server-addr",
            "[::1]:8388",
            "--password",
            "example-password",
            "--encrypt-method",
            "aes-256-gcm",
        ]
    );
}

#[test]
fn tun_launch_args_with_options() {
    let cfg = ProfileConfig::Tun {
        metadata: no_override(),
        conn_opts: conn(),
        opts: TunOptions {
            if_name: Some("tun0".to_string()),
            if_addr: Some("10.0.0.1/24".to_string()),
        },
        adv_opts: AdvancedOptions { extra_args: None },
    };
    let args = cfg.to_launch_args();
    let tail = &args[8..];
    assert_eq!(
        tail,
        [
            "--protocol",
            "tun",
            "--tun-interface-name",
            "tun0",
            "--tun-interface-address",
            "10.0.0.1/24",
        ]
    );
}

#[test]
fn tun_launch_args_without_options() {
    let cfg = ProfileConfig::Tun {
        metadata: no_override(),
        conn_opts: conn(),
        opts: TunOptions { if_name: None, if_addr: None },
        adv_opts: AdvancedOptions { extra_args: None },
    };
    let args = cfg.to_launch_args();
    assert_eq!(&args[8..], ["--protocol", "tun"]);
}

#[test]
fn duplicate_preserves_profile() {
    let p = proxy_profile("mine");
    let q = p.duplicate();
    assert_eq!(p, q);
}

fn sample_tree() -> ProfileFolder {
    ProfileFolder::Group(ProfileGroup {
        display_name: "root".to_string(),
        content: vec![
            ProfileFolder::Profile(proxy_profile("alpha")),
            ProfileFolder::Group(ProfileGroup {
                display_name: "nested".to_string(),
                content: vec![
                    ProfileFolder::Profile(proxy_profile("beta")),
                    ProfileFolder::Profile(proxy_profile("gamma")),
                ],
            }),
        ],
    })
}

#[test]
fn count_and_flatten_tree() {
    let tree = sample_tree();
    assert_eq!(tree.profile_count(), 3);
    let flat = tree.get_profiles();
    let names: Vec<&str> = flat.iter().map(|p| p.metadata.display_name.as_str()).collect();
    assert_eq!(names, ["alpha", "beta", "gamma"]);
}

#[test]
fn lookup_finds_nested_profile() {
    let tree = sample_tree();
    let hit = tree.lookup(&"gamma".to_string());
    assert_eq!(hit.unwrap().metadata.display_name, "gamma");
    assert!(tree.lookup(&"delta".to_string()).is_none());
}


#[test]
fn lookup_returns_first_match_in_depth_first_order() {
    // The loader refuses duplicate names, but the tree itself answers
    // with the first match in depth-first order.
    let first = {
        let mut p = proxy_profile("twin");
        p.metadata.pwd = "/first".to_string();
        p
    };
    let second = {
        let mut p = proxy_profile("twin");
        p.metadata.pwd = "/second".to_string();
        p
    };
    let tree = ProfileFolder::Group(ProfileGroup {
        display_name: "root".to_string(),
        content: vec![ProfileFolder::Profile(first), ProfileFolder::Profile(second)],
    });
    let hit = tree.lookup(&"twin".to_string()).unwrap();
    assert_eq!(hit.metadata.pwd, "/first");
}

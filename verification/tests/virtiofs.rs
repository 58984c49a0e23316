use kata_runtime::ch::types::DeviceError;
use kata_runtime::ch::virtiofs::{
    config_from_flags, parse_inline_virtiofs_args, BackendFsConfig, FlagValues,
};

fn args(list: &[&str]) -> Vec<String> {
    list.iter().map(|a| String::from(*a)).collect()
}

fn plain() -> BackendFsConfig {
    BackendFsConfig {
        thread_pool_size: 0,
        drop_sys_resource: false,
        cache: 0,
        no_open: false,
        writeback_cache: false,
        xattr: false,
        no_readdir: false,
        killpriv_v2: false,
    }
}

fn values(options: &str) -> FlagValues {
    FlagValues {
        debug: false,
        thread_pool_size: 4,
        drop_sys_resource: true,
        options: String::from(options),
    }
}

#[test]
fn without_arguments_only_killpriv_is_on() {
    let config = parse_inline_virtiofs_args(&vec![], plain()).unwrap();
    assert_eq!(config, BackendFsConfig { killpriv_v2: true, ..plain() });
}

#[test]
fn arguments_are_read_as_flags() {
    let given = args(&[
        "-d",
        "--thread-pool-size=8",
        "--drop-sys-resource",
        "-o",
        "cache=none,xattr,no_open",
    ]);
    let config = parse_inline_virtiofs_args(&given, plain()).unwrap();
    assert_eq!(
        config,
        BackendFsConfig {
            thread_pool_size: 8,
            drop_sys_resource: true,
            cache: 2,
            no_open: true,
            xattr: true,
            killpriv_v2: true,
            ..plain()
        }
    );
}

#[test]
fn unknown_flags_are_refused() {
    assert_eq!(parse_inline_virtiofs_args(&args(&["--frobnicate"]), plain()), Err(DeviceError::InvalidServerArgs));
    assert_eq!(parse_inline_virtiofs_args(&args(&["--thread-pool-size=x"]), plain()), Err(DeviceError::InvalidServerArgs));
    assert_eq!(parse_inline_virtiofs_args(&args(&["-o"]), plain()), Err(DeviceError::InvalidServerArgs));
    assert_eq!(DeviceError::InvalidServerArgs.message(), "parse args");
}

#[test]
fn later_options_override_earlier_ones() {
    let config = config_from_flags(&values("cache=always,no_open,cache=auto,open,writeback,no_writeback_cache"), plain());
    assert_eq!((config.cache, config.no_open, config.writeback_cache), (0, false, false));
    let config = config_from_flags(&values("no_writeback,writeback_cache,no_xattr,xattr,cache=always"), plain());
    assert_eq!((config.cache, config.writeback_cache, config.xattr), (1, true, true));
}

#[test]
fn options_that_are_not_known_change_nothing() {
    let without = config_from_flags(&values(""), plain());
    assert_eq!(without.thread_pool_size, 4);
    assert!(without.drop_sys_resource && without.killpriv_v2);
    for options in ["trace", "cache_symlinks", "cache=", ",,", "XATTR", " xattr"] {
        assert_eq!(config_from_flags(&values(options), plain()), without, "{options}");
    }
    assert!(config_from_flags(&values("no_readdir"), plain()).no_readdir);
}

#[test]
fn what_nobody_asks_for_stays_as_given() {
    let given = BackendFsConfig { thread_pool_size: 3, drop_sys_resource: true, xattr: true, ..plain() };
    let config = parse_inline_virtiofs_args(&args(&["-o", "no_open"]), given).unwrap();
    assert_eq!(config, BackendFsConfig { no_open: true, killpriv_v2: true, ..given });
    let config = parse_inline_virtiofs_args(&args(&["--thread-pool-size=8"]), given).unwrap();
    assert_eq!(config, BackendFsConfig { thread_pool_size: 8, killpriv_v2: true, ..given });
}

use std::io;
use std::path::PathBuf;
use winsdk::{
    EnvText, Environment, FindError, Host, Location, Lookup, SdkInfo, SdkVersion, Store,
    StoredRecord,
};

fn no_environment() -> Environment {
    Environment { sdk_dir: None, sdk_version: EnvText::Unset }
}

fn environment(dir: &str, version: &str) -> Environment {
    Environment {
        sdk_dir: Some(PathBuf::from(dir)),
        sdk_version: EnvText::Text(version.to_string()),
    }
}

fn registration(folder: &str, name: &str, version: &str) -> StoredRecord {
    StoredRecord {
        installation_folder: Some(PathBuf::from(folder)),
        product_name: Some(name.to_string()),
        product_version: Some(version.to_string()),
    }
}

fn windows_10() -> StoredRecord {
    registration(
        r"C:\Program Files (x86)\Windows Kits\10\",
        "Microsoft Windows SDK for Windows 10.0.19041.0",
        "10.0.19041",
    )
}

fn windows_8_1() -> StoredRecord {
    registration(r"C:\Program Files (x86)\Windows Kits\8.1\", "Windows SDK 8.1", "8.1.25984")
}

fn windows_8_1a() -> StoredRecord {
    registration(
        r"C:\Program Files (x86)\Microsoft SDKs\Windows\v8.1A\",
        "Microsoft .NET Framework 4.5.1 SDK",
        "8.1.51641",
    )
}

fn info(record: StoredRecord) -> SdkInfo {
    SdkInfo::new(
        record.installation_folder.unwrap(),
        record.product_name,
        record.product_version.unwrap(),
    )
}

fn generations() -> [SdkVersion; 7] {
    [
        SdkVersion::V10_0,
        SdkVersion::V8_1,
        SdkVersion::V8_0,
        SdkVersion::V7_1,
        SdkVersion::V7_0,
        SdkVersion::V6_1,
        SdkVersion::V6_0,
    ]
}

#[test]
fn any() {
    let host: Host<io::Error> = Host {
        env: no_environment(),
        store: Store::empty().with(Location::V10_0, Lookup::Stored(windows_10())),
    };
    let _ = SdkInfo::find(SdkVersion::Any, host)
        .expect("could not retrieve Windows SDK info from registry")
        .expect("Windows SDK is not installed");
}

#[test]
fn winsdk_env() {
    let host: Host<io::Error> = Host {
        env: environment(r"C:\Program Files (x86)\Windows Kits\10\", r"10.0.19041.0\"),
        store: Store::empty(),
    };
    let _ = SdkInfo::find(SdkVersion::Env, host)
        .unwrap_or_else(|_| unreachable!())
        .expect("environment does not specify a Windows SDK installation");
}

#[test]
fn winsdk_10_0() {
    let host: Host<io::Error> = Host {
        env: no_environment(),
        store: Store::empty().with(Location::V10_0, Lookup::Stored(windows_10())),
    };
    let _ = SdkInfo::find(SdkVersion::V10_0, host)
        .expect("could not retrieve Windows 10 SDK info from registry")
        .expect("Windows 10 SDK is not installed");
}

#[test]
fn winsdk_8_1() {
    let host: Host<io::Error> = Host {
        env: no_environment(),
        store: Store::empty().with(Location::V8_1, Lookup::Stored(windows_8_1())),
    };
    let _ = SdkInfo::find(SdkVersion::V8_1, host)
        .expect("could not retrieve Windows 8.1 SDK info from registry")
        .expect("Windows 8.1 SDK is not installed");
}

#[test]
fn any_reports_the_registered_sdk() {
    let host: Host<String> = Host {
        env: no_environment(),
        store: Store::empty().with(Location::V10_0, Lookup::Stored(windows_10())),
    };
    let found = SdkInfo::find(SdkVersion::Any, host).unwrap().unwrap();
    assert_eq!(
        found.installation_folder(),
        &PathBuf::from(r"C:\Program Files (x86)\Windows Kits\10\")
    );
    assert_eq!(found.product_name(), Some("Microsoft Windows SDK for Windows 10.0.19041.0"));
    assert_eq!(found.product_version(), "10.0.19041");
}

#[test]
fn absent_generations_are_not_found() {
    for version in generations() {
        let host: Host<String> = Host { env: no_environment(), store: Store::empty() };
        assert_eq!(SdkInfo::find(version, host), Ok(None));
    }
}

#[test]
fn absent_generations_are_not_found_beside_other_sdks() {
    let host: Host<String> = Host {
        env: environment(r"C:\SDK\", r"10.0.19041.0\"),
        store: Store::empty().with(Location::V10_0, Lookup::Stored(windows_10())),
    };
    for version in generations() {
        if version != SdkVersion::V10_0 {
            assert_eq!(SdkInfo::find(version, host.clone()), Ok(None));
        }
    }
}

#[test]
fn suffixed_flavour_is_preferred() {
    let host: Host<String> = Host {
        env: no_environment(),
        store: Store::empty()
            .with(Location::V8_1A, Lookup::Stored(windows_8_1a()))
            .with(Location::V8_1, Lookup::Stored(windows_8_1())),
    };
    assert_eq!(SdkInfo::find(SdkVersion::V8_1, host), Ok(Some(info(windows_8_1a()))));
}

#[test]
fn plain_flavour_is_the_fallback() {
    let host: Host<String> = Host {
        env: no_environment(),
        store: Store::empty().with(Location::V8_1, Lookup::Stored(windows_8_1())),
    };
    assert_eq!(SdkInfo::find(SdkVersion::V8_1, host), Ok(Some(info(windows_8_1()))));
}

#[test]
fn each_double_release_reads_its_own_two_locations() {
    let pairs = [
        (SdkVersion::V8_1, Location::V8_1A, Location::V8_1),
        (SdkVersion::V8_0, Location::V8_0A, Location::V8_0),
        (SdkVersion::V7_1, Location::V7_1A, Location::V7_1),
        (SdkVersion::V7_0, Location::V7_0A, Location::V7_0),
        (SdkVersion::V6_1, Location::V6_1A, Location::V6_1),
        (SdkVersion::V6_0, Location::V6_0A, Location::V6_0),
    ];
    for (version, suffixed, plain) in pairs {
        let a = registration("A", "suffixed", "1");
        let b = registration("B", "plain", "2");
        let both: Host<String> = Host {
            env: no_environment(),
            store: Store::empty()
                .with(suffixed, Lookup::Stored(a.clone()))
                .with(plain, Lookup::Stored(b.clone())),
        };
        assert_eq!(SdkInfo::find(version, both), Ok(Some(info(a))));
        let only_plain: Host<String> = Host {
            env: no_environment(),
            store: Store::empty().with(plain, Lookup::Stored(b.clone())),
        };
        assert_eq!(SdkInfo::find(version, only_plain.clone()), Ok(Some(info(b))));
        for other in generations() {
            if other != version {
                assert_eq!(SdkInfo::find(other, only_plain.clone()), Ok(None));
            }
        }
    }
}

#[test]
fn suffixed_location_that_holds_no_record_hides_the_plain_one() {
    let host: Host<String> = Host {
        env: no_environment(),
        store: Store::empty()
            .with(Location::V7_1A, Lookup::Malformed)
            .with(Location::V7_1, Lookup::Stored(registration("C:\\SDK", "7.1", "7.1.1"))),
    };
    assert_eq!(SdkInfo::find(SdkVersion::V7_1, host), Ok(None));
}

#[test]
fn environment_wins_over_the_registry() {
    let host: Host<String> = Host {
        env: environment(r"C:\SDK\", r"10.0.19041.0\"),
        store: Store::empty()
            .with(Location::V10_0, Lookup::Stored(windows_10()))
            .with(Location::V8_1, Lookup::Inaccessible("access denied".to_string())),
    };
    let by_any = SdkInfo::find(SdkVersion::Any, host.clone());
    let by_env = SdkInfo::find(SdkVersion::Env, host);
    assert_eq!(by_any, by_env);
    assert_eq!(
        by_any,
        Ok(Some(SdkInfo::new(PathBuf::from(r"C:\SDK\"), None, "10.0.19041".to_string())))
    );
}

#[test]
fn environment_version_is_cut_at_the_marker() {
    let host: Host<String> =
        Host { env: environment(r"C:\SDK\", r"10.0.19041.0\"), store: Store::empty() };
    let found = SdkInfo::find(SdkVersion::Env, host).unwrap().unwrap();
    assert_eq!(found.product_version(), "10.0.19041");
    assert_eq!(found.installation_folder(), &PathBuf::from(r"C:\SDK\"));
    assert_eq!(found.product_name(), None);
}

#[test]
fn any_finds_nothing_where_nothing_is() {
    let host: Host<String> = Host { env: no_environment(), store: Store::empty() };
    assert_eq!(SdkInfo::find(SdkVersion::Any, host.clone()), Ok(None));
    assert_eq!(SdkInfo::find(SdkVersion::Env, host.clone()), Ok(None));
    for version in generations() {
        assert_eq!(SdkInfo::find(version, host.clone()), Ok(None));
    }
}

#[test]
fn any_finds_what_any_of_its_selectors_finds() {
    for location in SdkVersion::Any.locations() {
        let record = registration("C:\\SDK", "an SDK", "1.0");
        let host: Host<String> = Host {
            env: no_environment(),
            store: Store::empty().with(location, Lookup::Stored(record.clone())),
        };
        assert_eq!(SdkInfo::find(SdkVersion::Any, host), Ok(Some(info(record))));
    }
}

#[test]
fn any_prefers_newer_generations() {
    let host: Host<String> = Host {
        env: no_environment(),
        store: Store::empty()
            .with(Location::V6_0A, Lookup::Stored(registration("C:\\6.0A", "6.0A", "6.0.6000")))
            .with(Location::V7_1, Lookup::Stored(registration("C:\\7.1", "7.1", "7.1.7600")))
            .with(Location::V8_0A, Lookup::Stored(registration("C:\\8.0A", "8.0A", "8.0.50727"))),
    };
    let found = SdkInfo::find(SdkVersion::Any, host).unwrap().unwrap();
    assert_eq!(found.product_version(), "8.0.50727");
}

#[test]
fn any_passes_over_a_record_without_version() {
    let stale = StoredRecord {
        installation_folder: Some(PathBuf::from(r"C:\Program Files (x86)\Windows Kits\10\")),
        product_name: Some("Windows 10".to_string()),
        product_version: None,
    };
    let host: Host<String> = Host {
        env: no_environment(),
        store: Store::empty()
            .with(Location::V10_0, Lookup::Stored(stale))
            .with(Location::V8_1, Lookup::Stored(windows_8_1())),
    };
    assert_eq!(SdkInfo::find(SdkVersion::V10_0, host.clone()), Ok(None));
    assert_eq!(SdkInfo::find(SdkVersion::Any, host), Ok(Some(info(windows_8_1()))));
}

#[test]
fn access_error_ends_the_search() {
    let host: Host<String> = Host {
        env: no_environment(),
        store: Store::empty()
            .with(Location::V10_0, Lookup::Inaccessible("access denied".to_string()))
            .with(Location::V8_1, Lookup::Stored(windows_8_1())),
    };
    assert_eq!(
        SdkInfo::find(SdkVersion::Any, host.clone()),
        Err(FindError::Access("access denied".to_string()))
    );
    assert_eq!(
        SdkInfo::find(SdkVersion::V10_0, host.clone()),
        Err(FindError::Access("access denied".to_string()))
    );
    assert_eq!(SdkInfo::find(SdkVersion::V8_1, host), Ok(Some(info(windows_8_1()))));
}

#[test]
fn access_error_behind_a_record_is_never_met() {
    let host: Host<String> = Host {
        env: no_environment(),
        store: Store::empty()
            .with(Location::V10_0, Lookup::Stored(windows_10()))
            .with(Location::V8_1A, Lookup::Inaccessible("access denied".to_string())),
    };
    assert_eq!(SdkInfo::find(SdkVersion::Any, host), Ok(Some(info(windows_10()))));
}

#[test]
fn access_error_is_handed_back_untouched() {
    let host: Host<io::Error> = Host {
        env: no_environment(),
        store: Store::empty().with(
            Location::V6_1,
            Lookup::Inaccessible(io::Error::new(io::ErrorKind::PermissionDenied, "no")),
        ),
    };
    match SdkInfo::find(SdkVersion::Any, host) {
        Err(FindError::Access(e)) => {
            assert_eq!(e.kind(), io::ErrorKind::PermissionDenied);
            assert_eq!(e.to_string(), "no");
        }
        other => panic!("{:?}", other),
    }
}

#[test]
fn malformed_version_is_an_error() {
    let host: Host<String> = Host {
        env: Environment {
            sdk_dir: Some(PathBuf::from(r"C:\SDK\")),
            sdk_version: EnvText::Malformed,
        },
        store: Store::empty().with(Location::V10_0, Lookup::Stored(windows_10())),
    };
    assert_eq!(SdkInfo::find(SdkVersion::Env, host.clone()), Err(FindError::MalformedVersion));
    assert_eq!(SdkInfo::find(SdkVersion::Any, host.clone()), Err(FindError::MalformedVersion));
    assert_eq!(SdkInfo::find(SdkVersion::V10_0, host), Ok(Some(info(windows_10()))));
}

#[test]
fn malformed_version_without_folder_is_not_read() {
    let host: Host<String> = Host {
        env: Environment { sdk_dir: None, sdk_version: EnvText::Malformed },
        store: Store::empty().with(Location::V10_0, Lookup::Stored(windows_10())),
    };
    assert_eq!(SdkInfo::find(SdkVersion::Env, host.clone()), Ok(None));
    assert_eq!(SdkInfo::find(SdkVersion::Any, host), Ok(Some(info(windows_10()))));
}

#[test]
fn resolution_is_repeatable() {
    let host: Host<String> = Host {
        env: no_environment(),
        store: Store::empty()
            .with(Location::V8_1A, Lookup::Stored(windows_8_1a()))
            .with(Location::V7_0, Lookup::Inaccessible("access denied".to_string())),
    };
    let all = [
        SdkVersion::Any,
        SdkVersion::Env,
        SdkVersion::V10_0,
        SdkVersion::V8_1,
        SdkVersion::V8_0,
        SdkVersion::V7_1,
        SdkVersion::V7_0,
        SdkVersion::V6_1,
        SdkVersion::V6_0,
    ];
    for version in all {
        let first = SdkInfo::find(version, host.clone());
        let second = SdkInfo::find(version, host.clone());
        assert_eq!(first, second);
    }
}

#[test]
fn resolution_reads_only_the_locations_of_its_selector() {
    let first: Host<String> = Host {
        env: environment(r"C:\SDK\", "1"),
        store: Store::empty()
            .with(Location::V8_0, Lookup::Stored(registration("C:\\8.0", "8.0", "8.0.1")))
            .with(Location::V10_0, Lookup::Stored(windows_10())),
    };
    let second: Host<String> = Host {
        env: no_environment(),
        store: Store::empty()
            .with(Location::V8_0, Lookup::Stored(registration("C:\\8.0", "8.0", "8.0.1")))
            .with(Location::V7_1A, Lookup::Inaccessible("access denied".to_string())),
    };
    assert_eq!(
        SdkInfo::find(SdkVersion::V8_0, first),
        SdkInfo::find(SdkVersion::V8_0, second)
    );
}

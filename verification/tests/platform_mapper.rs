use chromedriver_setup::errors::DriverError;
use chromedriver_setup::platform::platform_target;

#[test]
fn macos_arm64_maps_to_documented_triple() {
    let t = platform_target("macos", "aarch64").unwrap();
    assert_eq!(t.platform, "mac-arm64");
    assert_eq!(t.exec_name, "chromedriver");
    assert_eq!(t.zip_name, "chromedriver-mac-arm64");
}

#[test]
fn macos_other_arch_maps_to_x64_triple() {
    let t = platform_target("macos", "x86_64").unwrap();
    assert_eq!(t.platform, "mac-x64");
    assert_eq!(t.exec_name, "chromedriver");
    assert_eq!(t.zip_name, "chromedriver-mac-x64");
}

#[test]
fn windows_any_arch_maps_to_win64_triple() {
    for arch in ["x86_64", "aarch64", "x86"] {
        let t = platform_target("windows", arch).unwrap();
        assert_eq!(t.platform, "win64");
        assert_eq!(t.exec_name, "chromedriver.exe");
        assert_eq!(t.zip_name, "chromedriver-win64");
    }
}

#[test]
fn unsupported_os_is_reported_with_its_name() {
    let e = platform_target("linux", "x86_64").unwrap_err();
    match e {
        DriverError::UnsupportedPlatformError { os } => assert_eq!(os, "linux"),
        _ => panic!("expected UnsupportedPlatformError"),
    }
}

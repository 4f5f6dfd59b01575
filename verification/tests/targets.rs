use spork::error::FatalError;
use spork::targets::{Architecture, OperatingSystem, Target};

fn all_triples() -> Vec<&'static str> {
    vec![
        "x86-freestanding",
        "x86-windows",
        "x86-linux",
        "x86_64-freestanding",
        "x86_64-windows",
        "x86_64-linux",
    ]
}

#[test]
fn parse_then_format_round_trips_every_valid_triple() {
    for s in all_triples() {
        let t = Target::new(s, false).unwrap();
        assert_eq!(t.to_triple(), s);
    }
}

#[test]
fn format_then_parse_round_trips_every_target() {
    for arch in [Architecture::X86, Architecture::X86_64] {
        for os in [
            OperatingSystem::Freestanding,
            OperatingSystem::Windows,
            OperatingSystem::Linux,
        ] {
            let t = Target { arch, os };
            let back = Target::new(&t.to_triple(), false).unwrap();
            assert_eq!(back, t);
        }
    }
}

#[test]
fn strict_parse_rejects_wrong_piece_counts() {
    for s in ["", "x86", "x86_64", "x86-linux-gnu", "a-b-c-d", "x86_64 linux"] {
        match Target::new(s, false) {
            Err(FatalError::BadTarget { target }) => assert_eq!(target, s),
            other => panic!("expected a bad-target error, got {:?}", other),
        }
    }
}

#[test]
fn strict_parse_names_the_bad_architecture() {
    match Target::new("arm-linux", false) {
        Err(FatalError::InvalidTargetArch { arch }) => assert_eq!(arch, "arm"),
        other => panic!("expected an invalid-architecture error, got {:?}", other),
    }
}

#[test]
fn strict_parse_names_the_bad_operating_system() {
    match Target::new("x86_64-macos", false) {
        Err(FatalError::InvalidTargetOS { os }) => assert_eq!(os, "macos"),
        other => panic!("expected an invalid-os error, got {:?}", other),
    }
}

#[test]
fn architecture_is_checked_before_operating_system() {
    match Target::new("arm-macos", false) {
        Err(FatalError::InvalidTargetArch { arch }) => assert_eq!(arch, "arm"),
        other => panic!("expected an invalid-architecture error, got {:?}", other),
    }
}

#[test]
fn lenient_parse_drops_the_vendor_piece() {
    let t = Target::new("x86_64-unknown-linux-gnu\n", true).unwrap();
    assert_eq!(
        t,
        Target { arch: Architecture::X86_64, os: OperatingSystem::Linux }
    );
}

#[test]
fn lenient_parse_accepts_a_plain_pair() {
    let t = Target::new("x86-windows", true).unwrap();
    assert_eq!(
        t,
        Target { arch: Architecture::X86, os: OperatingSystem::Windows }
    );
}

#[test]
fn lenient_parse_still_needs_a_hyphen() {
    match Target::new("mystery", true) {
        Err(FatalError::BadTarget { target }) => assert_eq!(target, "mystery"),
        other => panic!("expected a bad-target error, got {:?}", other),
    }
}

#[test]
fn ziggified_remaps_operating_systems() {
    let linux = Target::new("x86_64-linux", false).unwrap();
    assert_eq!(linux.ziggified(), "x86_64-linux-gnu");
    let windows = Target::new("x86-windows", false).unwrap();
    assert_eq!(windows.ziggified(), "x86-windows-gnu");
    let free = Target::new("x86_64-freestanding", false).unwrap();
    assert_eq!(free.ziggified(), "x86_64-freestanding-none");
}

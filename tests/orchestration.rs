use symgen::banner::parse_banner;
use symgen::distros::{find_version, Distro};
use symgen::generator::{
    advance, identity_from_parsed, plan_for_distro, plan_generation, resolve_identity, start,
    GenEvent, GenOutcome, GenPhase, GenerateError, GenerationResult, IdentityError,
};

#[test]
fn unknown_distribution_is_an_input_error() {
    match plan_generation("5.15.0-91-generic", "Arch", "2024") {
        Err(GenerateError::UnknownDistro(n)) => assert_eq!(n, "Arch"),
        _ => panic!("expected an unknown distribution"),
    }
}

#[test]
fn unsupported_version_names_request_and_distribution() {
    match plan_generation("5.15.0-91-generic", "ubuntu", "18.04") {
        Err(GenerateError::UnsupportedVersion(v, d)) => {
            assert_eq!(v, "18.04");
            assert_eq!(d, Distro::Ubuntu);
            assert_eq!(d.display_name(), "Ubuntu");
        }
        _ => panic!("expected an unsupported version"),
    }
}

#[test]
fn plan_resolves_catalog_entry() {
    let p = match plan_generation("6.1.0-18-amd64", "DEBIAN", "12") {
        Ok(p) => p,
        Err(_) => panic!("expected a plan"),
    };
    assert_eq!(p.kernel, "6.1.0-18-amd64");
    assert_eq!(p.distro_version.docker_image, "debian:12");
    assert_eq!(p.symbol_filename, "Debian_bookworm_6.1.0-18-amd64.json.xz");
    assert!(p.script.contains("linux-image-6.1.0-18-amd64-dbg"));
    assert!(plan_for_distro("k", Distro::Rocky, "9").is_ok());
}

#[test]
fn existing_artifact_short_circuits() {
    let p = start();
    assert!(matches!(p, GenPhase::AwaitProbe));
    let p = advance(p, GenEvent::Probed(true));
    assert!(matches!(p, GenPhase::Done(GenOutcome::AlreadyPresent)));
    let p = advance(p, GenEvent::Exited(0));
    assert!(matches!(p, GenPhase::Done(GenOutcome::AlreadyPresent)));
}

#[test]
fn second_generation_runs_no_container() {
    let mut runs = 0;
    let mut artifact: Option<u64> = None;
    for _ in 0..2 {
        let mut p = start();
        loop {
            let ev = match &p {
                GenPhase::AwaitProbe => GenEvent::Probed(artifact.is_some()),
                GenPhase::AwaitPull => GenEvent::Pulled,
                GenPhase::AwaitExit => {
                    runs += 1;
                    artifact = Some(1234);
                    GenEvent::Exited(0)
                }
                GenPhase::AwaitMeasure => GenEvent::Measured(artifact),
                GenPhase::Done(_) => break,
            };
            p = advance(p, ev);
        }
    }
    assert_eq!(runs, 1);
}

#[test]
fn full_successful_generation() {
    let p = advance(start(), GenEvent::Probed(false));
    assert!(matches!(p, GenPhase::AwaitPull));
    let p = advance(p, GenEvent::Pulled);
    assert!(matches!(p, GenPhase::AwaitExit));
    let p = advance(p, GenEvent::Exited(0));
    assert!(matches!(p, GenPhase::AwaitMeasure));
    let p = advance(p, GenEvent::Measured(Some(4096)));
    assert!(matches!(p, GenPhase::Done(GenOutcome::Generated(4096))));
}

#[test]
fn nonzero_exit_fails_even_with_artifact() {
    let p = advance(advance(advance(start(), GenEvent::Probed(false)), GenEvent::Pulled), GenEvent::Exited(2));
    assert!(matches!(p, GenPhase::Done(GenOutcome::Failed(GenerateError::ExitCode(2)))));
    let p = advance(p, GenEvent::Measured(Some(10)));
    assert!(matches!(p, GenPhase::Done(GenOutcome::Failed(GenerateError::ExitCode(2)))));
}

#[test]
fn missing_artifact_after_zero_exit() {
    let p = advance(advance(advance(start(), GenEvent::Probed(false)), GenEvent::Pulled), GenEvent::Exited(0));
    let p = advance(p, GenEvent::Measured(None));
    assert!(matches!(p, GenPhase::Done(GenOutcome::Failed(GenerateError::ArtifactMissing))));
}

#[test]
fn pull_and_run_failures() {
    let p = advance(advance(start(), GenEvent::Probed(false)), GenEvent::PullFailed("denied".to_string()));
    match p {
        GenPhase::Done(GenOutcome::Failed(GenerateError::Pull(m))) => assert_eq!(m, "denied"),
        _ => panic!("expected a pull failure"),
    }
    let p = advance(advance(advance(start(), GenEvent::Probed(false)), GenEvent::Pulled), GenEvent::RunFailed("x".to_string()));
    assert!(matches!(p, GenPhase::Done(GenOutcome::Failed(GenerateError::Container(_)))));
}

#[test]
fn unexpected_event_leaves_phase() {
    let p = advance(start(), GenEvent::Exited(1));
    assert!(matches!(p, GenPhase::AwaitProbe));
}

#[test]
fn generation_result_reports_display_name() {
    let p = match plan_generation("9.9.9-1.el9", "alma", "9") {
        Ok(p) => p,
        Err(_) => panic!("expected a plan"),
    };
    let r = GenerationResult::from_plan(&p, "/out/Alma_9_9.9.9-1.el9.json.xz".to_string(), 77);
    assert_eq!(r.kernel_version, "9.9.9-1.el9");
    assert_eq!(r.distro, "AlmaLinux");
    assert_eq!(r.distro_version, "9");
    assert_eq!(r.file_size, 77);
    assert!(find_version(Distro::Alma, "9").is_some());
}

#[test]
fn identity_from_banner() {
    let id = resolve_identity(
        Some("Linux version 5.15.0-91-generic (buildd@...) (gcc (Ubuntu 11.4.0-1ubuntu1~22.04) ...)"),
        None,
        None,
        None,
    )
    .ok()
    .unwrap();
    assert_eq!(id.kernel, "5.15.0-91-generic");
    assert_eq!(id.distro, "Ubuntu");
    assert_eq!(id.version, "22.04");
}

#[test]
fn identity_errors() {
    assert_eq!(resolve_identity(Some(""), None, None, None).err(), Some(IdentityError::BannerUnparsable));
    assert_eq!(
        resolve_identity(Some("Linux version 5.15.0-91-generic #1"), None, None, None).err(),
        Some(IdentityError::DistroUndetected)
    );
    assert_eq!(
        identity_from_parsed(parse_banner("Linux version 5.2.0-1-amd64 (debian-kernel@lists.debian.org)")).err(),
        Some(IdentityError::VersionUndetected)
    );
    assert_eq!(
        resolve_identity(None, Some("k".to_string()), None, Some("9".to_string())).err(),
        Some(IdentityError::MissingArgument)
    );
    let id = resolve_identity(None, Some("k".to_string()), Some("rocky".to_string()), Some("9".to_string()))
        .ok()
        .unwrap();
    assert_eq!((id.kernel.as_str(), id.distro.as_str(), id.version.as_str()), ("k", "rocky", "9"));
}

use bootcontrol::error::BootControlError;
use bootcontrol::immutable_distro::{
    detect_immutable_distro, distro_from_tag, enforce_writable_distro, kernel_param_route,
    os_release_id, probe_immutable_distro, DistroIndicators, HostMarkers, ImmutableDistro,
    ParamRoute,
};

fn classic_host() -> HostMarkers {
    HostMarkers {
        ostree_booted: false,
        ostree_sysroot: false,
        rpm_ostree_on_path: false,
        steamos_release: false,
        nixos_marker: false,
        os_release: Some("ID=arch\n".into()),
    }
}

fn no_indicators() -> DistroIndicators {
    DistroIndicators {
        ostree_booted_marker: false,
        ostree_sysroot_exists: false,
        rpm_ostree_available: false,
        steamos_marker: false,
        nixos_marker: false,
        vanillaos_marker: false,
    }
}

#[test]
fn override_rpm_ostree_takes_precedence() {
    let probed = probe_immutable_distro(Some("rpm-ostree"), &classic_host());
    assert_eq!(probed, Some(ImmutableDistro::RpmOstree));
}

#[test]
fn override_ostree_takes_precedence() {
    let probed = probe_immutable_distro(Some("ostree"), &classic_host());
    assert_eq!(probed, Some(ImmutableDistro::Ostree));
}

#[test]
fn unknown_override_value_is_none() {
    let probed = probe_immutable_distro(Some("bogus-distro"), &classic_host());
    assert_eq!(probed, None);
}

#[test]
fn override_steamos_takes_precedence() {
    let probed = probe_immutable_distro(Some("steamos"), &classic_host());
    assert_eq!(probed, Some(ImmutableDistro::SteamOs));
}

#[test]
fn override_nixos_takes_precedence() {
    let probed = probe_immutable_distro(Some("nixos"), &classic_host());
    assert_eq!(probed, Some(ImmutableDistro::NixOs));
}

#[test]
fn override_vanilla_takes_precedence() {
    let probed = probe_immutable_distro(Some("vanilla-os"), &classic_host());
    assert_eq!(probed, Some(ImmutableDistro::VanillaOs));
}

#[test]
fn read_os_release_id_extracts_value() {
    let content = "NAME=\"Steam Deck\"\nID=steamos\nVERSION_ID=3.4\n";
    assert_eq!(os_release_id(content).as_deref(), Some("steamos"));
}

#[test]
fn read_os_release_id_handles_quoted_value() {
    assert_eq!(os_release_id("ID=\"nixos\"\n").as_deref(), Some("nixos"));
}

#[test]
fn os_release_without_id_gives_none() {
    assert_eq!(os_release_id("NAME=Arch\nID_LIKE=arch\n"), None);
    assert_eq!(os_release_id(""), None);
}

#[test]
fn classic_host_is_not_immutable() {
    assert_eq!(probe_immutable_distro(None, &classic_host()), None);
    assert_eq!(probe_immutable_distro(Some(""), &classic_host()), None);
}

#[test]
fn host_markers_are_classified_by_priority() {
    let mut m = classic_host();
    m.os_release = Some("ID=holo\n".into());
    assert_eq!(probe_immutable_distro(None, &m), Some(ImmutableDistro::SteamOs));
    m.ostree_booted = true;
    assert_eq!(probe_immutable_distro(None, &m), Some(ImmutableDistro::Ostree));
    m.rpm_ostree_on_path = true;
    assert_eq!(probe_immutable_distro(None, &m), Some(ImmutableDistro::RpmOstree));
    let mut v = classic_host();
    v.os_release = Some("ID=vanilla\n".into());
    assert_eq!(probe_immutable_distro(None, &v), Some(ImmutableDistro::VanillaOs));
}

#[test]
fn detect_prefers_ostree_over_other_markers() {
    let mut i = no_indicators();
    assert_eq!(detect_immutable_distro(&i), None);
    i.nixos_marker = true;
    i.vanillaos_marker = true;
    assert_eq!(detect_immutable_distro(&i), Some(ImmutableDistro::NixOs));
    i.ostree_sysroot_exists = true;
    assert_eq!(detect_immutable_distro(&i), Some(ImmutableDistro::Ostree));
}

#[test]
fn tags_round_trip() {
    for d in [
        ImmutableDistro::RpmOstree,
        ImmutableDistro::Ostree,
        ImmutableDistro::SteamOs,
        ImmutableDistro::NixOs,
        ImmutableDistro::VanillaOs,
    ] {
        assert_eq!(distro_from_tag(d.tag()), Some(d));
    }
}

#[test]
fn immutable_hosts_refuse_in_place_writes() {
    assert_eq!(enforce_writable_distro(None), Ok(()));
    assert_eq!(
        enforce_writable_distro(Some(ImmutableDistro::NixOs)),
        Err(BootControlError::ImmutableDistroDetected { distro: "nixos".into() })
    );
}

#[test]
fn kernel_params_route_through_rpm_ostree_on_rpm_ostree_hosts() {
    assert_eq!(kernel_param_route(None), Ok(ParamRoute::KernelCmdlineFile));
    assert_eq!(
        kernel_param_route(Some(ImmutableDistro::RpmOstree)),
        Ok(ParamRoute::RpmOstreeKargs)
    );
    assert!(kernel_param_route(Some(ImmutableDistro::SteamOs)).is_err());
}

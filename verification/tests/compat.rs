use quadlet::autoupdate::AutoUpdate;
use quadlet::container::Container;
use quadlet::downgrade::{Downgrade, DowngradeError};
use quadlet::file::File;
use quadlet::globals::Globals;
use quadlet::image::Image;
use quadlet::kind::ResourceKind;
use quadlet::kube::Kube;
use quadlet::network::Network;
use quadlet::pod::Pod;
use quadlet::resource::Resource;
use quadlet::version::PodmanVersion;
use quadlet::volume::Volume;

fn empty_globals() -> Globals {
    Globals { containers_conf_modules: Vec::new(), global_args: Vec::new() }
}

fn container_file(container: Container) -> File {
    File {
        name: String::from("web"),
        unit: None,
        resource: Resource::Container(Box::new(container)),
        globals: empty_globals(),
        service: None,
        install: None,
    }
}

#[test]
fn extract_from_labels_last_valid_wins() {
    let mut labels = vec![
        String::from("io.containers.autoupdate=registry"),
        String::from("io.containers.autoupdate=local"),
        String::from("io.containers.autoupdate=bogus"),
        String::from("foo=bar"),
    ];
    let extracted = AutoUpdate::extract_from_labels(&mut labels);
    assert_eq!(extracted, Some(AutoUpdate::Local));
    assert_eq!(
        labels,
        vec![
            String::from("io.containers.autoupdate=bogus"),
            String::from("foo=bar"),
        ]
    );
}

#[test]
fn extract_from_labels_without_match_keeps_list() {
    let mut labels = vec![String::from("foo=bar")];
    let extracted = AutoUpdate::extract_from_labels(&mut labels);
    assert_eq!(extracted, None);
    assert_eq!(labels, vec![String::from("foo=bar")]);
}

#[test]
fn auto_update_from_str() {
    assert_eq!(AutoUpdate::from_str("registry"), Ok(AutoUpdate::Registry));
    assert_eq!(AutoUpdate::from_str("local"), Ok(AutoUpdate::Local));
    let err = AutoUpdate::from_str("bogus").unwrap_err();
    assert_eq!(
        err.message(),
        "unknown auto update variant `bogus`, must be `registry` or `local`"
    );
    assert_eq!(AutoUpdate::Registry.as_str(), "registry");
    assert_eq!(AutoUpdate::Local.as_str(), "local");
}

#[test]
fn downgrade_moves_user_ns_into_podman_args() {
    let mut file = container_file(Container {
        image: String::from("img"),
        labels: Vec::new(),
        environment_files: Vec::new(),
        user_ns: Some(String::from("keep-id")),
        podman_args: Vec::new(),
    });
    assert_eq!(file.downgrade(PodmanVersion::V4_5), Ok(()));
    match &file.resource {
        Resource::Container(c) => {
            assert_eq!(c.user_ns, None);
            assert_eq!(
                c.podman_args,
                vec![String::from("--userns"), String::from("keep-id")]
            );
        }
        _ => panic!("resource changed kind"),
    }
    let text = file.render();
    assert!(text.contains("PodmanArgs=--userns\nPodmanArgs=keep-id\n"));
    assert!(!text.contains("UserNS="));
}

#[test]
fn downgrade_keeps_user_ns_at_supporting_version() {
    let mut file = container_file(Container {
        image: String::from("img"),
        labels: Vec::new(),
        environment_files: Vec::new(),
        user_ns: Some(String::from("keep-id")),
        podman_args: Vec::new(),
    });
    assert_eq!(file.downgrade(PodmanVersion::V4_6), Ok(()));
    match &file.resource {
        Resource::Container(c) => {
            assert_eq!(c.user_ns, Some(String::from("keep-id")));
            assert!(c.podman_args.is_empty());
        }
        _ => panic!("resource changed kind"),
    }
}

#[test]
fn downgrade_then_higher_version_changes_nothing() {
    let mut file = container_file(Container {
        image: String::from("img"),
        labels: Vec::new(),
        environment_files: Vec::new(),
        user_ns: Some(String::from("keep-id")),
        podman_args: Vec::new(),
    });
    assert_eq!(file.downgrade(PodmanVersion::V4_4), Ok(()));
    let once = file.clone();
    assert_eq!(file.downgrade(PodmanVersion::V5_0), Ok(()));
    assert_eq!(file, once);
}

#[test]
fn downgrade_rejects_kube_auto_update_before_v4_5() {
    let kube = Kube {
        yaml: String::from("/srv/app.yaml"),
        config_maps: Vec::new(),
        auto_update: Some(AutoUpdate::Registry),
    };
    let mut resource = Resource::Kube(kube.clone());
    let err = resource.downgrade(PodmanVersion::V4_4).unwrap_err();
    assert_eq!(
        err,
        DowngradeError::Option {
            quadlet_option: "AutoUpdate",
            value: String::from("registry"),
            supported_version: PodmanVersion::V4_5,
        }
    );
    assert_eq!(resource, Resource::Kube(kube.clone()));
    assert_eq!(
        err.message(),
        "Quadlet option `AutoUpdate=registry` was not supported until Podman v4.5"
    );

    let mut accepted = Resource::Kube(kube);
    assert_eq!(accepted.downgrade(PodmanVersion::V4_5), Ok(()));
}

#[test]
fn downgrade_rejects_network_ipam_driver_before_v4_5() {
    let mut resource = Resource::Network(Network {
        subnets: Vec::new(),
        internal: false,
        ipam_driver: Some(String::from("dhcp")),
    });
    let err = resource.downgrade(PodmanVersion::V4_4).unwrap_err();
    assert_eq!(
        err,
        DowngradeError::Option {
            quadlet_option: "IPAMDriver",
            value: String::from("dhcp"),
            supported_version: PodmanVersion::V4_5,
        }
    );
}

#[test]
fn downgrade_rejects_volume_image_before_v4_8() {
    let mut resource = Resource::Volume(Volume {
        driver: Some(String::from("image")),
        device: None,
        image: Some(String::from("quay.io/example/data:1")),
    });
    let err = resource.downgrade(PodmanVersion::V4_7).unwrap_err();
    assert_eq!(
        err,
        DowngradeError::Option {
            quadlet_option: "Image",
            value: String::from("quay.io/example/data:1"),
            supported_version: PodmanVersion::V4_8,
        }
    );
}

#[test]
fn downgrade_rejects_globals_module_before_v4_7() {
    let mut file = container_file(Container {
        image: String::from("img"),
        labels: Vec::new(),
        environment_files: Vec::new(),
        user_ns: None,
        podman_args: Vec::new(),
    });
    file.globals.containers_conf_modules = vec![String::from("/etc/nvd.conf")];
    let err = file.downgrade(PodmanVersion::V4_6).unwrap_err();
    assert_eq!(
        err,
        DowngradeError::Option {
            quadlet_option: "ContainersConfModule",
            value: String::from("/etc/nvd.conf"),
            supported_version: PodmanVersion::V4_7,
        }
    );
    let mut supported = file.clone();
    supported.globals.containers_conf_modules = vec![String::from("/etc/nvd.conf")];
    assert_eq!(supported.downgrade(PodmanVersion::V4_7), Ok(()));
}

#[test]
fn downgrade_rejects_pod_kind_before_v5_0() {
    let mut resource = Resource::Pod(Pod { publish_ports: Vec::new(), volumes: Vec::new() });
    let err = resource.downgrade(PodmanVersion::V4_8).unwrap_err();
    assert_eq!(
        err,
        DowngradeError::Kind {
            kind: ResourceKind::Pod,
            supported_version: PodmanVersion::V5_0,
        }
    );
    assert_eq!(
        err.message(),
        "`.pod` Quadlet files were not supported until Podman v5.0"
    );
    assert_eq!(resource.downgrade(PodmanVersion::V5_0), Ok(()));
}

#[test]
fn downgrade_rejects_image_kind_before_v4_8() {
    let mut resource = Resource::Image(Image { image: String::from("img"), auth_file: None });
    let err = resource.downgrade(PodmanVersion::V4_7).unwrap_err();
    assert_eq!(
        err,
        DowngradeError::Kind {
            kind: ResourceKind::Image,
            supported_version: PodmanVersion::V4_8,
        }
    );
    assert_eq!(resource.downgrade(PodmanVersion::V4_8), Ok(()));
}

#[test]
fn downgrade_succeeds_at_every_supported_version() {
    let all = [
        PodmanVersion::V4_4,
        PodmanVersion::V4_5,
        PodmanVersion::V4_6,
        PodmanVersion::V4_7,
        PodmanVersion::V4_8,
        PodmanVersion::V5_0,
    ];
    for version in all {
        let mut file = container_file(Container {
            image: String::from("img"),
            labels: vec![String::from("a=b")],
            environment_files: Vec::new(),
            user_ns: None,
            podman_args: Vec::new(),
        });
        assert_eq!(file.downgrade(version), Ok(()));
    }
}

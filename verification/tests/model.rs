use quadlet::autoupdate::AutoUpdate;
use quadlet::blocks::{Install, Service, Unit};
use quadlet::container::Container;
use quadlet::file::File;
use quadlet::globals::Globals;
use quadlet::hostpaths::HostPaths;
use quadlet::image::Image;
use quadlet::kind::ResourceKind;
use quadlet::kube::Kube;
use quadlet::network::Network;
use quadlet::pod::Pod;
use quadlet::resource::Resource;
use quadlet::version::PodmanVersion;
use quadlet::volume::Volume;

fn sample_container() -> Container {
    Container {
        image: String::from("quay.io/example/app:1"),
        labels: vec![String::from("app=web")],
        environment_files: vec![String::from("/etc/app/env")],
        user_ns: None,
        podman_args: Vec::new(),
    }
}

fn empty_globals() -> Globals {
    Globals { containers_conf_modules: Vec::new(), global_args: Vec::new() }
}

#[test]
fn name_to_service_per_kind() {
    let container = Resource::Container(Box::new(sample_container()));
    assert_eq!(container.name_to_service("web"), "web.service");

    let pod = Resource::Pod(Pod { publish_ports: Vec::new(), volumes: Vec::new() });
    assert_eq!(pod.name_to_service("np"), "np-pod.service");

    let kube = Resource::Kube(Kube {
        yaml: String::from("/srv/app.yaml"),
        config_maps: Vec::new(),
        auto_update: None,
    });
    assert_eq!(kube.name_to_service("app"), "app.service");

    let network = Resource::Network(Network {
        subnets: Vec::new(),
        internal: false,
        ipam_driver: None,
    });
    assert_eq!(network.name_to_service("net"), "net-network.service");

    let volume = Resource::Volume(Volume { driver: None, device: None, image: None });
    assert_eq!(volume.name_to_service("data"), "data-volume.service");

    let image = Resource::Image(Image { image: String::from("img"), auth_file: None });
    assert_eq!(image.name_to_service("img"), "img-image.service");
}

#[test]
fn extension_per_kind() {
    assert_eq!(
        Resource::Container(Box::new(sample_container())).extension(),
        "container"
    );
    assert_eq!(
        Resource::Pod(Pod { publish_ports: Vec::new(), volumes: Vec::new() }).extension(),
        "pod"
    );
    assert_eq!(
        Resource::Volume(Volume { driver: None, device: None, image: None }).extension(),
        "volume"
    );
}

#[test]
fn resource_kind_as_str() {
    assert_eq!(ResourceKind::Container.as_str(), "container");
    assert_eq!(ResourceKind::Pod.as_str(), "pod");
    assert_eq!(ResourceKind::Kube.as_str(), "kube");
    assert_eq!(ResourceKind::Network.as_str(), "network");
    assert_eq!(ResourceKind::Volume.as_str(), "volume");
    assert_eq!(ResourceKind::Image.as_str(), "image");
}

#[test]
fn version_strings_and_order() {
    assert_eq!(PodmanVersion::V4_4.as_str(), "4.4");
    assert_eq!(PodmanVersion::V4_8.as_str(), "4.8");
    assert_eq!(PodmanVersion::V5_0.as_str(), "5.0");

    let all = [
        PodmanVersion::V4_4,
        PodmanVersion::V4_5,
        PodmanVersion::V4_6,
        PodmanVersion::V4_7,
        PodmanVersion::V4_8,
        PodmanVersion::V5_0,
    ];
    for i in 0..all.len() {
        for j in 0..all.len() {
            assert_eq!(all[i].lt(all[j]), i < j);
            assert_eq!(all[i].ge(all[j]), i >= j);
        }
        assert!(all[i].ge(all[i]));
        assert!(PodmanVersion::latest().ge(all[i]));
    }
    assert_eq!(PodmanVersion::default(), PodmanVersion::V5_0);
    assert_eq!(PodmanVersion::latest(), PodmanVersion::V5_0);
    for i in 0..all.len() {
        for j in 0..all.len() {
            assert_eq!(all[i] < all[j], all[i].lt(all[j]));
        }
    }
}

#[test]
fn version_token_parsing() {
    assert_eq!(PodmanVersion::from_str("4.4"), Some(PodmanVersion::V4_4));
    assert_eq!(PodmanVersion::from_str("4.4.3"), Some(PodmanVersion::V4_4));
    assert_eq!(PodmanVersion::from_str("4.5.1"), Some(PodmanVersion::V4_5));
    assert_eq!(PodmanVersion::from_str("4.6"), Some(PodmanVersion::V4_6));
    assert_eq!(PodmanVersion::from_str("4.7.2"), Some(PodmanVersion::V4_7));
    assert_eq!(PodmanVersion::from_str("4.8"), Some(PodmanVersion::V4_8));
    assert_eq!(PodmanVersion::from_str("4.9.4"), Some(PodmanVersion::V4_8));
    assert_eq!(PodmanVersion::from_str("5.0"), Some(PodmanVersion::V5_0));
    assert_eq!(PodmanVersion::from_str("latest"), Some(PodmanVersion::V5_0));
    assert_eq!(PodmanVersion::from_str("4.10"), None);
    assert_eq!(PodmanVersion::from_str(""), None);
}

#[test]
fn resource_from_payloads() {
    let pod = Pod { publish_ports: Vec::new(), volumes: Vec::new() };
    assert_eq!(
        Resource::from(pod.clone()),
        Resource::Pod(pod)
    );
    let container = sample_container();
    assert_eq!(
        Resource::from(Box::new(container.clone())),
        Resource::Container(Box::new(container))
    );
    let volume = Volume { driver: None, device: None, image: None };
    assert_eq!(Resource::from(volume.clone()).extension(), "volume");
    let network = Network { subnets: Vec::new(), internal: false, ipam_driver: None };
    assert_eq!(Resource::from(network).extension(), "network");
    let kube = Kube {
        yaml: String::from("/srv/app.yaml"),
        config_maps: Vec::new(),
        auto_update: None,
    };
    assert_eq!(Resource::from(kube).extension(), "kube");
    let image = Image { image: String::from("img"), auth_file: None };
    assert_eq!(Resource::from(image).extension(), "image");
}

#[test]
fn file_service_name() {
    let file = File {
        name: String::from("data"),
        unit: None,
        resource: Resource::Volume(Volume { driver: None, device: None, image: None }),
        globals: empty_globals(),
        service: None,
        install: None,
    };
    assert_eq!(file.service_name(), "data-volume.service");
}

#[test]
fn render_container_file_full_layout() {
    let file = File {
        name: String::from("web"),
        unit: Some(Unit {
            description: Some(String::from("Web server")),
            after: vec![String::from("network-online.target")],
        }),
        resource: Resource::Container(Box::new(sample_container())),
        globals: Globals {
            containers_conf_modules: Vec::new(),
            global_args: vec![String::from("--log-level=debug")],
        },
        service: Some(Service { restart: Some(String::from("always")) }),
        install: Some(Install { wanted_by: vec![String::from("default.target")] }),
    };
    let expected = "[Unit]\n\
                    Description=Web server\n\
                    After=network-online.target\n\
                    \n\
                    [Container]\n\
                    Image=quay.io/example/app:1\n\
                    Label=app=web\n\
                    EnvironmentFile=/etc/app/env\n\
                    PodmanArgs=--log-level=debug\n\
                    \n\
                    [Service]\n\
                    Restart=always\n\
                    \n\
                    [Install]\n\
                    WantedBy=default.target\n";
    assert_eq!(file.render(), expected);
}

#[test]
fn render_network_section() {
    let network = Network {
        subnets: vec![String::from("10.1.0.0/24"), String::from("fd00::/64")],
        internal: true,
        ipam_driver: Some(String::from("dhcp")),
    };
    assert_eq!(
        network.render(),
        "[Network]\nSubnet=10.1.0.0/24\nSubnet=fd00::/64\nInternal=true\nIPAMDriver=dhcp\n"
    );
}

#[test]
fn render_kube_section_with_auto_update() {
    let kube = Kube {
        yaml: String::from("/srv/app.yaml"),
        config_maps: vec![String::from("/srv/cm.yaml")],
        auto_update: Some(AutoUpdate::Registry),
    };
    assert_eq!(
        kube.render(),
        "[Kube]\nYaml=/srv/app.yaml\nConfigMap=/srv/cm.yaml\nAutoUpdate=registry\n"
    );
}

#[test]
fn host_paths_network_is_empty() {
    let network = Resource::Network(Network {
        subnets: vec![String::from("10.1.0.0/24")],
        internal: false,
        ipam_driver: None,
    });
    assert!(network.host_paths().is_empty());
}

#[test]
fn host_paths_counts_per_kind() {
    let kube = Resource::Kube(Kube {
        yaml: String::from("/srv/app.yaml"),
        config_maps: vec![String::from("/srv/a.yaml"), String::from("/srv/b.yaml")],
        auto_update: None,
    });
    assert_eq!(
        kube.host_paths(),
        vec!["/srv/app.yaml", "/srv/a.yaml", "/srv/b.yaml"]
    );

    let volume = Resource::Volume(Volume {
        driver: Some(String::from("local")),
        device: Some(String::from("/dev/disk/by-label/data")),
        image: None,
    });
    assert_eq!(volume.host_paths(), vec!["/dev/disk/by-label/data"]);

    let image = Resource::Image(Image {
        image: String::from("img"),
        auth_file: Some(String::from("/etc/auth.json")),
    });
    assert_eq!(image.host_paths(), vec!["/etc/auth.json"]);
}

#[test]
fn set_host_paths_is_visible_in_render() {
    let mut file = File {
        name: String::from("web"),
        unit: None,
        resource: Resource::Container(Box::new(sample_container())),
        globals: Globals {
            containers_conf_modules: vec![String::from("relative/modules.conf")],
            global_args: Vec::new(),
        },
        service: None,
        install: None,
    };
    let paths = file.host_paths();
    assert_eq!(paths, vec!["/etc/app/env", "relative/modules.conf"]);

    let rewritten = vec![
        String::from("/etc/app/env.real"),
        String::from("/etc/containers/modules.conf"),
    ];
    file.set_host_paths(rewritten.clone());
    assert_eq!(file.host_paths(), rewritten);

    let text = file.render();
    assert!(text.contains("EnvironmentFile=/etc/app/env.real\n"));
    assert!(text.contains("ContainersConfModule=/etc/containers/modules.conf\n"));
    assert!(!text.contains("relative/modules.conf"));
}

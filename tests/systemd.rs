use charon::{CompiledPackage, PackageTitle, SystemdUnit};

fn podman_test() -> CompiledPackage {
    CompiledPackage {
        title: PackageTitle {
            name: "podman-test".into(),
            version: "0.0.2".into(),
        },
        ..Default::default()
    }
}

#[test]
fn unit_names() {
    let unit = SystemdUnit::new(podman_test(), None);
    assert_eq!(unit.filename(), "/etc/systemd/system/podman-test-0.0.2.service");
    assert_eq!(unit.service_name(), "podman-test-0.0.2.service");
    let elsewhere = SystemdUnit::new(podman_test(), Some("/run/units".into()));
    assert_eq!(elsewhere.filename(), "/run/units/podman-test-0.0.2.service");
}

#[test]
fn unit_contents() {
    let path = "/tmp/volroot";
    let unit = SystemdUnit::new(podman_test(), None);
    let text = unit
        .unit("testdata/registry".into(), path.to_string())
        .unwrap();
    assert_eq!(
        text,
        format!(
            r#"
[Unit]
Description=Charon launcher for podman-test, version 0.0.2

[Service]
ExecStart=/usr/bin/charon -r testdata/registry launch podman-test 0.0.2 {}
ExecStop=/usr/bin/charon -r testdata/registry stop podman-test 0.0.2 {}
Restart=always

[Install]
Alias=podman-test-0.0.2.service
"#,
            path, path
        )
    );
}

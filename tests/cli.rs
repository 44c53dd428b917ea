use charon::cli::{PODMAN_COMMAND, QEMU_COMMAND};
use charon::{
    generate_command, generate_container_command, generate_vm_command, vm_image_download,
    vm_ping, vm_quit, vm_shutdown, CompiledPackage, CompiledSource, Error, Global, Input,
    Networking, PackageTitle, PromptResponse, PromptResponses, Resources, Source, SourcePackage,
    Storage, System, TemplatedInput, Variables, Volume,
};

fn string_vec(v: Vec<&str>) -> Vec<String> {
    v.iter().map(ToString::to_string).collect::<Vec<String>>()
}

fn ti<T>(s: &str) -> TemplatedInput<T> {
    TemplatedInput::new(s)
}

fn title(name: &str, version: &str) -> PackageTitle {
    PackageTitle {
        name: name.into(),
        version: version.into(),
    }
}

fn volume(name: &str, mountpoint: Option<&str>, private: bool) -> Volume {
    Volume {
        name: ti(name),
        size: ti("10"),
        mountpoint: mountpoint.map(ti),
        recreate: ti("false"),
        private: ti(if private { "true" } else { "false" }),
    }
}

/// The packages of the sample registry the command lines are checked against.
fn stored(name: &str, version: &str) -> Option<SourcePackage> {
    let base = SourcePackage {
        title: title(name, version),
        ..Default::default()
    };
    match (name, version) {
        ("plex", "0.0.1") | ("plex", "0.0.2") => Some(base),
        ("plex-qemu", "0.0.1") => Some(SourcePackage {
            source: Source::URL(ti("https://example.org/plex.img")),
            networking: Some(Networking {
                forward_ports: vec![(ti("1234"), ti("5678")), (ti("2345"), ti("6789"))],
                expose_ports: vec![],
                internal_network: None,
                hostname: None,
            }),
            resources: Some(Resources {
                cpus: ti("8"),
                memory: ti("4096"),
            }),
            ..base
        }),
        ("plex-qemu", "0.0.2") => Some(SourcePackage {
            source: Source::URL(ti("https://example.org/plex.img")),
            storage: Some(Storage {
                volumes: vec![volume("test", None, false)],
            }),
            resources: Some(Resources {
                cpus: ti("4"),
                memory: ti("8192"),
            }),
            ..base
        }),
        ("podman-test", "0.0.1") => Some(SourcePackage {
            source: Source::Container(ti("debian")),
            storage: Some(Storage {
                volumes: vec![
                    volume("private", Some("/private-test"), true),
                    volume("shared", Some("/shared-test"), false),
                ],
            }),
            system: Some(System {
                host_pid: ti("true"),
                host_net: ti("true"),
                capabilities: vec![ti("SYS_ADMIN")],
                privileged: ti("true"),
            }),
            ..base
        }),
        _ => None,
    }
}

fn compile_with(package: &SourcePackage, responses: Vec<PromptResponse>) -> Result<CompiledPackage, Error> {
    let globals = Global {
        name: package.title.name.clone(),
        variables: Variables::new(),
    };
    package.compile(&globals, &PromptResponses(responses))
}

fn load(name: &str, version: &str) -> Result<CompiledPackage, Error> {
    match stored(name, version) {
        Some(p) => compile_with(&p, vec![]),
        None => Err(Error::NotFound(format!("{}-{}", name, version))),
    }
}

fn qemu_cli_cases() {
    assert_eq!(
        generate_command(load("plex-qemu", "0.0.2").unwrap(), "/volume-root".into()).unwrap(),
        string_vec(vec![
            QEMU_COMMAND,
            "-nodefaults",
            "-chardev",
            "socket,server=on,wait=off,id=char0,path=/volume-root/qemu-monitor",
            "-mon",
            "chardev=char0,mode=control,pretty=on",
            "-machine",
            "accel=kvm",
            "-vga",
            "none",
            "-m",
            "8192M",
            "-cpu",
            "max",
            "-smp",
            "cpus=4,cores=4,maxcpus=4",
            "-nic",
            "user",
            "-drive",
            "driver=raw,if=virtio,file=/volume-root/image,cache=none,media=disk,index=0",
            "-drive",
            "driver=raw,if=virtio,file=/volume-root/test,cache=none,media=disk,index=1"
        ]),
    );
    assert_eq!(
        generate_command(load("plex-qemu", "0.0.1").unwrap(), "/volume-root".into()).unwrap(),
        string_vec(vec![
            QEMU_COMMAND,
            "-nodefaults",
            "-chardev",
            "socket,server=on,wait=off,id=char0,path=/volume-root/qemu-monitor",
            "-mon",
            "chardev=char0,mode=control,pretty=on",
            "-machine",
            "accel=kvm",
            "-vga",
            "none",
            "-m",
            "4096M",
            "-cpu",
            "max",
            "-smp",
            "cpus=8,cores=8,maxcpus=8",
            "-nic",
            "user,hostfwd=tcp:0.0.0.0:1234-:5678,hostfwd=tcp:0.0.0.0:2345-:6789",
            "-drive",
            "driver=raw,if=virtio,file=/volume-root/image,cache=none,media=disk,index=0"
        ]),
    );
}

fn podman_cli_cases() {
    assert_eq!(
        generate_command(load("plex", "0.0.2").unwrap(), "/volume-root".into()).unwrap(),
        string_vec(vec![PODMAN_COMMAND, "--name", "plex-0.0.2", "-d", "scratch"])
    );
    assert_eq!(
        generate_command(load("plex", "0.0.1").unwrap(), "/volume-root".into()).unwrap(),
        string_vec(vec![PODMAN_COMMAND, "--name", "plex-0.0.1", "-d", "scratch"])
    );
    assert_eq!(
        generate_command(load("podman-test", "0.0.1").unwrap(), "/volume-root".into()).unwrap(),
        string_vec(vec![
            PODMAN_COMMAND,
            "--name",
            "podman-test-0.0.1",
            "-v",
            "/volume-root/private:/private-test:rprivate",
            "-v",
            "/volume-root/shared:/shared-test:rshared",
            "--pid",
            "host",
            "--network",
            "host",
            "--privileged",
            "--cap-add",
            "SYS_ADMIN",
            "-d",
            "debian"
        ])
    );
}

#[test]
fn cli_qemu_cli() {
    qemu_cli_cases();
}

#[test]
fn cli_podman_cli() {
    podman_cli_cases();
}

#[test]
fn tests_qemu_cli() {
    qemu_cli_cases();
}

#[test]
fn tests_podman_cli() {
    podman_cli_cases();
}

#[test]
fn vm_volume_named_like_reserved_file_fails() {
    for reserved in ["image", "qemu-monitor"] {
        let package = SourcePackage {
            title: title("plex-qemu", "0.0.3"),
            source: Source::URL(ti("https://example.org/plex.img")),
            storage: Some(Storage {
                volumes: vec![volume("data", None, false), volume(reserved, None, false)],
            }),
            ..Default::default()
        };
        let compiled = compile_with(&package, vec![]).unwrap();
        match generate_vm_command(&compiled, &"/volume-root".to_string()) {
            Err(Error::ReservedName(name)) => assert_eq!(name, reserved),
            other => panic!("unexpected outcome {:?}", other),
        }
        assert!(generate_command(compiled, "/volume-root".into()).is_err());
    }
}

#[test]
fn container_command_with_network_and_ports() {
    let package = SourcePackage {
        title: title("web", "1.0"),
        source: Source::Container(ti("nginx")),
        networking: Some(Networking {
            forward_ports: vec![(ti("8080"), ti("80"))],
            expose_ports: vec![(ti("8443"), ti("?port?"))],
            internal_network: Some(ti("backend")),
            hostname: Some(ti("web.local")),
        }),
        storage: Some(Storage {
            volumes: vec![volume("cache", None, false), volume("data", Some("/data"), false)],
        }),
        system: Some(System {
            host_pid: ti("false"),
            host_net: ti("true"),
            capabilities: vec![ti("NET_ADMIN"), ti("SYS_TIME")],
            privileged: ti("false"),
        }),
        ..Default::default()
    };
    let compiled = compile_with(
        &package,
        vec![PromptResponse {
            template: "port".into(),
            input: Input::Integer(443),
        }],
    )
    .unwrap();
    assert_eq!(
        generate_container_command(&compiled, &"/vols/".to_string()).unwrap(),
        string_vec(vec![
            "podman",
            "--name",
            "web-1.0",
            "--hostname",
            "web.local",
            "--network",
            "backend",
            "-p",
            "8080:80",
            "-p",
            "8443:443",
            "-v",
            "/vols/data:/data:rshared",
            "--cap-add",
            "NET_ADMIN",
            "--cap-add",
            "SYS_TIME",
            "-d",
            "nginx"
        ])
    );
}

#[test]
fn vm_command_with_exposed_ports() {
    let package = SourcePackage {
        title: title("vm", "2"),
        source: Source::URL(ti("https://example.org/vm.img")),
        networking: Some(Networking {
            forward_ports: vec![(ti("22"), ti("2222"))],
            expose_ports: vec![(ti("80"), ti("8080"))],
            internal_network: None,
            hostname: None,
        }),
        storage: Some(Storage {
            volumes: vec![volume("a", None, false), volume("b", Some("/b"), true)],
        }),
        resources: Some(Resources {
            cpus: ti("2"),
            memory: ti("?mem?"),
        }),
        ..Default::default()
    };
    let compiled = compile_with(
        &package,
        vec![PromptResponse {
            template: "mem".into(),
            input: Input::String("1024".into()),
        }],
    )
    .unwrap();
    let args = generate_vm_command(&compiled, &"/root".to_string()).unwrap();
    assert_eq!(args[11], "1024M");
    assert_eq!(args[15], "cpus=2,cores=2,maxcpus=2");
    assert_eq!(
        args[17],
        "user,hostfwd=tcp:0.0.0.0:22-:2222,hostfwd=tcp:0.0.0.0:80-:8080"
    );
    assert_eq!(
        args[20..].to_vec(),
        string_vec(vec![
            "-drive",
            "driver=raw,if=virtio,file=/root/a,cache=none,media=disk,index=1",
            "-drive",
            "driver=raw,if=virtio,file=/root/b,cache=none,media=disk,index=2"
        ])
    );
}

#[test]
fn url_source_is_not_a_container() {
    let mut compiled = load("plex", "0.0.1").unwrap();
    compiled.source = CompiledSource::URL("https://example.org/x.img".into());
    assert!(matches!(
        generate_container_command(&compiled, &"/r".to_string()),
        Err(Error::BackendMismatch(_))
    ));
    let download = vm_image_download(&compiled, &"/r".to_string()).unwrap();
    assert_eq!(download.url, "https://example.org/x.img");
    assert_eq!(download.path, "/r/image");
    let container = load("plex", "0.0.1").unwrap();
    assert!(matches!(
        vm_image_download(&container, &"/r".to_string()),
        Err(Error::BackendMismatch(_))
    ));
}

#[test]
fn monitor_sessions() {
    let compiled = load("plex-qemu", "0.0.1").unwrap();
    let root = "/volume-root".to_string();
    let ping = vm_ping(&compiled, &root);
    assert_eq!(ping.socket, "/volume-root/qemu-monitor");
    assert_eq!(ping.commands, string_vec(vec!["qmp_capabilities"]));
    match ping.unreachable {
        Error::NotFound(m) => assert_eq!(m, "plex-qemu-0.0.1 is not running or not monitored"),
        other => panic!("unexpected error {:?}", other),
    }
    assert_eq!(
        vm_shutdown(&compiled, &root).commands,
        string_vec(vec!["qmp_capabilities", "system_powerdown"])
    );
    assert_eq!(
        vm_quit(&compiled, &root).commands,
        string_vec(vec!["qmp_capabilities", "quit"])
    );
}

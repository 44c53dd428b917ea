use charon::registry::Validation;
use charon::{
    CompiledPackage, CompiledResources, Error, Global, Input, Networking, PackageTitle,
    PromptResponse, PromptResponses, Registry, Resources, Source, SourcePackage, Storage, System,
    TemplatedInput, Variables, Volume,
};

fn ti<T>(s: &str) -> TemplatedInput<T> {
    TemplatedInput::new(s)
}

fn title(name: &str, version: &str) -> PackageTitle {
    PackageTitle {
        name: name.into(),
        version: version.into(),
    }
}

fn globals_for(name: &str) -> Global {
    Global {
        name: name.into(),
        variables: Variables::new(),
    }
}

fn with_deps(name: &str, version: &str, deps: Vec<PackageTitle>) -> SourcePackage {
    SourcePackage {
        title: title(name, version),
        dependencies: Some(deps),
        ..Default::default()
    }
}

/// What the sample registry holds under a requested title.
fn stored(name: &str, version: &str) -> Option<SourcePackage> {
    match (name, version) {
        ("plex", "0.0.1") | ("plex", "0.0.2") | ("no-variables", "0.0.1") => Some(SourcePackage {
            title: title(name, version),
            ..Default::default()
        }),
        ("with-dependencies", "0.0.1") => Some(with_deps(
            name,
            version,
            vec![title("plex", "0.0.1"), title("plex", "0.0.2")],
        )),
        ("bad-dependencies", "0.0.1") => Some(with_deps(name, version, vec![title("plex", "0.0.3")])),
        ("bad-dependencies", "0.0.2") => {
            Some(with_deps(name, version, vec![title("missing-package", "0.0.1")]))
        }
        ("bad-dependencies", "0.0.3") => {
            Some(with_deps(name, version, vec![title("no-variables", "0.0.1")]))
        }
        ("bad-name-version", "0.0.1") => Some(SourcePackage {
            title: title("bad-name", "0.0.1"),
            ..Default::default()
        }),
        ("bad-name-version", "0.0.2") => Some(SourcePackage {
            title: title("bad-name-version", "0.0.9"),
            ..Default::default()
        }),
        ("cycle-a", "0.0.1") => Some(with_deps(name, version, vec![title("cycle-b", "0.0.1")])),
        ("cycle-b", "0.0.1") => Some(with_deps(name, version, vec![title("cycle-a", "0.0.1")])),
        _ => None,
    }
}

fn has_globals(name: &str) -> bool {
    name != "no-variables"
}

fn run(mut walk: Validation) -> Result<(), Error> {
    while let Some(t) = walk.next_title() {
        let package = match stored(&t.name, &t.version) {
            Some(p) => p,
            None => return Err(Error::NotFound(format!("{}-{}", t.name, t.version))),
        };
        let globals = if has_globals(&t.name) {
            Ok(())
        } else {
            Err(Error::NotFound(format!("variables/{}.json", t.name)))
        };
        walk.check(&t, &package, globals)?;
    }
    Ok(())
}

#[test]
fn validate() {
    let registry = Registry::new("testdata/registry".into());
    assert!(run(registry.validate("plex", "0.0.1")).is_ok());
    assert!(run(registry.validate("plex", "0.0.2")).is_ok());
    // doesn't exist
    assert!(run(registry.validate("plex", "0.0.3")).is_err());
    // doesn't have a variables json
    assert!(run(registry.validate("no-variables", "0.0.1")).is_err());
    assert!(run(registry.validate("with-dependencies", "0.0.1")).is_ok());
    // depends on a non-existent version of plex
    assert!(run(registry.validate("bad-dependencies", "0.0.1")).is_err());
    // depends on non-existent package
    assert!(run(registry.validate("bad-dependencies", "0.0.2")).is_err());
    // depends on a bad package
    assert!(run(registry.validate("bad-dependencies", "0.0.3")).is_err());
    // invalid name, valid version
    assert!(run(registry.validate("bad-name-version", "0.0.1")).is_err());
    // invalid version, valid name
    assert!(run(registry.validate("bad-name-version", "0.0.2")).is_err());
}

#[test]
fn validate_stops_on_cycles() {
    let registry = Registry::new("r".into());
    assert!(run(registry.validate("cycle-a", "0.0.1")).is_ok());
}

#[test]
fn validate_visits_dependencies_in_order() {
    let registry = Registry::new("r".into());
    let mut walk = registry.validate("with-dependencies", "0.0.1");
    let first = walk.next_title().unwrap();
    assert_eq!(first, title("with-dependencies", "0.0.1"));
    walk.check(&first, &stored("with-dependencies", "0.0.1").unwrap(), Ok(()))
        .unwrap();
    assert_eq!(walk.next_title().unwrap(), title("plex", "0.0.1"));
    assert_eq!(walk.next_title().unwrap(), title("plex", "0.0.2"));
    assert_eq!(walk.next_title(), None);
    let mut bad = registry.validate("bad-name-version", "0.0.2");
    let t = bad.next_title().unwrap();
    match bad.check(&t, &stored("bad-name-version", "0.0.2").unwrap(), Ok(())) {
        Err(Error::TitleMismatch { name, version }) => {
            assert_eq!(name, "bad-name-version");
            assert_eq!(version, "0.0.2");
        }
        other => panic!("unexpected outcome {:?}", other),
    }
}

#[test]
fn compile() {
    let package = SourcePackage {
        title: title("plex", "1.2.3"),
        root: Some("/tmp/registry".into()),
        ..Default::default()
    };
    let mut variables = Variables::default();
    variables.insert("foo".into(), "bar".into());
    variables.insert("baz".into(), "quux".into());
    let globals = Global {
        name: "plex".into(),
        variables,
    };
    let out = package.compile(&globals, &PromptResponses::default()).unwrap();
    assert_eq!(
        out,
        CompiledPackage {
            title: title("plex", "1.2.3"),
            ..Default::default()
        }
    )
}

fn templated_package() -> SourcePackage {
    SourcePackage {
        title: title("svc", "0.1"),
        description: "a service".into(),
        dependencies: Some(vec![title("base", "1")]),
        source: Source::Container(ti("registry.local/?image?:latest")),
        networking: Some(Networking {
            forward_ports: vec![(ti("?port?"), ti("80"))],
            expose_ports: vec![],
            internal_network: None,
            hostname: Some(ti("?host?")),
        }),
        storage: Some(Storage {
            volumes: vec![Volume {
                name: ti("data"),
                size: ti("?size?"),
                mountpoint: Some(ti("/srv/?host?")),
                recreate: ti("false"),
                private: ti("?private?"),
            }],
        }),
        system: None,
        resources: Some(Resources {
            cpus: ti("2"),
            memory: ti("512"),
        }),
        prompts: None,
        root: None,
    }
}

fn answers() -> Vec<PromptResponse> {
    vec![
        PromptResponse {
            template: "image".into(),
            input: Input::String("svc".into()),
        },
        PromptResponse {
            template: "port".into(),
            input: Input::Integer(8080),
        },
        PromptResponse {
            template: "host".into(),
            input: Input::String("svc.local".into()),
        },
        PromptResponse {
            template: "size".into(),
            input: Input::Integer(100),
        },
        PromptResponse {
            template: "private".into(),
            input: Input::Boolean(true),
        },
    ]
}

#[test]
fn compile_resolves_every_field() {
    let out = templated_package()
        .compile(&globals_for("svc"), &PromptResponses(answers()))
        .unwrap();
    assert_eq!(out.title, title("svc", "0.1"));
    assert_eq!(out.description, "a service");
    assert_eq!(out.dependencies, vec![title("base", "1")]);
    assert_eq!(
        out.source,
        charon::CompiledSource::Container("registry.local/svc:latest".into())
    );
    assert_eq!(out.networking.forward_ports, vec![(8080, 80)]);
    assert_eq!(out.networking.hostname, Some("svc.local".into()));
    assert_eq!(out.storage.volumes[0].size, 100);
    assert_eq!(out.storage.volumes[0].mountpoint, Some("/srv/svc.local".into()));
    assert!(out.storage.volumes[0].private);
    assert!(!out.system.host_net);
    assert!(out.system.capabilities.is_empty());
    assert_eq!(out.resources, CompiledResources { cpus: 2, memory: 512 });
}

#[test]
fn compile_twice_gives_the_same_package() {
    let package = templated_package();
    let responses = PromptResponses(answers());
    let first = package.compile(&globals_for("svc"), &responses).unwrap();
    let second = package.compile(&globals_for("svc"), &responses).unwrap();
    assert_eq!(first, second);
}

#[test]
fn compile_reports_first_unresolved_placeholder() {
    match templated_package().compile(&globals_for("svc"), &PromptResponses(vec![])) {
        Err(Error::UnresolvedPlaceholder(key)) => assert_eq!(key, "image"),
        other => panic!("unexpected outcome {:?}", other),
    }
}

#[test]
fn compile_reports_type_mismatch() {
    let mut responses = answers();
    responses[1].input = Input::String("http".into());
    match templated_package().compile(&globals_for("svc"), &PromptResponses(responses)) {
        Err(Error::TypeMismatch { field, text }) => {
            assert_eq!(field, "forward_ports");
            assert_eq!(text, "http");
        }
        other => panic!("unexpected outcome {:?}", other),
    }
    let too_big = Resources {
        cpus: ti("70000"),
        memory: ti("1"),
    };
    assert!(too_big
        .compile(&globals_for("x"), &Default::default(), &PromptResponses::new())
        .is_ok());
    let port = (ti::<u16>("65536"), ti::<u16>("1"));
    let net = Networking {
        forward_ports: vec![port],
        expose_ports: vec![],
        internal_network: None,
        hostname: None,
    };
    assert!(matches!(
        net.compile(&globals_for("x"), &Default::default(), &PromptResponses::new()),
        Err(Error::TypeMismatch { .. })
    ));
    let system = System {
        host_pid: ti("yes"),
        host_net: ti("false"),
        capabilities: vec![],
        privileged: ti("false"),
    };
    match system.compile(&globals_for("x"), &Default::default(), &PromptResponses::new()) {
        Err(Error::TypeMismatch { field, text }) => {
            assert_eq!(field, "host_pid");
            assert_eq!(text, "yes");
        }
        other => panic!("unexpected outcome {:?}", other),
    }
}

#[test]
fn typed_fields_parse_decimal() {
    let g = globals_for("x");
    let p = Default::default();
    let none = PromptResponses::new();
    assert_eq!(ti::<u16>("65535").output("f", &g, &p, &none).unwrap(), 65535);
    assert_eq!(ti::<u16>("+7").output("f", &g, &p, &none).unwrap(), 7);
    assert!(ti::<u16>("-1").output("f", &g, &p, &none).is_err());
    assert!(ti::<u16>("").output("f", &g, &p, &none).is_err());
    assert_eq!(
        ti::<u64>("18446744073709551615").output("f", &g, &p, &none).unwrap(),
        u64::MAX
    );
    assert!(ti::<u64>("18446744073709551616").output("f", &g, &p, &none).is_err());
    assert_eq!(
        ti::<i64>("-9223372036854775808").output("f", &g, &p, &none).unwrap(),
        i64::MIN
    );
    assert!(ti::<i64>("9223372036854775808").output("f", &g, &p, &none).is_err());
    assert_eq!(ti::<i64>("+12").output("f", &g, &p, &none).unwrap(), 12);
    assert!(ti::<i64>("-").output("f", &g, &p, &none).is_err());
    assert!(ti::<bool>("true").output("f", &g, &p, &none).unwrap());
    assert!(!ti::<bool>("false").output("f", &g, &p, &none).unwrap());
    assert!(ti::<bool>("True").output("f", &g, &p, &none).is_err());
    assert_eq!(
        ti::<String>("a ?? b").output("f", &g, &p, &none).unwrap(),
        "a ? b"
    );
}

#[test]
fn package_title_text() {
    assert_eq!(title("plex", "0.0.2").to_string(), "plex-0.0.2");
    let mut titles = vec![title("b", "1"), title("a", "2"), title("a", "1")];
    titles.sort();
    assert_eq!(titles, vec![title("a", "1"), title("a", "2"), title("b", "1")]);
}

#[test]
fn registry_locations() {
    let registry = Registry::new("/reg".into());
    assert_eq!(registry.package_dir("plex"), "/reg/packages/plex");
    assert_eq!(registry.package_file("plex", "1.2.3"), "/reg/packages/plex/1.2.3.json");
    assert_eq!(
        registry.package_temp_file("plex", "1.2.3"),
        "/reg/packages/plex/1.2.3.json.tmp"
    );
    assert_eq!(
        charon::GlobalRegistry::new("/reg/".into()).file("plex"),
        "/reg/variables/plex.json"
    );
    assert_eq!(
        charon::ResponseRegistry::new("reg".into()).temp_file("plex"),
        "reg/responses/plex.json.tmp"
    );
    let loaded = registry.load(SourcePackage::default());
    assert_eq!(loaded.root, Some("/reg".into()));
    assert!(loaded.response_registry().is_ok());
    assert!(SourcePackage::default().global_registry().is_err());
}

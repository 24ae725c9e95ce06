use interoper::{
    build_package_json, install_path, install_segments, manifest_entries, next_step, placeholder,
    plan_build, resolve_dependencies, Auto, Backend, Bun, Config, ConfigError, DependencySpec,
    GitDependencyVersion, InstallError, InstallStep, Local, Npm, Outcome, PackageManagerType, Pnpm,
    Project, RawSpec, SelectedBackend, Yarn,
};

fn s(text: &str) -> String {
    text.to_string()
}

fn table(fields: &[(&str, &str)]) -> RawSpec {
    RawSpec::Table(fields.iter().map(|(k, v)| (s(k), s(v))).collect())
}

fn ok() -> Outcome {
    Outcome::Succeeded
}

fn failed(reason: &str) -> Outcome {
    Outcome::Failed(s(reason))
}

fn render(key: &str, raw: &RawSpec) -> String {
    DependencySpec::decode(key, raw).unwrap().as_package_json_dependency_version(key)
}

#[test]
fn bare_string_is_registry_version() {
    let raw = RawSpec::Text(s("^4.17.21"));
    assert_eq!(DependencySpec::decode("lodash", &raw), Ok(DependencySpec::RegistryVersion(s("^4.17.21"))));
    assert_eq!(render("lodash", &raw), "^4.17.21");
}

#[test]
fn registry_without_name_uses_key() {
    let raw = table(&[("version", "1.0.0")]);
    assert_eq!(
        DependencySpec::decode("foo", &raw),
        Ok(DependencySpec::Registry { registry: s("npm"), name: None, version: s("1.0.0") })
    );
    assert_eq!(render("foo", &raw), "foo@npm:foo@1.0.0");
}

#[test]
fn registry_with_name_uses_name() {
    let raw = table(&[("registry", "jsr"), ("name", "@std/path"), ("version", "1.0.0")]);
    assert_eq!(render("path", &raw), "path@jsr:@std/path@1.0.0");
    let raw = table(&[("name", "real"), ("version", "2.0.0")]);
    assert_eq!(render("alias", &raw), "alias@npm:real@2.0.0");
}

#[test]
fn url_renders_as_url() {
    let raw = table(&[("url", "https://example.com/pkg.tgz")]);
    assert_eq!(render("pkg", &raw), "https://example.com/pkg.tgz");
}

#[test]
fn git_renders_with_and_without_ref() {
    assert_eq!(render("a", &table(&[("git", "https://x/y.git")])), "https://x/y.git");
    assert_eq!(render("a", &table(&[("git", "https://x/y.git"), ("tag", "v1")])), "https://x/y.git#v1");
    assert_eq!(render("a", &table(&[("git", "https://x/y.git"), ("ref", "abc123")])), "https://x/y.git#abc123");
    assert_eq!(render("a", &table(&[("git", "https://x/y.git"), ("branch", "main")])), "https://x/y.git#main");
    assert_eq!(
        DependencySpec::decode("a", &table(&[("git", "g"), ("branch", "b"), ("tag", "t")])),
        Ok(DependencySpec::Git { git: s("g"), version: Some(GitDependencyVersion::Tag { tag: s("t") }) })
    );
}

#[test]
fn github_renders_with_and_without_ref() {
    assert_eq!(render("a", &table(&[("github", "owner/repo")])), "owner/repo");
    assert_eq!(render("a", &table(&[("github", "owner/repo"), ("ref", "dev")])), "owner/repo#dev");
}

#[test]
fn local_path_renders_as_path() {
    assert_eq!(render("a", &table(&[("path", "../local/pkg")])), "../local/pkg");
}

#[test]
fn git_wins_over_path() {
    let raw = table(&[("path", "./p"), ("git", "https://x/y.git")]);
    assert!(matches!(DependencySpec::decode("a", &raw), Ok(DependencySpec::Git { .. })));
    let raw = table(&[("path", "./p"), ("url", "https://u"), ("version", "1")]);
    assert!(matches!(DependencySpec::decode("a", &raw), Ok(DependencySpec::Url { .. })));
}

#[test]
fn table_without_source_is_rejected() {
    let raw = table(&[("name", "x"), ("registry", "npm")]);
    assert_eq!(DependencySpec::decode("bad", &raw), Err(ConfigError::InvalidDependencySpec(s("bad"))));
    let deps = vec![(s("ok"), RawSpec::Text(s("1"))), (s("bad"), table(&[])), (s("worse"), table(&[]))];
    assert_eq!(Config::decode(&None, &deps), Err(ConfigError::InvalidDependencySpec(s("bad"))));
}

#[test]
fn git_version_text() {
    assert_eq!(GitDependencyVersion::Branch { branch: s("main") }.to_string(), "main");
    assert_eq!(GitDependencyVersion::Reference { reference: s("r") }.to_string(), "r");
}

#[test]
fn package_manager_names() {
    assert_eq!(PackageManagerType::from_name("npm"), PackageManagerType::Npm);
    assert_eq!(PackageManagerType::from_name("auto"), PackageManagerType::Auto);
    assert_eq!(PackageManagerType::from_name("bun"), PackageManagerType::Bun);
    assert_eq!(PackageManagerType::from_name("./my-pm"), PackageManagerType::LocalExecutable(s("./my-pm")));
    assert_eq!(PackageManagerType::default(), PackageManagerType::Auto);
    assert_eq!(Config::decode(&None, &vec![]).unwrap().package_manager, PackageManagerType::Auto);
}

#[test]
fn backends_run_install() {
    let plan = Npm.plan();
    assert!(!plan.fallback);
    assert_eq!(plan.commands.len(), 1);
    assert_eq!(plan.commands[0].program, "npm");
    assert_eq!(plan.commands[0].args, vec![s("install")]);
    assert_eq!(Yarn.plan().commands[0].program, "yarn");
    assert_eq!(Pnpm.plan().commands[0].program, "pnpm");
    assert_eq!(Bun.plan().commands[0].program, "bun");
    assert_eq!(Local { executable: s("/opt/pm") }.plan().commands[0].program, "/opt/pm");
    let selected = PackageManagerType::LocalExecutable(s("x")).as_backend();
    assert_eq!(selected, SelectedBackend::Local(Local { executable: s("x") }));
}

#[test]
fn auto_order() {
    let plan = Auto.plan();
    assert!(plan.fallback);
    let programs: Vec<String> = plan.commands.iter().map(|c| c.program.clone()).collect();
    assert_eq!(programs, vec![s("bun"), s("pnpm"), s("yarn"), s("npm")]);
}

#[test]
fn auto_stops_at_yarn() {
    let plan = PackageManagerType::Auto.as_backend().plan();
    let would_succeed = [failed("not found"), failed("exit status: 1"), ok(), ok()];
    let mut outcomes: Vec<Outcome> = vec![];
    let mut invoked: Vec<String> = vec![];
    let result = loop {
        match next_step(&plan, &outcomes) {
            InstallStep::Run(i) => {
                invoked.push(plan.commands[i].program.clone());
                outcomes.push(would_succeed[i].clone());
            }
            other => break other,
        }
    };
    assert_eq!(result, InstallStep::Installed(2));
    assert_eq!(invoked, vec![s("bun"), s("pnpm"), s("yarn")]);
}

#[test]
fn auto_without_any_backend() {
    let plan = Auto.plan();
    assert_eq!(next_step(&plan, &vec![]), InstallStep::Run(0));
    assert_eq!(next_step(&plan, &vec![failed("a"), failed("b")]), InstallStep::Run(2));
    assert_eq!(
        next_step(&plan, &vec![failed("a"), failed("b"), failed("c"), failed("d")]),
        InstallStep::Failed(InstallError::NoBackendAvailable(vec![
            (s("bun"), s("a")),
            (s("pnpm"), s("b")),
            (s("yarn"), s("c")),
            (s("npm"), s("d")),
        ]))
    );
}

#[test]
fn single_backend_failure() {
    let plan = Pnpm.plan();
    assert_eq!(next_step(&plan, &vec![]), InstallStep::Run(0));
    assert_eq!(next_step(&plan, &vec![ok()]), InstallStep::Installed(0));
    assert_eq!(
        next_step(&plan, &vec![failed("exit status: 2")]),
        InstallStep::Failed(InstallError::Failed(s("pnpm"), s("exit status: 2")))
    );
}

#[test]
fn scoped_and_plain_install_paths() {
    assert_eq!(install_segments("@scope/pkg"), vec![s("@scope"), s("pkg")]);
    assert_eq!(install_segments("lodash"), vec![s("lodash")]);
    assert_eq!(install_segments("@a/b/c"), vec![s("@a/b/c")]);
    assert_eq!(install_segments("a/b"), vec![s("a/b")]);
    assert_eq!(install_path("/root/node_modules", "@scope/pkg"), "/root/node_modules/@scope/pkg");
    assert_eq!(install_path("/root/node_modules", "lodash"), "/root/node_modules/lodash");
}

#[test]
fn missing_dependency_is_omitted() {
    let deps = vec![(s("lodash"), RawSpec::Text(s("1"))), (s("@scope/pkg"), RawSpec::Text(s("2")))];
    let config = Config::decode(&None, &deps).unwrap();
    let project = resolve_dependencies(&config, &vec![None, Some(s("/nm/@scope/pkg"))]);
    assert_eq!(project.dependencies, vec![(s("@scope/pkg"), s("/nm/@scope/pkg"))]);
}

fn scenario_config() -> Config {
    let deps = vec![
        (s("foo"), RawSpec::Text(s("1.2.3"))),
        (s("bar"), table(&[("git", "https://x/y.git"), ("branch", "main")])),
    ];
    Config::decode(&Some(s("npm")), &deps).unwrap()
}

#[test]
fn end_to_end_scenario() {
    let config = scenario_config();
    assert_eq!(config.package_manager, PackageManagerType::Npm);
    assert_eq!(
        manifest_entries(&config),
        vec![(s("foo"), s("1.2.3")), (s("bar"), s("https://x/y.git#main"))]
    );
    let plan = plan_build(&config, "/out").unwrap();
    assert_eq!(plan.work_dir, "/out/interoper");
    assert_eq!(plan.manifest_path, "/out/interoper/package.json");
    assert_eq!(plan.installed_root, "/out/interoper/node_modules");
    let doc: serde_json::Value = serde_json::from_str(&plan.manifest).unwrap();
    assert_eq!(doc["dependencies"]["foo"], "1.2.3");
    assert_eq!(doc["dependencies"]["bar"], "https://x/y.git#main");
    assert_eq!(doc["dependencies"].as_object().unwrap().len(), 2);
    assert_eq!(plan.install.commands.len(), 1);
    assert_eq!(plan.install.commands[0].program, "npm");
    assert_eq!(next_step(&plan.install, &vec![ok()]), InstallStep::Installed(0));
    let found = vec![
        Some(install_path("/abs/node_modules", "foo")),
        Some(install_path("/abs/node_modules", "bar")),
    ];
    let project = resolve_dependencies(&config, &found);
    assert_eq!(
        project.dependencies,
        vec![(s("foo"), s("/abs/node_modules/foo")), (s("bar"), s("/abs/node_modules/bar"))]
    );
}

#[test]
fn manifest_is_byte_identical_twice() {
    let config = scenario_config();
    let first = build_package_json(&config).unwrap();
    let second = build_package_json(&config.clone()).unwrap();
    assert_eq!(first, second);
    assert!(first.contains("\"dependencies\""));
}

#[test]
fn manifest_ignores_dependency_order() {
    let forward = vec![(s("a"), RawSpec::Text(s("1"))), (s("b"), table(&[("path", "./b")]))];
    let backward = vec![(s("b"), table(&[("path", "./b")])), (s("a"), RawSpec::Text(s("1")))];
    let first = Config::decode(&None, &forward).unwrap();
    let second = Config::decode(&Some(s("yarn")), &backward).unwrap();
    assert_eq!(build_package_json(&first).unwrap(), build_package_json(&second).unwrap());
}

#[test]
fn selectors_pick_their_backend() {
    assert_eq!(PackageManagerType::Auto.as_backend(), SelectedBackend::Auto(Auto));
    assert_eq!(PackageManagerType::Npm.as_backend(), SelectedBackend::Npm(Npm));
    assert_eq!(PackageManagerType::Pnpm.as_backend(), SelectedBackend::Pnpm(Pnpm));
    assert_eq!(PackageManagerType::Yarn.as_backend(), SelectedBackend::Yarn(Yarn));
    assert_eq!(PackageManagerType::Bun.as_backend(), SelectedBackend::Bun(Bun));
}

#[test]
fn empty_manifest() {
    let config = Config::default();
    let text = build_package_json(&config).unwrap();
    let doc: serde_json::Value = serde_json::from_str(&text).unwrap();
    assert_eq!(doc["dependencies"].as_object().unwrap().len(), 0);
}

#[test]
fn template_placeholders_are_replaced() {
    assert_eq!(placeholder("foo"), "{{ interop:foo }}");
    let project = Project { dependencies: vec![(s("foo"), s("/p/foo")), (s("@s/b"), s("/p/@s/b"))] };
    let text = "a={{ interop:foo }} b={{ interop:@s/b }} c={{ interop:foo }} d={{ interop:zzz }}";
    assert_eq!(project.render_template(text), "a=/p/foo b=/p/@s/b c=/p/foo d={{ interop:zzz }}");
}

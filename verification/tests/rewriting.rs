use exec_interpose::rewrite::{fixed_launcher, launcher_names, library_root, needs_launcher};
use exec_interpose::trampoline::{to_c_bytes, to_c_strings};
use exec_interpose::{
    rewrite, serialize, ArchitectureTag, Args, Env, Environment, ExecError, ExecRequest, Path,
    RewritePlan,
};

fn raw_list(list: &[&str]) -> Vec<Vec<u8>> {
    list.iter().map(|s| s.as_bytes().to_vec()).collect()
}

fn strings(list: &[&str]) -> Vec<String> {
    list.iter().map(|s| s.to_string()).collect()
}

fn request(path: &str, args: &[&str], env: &[&str]) -> ExecRequest {
    ExecRequest::from_array(
        &Path::new(path.as_bytes().to_vec()),
        false,
        &Args::new(raw_list(args)),
        Env::new(raw_list(env)).to_map(),
    )
}

#[test]
fn native_target_passes_through() {
    let plan = rewrite(
        request("/bin/prog", &["prog", "-x"], &["PATH=/usr/bin", "LD_PRELOAD=/lib/hook.so"]),
        "/bin/prog".to_string(),
        ArchitectureTag::X86_64,
        ArchitectureTag::X86_64,
        None,
        "/usr/arch",
    )
    .unwrap();
    assert_eq!(plan.real_path, "/bin/prog");
    assert_eq!(plan.arguments, strings(&["prog", "-x"]));
    assert_eq!(
        plan.environment.to_strings(),
        strings(&["PATH=/usr/bin", "LD_PRELOAD=/lib/hook.so"])
    );
}

#[test]
fn native_target_ignores_the_launcher() {
    let plan = rewrite(
        request("/bin/prog", &[], &[]),
        "/bin/prog".to_string(),
        ArchitectureTag::Arm,
        ArchitectureTag::Arm,
        Some("/bin/qemu-arm".to_string()),
        "/usr/arch",
    )
    .unwrap();
    assert_eq!(plan.real_path, "/bin/prog");
    assert_eq!(plan.arguments, Vec::<String>::new());
    assert_eq!(plan.environment.len(), 0);
}

#[test]
fn foreign_target_runs_under_the_launcher() {
    let plan = rewrite(
        request(
            "/opt/app/bin",
            &["bin", "--flag"],
            &["PATH=/usr/bin", "LD_PRELOAD=/lib/hook.so", "HOME=/root"],
        ),
        "/opt/app/bin".to_string(),
        ArchitectureTag::Aarch64,
        ArchitectureTag::X86_64,
        Some("/bin/qemu-aarch64".to_string()),
        "/usr/arch",
    )
    .unwrap();
    assert_eq!(plan.real_path, "/bin/qemu-aarch64");
    assert_eq!(plan.arguments, strings(&["/opt/app/bin", "bin", "--flag"]));
    assert_eq!(
        plan.environment.to_strings(),
        strings(&["PATH=/usr/bin", "HOME=/root", "QEMU_LD_PREFIX=/usr/arch/aarch64/lib"])
    );
    assert_eq!(plan.environment.get("QEMU_LD_PREFIX"), Some("/usr/arch/aarch64/lib".to_string()));
    assert!(!plan.environment.contains_key("LD_PRELOAD"));
}

#[test]
fn foreign_rewrite_overwrites_a_loader_prefix_in_place() {
    let plan = rewrite(
        request("/opt/app/bin", &["bin"], &["QEMU_LD_PREFIX=/elsewhere", "A=1"]),
        "/opt/app/bin".to_string(),
        ArchitectureTag::X86,
        ArchitectureTag::Aarch64,
        Some("/usr/bin/qemu-i386-static".to_string()),
        "/srv/roots",
    )
    .unwrap();
    assert_eq!(plan.real_path, "/usr/bin/qemu-i386-static");
    assert_eq!(
        plan.environment.to_strings(),
        strings(&["QEMU_LD_PREFIX=/srv/roots/i386/lib", "A=1"])
    );
}

#[test]
fn foreign_target_with_no_arguments_still_gets_its_path() {
    let plan = rewrite(
        request("/opt/app/bin", &[], &[]),
        "/opt/app/bin".to_string(),
        ArchitectureTag::Arm,
        ArchitectureTag::X86_64,
        Some("/bin/qemu-arm".to_string()),
        "/r",
    )
    .unwrap();
    assert_eq!(plan.arguments, strings(&["/opt/app/bin"]));
    assert_eq!(plan.environment.to_strings(), strings(&["QEMU_LD_PREFIX=/r/arm/lib"]));
}

#[test]
fn foreign_target_without_launcher_fails() {
    let plan = rewrite(
        request("/opt/app/bin", &["bin"], &["A=1"]),
        "/opt/app/bin".to_string(),
        ArchitectureTag::Arm,
        ArchitectureTag::X86_64,
        None,
        "/usr/arch",
    );
    assert_eq!(plan.err(), Some(ExecError::LauncherMissing));
}

#[test]
fn unsupported_target_is_rejected() {
    for host in [ArchitectureTag::X86_64, ArchitectureTag::Unsupported] {
        let plan = rewrite(
            request("/opt/app/bin", &["bin"], &[]),
            "/opt/app/bin".to_string(),
            ArchitectureTag::Unsupported,
            host,
            Some("/bin/qemu-arm".to_string()),
            "/usr/arch",
        );
        assert_eq!(plan.err(), Some(ExecError::UnsupportedArchitecture));
    }
}

#[test]
fn rewrite_is_deterministic() {
    let make = || {
        rewrite(
            request("/opt/app/bin", &["bin", "a", "b"], &["X=1", "LD_PRELOAD=h.so", "Y=2", "X=3"]),
            "/opt/app/bin".to_string(),
            ArchitectureTag::Arm,
            ArchitectureTag::Aarch64,
            Some("/bin/qemu-arm".to_string()),
            "/usr/arch",
        )
        .unwrap()
    };
    let first = make();
    let second = make();
    assert_eq!(first.real_path, second.real_path);
    assert_eq!(first.arguments, second.arguments);
    assert_eq!(first.environment.to_strings(), second.environment.to_strings());
    let a = serialize(&first).unwrap();
    let b = serialize(&second).unwrap();
    assert_eq!((a.path, a.argv, a.envp), (b.path, b.argv, b.envp));
}

#[test]
fn launcher_naming() {
    assert_eq!(launcher_names(ArchitectureTag::Arm), strings(&["qemu-arm", "qemu-arm-static"]));
    assert_eq!(
        launcher_names(ArchitectureTag::X86),
        strings(&["qemu-i386", "qemu-i386-static"])
    );
    assert_eq!(fixed_launcher("/bin", ArchitectureTag::X86_64), "/bin/qemu-x86_64");
    assert_eq!(fixed_launcher("/usr/local/bin", ArchitectureTag::Aarch64), "/usr/local/bin/qemu-aarch64");
    assert_eq!(library_root("/usr/arch", ArchitectureTag::Aarch64), "/usr/arch/aarch64/lib");
    assert_eq!(library_root("", ArchitectureTag::X86), "/i386/lib");
}

#[test]
fn launcher_is_needed_for_foreign_targets_only() {
    assert!(!needs_launcher(ArchitectureTag::Arm, ArchitectureTag::Arm));
    assert!(needs_launcher(ArchitectureTag::Arm, ArchitectureTag::Aarch64));
    assert!(needs_launcher(ArchitectureTag::X86, ArchitectureTag::Unsupported));
    assert!(!needs_launcher(ArchitectureTag::Unsupported, ArchitectureTag::Arm));
    assert!(!needs_launcher(ArchitectureTag::Unsupported, ArchitectureTag::Unsupported));
}

#[test]
fn strings_are_serialized_with_a_terminator() {
    assert_eq!(to_c_bytes("ab"), Some(b"ab\0".to_vec()));
    assert_eq!(to_c_bytes(""), Some(vec![0u8]));
    assert_eq!(to_c_bytes("\u{20ac}"), Some(vec![0xe2, 0x82, 0xac, 0]));
    assert_eq!(to_c_bytes("a\0b"), None);
    assert_eq!(to_c_bytes("\0"), None);
    assert_eq!(
        to_c_strings(&strings(&["x", "yz"])),
        Some(vec![b"x\0".to_vec(), b"yz\0".to_vec()])
    );
    assert_eq!(to_c_strings(&Vec::new()), Some(Vec::new()));
    assert_eq!(to_c_strings(&vec!["ok".to_string(), "n\0".to_string()]), None);
}

#[test]
fn plan_is_serialized_in_order() {
    let mut environment = Environment::new();
    environment.insert("PATH".to_string(), "/usr/bin".to_string());
    environment.insert("E".to_string(), String::new());
    let plan = RewritePlan {
        real_path: "/bin/prog".to_string(),
        arguments: strings(&["prog", "-x"]),
        environment,
    };
    let image = serialize(&plan).unwrap();
    assert_eq!(image.path, b"/bin/prog\0".to_vec());
    assert_eq!(image.argv, vec![b"prog\0".to_vec(), b"-x\0".to_vec()]);
    assert_eq!(image.envp, vec![b"PATH=/usr/bin\0".to_vec(), b"E=\0".to_vec()]);
}

#[test]
fn plan_with_an_embedded_nul_is_not_serialized() {
    let plan = |path: &str, arg: &str, value: &str| {
        let mut environment = Environment::new();
        environment.insert("K".to_string(), value.to_string());
        RewritePlan { real_path: path.to_string(), arguments: vec![arg.to_string()], environment }
    };
    assert!(serialize(&plan("/p", "a", "v")).is_ok());
    assert_eq!(serialize(&plan("/p\0", "a", "v")).err(), Some(ExecError::EmbeddedNul));
    assert_eq!(serialize(&plan("/p", "\0a", "v")).err(), Some(ExecError::EmbeddedNul));
    assert_eq!(serialize(&plan("/p", "a", "v\0w")).err(), Some(ExecError::EmbeddedNul));
}

#[test]
fn serialized_text_reads_back() {
    for text in ["", "plain", "/opt/app/bin", "h\u{e9}llo \u{20ac} \u{1f600}", "K=v=w"] {
        let buffer = to_c_bytes(text).unwrap();
        assert_eq!(buffer.last(), Some(&0u8));
        assert_eq!(Path::new(buffer.clone()).to_path(), text);
        assert_eq!(Args::new(vec![buffer]).to_vec(), vec![text.to_string()]);
    }
}

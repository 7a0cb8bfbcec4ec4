use exec_interpose::request::TargetSpec;
use exec_interpose::{Args, Env, Environment, ExecRequest, Path};

fn raw(list: &[&str]) -> Vec<Vec<u8>> {
    list.iter().map(|s| s.as_bytes().to_vec()).collect()
}

fn target_text(target: &TargetSpec) -> (bool, String) {
    match target {
        TargetSpec::Path(text) => (false, text.clone()),
        TargetSpec::Name(text) => (true, text.clone()),
    }
}

#[test]
fn args_are_read_in_order() {
    let args = Args::new(raw(&["prog", "-x", ""]));
    assert_eq!(args.to_vec(), vec!["prog".to_string(), "-x".to_string(), String::new()]);
}

#[test]
fn empty_argument_array_gives_no_arguments() {
    assert_eq!(Args::new(Vec::new()).to_vec(), Vec::<String>::new());
}

#[test]
fn args_are_bounded_at_the_first_nul() {
    let args = Args::new(vec![b"ab\0cd".to_vec(), b"\0".to_vec(), b"x".to_vec()]);
    assert_eq!(args.to_vec(), vec!["ab".to_string(), String::new(), "x".to_string()]);
}

#[test]
fn malformed_bytes_are_decoded_lossily() {
    let args = Args::new(vec![vec![b'a', 0xff, b'b'], vec![0xe2, 0x82, 0xac], b"ok".to_vec()]);
    assert_eq!(
        args.to_vec(),
        vec!["a\u{fffd}b".to_string(), "\u{20ac}".to_string(), "ok".to_string()]
    );
}

#[test]
fn path_is_decoded_and_bounded() {
    assert_eq!(Path::new(b"/opt/app/bin".to_vec()).to_path(), "/opt/app/bin");
    assert_eq!(Path::new(b"/bin/ls\0junk".to_vec()).to_path(), "/bin/ls");
    assert_eq!(Path::new(vec![b'/', 0xc3, 0x28]).to_path(), "/\u{fffd}(");
    assert_eq!(Path::new(Vec::new()).to_path(), "");
}

#[test]
fn environment_entries_are_split_at_the_first_equals_sign() {
    let env = Env::new(raw(&["PATH=/usr/bin", "EQ=a=b=c", "EMPTY=", "=odd"])).to_map();
    assert_eq!(env.len(), 4);
    assert_eq!(env.get("PATH"), Some("/usr/bin".to_string()));
    assert_eq!(env.get("EQ"), Some("a=b=c".to_string()));
    assert_eq!(env.get("EMPTY"), Some(String::new()));
    assert_eq!(env.get(""), Some("odd".to_string()));
    assert_eq!(env.get("MISSING"), None);
}

#[test]
fn duplicate_keys_collapse_to_the_last_assignment() {
    let env = Env::new(raw(&["A=1", "A=2"])).to_map();
    assert_eq!(env.len(), 1);
    assert_eq!(env.get("A"), Some("2".to_string()));
    assert_eq!(env.to_strings(), vec!["A=2".to_string()]);
}

#[test]
fn overwritten_key_keeps_its_place() {
    let env = Env::new(raw(&["A=1", "B=x", "A=2", "C=y"])).to_map();
    assert_eq!(
        env.to_strings(),
        vec!["A=2".to_string(), "B=x".to_string(), "C=y".to_string()]
    );
}

#[test]
fn entry_without_equals_sign_is_dropped() {
    let env = Env::new(raw(&["NOEQUALSSIGN"])).to_map();
    assert_eq!(env.len(), 0);
    assert!(!env.contains_key("NOEQUALSSIGN"));
    assert_eq!(env.get("NOEQUALSSIGN"), None);

    let env = Env::new(raw(&["A=1", "NOEQUALSSIGN", "B=2"])).to_map();
    assert_eq!(env.to_strings(), vec!["A=1".to_string(), "B=2".to_string()]);
    assert!(!env.contains_key("NOEQUALSSIGN"));
}

#[test]
fn environment_entry_is_bounded_at_the_first_nul() {
    let env = Env::new(vec![b"A=1\0B=2".to_vec(), b"C\0=3".to_vec()]).to_map();
    assert_eq!(env.to_strings(), vec!["A=1".to_string()]);
}

#[test]
fn environment_entry_with_malformed_bytes_is_kept() {
    let env = Env::new(vec![vec![b'K', 0xff, b'=', b'v', 0xfe]]).to_map();
    assert_eq!(env.len(), 1);
    assert_eq!(env.key_at(0), "K\u{fffd}");
    assert_eq!(env.value_at(0), "v\u{fffd}");
}

#[test]
fn environment_insert_and_remove() {
    let mut env = Environment::new();
    assert_eq!(env.len(), 0);
    env.insert("A".to_string(), "1".to_string());
    env.insert("B".to_string(), "2".to_string());
    env.insert("A".to_string(), "3".to_string());
    assert_eq!(env.to_strings(), vec!["A=3".to_string(), "B=2".to_string()]);
    env.remove("A");
    assert_eq!(env.to_strings(), vec!["B=2".to_string()]);
    assert!(!env.contains_key("A"));
    assert!(env.contains_key("B"));
    env.remove("A");
    assert_eq!(env.len(), 1);
}

#[test]
fn keys_are_compared_whole() {
    let mut env = Environment::new();
    env.insert("LD".to_string(), "1".to_string());
    env.insert("LD_PRELOAD".to_string(), "2".to_string());
    assert_eq!(env.get("LD"), Some("1".to_string()));
    assert_eq!(env.get("LD_PRELOAD"), Some("2".to_string()));
    assert_eq!(env.get("LD_"), None);
    assert_eq!(env.get("ld"), None);
}

#[test]
fn target_is_a_path_unless_the_call_searches() {
    assert_eq!(target_text(&TargetSpec::new("ls".to_string(), false)), (false, "ls".to_string()));
    assert_eq!(target_text(&TargetSpec::new("ls".to_string(), true)), (true, "ls".to_string()));
    assert_eq!(
        target_text(&TargetSpec::new("./ls".to_string(), true)),
        (false, "./ls".to_string())
    );
    assert_eq!(
        target_text(&TargetSpec::new("/bin/ls".to_string(), true)),
        (false, "/bin/ls".to_string())
    );
}

#[test]
fn target_resolution() {
    let path = TargetSpec::new("/bin/ls".to_string(), true);
    assert_eq!(path.resolve(None), Ok("/bin/ls".to_string()));
    assert_eq!(path.resolve(Some("/other".to_string())), Ok("/bin/ls".to_string()));

    let name = TargetSpec::new("ls".to_string(), true);
    assert_eq!(name.resolve(Some("/usr/bin/ls".to_string())), Ok("/usr/bin/ls".to_string()));
    assert_eq!(name.resolve(None), Err(exec_interpose::ExecError::NameUnresolved));
}

#[test]
fn array_and_list_forms_converge() {
    let path = Path::new(b"/bin/prog".to_vec());
    let array = ExecRequest::from_array(
        &path,
        false,
        &Args::new(raw(&["prog", "-x", "y"])),
        Env::new(raw(&["PATH=/usr/bin"])).to_map(),
    );
    let values = vec![
        Some(b"prog".to_vec()),
        Some(b"-x".to_vec()),
        Some(b"y".to_vec()),
        None,
    ];
    let list =
        ExecRequest::from_list(&path, false, &values, Env::new(raw(&["PATH=/usr/bin"])).to_map());
    assert_eq!(target_text(&array.target), (false, "/bin/prog".to_string()));
    assert_eq!(target_text(&array.target), target_text(&list.target));
    assert_eq!(array.arguments, vec!["prog".to_string(), "-x".to_string(), "y".to_string()]);
    assert_eq!(array.arguments, list.arguments);
    assert_eq!(array.environment.to_strings(), list.environment.to_strings());
}

#[test]
fn list_form_stops_at_the_first_null() {
    let path = Path::new(b"prog".to_vec());
    let values = vec![Some(b"prog".to_vec()), None, Some(b"after".to_vec()), None];
    let request = ExecRequest::from_list(&path, true, &values, Environment::new());
    assert_eq!(request.arguments, vec!["prog".to_string()]);
    assert_eq!(target_text(&request.target), (true, "prog".to_string()));

    let request = ExecRequest::from_list(&path, true, &vec![None], Environment::new());
    assert_eq!(request.arguments, Vec::<String>::new());

    let unterminated = vec![Some(b"a".to_vec()), Some(b"b".to_vec())];
    let request = ExecRequest::from_list(&path, true, &unterminated, Environment::new());
    assert_eq!(request.arguments, vec!["a".to_string(), "b".to_string()]);
}

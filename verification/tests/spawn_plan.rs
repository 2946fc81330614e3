use ptycore::spawn::{plan_spawn, split_env};

fn b(s: &str) -> Vec<u8> {
    s.as_bytes().to_vec()
}

#[test]
fn split_env_at_first_separator() {
    assert_eq!(split_env(&b("KEY=VALUE")), Some((b("KEY"), b("VALUE"))));
    assert_eq!(split_env(&b("A=")), Some((b("A"), b(""))));
    assert_eq!(split_env(&b("=v")), Some((b(""), b("v"))));
    // Only the first separator splits; the rest stay in the value.
    assert_eq!(split_env(&b("B=x=y")), Some((b("B"), b("x=y"))));
}

#[test]
fn split_env_rejects_malformed() {
    assert_eq!(split_env(&b("NOEQUALS")), None);
    assert_eq!(split_env(&b("")), None);
}

#[test]
fn plan_drops_argv_position_zero() {
    let args = vec![b("echo"), b("hello"), b("world")];
    let p = plan_spawn(Some(&args), None);
    assert_eq!(p.extra_args, vec![b("hello"), b("world")]);
    assert!(!p.clear_env);
    assert!(p.env_pairs.is_empty());
}

#[test]
fn plan_with_single_argument_passes_none() {
    let args = vec![b("echo")];
    let p = plan_spawn(Some(&args), None);
    assert!(p.extra_args.is_empty());
}

#[test]
fn plan_without_argv() {
    let p = plan_spawn(None, None);
    assert!(p.extra_args.is_empty());
    assert!(!p.clear_env);
    assert!(p.env_pairs.is_empty());
}

#[test]
fn plan_env_clears_and_splits() {
    let env = vec![b("A=1"), b("malformed"), b("B=x=y"), b("=v")];
    let p = plan_spawn(None, Some(&env));
    assert!(p.clear_env);
    assert_eq!(
        p.env_pairs,
        vec![(b("A"), b("1")), (b("B"), b("x=y")), (b(""), b("v"))]
    );
}

#[test]
fn plan_empty_env_still_clears() {
    let env: Vec<Vec<u8>> = Vec::new();
    let p = plan_spawn(None, Some(&env));
    assert!(p.clear_env);
    assert!(p.env_pairs.is_empty());
}

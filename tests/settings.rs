use pkcs8_keygen::{first_action, next_action, openssl_cost, Action, ScryptCost};

#[test]
fn openssl_cost_matches_openssl_defaults() {
    let c = openssl_cost();
    assert_eq!(c, ScryptCost { log_n: 14, r: 8, p: 1, len: 32 });
    assert_eq!(1u64 << c.log_n, 16384);
    assert_eq!(c.len * 8, 256);
}

#[test]
fn one_argument_aborts_before_any_write() {
    assert_eq!(first_action(0), Action::Abort);
    assert_eq!(first_action(1), Action::Abort);
    assert_eq!(next_action(Action::Abort, true), Action::Abort);
    assert_eq!(next_action(Action::Abort, false), Action::Abort);
}

#[test]
fn two_arguments_start_with_key_generation() {
    assert_eq!(first_action(2), Action::GenerateKey);
    assert_eq!(first_action(3), Action::GenerateKey);
}

#[test]
fn successful_run_writes_both_files_in_order() {
    let mut a = first_action(2);
    let mut seen = Vec::new();
    while a != Action::Finish && a != Action::Abort {
        seen.push(a);
        a = next_action(a, true);
    }
    assert_eq!(seen, vec![Action::GenerateKey, Action::WriteDefault, Action::WriteOpenssl]);
    assert_eq!(a, Action::Finish);
}

#[test]
fn failed_first_write_skips_second_write() {
    let a = next_action(Action::GenerateKey, true);
    assert_eq!(a, Action::WriteDefault);
    let b = next_action(a, false);
    assert_eq!(b, Action::Abort);
    assert_eq!(next_action(b, true), Action::Abort);
}

#[test]
fn failed_key_generation_or_second_write_aborts() {
    assert_eq!(next_action(Action::GenerateKey, false), Action::Abort);
    assert_eq!(next_action(Action::WriteOpenssl, false), Action::Abort);
    assert_eq!(next_action(Action::Finish, false), Action::Finish);
}

use batcave::expand::expand_env_vars;
use batcave::shell::Shell;

fn shell_with(vars: &[(&str, &str)]) -> Shell {
    let mut shell = Shell::new();
    for (k, v) in vars {
        shell.set_env(k.to_string(), v.to_string());
    }
    shell
}

#[test]
fn known_variable_is_replaced() {
    let shell = shell_with(&[("USER", "bruce")]);
    assert_eq!(expand_env_vars("hello $USER!", &shell), "hello bruce!");
}

#[test]
fn unknown_variable_is_left() {
    let shell = shell_with(&[("USER", "bruce")]);
    assert_eq!(expand_env_vars("$UNSET", &shell), "$UNSET");
}

#[test]
fn dollar_before_digit_is_left() {
    let shell = shell_with(&[("USER", "bruce")]);
    assert_eq!(expand_env_vars("cost: $5", &shell), "cost: $5");
}

#[test]
fn trailing_dollar_is_left() {
    let shell = shell_with(&[("USER", "bruce")]);
    assert_eq!(expand_env_vars("price$", &shell), "price$");
}

#[test]
fn value_is_not_expanded_again() {
    let shell = shell_with(&[("A", "$B"), ("B", "no")]);
    assert_eq!(expand_env_vars("$A", &shell), "$B");
}

#[test]
fn longest_name_is_used() {
    let shell = shell_with(&[("U", "short"), ("USER_NAME", "long")]);
    assert_eq!(expand_env_vars("$USER_NAME/$U.", &shell), "long/short.");
}

#[test]
fn several_references_and_unknown_between() {
    let shell = shell_with(&[("HOME", "/home/b")]);
    assert_eq!(
        expand_env_vars("$HOME $NOPE $HOME", &shell),
        "/home/b $NOPE /home/b"
    );
}

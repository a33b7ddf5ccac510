use auth_service::error::AppError;
use auth_service::notification::{welcome_vars, Templates};

fn vars(pairs: &[(&str, &str)]) -> Vec<(String, String)> {
    pairs.iter().map(|(k, v)| (k.to_string(), v.to_string())).collect()
}

#[test]
fn renders_welcome_with_vars() {
    let t = Templates::new().unwrap();
    let body = t.render("welcome", &vars(&[("email", "a@b.c"), ("account_id", "7")])).unwrap();
    assert!(body.contains("a@b.c"));
    assert!(body.contains("#7"));
}

#[test]
fn unknown_template_errors() {
    let t = Templates::new().unwrap();
    assert!(t.render("nope", &vars(&[])).is_err());
}

#[test]
fn missing_variable_errors_in_strict_mode() {
    let t = Templates::new().unwrap();
    assert!(t.render("welcome", &vars(&[("email", "a@b.c")])).is_err());
}

#[test]
fn unknown_template_is_an_internal_error() {
    let t = Templates::new().unwrap();
    assert!(matches!(t.render("nope", &vars(&[])), Err(AppError::Internal(_))));
}

#[test]
fn welcome_vars_render_the_welcome_text() {
    let t = Templates::new().unwrap();
    let v = welcome_vars("a@b.c", 7);
    assert_eq!(v, vars(&[("email", "a@b.c"), ("account_id", "7")]));
    assert_eq!(
        t.render("welcome", &v).unwrap(),
        "Hi a@b.c,\n\nWelcome aboard! Your account #7 is ready.\n"
    );
}

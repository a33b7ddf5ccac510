use auth_service::cookie::{clear_rt_cookie, rt_cookie, SameSite};

#[test]
fn refresh_cookie_header() {
    let c = rt_cookie("abc".into(), 900);
    assert_eq!(c.same_site, SameSite::Strict);
    assert_eq!(
        c.header(),
        "rt=abc; HttpOnly; SameSite=Strict; Secure; Path=/api/auth; Max-Age=900"
    );
}

#[test]
fn removal_cookie_header() {
    let c = clear_rt_cookie();
    assert_eq!(c.value, "");
    assert_eq!(c.max_age_seconds, 0);
    assert_eq!(c.header(), "rt=; HttpOnly; SameSite=Strict; Secure; Path=/api/auth; Max-Age=0");
}

#[test]
fn negative_max_age_is_written_as_is() {
    assert_eq!(
        rt_cookie("v".into(), -5).header(),
        "rt=v; HttpOnly; SameSite=Strict; Secure; Path=/api/auth; Max-Age=-5"
    );
}

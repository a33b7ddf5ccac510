use auth_service::notification::{
    notification_step, welcome_record, NotificationChannel, NotificationStep,
};

#[test]
fn channel_parts() {
    let c = NotificationChannel::Email("a@b.c".into());
    assert_eq!(c.parts(), ("email", "a@b.c"));
}

#[test]
fn each_event_is_notified_once() {
    assert_eq!(notification_step(true, "a@b.c"), NotificationStep::Skip);
    assert_eq!(notification_step(true, "x@fail.test"), NotificationStep::Skip);
    assert_eq!(notification_step(false, "a@b.c"), NotificationStep::Send);
}

#[test]
fn fail_test_domain_fails_delivery() {
    assert_eq!(notification_step(false, "x@fail.test"), NotificationStep::Fail);
    assert_eq!(notification_step(false, "x@fail.test.org"), NotificationStep::Send);
}

#[test]
fn welcome_record_fields() {
    let r = welcome_record(17, "a@b.c", "Hi".into(), "cid-1");
    assert_eq!(r.source_event_id, 17);
    assert_eq!(r.template, "welcome");
    assert_eq!(r.subject, "Welcome");
    assert_eq!(r.channel, "email");
    assert_eq!(r.recipient, "a@b.c");
    assert_eq!(r.body, "Hi");
    assert_eq!(r.created_by_cid, "cid-1");
}

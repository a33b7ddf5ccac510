//! The notification domain: on `account.created`, render the welcome message,
//! send it once per event, and record it.
use vstd::prelude::*;
use crate::decimal::{i64_to_decimal, int_decimal};
use crate::error::{internal, AppError};
use crate::text::{has_suffix, ends_with, owned};
use handlebars::Handlebars;

verus! {

/// A notification as recorded.
pub struct SentNotification {
    pub id: i64,
    pub source_event_id: i64,
    pub template: String,
    pub subject: String,
    pub channel: String,
    pub recipient: String,
    pub body: String,
    pub created_at: i64,
    pub created_by_cid: String,
}

/// The fields of a notification record to insert.
pub struct NewSentNotification {
    pub source_event_id: i64,
    pub template: String,
    pub subject: String,
    pub channel: String,
    pub recipient: String,
    pub body: String,
    pub created_by_cid: String,
}

/// A delivery channel. Only e-mail today.
pub enum NotificationChannel {
    Email(String),
}

/// `email`.
pub open spec fn email_kind() -> Seq<char> {
    seq!['e', 'm', 'a', 'i', 'l']
}

impl NotificationChannel {
    /// The channel kind and the recipient, for storage and logging.
    pub fn parts(&self) -> (res: (&'static str, &str))
        ensures
            match self {
                NotificationChannel::Email(addr) => res.0@ == email_kind() && res.1@ == addr@,
            },
    {
        proof {
            reveal_strlit("email");
        }
        match self {
            NotificationChannel::Email(addr) => {
                assert("email"@ =~= email_kind());
                ("email", addr.as_str())
            },
        }
    }
}

/// The payload of `account.created`.
pub struct AccountCreated {
    pub account_id: i64,
    pub auth_user_id: i64,
    pub email: String,
}

/// `@fail.test`: recipients in this domain make delivery fail (a test hook
/// that sends the event to the dead-letter queue).
pub open spec fn fail_test_domain() -> Seq<char> {
    seq!['@', 'f', 'a', 'i', 'l', '.', 't', 'e', 's', 't']
}

/// What the subscriber does with an `account.created` event.
#[derive(Clone, Copy, PartialEq, Eq, Structural, Debug)]
pub enum NotificationStep {
    /// A notification was already sent for the event: nothing to do.
    Skip,
    /// Delivery fails (the recipient is in the failing test domain).
    Fail,
    /// Render, send and record the welcome message.
    Send,
}

/// The step for an event: skip when already sent (delivery is at least once),
/// fail for the test domain, send otherwise.
pub open spec fn notification_step_spec(already_sent: bool, email: Seq<char>) -> NotificationStep {
    if already_sent {
        NotificationStep::Skip
    } else if has_suffix(email, fail_test_domain()) {
        NotificationStep::Fail
    } else {
        NotificationStep::Send
    }
}

/// The step for an event to `email`, given whether it was already notified.
pub fn notification_step(already_sent: bool, email: &str) -> (res: NotificationStep)
    ensures
        res == notification_step_spec(already_sent, email@),
        already_sent ==> res == NotificationStep::Skip,
        !already_sent && has_suffix(email@, fail_test_domain()) ==> res == NotificationStep::Fail,
        !already_sent && !has_suffix(email@, fail_test_domain()) ==> res == NotificationStep::Send,
{
    proof {
        reveal_strlit("@fail.test");
    }
    assert("@fail.test"@ =~= fail_test_domain());
    if already_sent {
        NotificationStep::Skip
    } else if ends_with(email, "@fail.test") {
        NotificationStep::Fail
    } else {
        NotificationStep::Send
    }
}

/// Each event is notified at most once: once its record exists, every later
/// delivery of it is skipped. A first delivery fails exactly for a recipient in
/// the `@fail.test` domain and sends the welcome message to everyone else.
pub proof fn law_notify_once(email: Seq<char>)
    ensures
        notification_step_spec(true, email) == NotificationStep::Skip,
        notification_step_spec(false, email) != NotificationStep::Skip,
        notification_step_spec(false, email) == NotificationStep::Fail <==> has_suffix(
            email,
            fail_test_domain(),
        ),
        notification_step_spec(false, email) == NotificationStep::Send <==> !has_suffix(
            email,
            fail_test_domain(),
        ),
{
}

/// `welcome`.
pub open spec fn welcome_template() -> Seq<char> {
    seq!['w', 'e', 'l', 'c', 'o', 'm', 'e']
}

/// `Welcome`, the subject of the welcome message.
pub open spec fn welcome_subject_spec() -> Seq<char> {
    seq!['W', 'e', 'l', 'c', 'o', 'm', 'e']
}

/// The subject the welcome message is sent with.
pub fn welcome_subject() -> (res: &'static str)
    ensures
        res@ == welcome_subject_spec(),
{
    proof {
        reveal_strlit("Welcome");
    }
    assert("Welcome"@ =~= welcome_subject_spec());
    "Welcome"
}

/// The record of the welcome message sent for event `event_id` to `email`.
pub fn welcome_record(event_id: i64, email: &str, body: String, cid: &str) -> (res: NewSentNotification)
    ensures
        res.source_event_id == event_id,
        res.template@ == welcome_template(),
        res.subject@ == welcome_subject_spec(),
        res.channel@ == email_kind(),
        res.recipient@ == email@,
        res.body == body,
        res.created_by_cid@ == cid@,
{
    let channel = NotificationChannel::Email(owned(email));
    let (kind, recipient) = channel.parts();
    proof {
        reveal_strlit("welcome");
    }
    assert("welcome"@ =~= welcome_template());
    NewSentNotification {
        source_event_id: event_id,
        template: owned("welcome"),
        subject: owned(welcome_subject()),
        channel: owned(kind),
        recipient: owned(recipient),
        body,
        created_by_cid: owned(cid),
    }
}

#[verifier::external_type_specification]
#[verifier::external_body]
pub struct ExHandlebars<'reg>(handlebars::Handlebars<'reg>);

/// The templates registered in a handlebars registry, by name, as the source
/// text each was compiled from.
pub uninterp spec fn template_sources(hb: Handlebars<'static>) -> Map<Seq<char>, Seq<char>>;

/// Whether a handlebars registry renders in strict mode (a missing variable is
/// an error).
pub uninterp spec fn strict_mode_of(hb: Handlebars<'static>) -> bool;

/// Whether a registry has the settings `Handlebars::new()` gives besides its
/// templates and strict mode: the built-in helpers, HTML escaping, no dev mode,
/// no indent prevention.
pub uninterp spec fn default_settings(hb: Handlebars<'static>) -> bool;

/// Whether `Template::compile2` accepts `source` (under the default options).
/// It depends on the text alone.
pub uninterp spec fn template_compiles(source: Seq<char>) -> bool;

/// What a default-settings registry holding `sources` renders for template
/// `name` with the string variables `vars` (later pairs win), in strict mode
/// or not: the text, or `None` for a rendering error. It depends on its
/// arguments alone.
pub uninterp spec fn rendered(
    sources: Map<Seq<char>, Seq<char>>,
    name: Seq<char>,
    strict: bool,
    vars: Seq<(Seq<char>, Seq<char>)>,
) -> Option<Seq<char>>;

/// The views of string pairs.
pub open spec fn pair_views(vars: Seq<(String, String)>) -> Seq<(Seq<char>, Seq<char>)> {
    vars.map_values(|p: (String, String)| (p.0@, p.1@))
}

/// `Handlebars::new()`: a registry without templates, not strict, with the
/// default settings.
#[verifier::external_body]
fn hb_new() -> (res: Handlebars<'static>)
    ensures
        template_sources(res).dom() == Set::<Seq<char>>::empty(),
        !strict_mode_of(res),
        default_settings(res),
{
    Handlebars::new()
}

/// `Handlebars::set_strict_mode`: sets the flag and nothing else.
#[verifier::external_body]
fn hb_set_strict_mode(hb: &mut Handlebars<'static>, enabled: bool)
    ensures
        strict_mode_of(*final(hb)) == enabled,
        template_sources(*final(hb)) == template_sources(*old(hb)),
        default_settings(*final(hb)) == default_settings(*old(hb)),
{
    hb.set_strict_mode(enabled)
}

/// `Handlebars::register_template_string`: compiles `source`; on success the
/// name is registered with it, on a syntax error the registry is unchanged.
#[verifier::external_body]
fn hb_register_template_string(hb: &mut Handlebars<'static>, name: &str, source: &str) -> (res: bool)
    requires
        default_settings(*old(hb)),
    ensures
        res == template_compiles(source@),
        res ==> template_sources(*final(hb)) == template_sources(*old(hb)).insert(name@, source@),
        !res ==> template_sources(*final(hb)) == template_sources(*old(hb)),
        strict_mode_of(*final(hb)) == strict_mode_of(*old(hb)),
        default_settings(*final(hb)),
{
    hb.register_template_string(name, source).is_ok()
}

/// `Handlebars::has_template`.
#[verifier::external_body]
fn hb_has_template(hb: &Handlebars<'static>, name: &str) -> (res: bool)
    ensures
        res == template_sources(*hb).dom().contains(name@),
{
    hb.has_template(name)
}

/// `Handlebars::render(name, vars)` with the pairs as a JSON object of
/// strings, its error turned into `None`.
#[verifier::external_body]
fn hb_render(hb: &Handlebars<'static>, name: &str, vars: &[(String, String)]) -> (res: Option<String>)
    requires
        default_settings(*hb),
    ensures
        match rendered(template_sources(*hb), name@, strict_mode_of(*hb), pair_views(vars@)) {
            Some(t) => res matches Some(r) && r@ == t,
            None => res is None,
        },
        !template_sources(*hb).dom().contains(name@) ==> res is None,
{
    let mut data = serde_json::Map::new();
    for (k, v) in vars {
        data.insert(k.clone(), serde_json::Value::String(v.clone()));
    }
    hb.render(name, &data).ok()
}

/// The welcome message.
pub const WELCOME_TEMPLATE: &'static str =
    "Hi {{email}},\n\nWelcome aboard! Your account #{{account_id}} is ready.\n";

/// The registry of embedded notification templates (handlebars, strict mode).
pub struct Templates {
    hb: Handlebars<'static>,
}

impl Templates {
    #[verifier::type_invariant]
    spec fn settled(self) -> bool {
        default_settings(self.hb)
    }

    /// The registered templates: name to source text.
    pub closed spec fn sources(&self) -> Map<Seq<char>, Seq<char>> {
        template_sources(self.hb)
    }

    /// Whether a missing variable makes rendering fail.
    pub closed spec fn strict(&self) -> bool {
        strict_mode_of(self.hb)
    }

    /// The registry holding the `welcome` template, in strict mode; an error
    /// when the template does not compile.
    pub fn new() -> (res: Result<Templates, AppError>)
        ensures
            res is Ok <==> template_compiles(WELCOME_TEMPLATE@),
            res matches Ok(t) ==> t.sources() == Map::<Seq<char>, Seq<char>>::empty().insert(
                welcome_template(),
                WELCOME_TEMPLATE@,
            ) && t.strict(),
            res matches Err(e) ==> e is Internal,
    {
        let mut hb = hb_new();
        hb_set_strict_mode(&mut hb, true);
        proof {
            reveal_strlit("welcome");
        }
        assert("welcome"@ =~= welcome_template());
        if !hb_register_template_string(&mut hb, "welcome", WELCOME_TEMPLATE) {
            return Err(internal("bad welcome template"));
        }
        Ok(Templates { hb })
    }

    /// Renders template `name` with the string variables `vars`: the text the
    /// registry renders, an error for an unknown name or a rendering error
    /// (in strict mode, a variable the template uses and `vars` lacks).
    pub fn render(&self, name: &str, vars: &[(String, String)]) -> (res: Result<String, AppError>)
        ensures
            !self.sources().dom().contains(name@) ==> (res matches Err(e) && e is Internal),
            self.sources().dom().contains(name@) ==> match rendered(
                self.sources(),
                name@,
                self.strict(),
                pair_views(vars@),
            ) {
                Some(t) => res matches Ok(r) && r@ == t,
                None => res matches Err(e) && e is Internal,
            },
    {
        proof {
            use_type_invariant(self);
        }
        if !hb_has_template(&self.hb, name) {
            return Err(internal("unknown template"));
        }
        match hb_render(&self.hb, name, vars) {
            Some(s) => Ok(s),
            None => Err(internal("template render failed")),
        }
    }
}

/// The variables of the welcome message: the e-mail and the account number.
pub fn welcome_vars(email: &str, account_id: i64) -> (res: Vec<(String, String)>)
    ensures
        pair_views(res@) == seq![
            (seq!['e', 'm', 'a', 'i', 'l'], email@),
            (
                seq!['a', 'c', 'c', 'o', 'u', 'n', 't', '_', 'i', 'd'],
                int_decimal(account_id as int),
            ),
        ],
{
    proof {
        reveal_strlit("email");
        reveal_strlit("account_id");
    }
    let mut v: Vec<(String, String)> = Vec::new();
    v.push((owned("email"), owned(email)));
    v.push((owned("account_id"), i64_to_decimal(account_id)));
    assert(pair_views(v@) =~= seq![
        (seq!['e', 'm', 'a', 'i', 'l'], email@),
        (seq!['a', 'c', 'c', 'o', 'u', 'n', 't', '_', 'i', 'd'], int_decimal(account_id as int)),
    ]) by {
        assert(v@[0].0@ =~= seq!['e', 'm', 'a', 'i', 'l']);
        assert(v@[1].0@ =~= seq!['a', 'c', 'c', 'o', 'u', 'n', 't', '_', 'i', 'd']);
    }
    v
}

} // verus!

//! E-mail to users: who sends it, what it says, and how it goes out.

pub mod defaults;

use vstd::prelude::*;
use vstd::string::*;
use crate::config::{Configuration, EmailConfig, EmailTemplate};
use crate::email::defaults::{
    CHANGE_EMAIL_BODY, CHANGE_EMAIL_SUBJECT, PASSWORD_RESET_BODY, PASSWORD_RESET_SUBJECT,
    VALIDATION_BODY, VALIDATION_SUBJECT,
};

verus! {

/// `lettre::address::AddressError`, the refusal of a text as a mailbox. It
/// is carried to the caller as it is; nothing is claimed of what it holds.
#[verifier::external_type_specification]
#[verifier::external_body]
pub struct ExAddressError(lettre::address::AddressError);

/// `minijinja::Error`, the refusal of a template or of its rendering. It is
/// carried to the caller as it is; nothing is claimed of what it holds.
#[verifier::external_type_specification]
#[verifier::external_body]
pub struct ExTemplateError(minijinja::Error);

/// Why an e-mail could not be made.
#[derive(Debug)]
pub enum EmailError {
    /// A sender or a recipient is not a mailbox.
    Address(lettre::address::AddressError),
    /// The configuration lacks what is named.
    Missing(&'static str),
    /// A template could not be read or rendered.
    Template(minijinja::Error),
}

/// A mailbox: an address, and the name that goes with it if there is one.
#[derive(Clone, Debug)]
pub struct Mailbox {
    pub name: Option<String>,
    pub address: String,
}

/// The text of an optional string.
pub open spec fn optional_text(text: Option<String>) -> Option<Seq<char>> {
    match text {
        Some(s) => Some(s@),
        None => None,
    }
}

impl Mailbox {
    /// The name and the address, as texts.
    pub open spec fn parts(self) -> (Option<Seq<char>>, Seq<char>) {
        (optional_text(self.name), self.address@)
    }
}

/// What `lettre` reads `text` as: the name and the address of the mailbox
/// that it stands for, or nothing where it stands for none.
pub uninterp spec fn parsed_mailbox(text: Seq<char>) -> Option<(Option<Seq<char>>, Seq<char>)>;

/// Reads `text` as a mailbox, by the `FromStr` of `lettre::message::Mailbox`.
/// The claim is that the outcome is a function of the text alone: the name
/// and the address that `lettre` read from it, or its refusal.
#[verifier::external_body]
fn parse_mailbox(text: &str) -> (r: Result<Mailbox, lettre::address::AddressError>)
    ensures
        match r {
            Ok(mailbox) => parsed_mailbox(text@) == Some(mailbox.parts()),
            Err(_) => parsed_mailbox(text@) is None,
        },
{
    match text.parse::<lettre::message::Mailbox>() {
        Ok(parsed) => Ok(Mailbox { name: parsed.name, address: parsed.email.to_string() }),
        Err(e) => Err(e),
    }
}

/// A variable of a template: its name, and its value if it has one.
#[derive(Clone, Debug)]
pub struct Variable {
    pub name: String,
    pub value: Option<String>,
}

/// The names and values of `variables`, as texts.
pub open spec fn bindings(variables: Seq<Variable>) -> Seq<(Seq<char>, Option<Seq<char>>)> {
    variables.map_values(|v: Variable| (v.name@, optional_text(v.value)))
}

/// What `minijinja` renders the template `source`, called `name`, to under
/// `variables`, or nothing where it refuses the template or its rendering.
pub uninterp spec fn rendered(
    name: Seq<char>,
    source: Seq<char>,
    variables: Seq<(Seq<char>, Option<Seq<char>>)>,
) -> Option<Seq<char>>;

/// Renders the template `source` under the name `name` in a fresh
/// `minijinja::Environment`, by `Environment::template_from_named_str` and
/// `Template::render`, with `variables` as the context: a variable without
/// a value is handed over as none, and of two variables of one name the
/// later one counts. The claim is that the outcome is a function of the
/// name, the source and the variables alone: the text, or the refusal.
#[verifier::external_body]
fn render(name: &str, source: &str, variables: &Vec<Variable>) -> (r: Result<
    String,
    minijinja::Error,
>)
    ensures
        match r {
            Ok(text) => rendered(name@, source@, bindings(variables@)) == Some(text@),
            Err(_) => rendered(name@, source@, bindings(variables@)) is None,
        },
{
    let environment = minijinja::Environment::new();
    let context: std::collections::BTreeMap<&str, minijinja::Value> = variables.iter().map(
        |v| (v.name.as_str(), minijinja::Value::from(v.value.clone())),
    ).collect();
    environment.template_from_named_str(name, source)?.render(context)
}

/// The address that mail is sent from where the configuration names none.
pub const DEFAULT_SENDER: &'static str = "admin@localhost";

/// The sender as the configuration gives it: the configured address, or the
/// default one; behind the sender's name and in angle brackets where a name
/// is configured.
pub open spec fn sender_text(email: EmailConfig) -> Seq<char> {
    let address = match email.sender_address {
        Some(a) => a@,
        None => DEFAULT_SENDER@,
    };
    match email.sender_name {
        Some(n) => n@ + " <"@ + address + ">"@,
        None => address,
    }
}

/// The sender as the configuration gives it.
pub fn sender_line(email: &EmailConfig) -> (r: String)
    ensures
        r@ == sender_text(*email),
{
    let address = match &email.sender_address {
        Some(a) => a.as_str(),
        None => DEFAULT_SENDER,
    };
    match &email.sender_name {
        Some(n) => {
            let mut line = String::from_str(n.as_str());
            line.append(" <");
            line.append(address);
            line.append(">");
            line
        },
        None => String::from_str(address),
    }
}

/// The mailbox that mail is sent from.
pub fn get_sender(config: &Configuration) -> (r: Result<Mailbox, EmailError>)
    ensures
        match parsed_mailbox(sender_text(config.email)) {
            Some(parts) => r matches Ok(mailbox) && mailbox.parts() == parts,
            None => r matches Err(EmailError::Address(_)),
        },
{
    let line = sender_line(&config.email);
    match parse_mailbox(line.as_str()) {
        Ok(mailbox) => Ok(mailbox),
        Err(e) => Err(EmailError::Address(e)),
    }
}

/// An e-mail that is ready to go out.
#[derive(Debug)]
pub struct Email {
    from: Mailbox,
    to: Mailbox,
    subject: String,
    body: String,
}

impl Email {
    /// The sender.
    pub closed spec fn sender(&self) -> Mailbox {
        self.from
    }

    /// The recipient.
    pub closed spec fn recipient(&self) -> Mailbox {
        self.to
    }

    /// The subject line.
    pub closed spec fn subject_text(&self) -> Seq<char> {
        self.subject@
    }

    /// The body.
    pub closed spec fn body_text(&self) -> Seq<char> {
        self.body@
    }

    /// Whether the e-mail goes from `from` to `to` and says `subject` and
    /// `body`.
    pub open spec fn has_parts(
        &self,
        from: (Option<Seq<char>>, Seq<char>),
        to: (Option<Seq<char>>, Seq<char>),
        subject: Seq<char>,
        body: Seq<char>,
    ) -> bool {
        &&& self.sender().parts() == from
        &&& self.recipient().parts() == to
        &&& self.subject_text() == subject
        &&& self.body_text() == body
    }

    /// Makes an e-mail of its four parts, each of which may have failed. The
    /// first part that failed, in the order subject, body, sender,
    /// recipient, is the failure of the whole.
    pub fn from_parts(
        subject: Result<String, minijinja::Error>,
        body: Result<String, minijinja::Error>,
        from: Result<Mailbox, lettre::address::AddressError>,
        to: Result<Mailbox, lettre::address::AddressError>,
    ) -> (r: Result<Email, EmailError>)
        ensures
            match (subject, body, from, to) {
                (Err(e), _, _, _) => r matches Err(EmailError::Template(x)) && x == e,
                (Ok(_), Err(e), _, _) => r matches Err(EmailError::Template(x)) && x == e,
                (Ok(_), Ok(_), Err(e), _) => r matches Err(EmailError::Address(x)) && x == e,
                (Ok(_), Ok(_), Ok(_), Err(e)) => r matches Err(EmailError::Address(x)) && x == e,
                (Ok(s), Ok(b), Ok(f), Ok(t)) => {
                    &&& r matches Ok(email)
                    &&& email.sender() == f
                    &&& email.recipient() == t
                    &&& email.subject_text() == s@
                    &&& email.body_text() == b@
                },
            },
    {
        let subject = match subject {
            Ok(s) => s,
            Err(e) => {
                return Err(EmailError::Template(e));
            },
        };
        let body = match body {
            Ok(b) => b,
            Err(e) => {
                return Err(EmailError::Template(e));
            },
        };
        let from = match from {
            Ok(f) => f,
            Err(e) => {
                return Err(EmailError::Address(e));
            },
        };
        let to = match to {
            Ok(t) => t,
            Err(e) => {
                return Err(EmailError::Address(e));
            },
        };
        Ok(Email { from, to, subject, body })
    }

    /// An e-mail to `to` that says `subject` and `body`, from the sender
    /// that `config` names. A sender that is no mailbox is reported before
    /// a recipient that is none.
    pub fn new(config: &Configuration, to: String, subject: String, body: String) -> (r: Result<
        Email,
        EmailError,
    >)
        ensures
            match parsed_mailbox(sender_text(config.email)) {
                None => r matches Err(EmailError::Address(_)),
                Some(from) => match parsed_mailbox(to@) {
                    None => r matches Err(EmailError::Address(_)),
                    Some(recipient) => r matches Ok(email) && email.has_parts(
                        from,
                        recipient,
                        subject@,
                        body@,
                    ),
                },
            },
    {
        let line = sender_line(&config.email);
        let from = parse_mailbox(line.as_str());
        let recipient = parse_mailbox(to.as_str());
        Email::from_parts(Ok(subject), Ok(body), from, recipient)
    }

    /// The sender.
    pub fn from(&self) -> (r: &Mailbox)
        ensures
            *r == self.sender(),
    {
        &self.from
    }

    /// The recipient.
    pub fn to(&self) -> (r: &Mailbox)
        ensures
            *r == self.recipient(),
    {
        &self.to
    }

    /// The subject line.
    pub fn subject(&self) -> (r: &str)
        ensures
            r@ == self.subject_text(),
    {
        self.subject.as_str()
    }

    /// The body.
    pub fn body(&self) -> (r: &str)
        ensures
            r@ == self.body_text(),
    {
        self.body.as_str()
    }
}

/// The occasions on which a user is written to.
#[derive(Clone, Copy, Debug, PartialEq, Eq, Structural)]
pub enum EmailKind {
    /// A new user validates the address.
    Verification,
    /// A user confirms a new address.
    ChangeEmail,
    /// A user sets a new password.
    PasswordReset,
}

impl EmailKind {
    /// The path, below the site, of the page that the e-mail links to; the
    /// code follows it.
    pub open spec fn path(self) -> Seq<char> {
        match self {
            EmailKind::Verification => "/verify_email/confirm/"@,
            EmailKind::ChangeEmail => "/change_email/confirm/"@,
            EmailKind::PasswordReset => "/reset_password/update/"@,
        }
    }

    /// The template that the configuration holds for the occasion.
    pub open spec fn configured(self, email: EmailConfig) -> Option<EmailTemplate> {
        match self {
            EmailKind::Verification => email.user_verification_template,
            EmailKind::ChangeEmail => email.change_email_template,
            EmailKind::PasswordReset => email.password_reset_template,
        }
    }

    /// The subject that is sent where the configuration gives none.
    pub open spec fn default_subject(self) -> Seq<char> {
        match self {
            EmailKind::Verification => VALIDATION_SUBJECT@,
            EmailKind::ChangeEmail => CHANGE_EMAIL_SUBJECT@,
            EmailKind::PasswordReset => PASSWORD_RESET_SUBJECT@,
        }
    }

    /// The body that is sent where the configuration gives none.
    pub open spec fn default_body(self) -> Seq<char> {
        match self {
            EmailKind::Verification => VALIDATION_BODY@,
            EmailKind::ChangeEmail => CHANGE_EMAIL_BODY@,
            EmailKind::PasswordReset => PASSWORD_RESET_BODY@,
        }
    }
}

/// Whether `template` gives both a subject and a body.
pub open spec fn complete(template: Option<EmailTemplate>) -> bool {
    template matches Some(t) && t.subject is Some && t.body is Some
}

/// The subject and the body to render for `kind`: those of the configured
/// template where it gives both, else the default ones.
pub open spec fn chosen_texts(kind: EmailKind, email: EmailConfig) -> (Seq<char>, Seq<char>) {
    if complete(kind.configured(email)) {
        (
            kind.configured(email)->Some_0.subject->Some_0@,
            kind.configured(email)->Some_0.body->Some_0@,
        )
    } else {
        (kind.default_subject(), kind.default_body())
    }
}

/// The link that the e-mail for `kind` carries.
pub open spec fn link_text(site_url: Seq<char>, kind: EmailKind, code: Seq<char>) -> Seq<char> {
    site_url + kind.path() + code
}

/// The variables that a subject is rendered under.
pub open spec fn subject_bindings(application_name: Option<String>, user_email: Seq<char>) -> Seq<
    (Seq<char>, Option<Seq<char>>),
> {
    seq![("APP_NAME"@, optional_text(application_name)), ("EMAIL"@, Some(user_email))]
}

/// The variables that a body is rendered under.
pub open spec fn body_bindings(
    application_name: Option<String>,
    site_url: Seq<char>,
    link: Seq<char>,
    code: Seq<char>,
    user_email: Seq<char>,
) -> Seq<(Seq<char>, Option<Seq<char>>)> {
    seq![
        ("APP_NAME"@, optional_text(application_name)),
        ("VERIFICATION_URL"@, Some(link)),
        ("SITE_URL"@, Some(site_url)),
        ("CODE"@, Some(code)),
        ("EMAIL"@, Some(user_email)),
    ]
}

/// Whether `r` is what composing the e-mail for `kind` to `user_email` with
/// `code` under `config` comes to: the site's address is missed first; then
/// the subject and the body are rendered, the sender and the recipient
/// read, and the first of these four that fails is the failure.
pub open spec fn composes(
    config: Configuration,
    kind: EmailKind,
    user_email: Seq<char>,
    code: Seq<char>,
    r: Result<Email, EmailError>,
) -> bool {
    match config.server.site_url {
        None => r matches Err(EmailError::Missing(what)) && what@ == "config.site_url"@,
        Some(site_url) => {
            let texts = chosen_texts(kind, config.email);
            let link = link_text(site_url@, kind, code);
            let subject = rendered(
                "subject"@,
                texts.0,
                subject_bindings(config.server.application_name, user_email),
            );
            let body = rendered(
                "body"@,
                texts.1,
                body_bindings(config.server.application_name, site_url@, link, code, user_email),
            );
            let from = parsed_mailbox(sender_text(config.email));
            let to = parsed_mailbox(user_email);
            if subject is None || body is None {
                r matches Err(EmailError::Template(_))
            } else if from is None || to is None {
                r matches Err(EmailError::Address(_))
            } else {
                r matches Ok(email) && email.has_parts(
                    from->Some_0,
                    to->Some_0,
                    subject->Some_0,
                    body->Some_0,
                )
            }
        },
    }
}

fn variable(name: &str, value: Option<String>) -> (r: Variable)
    ensures
        r.name@ == name@,
        r.value == value,
{
    Variable { name: String::from_str(name), value }
}

fn templates_for(kind: EmailKind, email: &EmailConfig) -> (r: (String, String))
    ensures
        (r.0@, r.1@) == chosen_texts(kind, *email),
{
    let configured = match kind {
        EmailKind::Verification => &email.user_verification_template,
        EmailKind::ChangeEmail => &email.change_email_template,
        EmailKind::PasswordReset => &email.password_reset_template,
    };
    if let Some(template) = configured {
        if let Some(subject) = &template.subject {
            if let Some(body) = &template.body {
                return (subject.clone(), body.clone());
            }
        }
    }
    match kind {
        EmailKind::Verification => (
            String::from_str(VALIDATION_SUBJECT),
            String::from_str(VALIDATION_BODY),
        ),
        EmailKind::ChangeEmail => (
            String::from_str(CHANGE_EMAIL_SUBJECT),
            String::from_str(CHANGE_EMAIL_BODY),
        ),
        EmailKind::PasswordReset => (
            String::from_str(PASSWORD_RESET_SUBJECT),
            String::from_str(PASSWORD_RESET_BODY),
        ),
    }
}

fn link_for(site_url: &str, kind: EmailKind, code: &str) -> (r: String)
    ensures
        r@ == link_text(site_url@, kind, code@),
{
    let mut link = String::from_str(site_url);
    match kind {
        EmailKind::Verification => link.append("/verify_email/confirm/"),
        EmailKind::ChangeEmail => link.append("/change_email/confirm/"),
        EmailKind::PasswordReset => link.append("/reset_password/update/"),
    }
    link.append(code);
    link
}

impl Email {
    /// Composes the e-mail for `kind` to the user at `user_email`, with the
    /// code `code`.
    pub fn compose(config: &Configuration, kind: EmailKind, user_email: &str, code: &str) -> (r:
        Result<Email, EmailError>)
        ensures
            composes(*config, kind, user_email@, code@, r),
    {
        let Some(site_url) = &config.server.site_url else {
            return Err(EmailError::Missing("config.site_url"));
        };
        let (subject_template, body_template) = templates_for(kind, &config.email);
        let link = link_for(site_url.as_str(), kind, code);

        let mut subject_variables: Vec<Variable> = Vec::new();
        subject_variables.push(
            variable("APP_NAME", crate::config::copy_optional(&config.server.application_name)),
        );
        subject_variables.push(variable("EMAIL", Some(String::from_str(user_email))));
        assert(bindings(subject_variables@) =~= subject_bindings(
            config.server.application_name,
            user_email@,
        ));

        let mut body_variables: Vec<Variable> = Vec::new();
        body_variables.push(
            variable("APP_NAME", crate::config::copy_optional(&config.server.application_name)),
        );
        body_variables.push(variable("VERIFICATION_URL", Some(link.clone())));
        body_variables.push(variable("SITE_URL", Some(site_url.clone())));
        body_variables.push(variable("CODE", Some(String::from_str(code))));
        body_variables.push(variable("EMAIL", Some(String::from_str(user_email))));
        assert(bindings(body_variables@) =~= body_bindings(
            config.server.application_name,
            site_url@,
            link@,
            code@,
            user_email@,
        ));

        let subject = render("subject", subject_template.as_str(), &subject_variables);
        let body = render("body", body_template.as_str(), &body_variables);
        let line = sender_line(&config.email);
        let from = parse_mailbox(line.as_str());
        let to = parse_mailbox(user_email);
        Email::from_parts(subject, body, from, to)
    }

    /// The e-mail that asks the new user at `user_email` to validate the
    /// address.
    pub fn verification_email(config: &Configuration, user_email: &str, code: &str) -> (r: Result<
        Email,
        EmailError,
    >)
        ensures
            composes(*config, EmailKind::Verification, user_email@, code@, r),
    {
        Email::compose(config, EmailKind::Verification, user_email, code)
    }

    /// The e-mail that asks the user at `user_email` to confirm that
    /// address as the new one.
    pub fn change_email_address_email(config: &Configuration, user_email: &str, code: &str) -> (r:
        Result<Email, EmailError>)
        ensures
            composes(*config, EmailKind::ChangeEmail, user_email@, code@, r),
    {
        Email::compose(config, EmailKind::ChangeEmail, user_email, code)
    }

    /// The e-mail that lets the user at `user_email` set a new password.
    pub fn password_reset_email(config: &Configuration, user_email: &str, code: &str) -> (r:
        Result<Email, EmailError>)
        ensures
            composes(*config, EmailKind::PasswordReset, user_email@, code@, r),
    {
        Email::compose(config, EmailKind::PasswordReset, user_email, code)
    }
}

/// How mail goes out over SMTP.
#[derive(Clone, Debug)]
pub struct SmtpSettings {
    pub host: String,
    pub port: u16,
    pub username: String,
    pub password: String,
}

/// How mail goes out.
#[derive(Clone, Debug)]
pub enum Mailer {
    /// Through the SMTP relay of the settings.
    Smtp(SmtpSettings),
    /// Through the local mail program.
    Local,
}

/// The first SMTP setting that `email` lacks, in the order host, port,
/// user name, password; nothing where it has them all.
pub open spec fn missing_setting(email: EmailConfig) -> Option<Seq<char>> {
    if email.smtp_host is None {
        Some("SMTP host"@)
    } else if email.smtp_port is None {
        Some("SMTP port"@)
    } else if email.smtp_username is None {
        Some("SMTP username"@)
    } else if email.smtp_password is None {
        Some("SMTP password"@)
    } else {
        None
    }
}

/// Whether `settings` are the SMTP settings of `email`, the port cut down
/// to its low sixteen bits.
pub open spec fn settings_of(email: EmailConfig, settings: SmtpSettings) -> bool {
    &&& email.smtp_host matches Some(host) && settings.host@ == host@
    &&& email.smtp_port matches Some(port) && settings.port == port % 65536
    &&& email.smtp_username matches Some(username) && settings.username@ == username@
    &&& email.smtp_password matches Some(password) && settings.password@ == password@
}

/// The SMTP settings of `config`, or the first of them that is missing.
pub fn smtp_settings(config: &Configuration) -> (r: Result<SmtpSettings, EmailError>)
    ensures
        match missing_setting(config.email) {
            Some(what) => r matches Err(EmailError::Missing(said)) && said@ == what,
            None => r matches Ok(settings) && settings_of(config.email, settings),
        },
{
    let email = &config.email;
    let Some(host) = &email.smtp_host else {
        return Err(EmailError::Missing("SMTP host"));
    };
    let Some(port) = email.smtp_port else {
        return Err(EmailError::Missing("SMTP port"));
    };
    let Some(username) = &email.smtp_username else {
        return Err(EmailError::Missing("SMTP username"));
    };
    let Some(password) = &email.smtp_password else {
        return Err(EmailError::Missing("SMTP password"));
    };
    Ok(
        SmtpSettings {
            host: host.clone(),
            port: (port % 65536) as u16,
            username: username.clone(),
            password: password.clone(),
        },
    )
}

impl Mailer {
    /// The way mail goes out under `config`: over SMTP where every SMTP
    /// setting is there, else through the local mail program.
    pub fn new_from_config(config: &Configuration) -> (r: Mailer)
        ensures
            match missing_setting(config.email) {
                Some(_) => r is Local,
                None => r matches Mailer::Smtp(settings) && settings_of(config.email, settings),
            },
    {
        match smtp_settings(config) {
            Ok(settings) => Mailer::Smtp(settings),
            Err(_) => Mailer::Local,
        }
    }
}

} // verus!

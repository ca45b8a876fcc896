use schema_admin::config::{Configuration, EmailTemplate};
use schema_admin::email::defaults::{
    change_email_address_email, email_validation_email, password_reset_email,
};
use schema_admin::email::{
    get_sender, sender_line, smtp_settings, Email, EmailError, EmailKind, Mailbox, Mailer,
};

fn config() -> Configuration {
    let mut config = Configuration::empty();
    config.server.application_name = Some("MyApp".to_string());
    config.server.site_url = Some("https://example.org".to_string());
    config
}

#[test]
fn default_validation_email() {
    let t = email_validation_email();
    assert_eq!(t.subject.unwrap(), "Validate your Email Address for {{ APP_NAME }}");
    let body = t.body.unwrap();
    assert!(body.starts_with("<html>\n  <body>\n    <h1>Welcome {{ EMAIL }}</h1>\n\n    <p>\n"));
    assert!(body.contains("      Thanks for joining {{ APP_NAME }}.\n"));
    assert!(body.contains(
        "    <a class=\"btn\" href=\"{{ VERIFICATION_URL }}\">\n      {{ VERIFICATION_URL }}\n    </a>\n"
    ));
    assert!(body.ends_with("  </body>\n</html>"));
}

#[test]
fn default_password_reset_email() {
    let t = password_reset_email();
    assert_eq!(t.subject.unwrap(), "Reset your Password for {{ APP_NAME }}");
    assert_eq!(
        t.body.unwrap(),
        "<html>\n  <body>\n    <h1>Password reset</h1>\n\n    <p>\n      Click the link below to reset your password.\n    </p>\n\n    <a class=\"btn\" href=\"{{ VERIFICATION_URL }}\">\n      {{ VERIFICATION_URL }}\n    </a>\n  </body>\n</html>"
    );
}

#[test]
fn default_change_email_address_email() {
    let t = change_email_address_email();
    assert_eq!(t.subject.unwrap(), "Change your Email Address for {{ APP_NAME }}");
    assert_eq!(
        t.body.unwrap(),
        "<html>\n  <body>\n    <h1>Change E-Mail Address</h1>\n\n    <p>\n      Click the link below to verify your new E-mail address:\n    </p>\n\n    <a class=\"btn\" href=\"{{ VERIFICATION_URL }}\">\n      {{ VERIFICATION_URL }}\n    </a>\n  </body>\n</html>"
    );
}

#[test]
fn sender_defaults_to_the_local_administrator() {
    let config = Configuration::empty();
    assert_eq!(sender_line(&config.email), "admin@localhost");
    let sender = get_sender(&config).unwrap();
    assert_eq!(sender.name, None);
    assert_eq!(sender.address, "admin@localhost");
}

#[test]
fn sender_with_a_name() {
    let mut config = Configuration::empty();
    config.email.sender_address = Some("noreply@example.org".to_string());
    config.email.sender_name = Some("My App".to_string());
    assert_eq!(sender_line(&config.email), "My App <noreply@example.org>");
    let sender = get_sender(&config).unwrap();
    assert_eq!(sender.name.as_deref(), Some("My App"));
    assert_eq!(sender.address, "noreply@example.org");
}

#[test]
fn sender_that_is_no_mailbox() {
    let mut config = Configuration::empty();
    config.email.sender_address = Some("not an address".to_string());
    assert!(matches!(get_sender(&config), Err(EmailError::Address(_))));
}

#[test]
fn new_reads_the_recipient() {
    let email = Email::new(
        &config(),
        "John Smith <john@example.com>".to_string(),
        "Hello".to_string(),
        "<p>Hi</p>".to_string(),
    )
    .unwrap();
    assert_eq!(email.to().name.as_deref(), Some("John Smith"));
    assert_eq!(email.to().address, "john@example.com");
    assert_eq!(email.from().address, "admin@localhost");
    assert_eq!(email.subject(), "Hello");
    assert_eq!(email.body(), "<p>Hi</p>");
}

#[test]
fn new_refuses_a_recipient_that_is_no_mailbox() {
    let r = Email::new(&config(), "nobody".to_string(), "s".to_string(), "b".to_string());
    assert!(matches!(r, Err(EmailError::Address(_))));
}

#[test]
fn from_parts_reports_the_first_failure() {
    let mailbox = || Mailbox { name: None, address: "a@example.org".to_string() };
    let template_error =
        || minijinja::Error::new(minijinja::ErrorKind::SyntaxError, "broken");
    let r = Email::from_parts(
        Err(template_error()),
        Ok("b".to_string()),
        Err(lettre::address::AddressError::MissingParts),
        Ok(mailbox()),
    );
    assert!(matches!(r, Err(EmailError::Template(_))));
    let r = Email::from_parts(
        Ok("s".to_string()),
        Err(template_error()),
        Ok(mailbox()),
        Err(lettre::address::AddressError::MissingParts),
    );
    assert!(matches!(r, Err(EmailError::Template(_))));
    let r = Email::from_parts(
        Ok("s".to_string()),
        Ok("b".to_string()),
        Err(lettre::address::AddressError::InvalidUser),
        Err(lettre::address::AddressError::MissingParts),
    );
    assert!(matches!(
        r,
        Err(EmailError::Address(lettre::address::AddressError::InvalidUser))
    ));
    let r = Email::from_parts(
        Ok("s".to_string()),
        Ok("b".to_string()),
        Ok(mailbox()),
        Err(lettre::address::AddressError::MissingParts),
    );
    assert!(matches!(
        r,
        Err(EmailError::Address(lettre::address::AddressError::MissingParts))
    ));
    let email = Email::from_parts(
        Ok("s".to_string()),
        Ok("b".to_string()),
        Ok(mailbox()),
        Ok(Mailbox { name: Some("T".to_string()), address: "t@example.org".to_string() }),
    )
    .unwrap();
    assert_eq!(email.subject(), "s");
    assert_eq!(email.body(), "b");
    assert_eq!(email.from().address, "a@example.org");
    assert_eq!(email.to().name.as_deref(), Some("T"));
}

#[test]
fn verification_email_with_the_default_texts() {
    let email = Email::verification_email(&config(), "user@example.com", "abc123").unwrap();
    assert_eq!(email.subject(), "Validate your Email Address for MyApp");
    assert_eq!(
        email.body(),
        "<html>\n  <body>\n    <h1>Welcome user@example.com</h1>\n\n    <p>\n      Thanks for joining MyApp.\n    </p>\n\n    <p>\n      To be able to log in, first validate your email by clicking the link below.\n    </p>\n\n    <a class=\"btn\" href=\"https://example.org/verify_email/confirm/abc123\">\n      https://example.org/verify_email/confirm/abc123\n    </a>\n  </body>\n</html>"
    );
    assert_eq!(email.to().address, "user@example.com");
    assert_eq!(email.to().name, None);
    assert_eq!(email.from().address, "admin@localhost");
}

#[test]
fn change_email_and_password_reset_links() {
    let email = Email::change_email_address_email(&config(), "user@example.com", "c0de").unwrap();
    assert_eq!(email.subject(), "Change your Email Address for MyApp");
    assert!(email.body().contains("href=\"https://example.org/change_email/confirm/c0de\""));
    let email = Email::password_reset_email(&config(), "user@example.com", "c0de").unwrap();
    assert_eq!(email.subject(), "Reset your Password for MyApp");
    assert!(email.body().contains("href=\"https://example.org/reset_password/update/c0de\""));
}

#[test]
fn configured_template_is_used_where_it_is_complete() {
    let mut config = config();
    config.email.user_verification_template = Some(EmailTemplate {
        subject: Some("Hi {{ EMAIL }}".to_string()),
        body: Some("{{ APP_NAME }}|{{ SITE_URL }}|{{ CODE }}|{{ VERIFICATION_URL }}".to_string()),
    });
    let email = Email::verification_email(&config, "user@example.com", "42").unwrap();
    assert_eq!(email.subject(), "Hi user@example.com");
    assert_eq!(
        email.body(),
        "MyApp|https://example.org|42|https://example.org/verify_email/confirm/42"
    );
    // The other kinds still use their defaults.
    let email = Email::password_reset_email(&config, "user@example.com", "42").unwrap();
    assert_eq!(email.subject(), "Reset your Password for MyApp");
}

#[test]
fn incomplete_template_falls_back_to_the_default() {
    let mut config = config();
    config.email.user_verification_template =
        Some(EmailTemplate { subject: Some("Only a subject".to_string()), body: None });
    let email = Email::verification_email(&config, "user@example.com", "42").unwrap();
    assert_eq!(email.subject(), "Validate your Email Address for MyApp");
}

#[test]
fn compose_is_what_the_three_builders_call() {
    let a = Email::compose(&config(), EmailKind::PasswordReset, "user@example.com", "x").unwrap();
    let b = Email::password_reset_email(&config(), "user@example.com", "x").unwrap();
    assert_eq!(a.subject(), b.subject());
    assert_eq!(a.body(), b.body());
}

#[test]
fn missing_site_url_is_reported_first() {
    let mut config = Configuration::empty();
    config.email.sender_address = Some("not an address".to_string());
    config.email.user_verification_template = Some(EmailTemplate {
        subject: Some("{{ broken".to_string()),
        body: Some("b".to_string()),
    });
    let r = Email::verification_email(&config, "nobody", "42");
    assert!(matches!(r, Err(EmailError::Missing("config.site_url"))));
}

#[test]
fn broken_template_is_reported_before_a_bad_address() {
    let mut config = config();
    config.email.password_reset_template = Some(EmailTemplate {
        subject: Some("s".to_string()),
        body: Some("{% if %}".to_string()),
    });
    let r = Email::password_reset_email(&config, "nobody", "42");
    assert!(matches!(r, Err(EmailError::Template(_))));
}

#[test]
fn bad_recipient_is_reported() {
    let r = Email::verification_email(&config(), "nobody", "42");
    assert!(matches!(r, Err(EmailError::Address(_))));
}

#[test]
fn smtp_settings_name_what_is_missing() {
    let mut config = Configuration::empty();
    assert!(matches!(smtp_settings(&config), Err(EmailError::Missing("SMTP host"))));
    config.email.smtp_host = Some("mail.example.org".to_string());
    assert!(matches!(smtp_settings(&config), Err(EmailError::Missing("SMTP port"))));
    config.email.smtp_port = Some(587);
    assert!(matches!(smtp_settings(&config), Err(EmailError::Missing("SMTP username"))));
    config.email.smtp_username = Some("user".to_string());
    assert!(matches!(smtp_settings(&config), Err(EmailError::Missing("SMTP password"))));
    assert!(matches!(Mailer::new_from_config(&config), Mailer::Local));
    config.email.smtp_password = Some("SECRET-REDACTED".to_string());
    let settings = smtp_settings(&config).unwrap();
    assert_eq!(settings.host, "mail.example.org");
    assert_eq!(settings.port, 587);
    assert_eq!(settings.username, "user");
    assert_eq!(settings.password, "SECRET-REDACTED");
    assert!(matches!(
        Mailer::new_from_config(&config),
        Mailer::Smtp(s) if s.host == "mail.example.org" && s.port == 587
    ));
}

#[test]
fn port_keeps_its_low_sixteen_bits() {
    let mut config = Configuration::empty();
    config.email.smtp_host = Some("h".to_string());
    config.email.smtp_username = Some("u".to_string());
    config.email.smtp_password = Some("p".to_string());
    config.email.smtp_port = Some(65536 + 25);
    assert_eq!(smtp_settings(&config).unwrap().port, 25);
    config.email.smtp_port = Some(65535);
    assert_eq!(smtp_settings(&config).unwrap().port, 65535);
    config.email.smtp_port = Some(u32::MAX);
    assert_eq!(smtp_settings(&config).unwrap().port, 65535);
}

#[test]
fn application_without_a_name_is_rendered_as_no_value() {
    let mut config = Configuration::empty();
    config.server.site_url = Some("https://example.org".to_string());
    let email = Email::verification_email(&config, "user@example.com", "42").unwrap();
    assert_eq!(email.subject(), "Validate your Email Address for None");
}

#[test]
fn later_variable_of_a_name_is_not_needed_for_the_link() {
    let mut config = config();
    config.email.change_email_template = Some(EmailTemplate {
        subject: Some("{{ VERIFICATION_URL }}{{ CODE }}".to_string()),
        body: Some("{{ UNKNOWN }}{{ EMAIL }}".to_string()),
    });
    let email = Email::change_email_address_email(&config, "user@example.com", "42").unwrap();
    // The subject sees only the application's name and the address.
    assert_eq!(email.subject(), "");
    assert_eq!(email.body(), "user@example.com");
}

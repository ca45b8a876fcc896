//! The texts that are sent where the configuration gives none.

use vstd::prelude::*;
use vstd::string::*;
use crate::config::EmailTemplate;

verus! {

pub const VALIDATION_SUBJECT: &'static str = "Validate your Email Address for {{ APP_NAME }}";

pub const VALIDATION_BODY: &'static str = r#"<html>
  <body>
    <h1>Welcome {{ EMAIL }}</h1>

    <p>
      Thanks for joining {{ APP_NAME }}.
    </p>

    <p>
      To be able to log in, first validate your email by clicking the link below.
    </p>

    <a class="btn" href="{{ VERIFICATION_URL }}">
      {{ VERIFICATION_URL }}
    </a>
  </body>
</html>"#;

pub const PASSWORD_RESET_SUBJECT: &'static str = "Reset your Password for {{ APP_NAME }}";

pub const PASSWORD_RESET_BODY: &'static str = r#"<html>
  <body>
    <h1>Password reset</h1>

    <p>
      Click the link below to reset your password.
    </p>

    <a class="btn" href="{{ VERIFICATION_URL }}">
      {{ VERIFICATION_URL }}
    </a>
  </body>
</html>"#;

pub const CHANGE_EMAIL_SUBJECT: &'static str = "Change your Email Address for {{ APP_NAME }}";

pub const CHANGE_EMAIL_BODY: &'static str = r#"<html>
  <body>
    <h1>Change E-Mail Address</h1>

    <p>
      Click the link below to verify your new E-mail address:
    </p>

    <a class="btn" href="{{ VERIFICATION_URL }}">
      {{ VERIFICATION_URL }}
    </a>
  </body>
</html>"#;

/// The e-mail that asks a new user to validate the address.
pub fn email_validation_email() -> (r: EmailTemplate)
    ensures
        r.subject matches Some(s) && s@ == VALIDATION_SUBJECT@,
        r.body matches Some(b) && b@ == VALIDATION_BODY@,
{
    EmailTemplate {
        subject: Some(String::from_str(VALIDATION_SUBJECT)),
        body: Some(String::from_str(VALIDATION_BODY)),
    }
}

/// The e-mail that lets a user set a new password.
pub fn password_reset_email() -> (r: EmailTemplate)
    ensures
        r.subject matches Some(s) && s@ == PASSWORD_RESET_SUBJECT@,
        r.body matches Some(b) && b@ == PASSWORD_RESET_BODY@,
{
    EmailTemplate {
        subject: Some(String::from_str(PASSWORD_RESET_SUBJECT)),
        body: Some(String::from_str(PASSWORD_RESET_BODY)),
    }
}

/// The e-mail that asks a user to confirm a new address.
pub fn change_email_address_email() -> (r: EmailTemplate)
    ensures
        r.subject matches Some(s) && s@ == CHANGE_EMAIL_SUBJECT@,
        r.body matches Some(b) && b@ == CHANGE_EMAIL_BODY@,
{
    EmailTemplate {
        subject: Some(String::from_str(CHANGE_EMAIL_SUBJECT)),
        body: Some(String::from_str(CHANGE_EMAIL_BODY)),
    }
}

} // verus!

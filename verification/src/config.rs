//! The configuration aggregate: server settings, e-mail settings and the
//! record APIs, each of which may expose one table or view.

use vstd::prelude::*;
use crate::text::same_text;

verus! {

/// Settings of the server itself.
#[derive(Clone, Debug)]
pub struct ServerConfig {
    pub application_name: Option<String>,
    pub site_url: Option<String>,
}

/// Subject and body of one kind of e-mail, as templates.
#[derive(Clone, Debug)]
pub struct EmailTemplate {
    pub subject: Option<String>,
    pub body: Option<String>,
}

/// How e-mail is sent and what it says.
#[derive(Clone, Debug)]
pub struct EmailConfig {
    pub smtp_host: Option<String>,
    pub smtp_port: Option<u32>,
    pub smtp_username: Option<String>,
    pub smtp_password: Option<String>,
    pub sender_address: Option<String>,
    pub sender_name: Option<String>,
    pub user_verification_template: Option<EmailTemplate>,
    pub password_reset_template: Option<EmailTemplate>,
    pub change_email_template: Option<EmailTemplate>,
}

/// One record API and the table or view it exposes.
#[derive(Clone, Debug)]
pub struct RecordApiConfig {
    pub name: String,
    pub table_name: Option<String>,
}

/// The whole configuration.
#[derive(Clone, Debug)]
pub struct Configuration {
    pub server: ServerConfig,
    pub email: EmailConfig,
    pub record_apis: Vec<RecordApiConfig>,
}

/// Whether `api` exposes the table or view called `name`.
pub open spec fn references(api: RecordApiConfig, name: Seq<char>) -> bool {
    match api.table_name {
        Some(table) => table@ == name,
        None => false,
    }
}

/// The record APIs of `apis` that do not expose `name`, in their order.
pub open spec fn unreferencing(apis: Seq<RecordApiConfig>, name: Seq<char>) -> Seq<
    RecordApiConfig,
>
    decreases apis.len(),
{
    if apis.len() == 0 {
        Seq::empty()
    } else if references(apis.last(), name) {
        unreferencing(apis.drop_last(), name)
    } else {
        unreferencing(apis.drop_last(), name).push(apis.last())
    }
}

/// Whether two configurations say the same.
pub open spec fn same_content(a: Configuration, b: Configuration) -> bool {
    &&& a.server == b.server
    &&& a.email == b.email
    &&& a.record_apis@ == b.record_apis@
}

/// A copy of an optional text.
pub fn copy_optional(text: &Option<String>) -> (r: Option<String>)
    ensures
        r == *text,
{
    match text {
        Some(s) => Some(s.clone()),
        None => None,
    }
}

impl EmailTemplate {
    /// A copy of the template.
    pub fn duplicate(&self) -> (r: Self)
        ensures
            r == *self,
    {
        EmailTemplate { subject: copy_optional(&self.subject), body: copy_optional(&self.body) }
    }
}

/// A copy of an optional template.
pub fn copy_template(template: &Option<EmailTemplate>) -> (r: Option<EmailTemplate>)
    ensures
        r == *template,
{
    match template {
        Some(t) => Some(t.duplicate()),
        None => None,
    }
}

impl ServerConfig {
    /// A copy of the settings.
    pub fn duplicate(&self) -> (r: Self)
        ensures
            r == *self,
    {
        ServerConfig {
            application_name: copy_optional(&self.application_name),
            site_url: copy_optional(&self.site_url),
        }
    }
}

impl EmailConfig {
    /// Whether the settings name nothing at all.
    pub open spec fn names_nothing(&self) -> bool {
        &&& self.smtp_host is None
        &&& self.smtp_port is None
        &&& self.smtp_username is None
        &&& self.smtp_password is None
        &&& self.sender_address is None
        &&& self.sender_name is None
        &&& self.user_verification_template is None
        &&& self.password_reset_template is None
        &&& self.change_email_template is None
    }

    /// Settings that name nothing: mail goes out locally, from the default
    /// sender, with the default texts.
    pub fn empty() -> (r: Self)
        ensures
            r.names_nothing(),
    {
        EmailConfig {
            smtp_host: None,
            smtp_port: None,
            smtp_username: None,
            smtp_password: None,
            sender_address: None,
            sender_name: None,
            user_verification_template: None,
            password_reset_template: None,
            change_email_template: None,
        }
    }

    /// A copy of the settings.
    pub fn duplicate(&self) -> (r: Self)
        ensures
            r == *self,
    {
        let smtp_port = match self.smtp_port {
            Some(p) => Some(p),
            None => None,
        };
        EmailConfig {
            smtp_host: copy_optional(&self.smtp_host),
            smtp_port,
            smtp_username: copy_optional(&self.smtp_username),
            smtp_password: copy_optional(&self.smtp_password),
            sender_address: copy_optional(&self.sender_address),
            sender_name: copy_optional(&self.sender_name),
            user_verification_template: copy_template(&self.user_verification_template),
            password_reset_template: copy_template(&self.password_reset_template),
            change_email_template: copy_template(&self.change_email_template),
        }
    }
}

impl RecordApiConfig {
    /// A copy of the definition.
    pub fn duplicate(&self) -> (r: Self)
        ensures
            r == *self,
    {
        RecordApiConfig { name: self.name.clone(), table_name: copy_optional(&self.table_name) }
    }

    /// Whether the API exposes the table or view called `name`.
    pub fn exposes(&self, name: &str) -> (r: bool)
        ensures
            r == references(*self, name@),
    {
        match &self.table_name {
            Some(table) => same_text(table.as_str(), name),
            None => false,
        }
    }
}

impl Configuration {
    /// The configuration of a fresh installation: no names, no record APIs.
    pub fn empty() -> (r: Self)
        ensures
            r.server.application_name is None,
            r.server.site_url is None,
            r.email.names_nothing(),
            r.record_apis@ == Seq::<RecordApiConfig>::empty(),
    {
        Configuration {
            server: ServerConfig { application_name: None, site_url: None },
            email: EmailConfig::empty(),
            record_apis: Vec::new(),
        }
    }

    /// A copy of the configuration.
    pub fn duplicate(&self) -> (r: Self)
        ensures
            same_content(r, *self),
    {
        let mut apis: Vec<RecordApiConfig> = Vec::new();
        let mut i: usize = 0;
        while i < self.record_apis.len()
            invariant
                0 <= i <= self.record_apis@.len(),
                apis@ == self.record_apis@.subrange(0, i as int),
            decreases self.record_apis@.len() - i,
        {
            apis.push(self.record_apis[i].duplicate());
            assert(apis@ =~= self.record_apis@.subrange(0, i + 1));
            i += 1;
        }
        assert(apis@ =~= self.record_apis@);
        Configuration {
            server: self.server.duplicate(),
            email: self.email.duplicate(),
            record_apis: apis,
        }
    }

    /// Removes every record API that exposes the table or view called `name`,
    /// and keeps the others as they are and in their order.
    pub fn strip_references(&mut self, name: &str)
        ensures
            final(self).server == old(self).server,
            final(self).email == old(self).email,
            final(self).record_apis@ == unreferencing(old(self).record_apis@, name@),
    {
        let ghost before = self.record_apis@;
        let mut kept: usize = 0;
        let mut seen: usize = 0;
        let total = self.record_apis.len();
        while seen < total
            invariant
                self.server == old(self).server,
                self.email == old(self).email,
                before == old(self).record_apis@,
                total == before.len(),
                0 <= seen <= total,
                0 <= kept <= seen,
                self.record_apis@.len() == kept + (total - seen),
                self.record_apis@.subrange(0, kept as int) == unreferencing(
                    before.subrange(0, seen as int),
                    name@,
                ),
                self.record_apis@.subrange(kept as int, self.record_apis@.len() as int)
                    == before.subrange(seen as int, total as int),
            decreases total - seen,
        {
            let ghost current = self.record_apis@;
            assert(current[kept as int] == before[seen as int]) by {
                assert(current.subrange(kept as int, current.len() as int)[0] == before.subrange(
                    seen as int,
                    total as int,
                )[0]);
            }
            assert(before.subrange(0, seen + 1).drop_last() =~= before.subrange(0, seen as int));
            assert(before.subrange(0, seen + 1).last() == before[seen as int]);
            if self.record_apis[kept].exposes(name) {
                self.record_apis.remove(kept);
                assert(self.record_apis@.subrange(0, kept as int) =~= current.subrange(
                    0,
                    kept as int,
                ));
                assert(self.record_apis@.subrange(kept as int, self.record_apis@.len() as int)
                    =~= current.subrange(kept as int, current.len() as int).drop_first());
                assert(before.subrange(seen as int, total as int).drop_first()
                    =~= before.subrange(seen + 1, total as int));
            } else {
                assert(current.subrange(0, kept + 1) =~= current.subrange(0, kept as int).push(
                    current[kept as int],
                ));
                assert(current.subrange(kept + 1, current.len() as int) =~= current.subrange(
                    kept as int,
                    current.len() as int,
                ).drop_first());
                assert(before.subrange(seen as int, total as int).drop_first()
                    =~= before.subrange(seen + 1, total as int));
                kept += 1;
            }
            seen += 1;
        }
        assert(before.subrange(0, total as int) =~= before);
        assert(self.record_apis@.subrange(0, kept as int) =~= self.record_apis@);
    }
}

} // verus!

//! Email configuration.

use vstd::prelude::*;

verus! {

broadcast use vstd::string::group_string_axioms;

/// Which delivery backend to use for outgoing email.
#[derive(Debug, Clone, Copy, PartialEq, Eq, Structural)]
pub enum TransportBackend {
    /// Send via SMTP (default).
    Smtp,
    /// Send via the Resend HTTP API.
    Resend,
}

impl Default for TransportBackend {
    fn default() -> (r: Self)
        ensures
            r == TransportBackend::Smtp,
    {
        TransportBackend::Smtp
    }
}

/// SMTP connection settings.
#[derive(Debug, Clone)]
pub struct SmtpConfig {
    /// SMTP server hostname. Defaults to `"localhost"`.
    pub host: String,
    /// SMTP server port. Defaults to `587`.
    pub port: u16,
    /// SMTP authentication username.
    pub username: String,
    /// SMTP authentication password.
    pub password: String,
    /// When `true`, uses STARTTLS (port 587). When `false`, no TLS at all.
    pub tls: bool,
}

impl Default for SmtpConfig {
    fn default() -> (r: Self)
        ensures
            r.host@ == "localhost"@,
            r.port == 587,
            r.username@ == Seq::<char>::empty(),
            r.password@ == Seq::<char>::empty(),
            r.tls,
    {
        SmtpConfig {
            host: String::from_str("localhost"),
            port: 587,
            username: String::new(),
            password: String::new(),
            tls: true,
        }
    }
}

/// Resend HTTP API settings.
#[derive(Debug, Clone)]
pub struct ResendConfig {
    /// Resend API key (starts with `re_`).
    pub api_key: String,
}

impl Default for ResendConfig {
    fn default() -> (r: Self)
        ensures
            r.api_key@ == Seq::<char>::empty(),
    {
        ResendConfig { api_key: String::new() }
    }
}

/// Top-level email configuration. Every field has a default, so a partial
/// configuration only overrides what differs.
#[derive(Debug, Clone)]
pub struct EmailConfig {
    /// Which transport backend to use. Defaults to `smtp`.
    pub transport: TransportBackend,
    /// Directory that contains `.md` template files. Defaults to `"emails"`.
    pub templates_path: String,
    /// Display name used in the `From` header when no per-email sender is set.
    pub default_from_name: String,
    /// Email address used in the `From` header when no per-email sender is set.
    pub default_from_email: String,
    /// Optional default `Reply-To` address.
    pub default_reply_to: Option<String>,
    /// SMTP connection settings.
    pub smtp: SmtpConfig,
    /// Resend API settings.
    pub resend: ResendConfig,
}

impl Default for EmailConfig {
    fn default() -> (r: Self)
        ensures
            r.transport == TransportBackend::Smtp,
            r.templates_path@ == "emails"@,
            r.default_from_name@ == Seq::<char>::empty(),
            r.default_from_email@ == Seq::<char>::empty(),
            r.default_reply_to is None,
            r.smtp.host@ == "localhost"@,
            r.smtp.port == 587,
            r.smtp.username@ == Seq::<char>::empty(),
            r.smtp.password@ == Seq::<char>::empty(),
            r.smtp.tls,
            r.resend.api_key@ == Seq::<char>::empty(),
    {
        EmailConfig {
            transport: TransportBackend::default(),
            templates_path: String::from_str("emails"),
            default_from_name: String::new(),
            default_from_email: String::new(),
            default_reply_to: None,
            smtp: SmtpConfig::default(),
            resend: ResendConfig::default(),
        }
    }
}

} // verus!

//! Building a mailer from the email configuration.

use vstd::prelude::*;
use crate::email::config::{EmailConfig, TransportBackend};
use crate::error::Error;

verus! {

/// The sender used when an email names none.
#[derive(Debug, Clone)]
pub struct SenderProfile {
    pub from_name: String,
    pub from_email: String,
    pub reply_to: Option<String>,
}

/// Templates read from a directory of `.md` files.
#[derive(Debug, Clone)]
pub struct FilesystemProvider {
    pub path: String,
}

/// The layouts that rendered templates are wrapped in, read from the
/// templates directory.
#[derive(Debug, Clone)]
pub struct LayoutEngine {
    pub path: String,
}

/// A configured mailer: the transport it delivers through, where its
/// templates come from, its layouts and its default sender.
#[derive(Debug, Clone)]
pub struct Mailer<P, T> {
    pub transport: T,
    pub provider: P,
    pub sender: SenderProfile,
    pub layout: LayoutEngine,
}

/// The default sender named by a configuration.
pub open spec fn sender_matches(s: SenderProfile, config: EmailConfig) -> bool {
    &&& s.from_name@ == config.default_from_name@
    &&& s.from_email@ == config.default_from_email@
    &&& match (s.reply_to, config.default_reply_to) {
        (Some(a), Some(b)) => a@ == b@,
        (None, None) => true,
        _ => false,
    }
}

/// Create a mailer using `FilesystemProvider` and the transport configured
/// in `config`. Templates are loaded from `config.templates_path`.
pub fn mailer(config: &EmailConfig) -> (r: Result<Mailer<FilesystemProvider, TransportBackend>, Error>)
    ensures
        r matches Ok(m) && m.transport == config.transport && m.provider.path@
            == config.templates_path@ && m.layout.path@ == config.templates_path@
            && sender_matches(m.sender, *config),
{
    let provider = FilesystemProvider { path: config.templates_path.clone() };
    mailer_with(config, provider)
}

/// Create a mailer with a custom template provider, delivering through the
/// backend that `config` selects.
pub fn mailer_with<P>(config: &EmailConfig, provider: P) -> (r: Result<
    Mailer<P, TransportBackend>,
    Error,
>)
    ensures
        r matches Ok(m) && m.transport == config.transport && m.provider == provider
            && m.layout.path@ == config.templates_path@ && sender_matches(m.sender, *config),
{
    mailer_with_transport(config, provider, Ok(config.transport))
}

/// Create a mailer around the outcome of building its transport: a
/// transport that could not be built fails the whole mailer with that same
/// error; otherwise the mailer delivers through it, with the provider given,
/// the layouts of `config.templates_path` and the default sender of
/// `config`.
pub fn mailer_with_transport<P, T>(
    config: &EmailConfig,
    provider: P,
    transport: Result<T, Error>,
) -> (r: Result<Mailer<P, T>, Error>)
    ensures
        match transport {
            Ok(t) => r matches Ok(m) && m.transport == t && m.provider == provider
                && m.layout.path@ == config.templates_path@ && sender_matches(m.sender, *config),
            Err(e) => r matches Err(e2) && e2 == e,
        },
{
    let transport = match transport {
        Ok(t) => t,
        Err(e) => return Err(e),
    };
    let layout = LayoutEngine { path: config.templates_path.clone() };
    let reply_to = match &config.default_reply_to {
        Some(s) => Some(s.clone()),
        None => None,
    };
    let sender = SenderProfile {
        from_name: config.default_from_name.clone(),
        from_email: config.default_from_email.clone(),
        reply_to,
    };
    Ok(Mailer { transport, provider, sender, layout })
}

} // verus!

use modo::csrf::config::CsrfConfig;
use modo::email::config::{EmailConfig, TransportBackend};
use modo::email::mailer::{mailer, mailer_with, mailer_with_transport};
use modo::error::Error;

#[test]
fn default_values() {
    let config = CsrfConfig::default();
    assert_eq!(config.cookie_name, "_csrf");
    assert_eq!(config.field_name, "_csrf_token");
    assert_eq!(config.header_name, "x-csrf-token");
    assert_eq!(config.cookie_max_age, 86400);
    assert_eq!(config.token_length, 32);
    assert!(config.secure);
    assert_eq!(config.max_body_bytes, 1_048_576);
}

#[test]
fn config_default_values() {
    let config = EmailConfig::default();
    assert_eq!(config.templates_path, "emails");
    assert_eq!(config.default_from_name, "");
    assert_eq!(config.default_from_email, "");
    assert!(config.default_reply_to.is_none());
    assert_eq!(config.transport, TransportBackend::Smtp);
}

#[test]
fn smtp_defaults() {
    let config = EmailConfig::default();
    assert_eq!(config.smtp.host, "localhost");
    assert_eq!(config.smtp.port, 587);
    assert!(config.smtp.tls);
    assert_eq!(config.resend.api_key, "");
}

#[test]
fn mailer_uses_configured_sender() {
    let mut config = EmailConfig::default();
    config.default_from_name = "Acme".to_string();
    config.default_from_email = "hi@acme.com".to_string();
    config.default_reply_to = Some("help@acme.com".to_string());
    config.transport = TransportBackend::Resend;
    let m = mailer(&config).unwrap();
    assert_eq!(m.transport, TransportBackend::Resend);
    assert_eq!(m.provider.path, "emails");
    assert_eq!(m.layout.path, "emails");
    assert_eq!(m.sender.from_name, "Acme");
    assert_eq!(m.sender.from_email, "hi@acme.com");
    assert_eq!(m.sender.reply_to.as_deref(), Some("help@acme.com"));
    let custom = mailer_with(&config, 7u8).unwrap();
    assert_eq!(custom.provider, 7u8);
}

#[test]
fn mailer_fails_with_the_transport_error() {
    let config = EmailConfig::default();
    let r = mailer_with_transport::<u8, u32>(&config, 1u8, Err(Error::Internal("smtp: bad host".to_string())));
    match r {
        Err(Error::Internal(m)) => assert_eq!(m, "smtp: bad host"),
        _ => panic!("expected the transport error"),
    }
}

#[test]
fn mailer_delivers_through_the_built_transport() {
    let mut config = EmailConfig::default();
    config.default_from_email = "a@b.c".to_string();
    let m = mailer_with_transport(&config, 2u8, Ok::<u32, Error>(99)).unwrap();
    assert_eq!(m.transport, 99);
    assert_eq!(m.provider, 2u8);
    assert_eq!(m.sender.from_email, "a@b.c");
    assert_eq!(m.layout.path, "emails");
}

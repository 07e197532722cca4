//! Mail-delivery configuration. Building the SMTP transport and sending is
//! the host application's business; the library owns the configuration value
//! and its defaults.

use vstd::prelude::*;

verus! {

/// How to reach the SMTP relay: credentials, host, port, whether to upgrade
/// the connection with STARTTLS, and the handshake timeout in milliseconds.
#[derive(Debug, Clone)]
pub struct MailerConfig {
    pub username: String,
    pub password: String,
    pub relay: String,
    pub port: u16,
    pub tls: bool,
    pub timeout: u64,
}

impl Default for MailerConfig {
    /// Empty credentials, implicit-TLS port 465, no STARTTLS, five seconds.
    fn default() -> (c: Self)
        ensures
            c.username@ == Seq::<char>::empty(),
            c.password@ == Seq::<char>::empty(),
            c.relay@ == Seq::<char>::empty(),
            c.port == 465,
            !c.tls,
            c.timeout == 5000,
    {
        MailerConfig {
            username: String::new(),
            password: String::new(),
            relay: String::new(),
            port: 465,
            tls: false,
            timeout: 5000,
        }
    }
}

} // verus!

//! Fleet health monitoring library.
//!
//! Ingested node snapshots and probed services are classified into a
//! tri-level health state (`ent::HealthStatus`), carried as events over a
//! bounded bus (`bus::EventBus`), and aggregated by a single consumer
//! (`logger::Logger`) that decides when notifications go out.

use vstd::prelude::*;

pub mod api;
pub mod bus;
pub mod collector;
pub mod config;
pub mod doctor;
pub mod ent;
pub mod logger;
pub mod table;

verus! {

/// Credentials and endpoint of the outbound mail account.
///
/// Delivery itself is network I/O and lives outside this library; the
/// accessors hand the configured values to whatever transport sends the mail.
pub struct EmailSender {
    smtp_username: String,
    smtp_password: String,
    smtp_server: String,
    smtp_port: u16,
}

impl EmailSender {
    pub closed spec fn spec_username(&self) -> Seq<char> {
        self.smtp_username@
    }

    pub closed spec fn spec_password(&self) -> Seq<char> {
        self.smtp_password@
    }

    pub closed spec fn spec_server(&self) -> Seq<char> {
        self.smtp_server@
    }

    pub closed spec fn spec_port(&self) -> u16 {
        self.smtp_port
    }

    pub fn new(
        smtp_username: String,
        smtp_password: String,
        smtp_server: String,
        smtp_port: u16,
    ) -> (s: Self)
        ensures
            s.spec_username() == smtp_username@,
            s.spec_password() == smtp_password@,
            s.spec_server() == smtp_server@,
            s.spec_port() == smtp_port,
    {
        EmailSender { smtp_username, smtp_password, smtp_server, smtp_port }
    }

    pub fn smtp_username(&self) -> (r: &String)
        ensures
            r@ == self.spec_username(),
    {
        &self.smtp_username
    }

    pub fn smtp_password(&self) -> (r: &String)
        ensures
            r@ == self.spec_password(),
    {
        &self.smtp_password
    }

    pub fn smtp_server(&self) -> (r: &String)
        ensures
            r@ == self.spec_server(),
    {
        &self.smtp_server
    }

    pub fn smtp_port(&self) -> (r: u16)
        ensures
            r == self.spec_port(),
    {
        self.smtp_port
    }
}

} // verus!

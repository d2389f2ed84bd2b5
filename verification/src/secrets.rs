//! Credentials of the message bus.

use vstd::prelude::*;

verus! {

/// Address and SASL credentials of the bus.
pub struct Secrets {
    kafka_url: String,
    kafka_sasl_username: String,
    kafka_sasl_password: String,
}

/// The three texts that a [`Secrets`] holds.
pub struct SecretsView {
    pub url: Seq<char>,
    pub username: Seq<char>,
    pub password: Seq<char>,
}

impl View for Secrets {
    type V = SecretsView;

    closed spec fn view(&self) -> SecretsView {
        SecretsView {
            url: self.kafka_url@,
            username: self.kafka_sasl_username@,
            password: self.kafka_sasl_password@,
        }
    }
}

impl Secrets {
    /// Holds the three values as they are given.
    pub fn from_env(
        kafka_url: String,
        kafka_sasl_username: String,
        kafka_sasl_password: String,
    ) -> (secrets: Self)
        ensures
            secrets@ == (SecretsView {
                url: kafka_url@,
                username: kafka_sasl_username@,
                password: kafka_sasl_password@,
            }),
    {
        Self { kafka_url, kafka_sasl_username, kafka_sasl_password }
    }

    /// The bootstrap address of the bus.
    pub fn url(&self) -> (url: &str)
        ensures
            url@ == self@.url,
    {
        self.kafka_url.as_str()
    }

    /// The SASL user name.
    pub fn username(&self) -> (username: &str)
        ensures
            username@ == self@.username,
    {
        self.kafka_sasl_username.as_str()
    }

    /// The SASL password.
    pub fn password(&self) -> (password: &str)
        ensures
            password@ == self@.password,
    {
        self.kafka_sasl_password.as_str()
    }
}

} // verus!

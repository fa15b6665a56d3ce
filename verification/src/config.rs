//! Connection settings of the programs.

use vstd::prelude::*;

use crate::text::{append_decimal, decimal, digits_value, is_numeral, lemma_decimal_reads_back};

verus! {

/// Where the stream lives, where messages are pushed to, and where the offset is kept.
#[derive(Clone)]
pub struct Config {
    pub rabbitmq_host: String,
    pub rabbitmq_port: u16,
    pub rabbitmq_user: String,
    pub rabbitmq_password: String,
    pub rabbitmq_stream: String,
    pub push_url: String,
    pub local_storage: String,
}

impl Default for Config {
    /// A local RabbitMQ with the guest account, stream `stream01`, the push mock on
    /// port 7878, and the offset database under `/tmp`.
    fn default() -> (r: Self)
        ensures
            r.rabbitmq_host@ == "127.0.0.1"@,
            r.rabbitmq_port == 5552,
            r.rabbitmq_user@ == "guest"@,
            r.rabbitmq_password@ == "guest"@,
            r.rabbitmq_stream@ == "stream01"@,
            r.push_url@ == "http://localhost:7878/push"@,
            r.local_storage@ == "/tmp/rabbit_consumer_storage"@,
    {
        Self {
            rabbitmq_host: String::from_str("127.0.0.1"),
            rabbitmq_port: 5552,
            rabbitmq_user: String::from_str("guest"),
            rabbitmq_password: String::from_str("guest"),
            rabbitmq_stream: String::from_str("stream01"),
            push_url: String::from_str("http://localhost:7878/push"),
            local_storage: String::from_str("/tmp/rabbit_consumer_storage"),
        }
    }
}

/// The AMQP address of the broker for the given credentials, host and port:
/// `amqp://{user}:{password}@{host}:{port}`.
pub open spec fn amqp_address_text(user: Seq<char>, password: Seq<char>, host: Seq<char>, port: u16) -> Seq<char> {
    "amqp://"@ + user + ":"@ + password + "@"@ + host + ":"@ + decimal(port as nat)
}

impl Config {
    /// The AMQP address of the configured broker, listening for AMQP on `amqp_port`.
    pub fn amqp_address(&self, amqp_port: u16) -> (r: String)
        ensures
            r@ == amqp_address_text(
                self.rabbitmq_user@,
                self.rabbitmq_password@,
                self.rabbitmq_host@,
                amqp_port,
            ),
            r@ == "amqp://"@ + self.rabbitmq_user@ + ":"@ + self.rabbitmq_password@ + "@"@
                + self.rabbitmq_host@ + ":"@ + decimal(amqp_port as nat),
            r@.take(7) == "amqp://"@,
            r@.subrange(7, 7int + self.rabbitmq_user@.len()) == self.rabbitmq_user@,
            r@.subrange(
                8int + self.rabbitmq_user@.len(),
                8int + self.rabbitmq_user@.len() + self.rabbitmq_password@.len(),
            ) == self.rabbitmq_password@,
            is_numeral(r@.skip(r@.len() - decimal(amqp_port as nat).len())),
            digits_value(r@.skip(r@.len() - decimal(amqp_port as nat).len())) == amqp_port,
    {
        let mut s = String::from_str("amqp://");
        s.append(self.rabbitmq_user.as_str());
        s.append(":");
        s.append(self.rabbitmq_password.as_str());
        s.append("@");
        s.append(self.rabbitmq_host.as_str());
        s.append(":");
        append_decimal(&mut s, amqp_port as u64);
        proof {
            reveal_strlit("amqp://");
            reveal_strlit(":");
            lemma_decimal_reads_back(amqp_port as nat);
            let u = self.rabbitmq_user@;
            let pw = self.rabbitmq_password@;
            let ex = "amqp://"@ + u + ":"@ + pw + "@"@ + self.rabbitmq_host@ + ":"@ + decimal(
                amqp_port as nat,
            );
            assert(s@ =~= ex);
            assert(ex.take(7) =~= "amqp://"@);
            assert(ex.subrange(7, 7int + u.len()) =~= u);
            assert(ex.subrange(8int + u.len(), 8int + u.len() + pw.len()) =~= pw);
            assert(ex.skip(ex.len() - decimal(amqp_port as nat).len()) =~= decimal(amqp_port as nat));
        }
        s
    }
}

} // verus!

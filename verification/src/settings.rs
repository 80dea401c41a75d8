//! The worker's connection settings.
use vstd::prelude::*;
use vstd::string::*;
use crate::text::concat3;

verus! {

/// The AMQP address of the broker with these credentials, host and port.
pub open spec fn spec_amqp_address(
    username: Seq<char>,
    password: Seq<char>,
    host: Seq<char>,
    port: Seq<char>,
) -> Seq<char> {
    "amqp://"@ + username + ":"@ + password + "@"@ + host + ":"@ + port
}

/// The AMQP address `amqp://{username}:{password}@{host}:{port}` of the broker.
pub fn amqp_address(username: &str, password: &str, host: &str, port: &str) -> (address: String)
    ensures
        address@ == spec_amqp_address(username@, password@, host@, port@),
        address@ == "amqp://"@ + username@ + ":"@ + password@ + "@"@ + host@ + ":"@ + port@,
{
    let mut address = concat3("amqp://", username, ":");
    address.append(password);
    address.append("@");
    address.append(host);
    address.append(":");
    address.append(port);
    address
}

/// The address spells out each setting in its place: `amqp://`, the
/// username, `:`, the password, `@`, the host, `:` and the port, so that the
/// password stands right after the first `:` that follows the username.
pub proof fn lemma_amqp_address_parts(
    username: Seq<char>,
    password: Seq<char>,
    host: Seq<char>,
    port: Seq<char>,
)
    ensures
        ({
            let a = spec_amqp_address(username, password, host, port);
            let u: int = 7 + username.len() as int;
            let p: int = u + 1 + password.len();
            let h: int = p + 1 + host.len();
            &&& a.len() == h + 1 + port.len()
            &&& a.subrange(0, 7) == seq!['a', 'm', 'q', 'p', ':', '/', '/']
            &&& a.subrange(7, u) == username
            &&& a[u] == ':'
            &&& a.subrange(u + 1, p) == password
            &&& a[p] == '@'
            &&& a.subrange(p + 1, h) == host
            &&& a[h] == ':'
            &&& a.subrange(h + 1, a.len() as int) == port
        }),
{
    reveal_strlit("amqp://");
    reveal_strlit(":");
    reveal_strlit("@");
    let a = spec_amqp_address(username, password, host, port);
    let u: int = 7 + username.len() as int;
    let p: int = u + 1 + password.len();
    let h: int = p + 1 + host.len();
    assert(a.subrange(0, 7) =~= seq!['a', 'm', 'q', 'p', ':', '/', '/']);
    assert(a.subrange(7, u) =~= username);
    assert(a.subrange(u + 1, p) =~= password);
    assert(a.subrange(p + 1, h) =~= host);
    assert(a.subrange(h + 1, a.len() as int) =~= port);
}

} // verus!

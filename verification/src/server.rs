use vstd::prelude::*;

use crate::configuration::EnvConfig;

verus! {

/// The answer of the liveness endpoint: the service's name and version.
pub struct IsAlive {
    pub name: String,
    pub version: String,
}

/// The liveness answer of the service `name` at `version`.
pub fn is_alive(name: &str, version: &str) -> (answer: IsAlive)
    ensures
        answer.name@ == name@,
        answer.version@ == version@,
{
    IsAlive { name: String::from_str(name), version: String::from_str(version) }
}

/// `host:port`.
pub open spec fn socket_address(host: Seq<char>, port: Seq<char>) -> Seq<char> {
    host + ":"@ + port
}

/// An address is the whole host, one colon and the whole port: it starts with the
/// host, ends with the port, and is one character longer than both together.
pub proof fn lemma_socket_address_shape(host: Seq<char>, port: Seq<char>)
    ensures
        socket_address(host, port).len() == host.len() + 1 + port.len(),
        socket_address(host, port).subrange(0, host.len() as int) == host,
        socket_address(host, port)[host.len() as int] == ':',
        socket_address(host, port).subrange(
            host.len() + 1int,
            socket_address(host, port).len() as int,
        ) == port,
{
    reveal_strlit(":");
    let a = socket_address(host, port);
    assert(a.subrange(0, host.len() as int) =~= host);
    assert(a.subrange(host.len() + 1int, a.len() as int) =~= port);
}

/// The address the gRPC endpoint listens on.
pub fn grpc_listen_address(env_config: &EnvConfig) -> (address: String)
    ensures
        address@ == socket_address(env_config.base_url@, env_config.grpc_port@),
        address@ == env_config.base_url@ + ":"@ + env_config.grpc_port@,
{
    env_config.base_url.clone().concat(":").concat(env_config.grpc_port.as_str())
}

/// The address the HTTP endpoint listens on.
pub fn http_listen_address(env_config: &EnvConfig) -> (address: String)
    ensures
        address@ == socket_address(env_config.base_url@, env_config.http_port@),
        address@ == env_config.base_url@ + ":"@ + env_config.http_port@,
{
    env_config.base_url.clone().concat(":").concat(env_config.http_port.as_str())
}

/// The address a client uses to reach the gRPC endpoint.
pub fn grpc_endpoint(env_config: &EnvConfig) -> (url: String)
    ensures
        url@ == "http://"@ + socket_address(env_config.base_url@, env_config.grpc_port@),
        url@ == "http://"@ + env_config.base_url@ + ":"@ + env_config.grpc_port@,
{
    String::from_str("http://").concat(env_config.base_url.as_str()).concat(":").concat(
        env_config.grpc_port.as_str(),
    )
}

} // verus!

//! Static configuration of the virtual hosts.

use vstd::prelude::*;

verus! {

/// Where the credential of a host served over TLS at the edge is stored.
pub struct CredentialPaths {
    /// Path-like identifier of the PEM certificate.
    pub cert_path: Seq<char>,
    /// Path-like identifier of the PEM private key.
    pub key_path: Seq<char>,
}

/// The mathematical content of one configured virtual host.
pub struct HostRecord {
    /// The routing key, compared exactly and case-sensitively.
    pub hostname: Seq<char>,
    /// The upstream to forward to, in `host:port` form.
    pub backend_address: Seq<char>,
    /// Whether the connection from the proxy to the upstream uses TLS.
    pub backend_uses_tls: bool,
    /// Where the host's certificate and private key are stored; present
    /// exactly for a host that is served over TLS at the edge.
    pub tls_credential: Option<CredentialPaths>,
}

impl HostRecord {
    /// A record is well formed when neither its hostname nor its backend
    /// address is empty.
    pub open spec fn well_formed(self) -> bool {
        self.hostname.len() > 0 && self.backend_address.len() > 0
    }

    /// The routing part of the record, without its credential.
    pub open spec fn routing(self) -> HostRecord {
        HostRecord {
            hostname: self.hostname,
            backend_address: self.backend_address,
            backend_uses_tls: self.backend_uses_tls,
            tls_credential: None,
        }
    }
}

/// A virtual host reached over plain HTTP, or the routing part of one reached
/// over TLS.
pub struct HostConfigPlain {
    /// The upstream to forward to, in `host:port` form.
    pub proxy_addr: String,
    /// Whether the connection from the proxy to the upstream uses TLS. This is
    /// independent of whether the edge listener terminates TLS.
    pub proxy_tls: bool,
    /// The routing key: the exact value of the `Host` header.
    pub proxy_hostname: String,
}

impl View for HostConfigPlain {
    type V = HostRecord;

    open spec fn view(&self) -> HostRecord {
        HostRecord {
            hostname: self.proxy_hostname@,
            backend_address: self.proxy_addr@,
            backend_uses_tls: self.proxy_tls,
            tls_credential: None,
        }
    }
}

impl Clone for HostConfigPlain {
    fn clone(&self) -> (copy: Self)
        ensures
            copy == *self,
    {
        HostConfigPlain {
            proxy_addr: self.proxy_addr.clone(),
            proxy_tls: self.proxy_tls,
            proxy_hostname: self.proxy_hostname.clone(),
        }
    }
}

/// A virtual host served over TLS at the edge: its routing, and where its
/// certificate and private key are stored.
pub struct HostConfigTls {
    /// The upstream to forward to, in `host:port` form.
    pub proxy_addr: String,
    /// Whether the connection from the proxy to the upstream uses TLS. This is
    /// independent of the TLS termination at the edge.
    pub proxy_tls: bool,
    /// The routing key: the server name of the handshake and the `Host` header.
    pub proxy_hostname: String,
    /// Path-like identifier of the PEM certificate.
    pub cert_path: String,
    /// Path-like identifier of the PEM private key.
    pub key_path: String,
}

impl View for HostConfigTls {
    type V = HostRecord;

    open spec fn view(&self) -> HostRecord {
        HostRecord {
            hostname: self.proxy_hostname@,
            backend_address: self.proxy_addr@,
            backend_uses_tls: self.proxy_tls,
            tls_credential: Some(
                CredentialPaths { cert_path: self.cert_path@, key_path: self.key_path@ },
            ),
        }
    }
}

impl Clone for HostConfigTls {
    fn clone(&self) -> (copy: Self)
        ensures
            copy == *self,
    {
        HostConfigTls {
            proxy_addr: self.proxy_addr.clone(),
            proxy_tls: self.proxy_tls,
            proxy_hostname: self.proxy_hostname.clone(),
            cert_path: self.cert_path.clone(),
            key_path: self.key_path.clone(),
        }
    }
}

impl HostConfigTls {
    /// The routing part of this host, without its credential.
    pub fn to_plain(&self) -> (plain: HostConfigPlain)
        ensures
            plain@ == self@.routing(),
    {
        HostConfigPlain {
            proxy_addr: self.proxy_addr.clone(),
            proxy_tls: self.proxy_tls,
            proxy_hostname: self.proxy_hostname.clone(),
        }
    }
}

/// The records that a list of plain host configurations stands for, in order.
pub open spec fn host_records(configs: Seq<HostConfigPlain>) -> Seq<HostRecord> {
    Seq::new(configs.len(), |i: int| configs[i]@)
}

/// The records that a list of TLS host configurations stands for, in order.
pub open spec fn tls_host_records(configs: Seq<HostConfigTls>) -> Seq<HostRecord> {
    Seq::new(configs.len(), |i: int| configs[i]@)
}

/// The routing parts of a list of records, in order.
pub open spec fn routing_records(records: Seq<HostRecord>) -> Seq<HostRecord> {
    Seq::new(records.len(), |i: int| records[i].routing())
}

/// The records of a list that carry a TLS credential, in order.
pub open spec fn tls_eligible(records: Seq<HostRecord>) -> Seq<HostRecord> {
    records.filter(|record: HostRecord| record.tls_credential is Some)
}

/// The hostnames of a list of records, in order.
pub open spec fn hostnames(records: Seq<HostRecord>) -> Seq<Seq<char>> {
    Seq::new(records.len(), |i: int| records[i].hostname)
}

/// The routing parts of the hosts of a TLS listener, in the same order.
pub fn plain_host_configs(host_configs: &Vec<HostConfigTls>) -> (plain: Vec<HostConfigPlain>)
    ensures
        host_records(plain@) == routing_records(tls_host_records(host_configs@)),
{
    let mut plain: Vec<HostConfigPlain> = Vec::new();
    let mut i: usize = 0;
    while i < host_configs.len()
        invariant
            i <= host_configs.len(),
            plain.len() == i,
            forall|j: int| 0 <= j < i ==> plain@[j]@ == host_configs@[j]@.routing(),
        decreases host_configs.len() - i,
    {
        plain.push(host_configs[i].to_plain());
        i += 1;
    }
    assert(host_records(plain@) =~= routing_records(tls_host_records(host_configs@)));
    plain
}

} // verus!

//! The certificate store and the selector of a credential by server name.

use crate::app::lookup_record;
use crate::lookup::{
    first_match, lemma_first_match_absent, lemma_first_match_found, lemma_first_match_iff_present,
};
use crate::service::{
    hostnames, routing_records, tls_eligible, tls_host_records, HostConfigTls, HostRecord,
};
use crate::text::{same_text, text_of};
use pingora_openssl::error::ErrorStack;
use pingora_openssl::pkey::{PKey, Private};
use pingora_openssl::x509::X509;
use vstd::prelude::*;

verus! {

/// An X.509 certificate of `pingora_openssl`, carried through unread.
#[verifier::external_type_specification]
#[verifier::external_body]
pub struct ExX509(X509);

/// A key of `pingora_openssl`, carried through unread.
#[verifier::external_type_specification]
#[verifier::external_body]
#[verifier::reject_recursive_types(T)]
pub struct ExPKey<T>(PKey<T>);

/// The tag of `pingora_openssl` for a key that has its private part.
#[verifier::external_type_specification]
#[verifier::external_body]
pub struct ExPrivate(Private);

/// The error of the decoders of `pingora_openssl`. It is never read.
#[verifier::external_type_specification]
#[verifier::external_body]
pub struct ExErrorStack(ErrorStack);

/// The longest input that the PEM decoders take: they refuse, by a panic, a
/// buffer whose length does not fit a C `int`.
pub const MAX_PEM_LEN: usize = 2147483647;

/// `pingora_openssl::x509::X509::from_pem` decodes a PEM certificate. It must
/// be given at most `MAX_PEM_LEN` bytes. Nothing is claimed about which
/// inputs it accepts, nor about the certificate it gives.
pub assume_specification[ X509::from_pem ](pem: &[u8]) -> (decoded: Result<X509, ErrorStack>)
    requires
        pem@.len() <= MAX_PEM_LEN,
;

/// `pingora_openssl::pkey::PKey::private_key_from_pem` decodes a PEM private
/// key. It must be given at most `MAX_PEM_LEN` bytes. Nothing is claimed about
/// which inputs it accepts, nor about the key it gives: for a key that is
/// stored encrypted the outcome depends on more than the bytes.
pub assume_specification[ PKey::<Private>::private_key_from_pem ](pem: &[u8]) -> (decoded: Result<
    PKey<Private>,
    ErrorStack,
>)
    requires
        pem@.len() <= MAX_PEM_LEN,
;

/// One of the two parts of a credential.
#[derive(Debug, Clone, Copy, PartialEq, Eq)]
pub enum CredentialPart {
    /// The X.509 certificate.
    Certificate,
    /// The private key.
    PrivateKey,
}

/// Why no certificate store was built. No partial store is ever produced.
#[derive(Debug, Clone, Copy, PartialEq, Eq)]
pub enum CredentialError {
    /// The bytes of `part` of the record at `index` could not be loaded.
    Load { index: usize, part: CredentialPart },
    /// The bytes of `part` of the record at `index` do not decode.
    Parse { index: usize, part: CredentialPart },
}

impl CredentialError {
    /// The position of the failing record in the configuration.
    pub open spec fn spec_index(&self) -> usize {
        match *self {
            CredentialError::Load { index, part } => index,
            CredentialError::Parse { index, part } => index,
        }
    }

    /// The position of the failing record in the configuration.
    #[verifier::when_used_as_spec(spec_index)]
    pub fn index(&self) -> (index: usize)
        ensures
            index == self.spec_index(),
    {
        match self {
            CredentialError::Load { index, part: _ } => *index,
            CredentialError::Parse { index, part: _ } => *index,
        }
    }
}

/// What became of one part of a credential.
pub enum Decoded<T> {
    /// Its bytes could not be loaded.
    Missing,
    /// Its bytes were loaded and do not decode.
    Malformed,
    /// Its bytes were loaded and decode to this value.
    Valid(T),
}

impl<T> Decoded<T> {
    /// What the outcome of a decoder means for a part whose bytes were
    /// loaded: a value is `Valid`, any error is `Malformed`.
    pub open spec fn of_outcome(outcome: Result<T, ErrorStack>) -> Decoded<T> {
        match outcome {
            Ok(value) => Decoded::Valid(value),
            Err(_) => Decoded::Malformed,
        }
    }

    /// What the outcome of a decoder means for a part whose bytes were
    /// loaded: a value is `Valid`, any error is `Malformed`.
    pub fn from_outcome(outcome: Result<T, ErrorStack>) -> (decoded: Decoded<T>)
        ensures
            decoded == Decoded::of_outcome(outcome),
    {
        match outcome {
            Ok(value) => Decoded::Valid(value),
            Err(_) => Decoded::Malformed,
        }
    }
}

/// The part itself, or the error that a part which is missing or malformed
/// stands for.
pub open spec fn part_or_error<T>(
    index: usize,
    part: CredentialPart,
    decoded: Decoded<T>,
) -> Result<T, CredentialError> {
    match decoded {
        Decoded::Missing => Err(CredentialError::Load { index, part }),
        Decoded::Malformed => Err(CredentialError::Parse { index, part }),
        Decoded::Valid(value) => Ok(value),
    }
}

/// The part `part` of the record at `index`, or the error that its being
/// missing or malformed stands for.
pub fn credential_part<T>(index: usize, part: CredentialPart, decoded: Decoded<T>) -> (taken:
    Result<T, CredentialError>)
    ensures
        taken == part_or_error(index, part, decoded),
{
    match decoded {
        Decoded::Missing => Err(CredentialError::Load { index, part }),
        Decoded::Malformed => Err(CredentialError::Parse { index, part }),
        Decoded::Valid(value) => Ok(value),
    }
}

/// Whether a part was loaded and is short enough for its decoder.
pub open spec fn is_decodable(pem: Option<Vec<u8>>) -> bool {
    pem matches Some(bytes) && bytes@.len() <= MAX_PEM_LEN
}

/// The raw credential of one host served over TLS, as the byte loader
/// returned it: a part is absent where its bytes could not be loaded.
pub struct LoadedCredential {
    /// The hostname that the credential is for.
    pub hostname: String,
    /// The PEM bytes of the certificate.
    pub certificate: Option<Vec<u8>>,
    /// The PEM bytes of the private key.
    pub private_key: Option<Vec<u8>>,
}

impl LoadedCredential {
    /// The credential of `host` as loaded: each part is the bytes read from
    /// the host's path for it, or absent where they could not be read.
    pub fn new(
        host: &HostConfigTls,
        certificate: Option<Vec<u8>>,
        private_key: Option<Vec<u8>>,
    ) -> (loaded: LoadedCredential)
        ensures
            loaded.hostname@ == host@.hostname,
            loaded.certificate == certificate,
            loaded.private_key == private_key,
    {
        LoadedCredential { hostname: host.proxy_hostname.clone(), certificate, private_key }
    }

    /// Whether both parts were loaded and can be handed to their decoders.
    pub open spec fn decodable(&self) -> bool {
        is_decodable(self.certificate) && is_decodable(self.private_key)
    }
}

/// Decodes the certificate of a credential.
///
/// The part is `Missing` exactly when its bytes were not loaded. Bytes longer
/// than `MAX_PEM_LEN` are `Malformed`; of all others the decoder decides
/// between `Malformed` and `Valid`.
pub fn decode_certificate(pem: &Option<Vec<u8>>) -> (decoded: Decoded<X509>)
    ensures
        decoded is Missing <==> pem is None,
        decoded is Valid ==> is_decodable(*pem),
{
    match pem {
        None => Decoded::Missing,
        Some(bytes) => {
            if bytes.len() > MAX_PEM_LEN {
                Decoded::Malformed
            } else {
                Decoded::from_outcome(X509::from_pem(bytes.as_slice()))
            }
        },
    }
}

/// Decodes the private key of a credential.
///
/// The part is `Missing` exactly when its bytes were not loaded. Bytes longer
/// than `MAX_PEM_LEN` are `Malformed`; of all others the decoder decides
/// between `Malformed` and `Valid`.
pub fn decode_private_key(pem: &Option<Vec<u8>>) -> (decoded: Decoded<PKey<Private>>)
    ensures
        decoded is Missing <==> pem is None,
        decoded is Valid ==> is_decodable(*pem),
{
    match pem {
        None => Decoded::Missing,
        Some(bytes) => {
            if bytes.len() > MAX_PEM_LEN {
                Decoded::Malformed
            } else {
                Decoded::from_outcome(PKey::private_key_from_pem(bytes.as_slice()))
            }
        },
    }
}

/// The credential of one hostname: created once, never changed.
pub struct CertificateEntry {
    /// The server name that the credential is presented for.
    pub hostname: String,
    /// The certificate.
    pub certificate: X509,
    /// The private key of the certificate.
    pub private_key: PKey<Private>,
}

/// Failure of one handshake: no certificate is configured for the server name
/// that the client presented, or the client presented none.
#[derive(Debug, Clone, Copy, PartialEq, Eq)]
pub struct NoMatchingCertificate;

/// The hostnames of a list of entries, in order.
pub open spec fn entry_hostnames(entries: Seq<CertificateEntry>) -> Seq<Seq<char>> {
    Seq::new(entries.len(), |i: int| entries[i].hostname@)
}

/// The hostnames of a list of loaded credentials, in order.
pub open spec fn loaded_hostnames(loaded: Seq<LoadedCredential>) -> Seq<Seq<char>> {
    Seq::new(loaded.len(), |i: int| loaded[i].hostname@)
}

/// The entry that a lookup of `hostname` in `entries` gives: the first one
/// with that hostname, if any.
pub open spec fn lookup_entry(entries: Seq<CertificateEntry>, hostname: Seq<char>) -> Option<
    CertificateEntry,
> {
    match first_match(entry_hostnames(entries), hostname) {
        Some(i) => Some(entries[i]),
        None => None,
    }
}

/// The outcome of a handshake in which the client presented `server_name`:
/// the entry of exactly that name, and a failure where the client presented
/// no name or one that has no entry. There is no fallback certificate.
pub open spec fn resolve_entry(
    entries: Seq<CertificateEntry>,
    server_name: Option<Seq<char>>,
) -> Result<CertificateEntry, NoMatchingCertificate> {
    match server_name {
        None => Err(NoMatchingCertificate),
        Some(hostname) => match lookup_entry(entries, hostname) {
            Some(entry) => Ok(entry),
            None => Err(NoMatchingCertificate),
        },
    }
}

/// The certificate store of a TLS listener: an ordered, immutable list with
/// one entry per host served over TLS, searched by exact hostname.
pub struct CertificateStore {
    entries: Vec<CertificateEntry>,
}

impl View for CertificateStore {
    type V = Seq<CertificateEntry>;

    closed spec fn view(&self) -> Seq<CertificateEntry> {
        self.entries@
    }
}

/// Whether each of the first `n` loaded credentials was loaded in both parts
/// and can be handed to the decoders.
pub open spec fn decodable_before(loaded: Seq<LoadedCredential>, n: int) -> bool {
    forall|j: int| 0 <= j < n ==> (#[trigger] loaded[j]).decodable()
}

/// Whether `error` is one that the credential `loaded[error.index()]` can
/// give: a part is reported as not loaded exactly where it is absent and as
/// not decoding only where it is present, the private key is reported only
/// where the certificate was handed to its decoder, and every credential
/// before the reported one was handed to the decoders in both parts.
pub open spec fn explains(loaded: Seq<LoadedCredential>, error: CredentialError) -> bool {
    let i = error.index() as int;
    &&& 0 <= i < loaded.len()
    &&& decodable_before(loaded, i)
    &&& match error {
        CredentialError::Load { index, part: CredentialPart::Certificate } => {
            loaded[i].certificate is None
        },
        CredentialError::Parse { index, part: CredentialPart::Certificate } => {
            loaded[i].certificate is Some
        },
        CredentialError::Load { index, part: CredentialPart::PrivateKey } => {
            is_decodable(loaded[i].certificate) && loaded[i].private_key is None
        },
        CredentialError::Parse { index, part: CredentialPart::PrivateKey } => {
            is_decodable(loaded[i].certificate) && loaded[i].private_key is Some
        },
    }
}

impl CertificateStore {
    /// The store that holds exactly `entries`, in their order.
    pub fn from_entries(entries: Vec<CertificateEntry>) -> (store: CertificateStore)
        ensures
            store@ == entries@,
    {
        CertificateStore { entries }
    }

    /// Builds the store from the loaded credentials of the hosts served over
    /// TLS, one entry per credential, in their order.
    ///
    /// Credentials are taken in order, and of each the certificate before the
    /// private key. The first part that was not loaded or does not decode
    /// ends the build with its error; nothing after it is decoded, and no
    /// partial store is produced.
    pub fn build(loaded: &Vec<LoadedCredential>) -> (built: Result<
        CertificateStore,
        CredentialError,
    >)
        ensures
            match built {
                Ok(store) => entry_hostnames(store@) == loaded_hostnames(loaded@)
                    && decodable_before(loaded@, loaded@.len() as int),
                Err(error) => explains(loaded@, error),
            },
    {
        let mut entries: Vec<CertificateEntry> = Vec::new();
        let mut i: usize = 0;
        while i < loaded.len()
            invariant
                i <= loaded.len(),
                entries@.len() == i,
                forall|j: int| 0 <= j < i ==> entries@[j].hostname@ == loaded@[j].hostname@,
                decodable_before(loaded@, i as int),
            decreases loaded.len() - i,
        {
            let credential = &loaded[i];
            let certificate = match credential_part(
                i,
                CredentialPart::Certificate,
                decode_certificate(&credential.certificate),
            ) {
                Ok(certificate) => certificate,
                Err(error) => {
                    return Err(error);
                },
            };
            let private_key = match credential_part(
                i,
                CredentialPart::PrivateKey,
                decode_private_key(&credential.private_key),
            ) {
                Ok(private_key) => private_key,
                Err(error) => {
                    return Err(error);
                },
            };
            let hostname = credential.hostname.clone();
            entries.push(CertificateEntry { hostname, certificate, private_key });
            i += 1;
        }
        assert(entry_hostnames(entries@) =~= loaded_hostnames(loaded@));
        Ok(CertificateStore::from_entries(entries))
    }

    /// The number of entries in the store.
    pub fn len(&self) -> (n: usize)
        ensures
            n == self@.len(),
    {
        self.entries.len()
    }

    /// The entries of the store, in their order.
    pub fn entries(&self) -> (entries: &Vec<CertificateEntry>)
        ensures
            entries@ == self@,
    {
        &self.entries
    }

    /// The entry for `hostname`: the first entry of the store whose hostname
    /// is exactly `hostname`, or none where no entry has it.
    pub fn lookup(&self, hostname: &str) -> (found: Option<&CertificateEntry>)
        ensures
            match found {
                Some(entry) => lookup_entry(self@, hostname@) == Some(*entry),
                None => lookup_entry(self@, hostname@) is None,
            },
    {
        let ghost names = entry_hostnames(self@);
        let mut i: usize = 0;
        while i < self.entries.len()
            invariant
                i <= self.entries.len(),
                names == entry_hostnames(self.entries@),
                forall|j: int| 0 <= j < i ==> names[j] != hostname@,
            decreases self.entries.len() - i,
        {
            let entry = &self.entries[i];
            if same_text(entry.hostname.as_str(), hostname) {
                proof {
                    assert(names[i as int] == hostname@);
                    lemma_first_match_found(names, hostname@, i as int);
                }
                return Some(entry);
            }
            i += 1;
        }
        proof {
            lemma_first_match_absent(names, hostname@);
        }
        None
    }

    /// Selects the credential for a handshake in which the client presented
    /// `server_name`.
    ///
    /// A client that presented no name, or a name that has no entry, gets
    /// `NoMatchingCertificate`: there is no fallback certificate. The store is
    /// only read, so any number of handshakes may resolve at once.
    pub fn resolve(&self, server_name: Option<&str>) -> (resolved: Result<
        &CertificateEntry,
        NoMatchingCertificate,
    >)
        ensures
            is_resolution_of(self@, text_of(server_name), resolved),
    {
        match server_name {
            None => Err(NoMatchingCertificate),
            Some(hostname) => match self.lookup(hostname) {
                Some(entry) => Ok(entry),
                None => Err(NoMatchingCertificate),
            },
        }
    }
}

/// Whether `resolved` is what resolving `server_name` in `entries` gives.
pub open spec fn is_resolution_of(
    entries: Seq<CertificateEntry>,
    server_name: Option<Seq<char>>,
    resolved: Result<&CertificateEntry, NoMatchingCertificate>,
) -> bool {
    match resolved {
        Ok(entry) => resolve_entry(entries, server_name) == Ok::<
            CertificateEntry,
            NoMatchingCertificate,
        >(*entry),
        Err(_) => resolve_entry(entries, server_name) is Err,
    }
}

/// Resolving one server name in one store always gives the same outcome: the
/// same entry, or the failure. Nothing but the store and the name decides.
pub proof fn lemma_resolve_is_deterministic(
    entries: Seq<CertificateEntry>,
    server_name: Option<Seq<char>>,
    first: Result<&CertificateEntry, NoMatchingCertificate>,
    second: Result<&CertificateEntry, NoMatchingCertificate>,
)
    requires
        is_resolution_of(entries, server_name, first),
        is_resolution_of(entries, server_name, second),
    ensures
        first == second,
{
    match (first, second) {
        (Ok(a), Ok(b)) => {
            assert(*a == *b);
        },
        (Err(a), Err(b)) => {
            assert(a == NoMatchingCertificate);
            assert(b == NoMatchingCertificate);
        },
        _ => {},
    }
}

/// Resolving gives an entry exactly for the server names that occur in the
/// store, and the entry given is one of the store that has the name asked for.
pub proof fn lemma_resolve_finds_the_present(
    entries: Seq<CertificateEntry>,
    server_name: Option<Seq<char>>,
)
    ensures
        resolve_entry(entries, server_name) is Ok <==> (server_name matches Some(hostname)
            && entry_hostnames(entries).contains(hostname)),
        resolve_entry(entries, server_name) matches Ok(entry) ==> server_name == Some(
            entry.hostname@,
        ) && entries.contains(entry),
{
    if let Some(hostname) = server_name {
        lemma_first_match_iff_present(entry_hostnames(entries), hostname);
        if let Some(i) = first_match(entry_hostnames(entries), hostname) {
            assert(entry_hostnames(entries)[i] == hostname);
            assert(entries[i].hostname@ == hostname);
        }
    }
}

/// Whether some record of the configuration has the hostname and carries a
/// TLS credential.
pub open spec fn carries_credential(config: Seq<HostRecord>, hostname: Seq<char>) -> bool {
    exists|i: int|
        0 <= i < config.len() && (#[trigger] config[i]).hostname == hostname
            && config[i].tls_credential is Some
}

/// A store that holds one entry for each record of a configuration that
/// carries a TLS credential has an entry for a hostname exactly when a record
/// with that hostname carries one.
pub proof fn lemma_store_holds_the_credentialed_hosts(
    config: Seq<HostRecord>,
    entries: Seq<CertificateEntry>,
    hostname: Seq<char>,
)
    requires
        entry_hostnames(entries) == hostnames(tls_eligible(config)),
    ensures
        lookup_entry(entries, hostname) is Some <==> carries_credential(config, hostname),
{
    let carries = |record: HostRecord| record.tls_credential is Some;
    let eligible = tls_eligible(config);
    let names = hostnames(eligible);
    lemma_first_match_iff_present(names, hostname);
    if names.contains(hostname) {
        let k = choose|k: int| 0 <= k < names.len() && names[k] == hostname;
        config.lemma_filter_pred(carries, k);
        assert(eligible.contains(eligible[k]));
        config.lemma_filter_contains_rev(carries, eligible[k]);
        let i = choose|i: int| 0 <= i < config.len() && config[i] == eligible[k];
        assert(config[i].hostname == hostname && config[i].tls_credential is Some);
    }
    if carries_credential(config, hostname) {
        let i = choose|i: int|
            0 <= i < config.len() && (#[trigger] config[i]).hostname == hostname
                && config[i].tls_credential is Some;
        config.lemma_filter_contains(carries, i);
        let k = choose|k: int| 0 <= k < eligible.len() && eligible[k] == config[i];
        assert(names[k] == hostname);
    }
}

/// Every host of a TLS listener carries a credential.
pub proof fn lemma_tls_hosts_are_eligible(hosts: Seq<HostConfigTls>)
    ensures
        tls_eligible(tls_host_records(hosts)) == tls_host_records(hosts),
    decreases hosts.len(),
{
    let carries = |record: HostRecord| record.tls_credential is Some;
    let records = tls_host_records(hosts);
    reveal(Seq::filter);
    if hosts.len() > 0 {
        lemma_tls_hosts_are_eligible(hosts.drop_last());
        assert(records.drop_last() =~= tls_host_records(hosts.drop_last()));
        assert(carries(records.last()));
        assert(records.drop_last().push(records.last()) =~= records);
    } else {
        assert(records.filter(carries) =~= records);
    }
}

/// The store of a TLS listener agrees with the listener's host table: it has
/// an entry for a hostname exactly when the table has a record for it, and
/// entry and record then stand at the same place.
pub proof fn lemma_store_agrees_with_table(
    hosts: Seq<HostConfigTls>,
    entries: Seq<CertificateEntry>,
    hostname: Seq<char>,
)
    requires
        entry_hostnames(entries) == hostnames(tls_host_records(hosts)),
    ensures
        lookup_entry(entries, hostname) is Some <==> carries_credential(
            tls_host_records(hosts),
            hostname,
        ),
        lookup_entry(entries, hostname) is Some <==> lookup_record(
            routing_records(tls_host_records(hosts)),
            hostname,
        ) is Some,
        first_match(entry_hostnames(entries), hostname) == first_match(
            hostnames(routing_records(tls_host_records(hosts))),
            hostname,
        ),
{
    let config = tls_host_records(hosts);
    lemma_tls_hosts_are_eligible(hosts);
    lemma_store_holds_the_credentialed_hosts(config, entries, hostname);
    assert(hostnames(routing_records(config)) =~= hostnames(config));
}

/// Two stores built from one list of loaded credentials hold the same
/// hostnames in the same order, so each has an entry for a name exactly when
/// the other has, and at the same place.
pub proof fn lemma_builds_agree_on_names(
    loaded: Seq<LoadedCredential>,
    first: Seq<CertificateEntry>,
    second: Seq<CertificateEntry>,
    hostname: Seq<char>,
)
    requires
        entry_hostnames(first) == loaded_hostnames(loaded),
        entry_hostnames(second) == loaded_hostnames(loaded),
    ensures
        entry_hostnames(first) == entry_hostnames(second),
        first.len() == second.len(),
        lookup_entry(first, hostname) is Some <==> lookup_entry(second, hostname) is Some,
        first_match(entry_hostnames(first), hostname) == first_match(
            entry_hostnames(second),
            hostname,
        ),
{
    assert(entry_hostnames(first).len() == first.len());
    assert(entry_hostnames(second).len() == second.len());
}

} // verus!

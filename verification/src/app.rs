//! The host table with its upstream selector, and the redirect responder.

use crate::header::{header_text, header_value_bytes, is_visible_ascii, read_header};
use crate::lookup::{
    first_match, lemma_first_match_absent, lemma_first_match_found, lemma_first_match_iff_present,
};
use crate::response::{
    is_visible_char, is_visible_text, lemma_redirect_body, lemma_redirect_is_representable,
    redirect_for, Redirect, RedirectError,
};
use crate::service::{host_records, hostnames, HostConfigPlain, HostRecord};
use crate::text::{same_text, text_of};
use vstd::prelude::*;
use vstd::string::*;

verus! {

/// Why a list of host configurations was refused.
#[derive(Debug, Clone, Copy, PartialEq, Eq)]
pub enum ConfigError {
    /// The record at `index` has an empty hostname.
    EmptyHostname { index: usize },
    /// The record at `index` has an empty backend address.
    EmptyBackendAddress { index: usize },
}

impl ConfigError {
    /// The position of the refused record in the configuration.
    pub open spec fn spec_index(&self) -> usize {
        match *self {
            ConfigError::EmptyHostname { index } => index,
            ConfigError::EmptyBackendAddress { index } => index,
        }
    }

    /// The position of the refused record in the configuration.
    #[verifier::when_used_as_spec(spec_index)]
    pub fn index(&self) -> (index: usize)
        ensures
            index == self.spec_index(),
    {
        match self {
            ConfigError::EmptyHostname { index } => *index,
            ConfigError::EmptyBackendAddress { index } => *index,
        }
    }
}

/// What is wrong with `record`, standing at `index`: an empty hostname is
/// reported before an empty backend address.
pub open spec fn record_error(record: HostRecord, index: usize) -> Option<ConfigError> {
    if record.hostname.len() == 0 {
        Some(ConfigError::EmptyHostname { index })
    } else if record.backend_address.len() == 0 {
        Some(ConfigError::EmptyBackendAddress { index })
    } else {
        None
    }
}

/// Whether every record of the list is well formed.
pub open spec fn all_well_formed(records: Seq<HostRecord>) -> bool {
    forall|i: int| 0 <= i < records.len() ==> (#[trigger] records[i]).well_formed()
}

/// Whether `i` is the position of the first record that is not well formed.
pub open spec fn is_first_malformed(records: Seq<HostRecord>, i: int) -> bool {
    &&& 0 <= i < records.len()
    &&& !records[i].well_formed()
    &&& forall|j: int| 0 <= j < i ==> (#[trigger] records[j]).well_formed()
}

/// Where a request is forwarded to.
#[derive(Debug, PartialEq, Eq)]
pub struct ForwardDecision {
    /// The upstream to connect to, in `host:port` form.
    pub backend_address: String,
    /// Whether the connection to the upstream uses TLS.
    pub backend_uses_tls: bool,
    /// The name to present to, and verify of, the upstream when TLS is used.
    pub backend_verification_name: String,
}

/// The mathematical content of a `ForwardDecision`.
pub struct ForwardTarget {
    /// The upstream to connect to, in `host:port` form.
    pub backend_address: Seq<char>,
    /// Whether the connection to the upstream uses TLS.
    pub backend_uses_tls: bool,
    /// The name to present to, and verify of, the upstream when TLS is used.
    pub backend_verification_name: Seq<char>,
}

impl View for ForwardDecision {
    type V = ForwardTarget;

    open spec fn view(&self) -> ForwardTarget {
        ForwardTarget {
            backend_address: self.backend_address@,
            backend_uses_tls: self.backend_uses_tls,
            backend_verification_name: self.backend_verification_name@,
        }
    }
}

/// Why no upstream could be selected for a request.
#[derive(Debug, Clone, Copy, PartialEq, Eq)]
pub enum UpstreamSelectionError {
    /// The request carries no usable `Host` header.
    MissingHost,
    /// No record of the table has the request's `Host` value as its hostname.
    NoSuchHost,
}

impl UpstreamSelectionError {
    /// The HTTP status that tells the client of the failure: 400 for a
    /// request without a usable `Host` header, 421 for a host that is not
    /// served here.
    pub open spec fn spec_status(&self) -> u16 {
        match *self {
            UpstreamSelectionError::MissingHost => 400,
            UpstreamSelectionError::NoSuchHost => 421,
        }
    }

    /// The HTTP status that tells the client of the failure: 400 for a
    /// request without a usable `Host` header, 421 for a host that is not
    /// served here.
    #[verifier::when_used_as_spec(spec_status)]
    pub fn status(&self) -> (status: u16)
        ensures
            status == self.spec_status(),
    {
        match self {
            UpstreamSelectionError::MissingHost => 400,
            UpstreamSelectionError::NoSuchHost => 421,
        }
    }
}

/// The forwarding target that a record stands for: its backend, with its own
/// hostname as the name to verify.
pub open spec fn target_of(record: HostRecord) -> ForwardTarget {
    ForwardTarget {
        backend_address: record.backend_address,
        backend_uses_tls: record.backend_uses_tls,
        backend_verification_name: record.hostname,
    }
}

/// The record that a lookup of `hostname` in `records` gives: the first one
/// with that hostname, if any.
pub open spec fn lookup_record(records: Seq<HostRecord>, hostname: Seq<char>) -> Option<
    HostRecord,
> {
    match first_match(hostnames(records), hostname) {
        Some(i) => Some(records[i]),
        None => None,
    }
}

/// The outcome of selecting an upstream in `records` for a request whose
/// `Host` value is `host_header`.
pub open spec fn select_target(records: Seq<HostRecord>, host_header: Option<Seq<char>>) -> Result<
    ForwardTarget,
    UpstreamSelectionError,
> {
    match host_header {
        None => Err(UpstreamSelectionError::MissingHost),
        Some(hostname) => match lookup_record(records, hostname) {
            Some(record) => Ok(target_of(record)),
            None => Err(UpstreamSelectionError::NoSuchHost),
        },
    }
}

/// Whether `selected` is what selecting an upstream in `records` gives for a
/// request whose `Host` value is `host_header`: the decision with the content
/// of the target, or the error.
pub open spec fn is_selection_of(
    records: Seq<HostRecord>,
    host_header: Option<Seq<char>>,
    selected: Result<ForwardDecision, UpstreamSelectionError>,
) -> bool {
    match selected {
        Ok(decision) => select_target(records, host_header) == Ok::<
            ForwardTarget,
            UpstreamSelectionError,
        >(decision@),
        Err(e) => select_target(records, host_header) == Err::<
            ForwardTarget,
            UpstreamSelectionError,
        >(e),
    }
}

/// Whether `built` is what building a table from `records` gives: the table
/// of exactly these records where all of them are well formed, and otherwise
/// the error of the first record that is not.
pub open spec fn is_table_of(
    records: Seq<HostRecord>,
    built: Result<ProxyApp, ConfigError>,
) -> bool {
    match built {
        Ok(app) => all_well_formed(records) && app@ == records,
        Err(e) => is_first_malformed(records, e.index() as int) && record_error(
            records[e.index() as int],
            e.index(),
        ) == Some(e),
    }
}

/// The host table of one listener: an ordered, immutable list of well-formed
/// records, searched by exact hostname.
pub struct ProxyApp {
    host_configs: Vec<HostConfigPlain>,
}

impl View for ProxyApp {
    type V = Seq<HostRecord>;

    closed spec fn view(&self) -> Seq<HostRecord> {
        host_records(self.host_configs@)
    }
}

impl ProxyApp {
    #[verifier::type_invariant]
    spec fn well_formed(&self) -> bool {
        all_well_formed(host_records(self.host_configs@))
    }

    /// Builds the table from `host_configs`, keeping their order.
    ///
    /// A record with an empty hostname or an empty backend address is a
    /// configuration error, and the first such record is reported. Several
    /// records of one hostname are accepted: lookups return the first.
    pub fn new(host_configs: Vec<HostConfigPlain>) -> (built: Result<ProxyApp, ConfigError>)
        ensures
            is_table_of(host_records(host_configs@), built),
    {
        let ghost records = host_records(host_configs@);
        let mut i: usize = 0;
        while i < host_configs.len()
            invariant
                i <= host_configs.len(),
                records == host_records(host_configs@),
                forall|j: int| 0 <= j < i ==> (#[trigger] records[j]).well_formed(),
            decreases host_configs.len() - i,
        {
            let config = &host_configs[i];
            assert(config@ == records[i as int]);
            if config.proxy_hostname.as_str().is_empty() {
                return Err(ConfigError::EmptyHostname { index: i });
            }
            if config.proxy_addr.as_str().is_empty() {
                return Err(ConfigError::EmptyBackendAddress { index: i });
            }
            i += 1;
        }
        Ok(ProxyApp { host_configs })
    }

    /// The number of records in the table.
    pub fn len(&self) -> (n: usize)
        ensures
            n == self@.len(),
    {
        self.host_configs.len()
    }

    /// The record for `hostname`: the first record of the table whose
    /// hostname is exactly `hostname`, or none where no record has it.
    pub fn lookup(&self, hostname: &str) -> (found: Option<&HostConfigPlain>)
        ensures
            match found {
                Some(config) => lookup_record(self@, hostname@) == Some(config@)
                    && config@.well_formed(),
                None => lookup_record(self@, hostname@) is None,
            },
    {
        proof {
            use_type_invariant(self);
        }
        let ghost names = hostnames(self@);
        let mut i: usize = 0;
        while i < self.host_configs.len()
            invariant
                i <= self.host_configs.len(),
                names == hostnames(host_records(self.host_configs@)),
                all_well_formed(host_records(self.host_configs@)),
                forall|j: int| 0 <= j < i ==> names[j] != hostname@,
            decreases self.host_configs.len() - i,
        {
            let config = &self.host_configs[i];
            if same_text(config.proxy_hostname.as_str(), hostname) {
                proof {
                    assert(names[i as int] == hostname@);
                    lemma_first_match_found(names, hostname@, i as int);
                }
                assert(config@ == host_records(self.host_configs@)[i as int]);
                return Some(config);
            }
            i += 1;
        }
        proof {
            lemma_first_match_absent(names, hostname@);
        }
        None
    }

    /// The records of the table, in their order. Each is well formed.
    pub fn host_configs(&self) -> (configs: &Vec<HostConfigPlain>)
        ensures
            host_records(configs@) == self@,
            all_well_formed(self@),
    {
        proof {
            use_type_invariant(self);
        }
        &self.host_configs
    }

    /// Selects the upstream for a request whose `Host` value is `host_header`.
    ///
    /// The value is used as it stands: no port is stripped and no case is
    /// folded. A request without the value fails with `MissingHost`, one whose
    /// value no record has fails with `NoSuchHost`. Otherwise the first record
    /// with that hostname gives the target.
    pub fn select(&self, host_header: Option<&str>) -> (selected: Result<
        ForwardDecision,
        UpstreamSelectionError,
    >)
        ensures
            is_selection_of(self@, text_of(host_header), selected),
    {
        match host_header {
            None => Err(UpstreamSelectionError::MissingHost),
            Some(hostname) => match self.lookup(hostname) {
                Some(config) => Ok(
                    ForwardDecision {
                        backend_address: config.proxy_addr.clone(),
                        backend_uses_tls: config.proxy_tls,
                        backend_verification_name: config.proxy_hostname.clone(),
                    },
                ),
                None => Err(UpstreamSelectionError::NoSuchHost),
            },
        }
    }

    /// Selects the upstream for a request from its `Host` header as the
    /// transport hands it over.
    ///
    /// A header that is absent, or whose value is not text, fails with
    /// `MissingHost`. Otherwise the text is the `Host` value that `select`
    /// takes.
    pub fn upstream_peer(&self, host: Option<&http::HeaderValue>) -> (selected: Result<
        ForwardDecision,
        UpstreamSelectionError,
    >)
        ensures
            is_selection_of(self@, header_text(host), selected),
    {
        self.select(read_header(host))
    }
}

/// The responder that sends every plain HTTP request to the HTTPS form of the
/// same host.
pub struct RedirectApp;

impl RedirectApp {
    /// The redirect for a request whose `Host` value is `host_header`.
    ///
    /// The redirect has status 301, the content type `text/html`, a fixed body
    /// of 47 bytes with its length, and `https://` followed by the host as its
    /// location. The responder needs a host to redirect to: a request without
    /// one fails with `MissingHost`, and no redirect to a bare `https://` is
    /// made.
    pub fn build_redirect(&self, host_header: Option<&str>) -> (built: Result<
        Redirect,
        RedirectError,
    >)
        ensures
            match built {
                Ok(redirect) => host_header matches Some(host) && redirect@ == redirect_for(
                    host@,
                ),
                Err(e) => host_header is None && e == RedirectError::MissingHost,
            },
            built matches Ok(redirect) ==> redirect.content_length == redirect.body@.len()
                && redirect.content_length == 47,
    {
        match host_header {
            None => Err(RedirectError::MissingHost),
            Some(host) => {
                proof {
                    lemma_redirect_body();
                }
                let body = "<html><body>301 Moved Permanently</body></html>".as_bytes_vec();
                let mut location = String::from_str("https://");
                location.append(host);
                let content_length = body.len();
                Ok(
                    Redirect {
                        status: 301,
                        content_type: String::from_str("text/html"),
                        content_length,
                        location,
                        body,
                    },
                )
            },
        }
    }

    /// The HTTP response to a request, from its `Host` header as the
    /// transport hands it over.
    ///
    /// A header that is absent, or whose value is not text, fails with
    /// `MissingHost`. Every other request is answered with the redirect to its
    /// host, written as an HTTP response.
    pub fn response(&self, host: Option<&http::HeaderValue>) -> (written: Result<
        http::Response<Vec<u8>>,
        RedirectError,
    >)
        ensures
            match written {
                Ok(response) => header_text(host) matches Some(text) && redirect_for(
                    text,
                ).written_as(response),
                Err(e) => header_text(host) is None && e == RedirectError::MissingHost,
            },
    {
        let text = read_header(host);
        match self.build_redirect(text) {
            Err(e) => Err(e),
            Ok(redirect) => {
                proof {
                    let bytes = header_value_bytes(*host.unwrap());
                    let name = header_text(host).unwrap();
                    assert(is_visible_text(name)) by {
                        assert forall|i: int| 0 <= i < name.len() implies is_visible_char(
                            #[trigger] name[i],
                        ) by {
                            assert(is_visible_ascii(bytes[i]));
                        }
                    }
                    lemma_redirect_is_representable(name);
                }
                redirect.into_response()
            },
        }
    }
}

/// A lookup finds a record exactly for the hostnames that occur in the table,
/// and the record found is one of the table that has the hostname asked for.
pub proof fn lemma_lookup_finds_the_present(records: Seq<HostRecord>, hostname: Seq<char>)
    ensures
        lookup_record(records, hostname) is Some <==> hostnames(records).contains(hostname),
        lookup_record(records, hostname) matches Some(record) ==> record.hostname == hostname
            && records.contains(record),
{
    lemma_first_match_iff_present(hostnames(records), hostname);
    if let Some(i) = first_match(hostnames(records), hostname) {
        assert(hostnames(records)[i] == hostname);
        assert(records[i].hostname == hostname);
    }
}

/// Of several records with one hostname a lookup returns the first: the
/// record at `i` is returned where no record before it has the hostname.
pub proof fn lemma_lookup_returns_the_first(records: Seq<HostRecord>, hostname: Seq<char>, i: int)
    requires
        0 <= i < records.len(),
        records[i].hostname == hostname,
        forall|j: int| 0 <= j < i ==> (#[trigger] records[j]).hostname != hostname,
    ensures
        lookup_record(records, hostname) == Some(records[i]),
{
    let names = hostnames(records);
    assert(names[i] == hostname);
    assert forall|j: int| 0 <= j < i implies names[j] != hostname by {
        assert(records[j].hostname != hostname);
    }
    lemma_first_match_found(names, hostname, i);
}

/// Building a table twice from one configuration gives the same outcome: two
/// tables of equal content, or the same error.
pub proof fn lemma_new_is_idempotent(
    records: Seq<HostRecord>,
    first: Result<ProxyApp, ConfigError>,
    second: Result<ProxyApp, ConfigError>,
)
    requires
        is_table_of(records, first),
        is_table_of(records, second),
    ensures
        first is Ok <==> second is Ok,
        first matches Ok(a) ==> second matches Ok(b) && a@ == b@,
        first matches Err(e) ==> second == Err::<ProxyApp, ConfigError>(e),
{
    if let Err(e) = first {
        let i = e.index() as int;
        assert(!records[i].well_formed());
        if let Err(f) = second {
            let k = f.index() as int;
            if i < k {
                assert(records[i].well_formed());
            } else if k < i {
                assert(records[k].well_formed());
            }
        }
    } else if let Err(f) = second {
        assert(!records[f.index() as int].well_formed());
    }
}

/// Selecting for one request in one table always gives the same outcome: two
/// decisions of equal content, or the same error.
pub proof fn lemma_select_is_deterministic(
    records: Seq<HostRecord>,
    host_header: Option<Seq<char>>,
    first: Result<ForwardDecision, UpstreamSelectionError>,
    second: Result<ForwardDecision, UpstreamSelectionError>,
)
    requires
        is_selection_of(records, host_header, first),
        is_selection_of(records, host_header, second),
    ensures
        first is Ok <==> second is Ok,
        first matches Ok(a) ==> second matches Ok(b) && a@ == b@,
        first matches Err(e) ==> second == Err::<ForwardDecision, UpstreamSelectionError>(e),
{
}

/// Selecting an upstream gives, for a hostname of the table, the backend of
/// its first record with the hostname itself as the name to verify, and
/// fails for every other request.
pub proof fn lemma_select_follows_lookup(records: Seq<HostRecord>, host_header: Option<Seq<char>>)
    ensures
        select_target(records, host_header) is Ok <==> (host_header matches Some(hostname)
            && hostnames(records).contains(hostname)),
        select_target(records, host_header) matches Ok(target) ==> host_header == Some(
            target.backend_verification_name,
        ),
        host_header is None ==> select_target(records, host_header) == Err::<
            ForwardTarget,
            UpstreamSelectionError,
        >(UpstreamSelectionError::MissingHost),
{
    if let Some(hostname) = host_header {
        lemma_lookup_finds_the_present(records, hostname);
    }
}

} // verus!

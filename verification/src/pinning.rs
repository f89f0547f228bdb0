//! Certificate validation with pinned fingerprints.
//!
//! A peer is accepted only if its certificate chain is valid and the
//! fingerprint of its public key is the one that was approved for its name.
//! Approval comes from outside: nothing here trusts a peer on first sight.

use vstd::prelude::*;
use crate::device::text_of;
use crate::text::{same_text, texts};
use crate::trust::{approvals, identities_distinct, pairs_of, trust_all, TrustEntry, TrustStore};

verus! {

/// The file, inside the base directory, that holds the approved fingerprints.
pub const REPORT_FILE_NAME: &'static str = ".known-clients";

#[verifier::external_type_specification]
#[verifier::external_body]
pub struct ExTlsError(rustls::Error);

#[verifier::external_type_specification]
#[verifier::external_body]
pub struct ExWebPkiServerVerifier(rustls::client::WebPkiServerVerifier);

#[verifier::external_type_specification]
#[verifier::external_body]
pub struct ExCertificateDer<'a>(rustls::pki_types::CertificateDer<'a>);

#[verifier::external_type_specification]
#[verifier::external_body]
pub struct ExServerName<'a>(rustls::pki_types::ServerName<'a>);

#[verifier::external_type_specification]
#[verifier::external_body]
pub struct ExUnixTime(rustls::pki_types::UnixTime);

/// Why a validator could not be set up or a peer was turned away.
#[derive(Debug)]
pub enum CertValidatorError {
    /// The base path exists and is no directory.
    NotADirectory,
    /// The base path cannot be written as text.
    InvalidPath,
    /// The base directory could not be created, or the stored approvals
    /// could not be read or written.
    DirectoryCreation(String),
    /// The stored approvals are malformed.
    Serialization(String),
    /// No public key, or no fingerprint of it, could be had from the
    /// certificate.
    CertificateParsing(String),
    /// The peer is not addressed by a DNS name.
    InvalidServerName,
    /// The peer's fingerprint is not the one approved for its name.
    FingerprintMismatch,
    /// Nothing is approved for the peer's name.
    UnknownServer,
    /// The certificate chain is not valid.
    TlsError(rustls::Error),
}

/// What to do about the base directory before the approvals are loaded.
#[derive(Clone, Copy, Debug, PartialEq, Eq, Structural)]
pub enum BaseDirStep {
    /// Nothing is at the path: create the directory.
    Create,
    /// The directory is there: use it.
    Use,
}

/// What was found where the approvals are stored.
#[derive(Debug)]
pub enum ReportFile {
    /// There is no file.
    Absent,
    /// The file is there and could not be read.
    Unreadable(String),
    /// The file was read and is malformed.
    Malformed(String),
    /// The approvals that the file holds.
    Entries(Vec<TrustEntry>),
}

/// The subject public key info of a DER-encoded X.509 certificate, as
/// `x509_parser::parse_x509_certificate` finds it: the raw bytes of the
/// field, or the parser's message where the bytes are no certificate.
pub uninterp spec fn x509_public_key(der: Seq<u8>) -> Result<Seq<u8>, Seq<char>>;

/// The DER bytes that a `CertificateDer` of rustls holds.
pub uninterp spec fn der_held(certificate: rustls::pki_types::CertificateDer<'static>) -> Seq<u8>;

/// The DNS name that a `ServerName` of rustls holds, or nothing where the
/// name is of another form.
pub uninterp spec fn dns_name_held(server_name: rustls::pki_types::ServerName<'static>) -> Option<Seq<char>>;

/// What the chain-of-trust validation of rustls gives for a verifier with
/// its root store, a certificate chain, a server name, an OCSP response and
/// a time: acceptance, or the reason of the rejection.
pub uninterp spec fn chain_verdict(
    inner: rustls::client::WebPkiServerVerifier,
    end_entity: rustls::pki_types::CertificateDer<'static>,
    intermediates: Seq<rustls::pki_types::CertificateDer<'static>>,
    server_name: rustls::pki_types::ServerName<'static>,
    ocsp_response: Seq<u8>,
    now: rustls::pki_types::UnixTime,
) -> Result<(), rustls::Error>;

/// The list holds exactly the approvals of a map, one entry per identity.
pub open spec fn reports(report: Vec<TrustEntry>, trusted: Map<Seq<char>, Seq<char>>) -> bool {
    identities_distinct(pairs_of(report@)) && approvals(pairs_of(report@)) == trusted
}

/// Why the pinned fingerprints turn a peer away, if they do. The name must be
/// a DNS name, something must be approved for it, and what is approved must
/// be the fingerprint presented.
pub open spec fn pin_rejection(
    trusted: Map<Seq<char>, Seq<char>>,
    identity: Option<Seq<char>>,
    fingerprint: Seq<char>,
) -> Option<CertValidatorError> {
    match identity {
        None => Some(CertValidatorError::InvalidServerName),
        Some(name) => if !trusted.contains_key(name) {
            Some(CertValidatorError::UnknownServer)
        } else if trusted[name] != fingerprint {
            Some(CertValidatorError::FingerprintMismatch)
        } else {
            None
        },
    }
}

/// The outcome of a validation from the outcomes of its steps, in their
/// order: a chain that is not valid rejects with its own reason, and nothing
/// else counts; then a fingerprint that could not be had rejects with its
/// reason; then the pinned fingerprints decide.
pub open spec fn verdict_of(
    trusted: Map<Seq<char>, Seq<char>>,
    chain: Result<(), rustls::Error>,
    fingerprint: Result<String, CertValidatorError>,
    identity: Option<Seq<char>>,
) -> Result<(), CertValidatorError> {
    match chain {
        Err(e) => Err(CertValidatorError::TlsError(e)),
        Ok(_) => match fingerprint {
            Err(reason) => Err(reason),
            Ok(presented) => match pin_rejection(trusted, identity, presented@) {
                Some(reason) => Err(reason),
                None => Ok(()),
            },
        },
    }
}

/// The text of an optional name, where there is one.
pub open spec fn name_of(identity: Option<&str>) -> Option<Seq<char>> {
    match identity {
        Some(name) => Some(name@),
        None => None,
    }
}

/// Calls `ServerCertVerifier::verify_server_cert` of rustls on the
/// root-store-based verifier `inner`. The validation reads its arguments
/// alone, the time included, so the outcome is the named function of them.
#[verifier::external_body]
fn chain_of_trust(
    inner: &rustls::client::WebPkiServerVerifier,
    end_entity: &rustls::pki_types::CertificateDer<'_>,
    intermediates: &[rustls::pki_types::CertificateDer<'_>],
    server_name: &rustls::pki_types::ServerName<'_>,
    ocsp_response: &[u8],
    now: rustls::pki_types::UnixTime,
) -> (chain: Result<(), rustls::Error>)
    ensures
        chain == chain_verdict(
            *inner,
            *end_entity,
            intermediates@,
            *server_name,
            ocsp_response@,
            now,
        ),
{
    rustls::client::danger::ServerCertVerifier::verify_server_cert(
        inner,
        end_entity,
        intermediates,
        server_name,
        ocsp_response,
        now,
    ).map(|_| ())
}

/// The DER bytes that a `CertificateDer` of rustls holds (its `as_ref`).
#[verifier::external_body]
fn certificate_bytes<'a>(certificate: &'a rustls::pki_types::CertificateDer<'_>) -> (der: &'a [u8])
    ensures
        der@ == der_held(*certificate),
{
    certificate.as_ref()
}

/// Calls `x509_parser::parse_x509_certificate` and hands out the raw subject
/// public key info of the certificate it read (`public_key().raw`), or the
/// parser's error as text. The result is the named function of the bytes.
#[verifier::external_body]
fn subject_public_key(der: &[u8]) -> (key: Result<Vec<u8>, String>)
    ensures
        match key {
            Ok(bytes) => x509_public_key(der@) == Ok::<Seq<u8>, Seq<char>>(bytes@),
            Err(message) => x509_public_key(der@) == Err::<Seq<u8>, Seq<char>>(message@),
        },
{
    match x509_parser::parse_x509_certificate(der) {
        Ok((_, certificate)) => Ok(certificate.public_key().raw.to_vec()),
        Err(e) => Err(e.to_string()),
    }
}

/// The DNS name of a `ServerName` of rustls, or nothing where the name is of
/// another form.
#[verifier::external_body]
fn dns_name_of(server_name: &rustls::pki_types::ServerName<'_>) -> (name: Option<String>)
    ensures
        text_of(name) == dns_name_held(*server_name),
{
    match server_name {
        rustls::pki_types::ServerName::DnsName(dns) => Some(dns.as_ref().to_string()),
        _ => None,
    }
}

/// `res` is what taking the fingerprint of the certificate `der` with
/// `fingerprint_of` may give: where the bytes are no certificate, the
/// parser's message as `CertificateParsing`; else what `fingerprint_of` makes
/// of the subject public key info, its message as `CertificateParsing`
/// where it fails.
pub open spec fn fingerprinted<F: Fn(&[u8]) -> Result<String, String>>(
    der: Seq<u8>,
    fingerprint_of: F,
    res: Result<String, CertValidatorError>,
) -> bool {
    match x509_public_key(der) {
        Err(message) => res matches Err(CertValidatorError::CertificateParsing(m)) && m@
            == message,
        Ok(key) => exists|bytes: &[u8], computed: Result<String, String>|
            bytes@ == key && #[trigger] fingerprint_of.ensures((bytes,), computed)
                && match computed {
                Ok(fingerprint) => res == Ok::<String, CertValidatorError>(fingerprint),
                Err(message) => res == Err::<String, CertValidatorError>(
                    CertValidatorError::CertificateParsing(message),
                ),
            },
    }
}

/// The fingerprint of the public key of a DER-encoded certificate: the
/// subject public key info is taken from the certificate and handed to
/// `fingerprint_of`. Bytes that are no certificate, and a key of which
/// `fingerprint_of` computes no fingerprint, fail as `CertificateParsing`
/// with the message of the step that failed.
pub fn end_entity_fingerprint<F: Fn(&[u8]) -> Result<String, String>>(
    der: &[u8],
    fingerprint_of: F,
) -> (res: Result<String, CertValidatorError>)
    requires
        forall|key: &[u8]| #[trigger] fingerprint_of.requires((key,)),
    ensures
        fingerprinted(der@, fingerprint_of, res),
{
    let key = match subject_public_key(der) {
        Ok(key) => key,
        Err(message) => { return Err(CertValidatorError::CertificateParsing(message)); },
    };
    let computed = fingerprint_of(key.as_slice());
    match computed {
        Ok(fingerprint) => Ok(fingerprint),
        Err(message) => Err(CertValidatorError::CertificateParsing(message)),
    }
}

/// Enforces the approved fingerprints on top of chain-of-trust validation.
#[derive(Debug)]
pub struct CertValidator {
    fingerprints: TrustStore,
}

impl View for CertValidator {
    type V = Map<Seq<char>, Seq<char>>;

    /// The approved fingerprint of each trusted server identity.
    closed spec fn view(&self) -> Map<Seq<char>, Seq<char>> {
        self.fingerprints@
    }
}

impl CertValidator {
    /// Every validator that this module hands out is well formed.
    pub closed spec fn well_formed(&self) -> bool {
        self.fingerprints.well_formed()
    }

    /// Decides what to do about the base path: a path where nothing is gets a
    /// directory, a directory is used, and anything else is refused.
    pub fn base_dir_step(exists: bool, is_dir: bool) -> (step: Result<
        BaseDirStep,
        CertValidatorError,
    >)
        ensures
            !exists ==> step == Ok::<BaseDirStep, CertValidatorError>(BaseDirStep::Create),
            exists && is_dir ==> step == Ok::<BaseDirStep, CertValidatorError>(BaseDirStep::Use),
            exists && !is_dir ==> step == Err::<BaseDirStep, CertValidatorError>(
                CertValidatorError::NotADirectory,
            ),
    {
        if !exists {
            Ok(BaseDirStep::Create)
        } else if !is_dir {
            Err(CertValidatorError::NotADirectory)
        } else {
            Ok(BaseDirStep::Use)
        }
    }

    /// Sets the validator up from what was found on disk. `directory` is how
    /// creating the base directory went (`Ok` where it was there already),
    /// `report` what the file of approvals gave. A directory that could not be
    /// created, and a file that could not be read, fail as
    /// `DirectoryCreation`; a malformed file fails as `Serialization`; no file
    /// means that nobody is trusted yet.
    pub fn new(directory: Result<(), String>, report: ReportFile) -> (validator: Result<
        CertValidator,
        CertValidatorError,
    >)
        ensures
            match (directory, report) {
                (Err(message), _) => validator matches Err(
                    CertValidatorError::DirectoryCreation(m),
                ) && m@ == message@,
                (Ok(_), ReportFile::Absent) => validator matches Ok(v) && v.well_formed() && v@
                    == Map::<Seq<char>, Seq<char>>::empty(),
                (Ok(_), ReportFile::Unreadable(message)) => validator matches Err(
                    CertValidatorError::DirectoryCreation(m),
                ) && m@ == message@,
                (Ok(_), ReportFile::Malformed(message)) => validator matches Err(
                    CertValidatorError::Serialization(m),
                ) && m@ == message@,
                (Ok(_), ReportFile::Entries(entries)) => validator matches Ok(v) && v.well_formed()
                    && v@ == approvals(pairs_of(entries@)),
            },
    {
        match directory {
            Err(message) => { return Err(CertValidatorError::DirectoryCreation(message)); },
            Ok(_) => {},
        }
        match report {
            ReportFile::Absent => Ok(CertValidator { fingerprints: TrustStore::new() }),
            ReportFile::Unreadable(message) => Err(CertValidatorError::DirectoryCreation(message)),
            ReportFile::Malformed(message) => Err(CertValidatorError::Serialization(message)),
            ReportFile::Entries(entries) => {
                let mut fingerprints = TrustStore::new();
                let mut i: usize = 0;
                while i < entries.len()
                    invariant
                        i <= entries@.len(),
                        fingerprints.well_formed(),
                        fingerprints@ == approvals(pairs_of(entries@).take(i as int)),
                    decreases entries@.len() - i,
                {
                    fingerprints.insert(
                        entries[i].server_identity.as_str(),
                        entries[i].fingerprint.as_str(),
                    );
                    proof {
                        let next = pairs_of(entries@).take(i + 1);
                        assert(next.drop_last() =~= pairs_of(entries@).take(i as int));
                    }
                    i += 1;
                }
                proof {
                    assert(pairs_of(entries@).take(i as int) =~= pairs_of(entries@));
                }
                Ok(CertValidator { fingerprints })
            },
        }
    }

    /// Approves `fingerprint` for every identity in `domains`, in place of
    /// whatever each had, once the approvals are stored. `save` stores them:
    /// it is handed all approvals as they would stand, one entry per
    /// identity. Only where it succeeds are the approvals in force; where it
    /// fails, its error is handed on and nothing has changed.
    pub fn add_trusted_domains<F: FnOnce(Vec<TrustEntry>) -> Result<(), CertValidatorError>>(
        &mut self,
        domains: &Vec<String>,
        fingerprint: &str,
        save: F,
    ) -> (res: Result<(), CertValidatorError>)
        requires
            old(self).well_formed(),
            forall|report: Vec<TrustEntry>|
                reports(report, trust_all(old(self)@, texts(domains@), fingerprint@))
                    ==> #[trigger] save.requires((report,)),
        ensures
            final(self).well_formed(),
            exists|report: Vec<TrustEntry>|
                reports(report, trust_all(old(self)@, texts(domains@), fingerprint@))
                    && #[trigger] save.ensures((report,), res),
            final(self)@ == if res is Ok {
                trust_all(old(self)@, texts(domains@), fingerprint@)
            } else {
                old(self)@
            },
    {
        let mut next = self.fingerprints.clone();
        next.insert_all(domains, fingerprint);
        let report = next.entries();
        let res = save(report);
        if res.is_ok() {
            self.fingerprints = next;
        }
        res
    }

    /// All approvals, one entry per identity, as they are stored.
    pub fn report(&self) -> (entries: Vec<TrustEntry>)
        requires
            self.well_formed(),
        ensures
            reports(entries, self@),
    {
        self.fingerprints.entries()
    }

    /// Holds a fingerprint against what is approved for the peer's name.
    /// `identity` is the peer's DNS name, or nothing where the peer is
    /// addressed in another form.
    pub fn check_pinned(&self, identity: Option<&str>, fingerprint: &str) -> (res: Result<
        (),
        CertValidatorError,
    >)
        requires
            self.well_formed(),
        ensures
            res == match pin_rejection(self@, name_of(identity), fingerprint@) {
                None => Ok::<(), CertValidatorError>(()),
                Some(reason) => Err::<(), CertValidatorError>(reason),
            },
    {
        let name = match identity {
            Some(name) => name,
            None => { return Err(CertValidatorError::InvalidServerName); },
        };
        match self.fingerprints.get(name) {
            None => Err(CertValidatorError::UnknownServer),
            Some(approved) => {
                if same_text(approved.as_str(), fingerprint) {
                    Ok(())
                } else {
                    Err(CertValidatorError::FingerprintMismatch)
                }
            },
        }
    }

    /// Decides a validation from the outcomes of its steps: `chain` is what
    /// the chain-of-trust validation gave, `fingerprint` the fingerprint of
    /// the peer's public key or why none could be had, and `identity` the
    /// peer's DNS name, or nothing where the peer is addressed in another
    /// form.
    pub fn verdict(
        &self,
        chain: Result<(), rustls::Error>,
        fingerprint: Result<String, CertValidatorError>,
        identity: Option<&str>,
    ) -> (res: Result<(), CertValidatorError>)
        requires
            self.well_formed(),
        ensures
            res == verdict_of(self@, chain, fingerprint, name_of(identity)),
    {
        match chain {
            Err(e) => Err(CertValidatorError::TlsError(e)),
            Ok(_) => match fingerprint {
                Err(reason) => Err(reason),
                Ok(presented) => self.check_pinned(identity, presented.as_str()),
            },
        }
    }

    /// Validates a peer's certificate. The chain of trust is checked first, by
    /// `inner`; a failure there is handed on as it is and nothing else runs.
    /// Then the public key is taken from the end-entity certificate,
    /// `fingerprint_of` computes its fingerprint, and the fingerprint is held
    /// against what is approved for the peer's name. The result is the
    /// verdict on the outcome of the chain validation, on a fingerprint that
    /// `fingerprint_of` computed of the certificate's key, and on the DNS
    /// name that the server name holds.
    pub fn verify_server_cert<F: Fn(&[u8]) -> Result<String, String>>(
        &self,
        inner: &rustls::client::WebPkiServerVerifier,
        end_entity: &rustls::pki_types::CertificateDer<'_>,
        intermediates: &[rustls::pki_types::CertificateDer<'_>],
        server_name: &rustls::pki_types::ServerName<'_>,
        ocsp_response: &[u8],
        now: rustls::pki_types::UnixTime,
        fingerprint_of: F,
    ) -> (res: Result<(), CertValidatorError>)
        requires
            self.well_formed(),
            forall|key: &[u8]| #[trigger] fingerprint_of.requires((key,)),
        ensures
            exists|fingerprint: Result<String, CertValidatorError>|
                res == #[trigger] verdict_of(
                    self@,
                    chain_verdict(
                        *inner,
                        *end_entity,
                        intermediates@,
                        *server_name,
                        ocsp_response@,
                        now,
                    ),
                    fingerprint,
                    dns_name_held(*server_name),
                ) && (chain_verdict(
                    *inner,
                    *end_entity,
                    intermediates@,
                    *server_name,
                    ocsp_response@,
                    now,
                ) is Ok ==> fingerprinted(der_held(*end_entity), fingerprint_of, fingerprint)),
    {
        let ghost held = dns_name_held(*server_name);
        let ghost validated = chain_verdict(
            *inner,
            *end_entity,
            intermediates@,
            *server_name,
            ocsp_response@,
            now,
        );
        let chain: Result<(), rustls::Error> = match chain_of_trust(
            inner,
            end_entity,
            intermediates,
            server_name,
            ocsp_response,
            now,
        ) {
            Err(e) => {
                proof {
                    let unused = Err::<String, CertValidatorError>(
                        CertValidatorError::InvalidPath,
                    );
                    assert(verdict_of(self@, validated, unused, held) == Err::<
                        (),
                        CertValidatorError,
                    >(CertValidatorError::TlsError(e)));
                }
                return Err(CertValidatorError::TlsError(e));
            },
            Ok(accepted) => Ok(accepted),
        };
        assert(chain == validated);
        let der = certificate_bytes(end_entity);
        let fingerprint = end_entity_fingerprint(der, fingerprint_of);
        if fingerprint.is_err() {
            let res = self.verdict(chain, fingerprint, None);
            proof {
                assert(res == verdict_of(self@, chain, fingerprint, held));
            }
            return res;
        }
        let identity = dns_name_of(server_name);
        let res = match &identity {
            Some(name) => self.verdict(chain, fingerprint, Some(name.as_str())),
            None => self.verdict(chain, fingerprint, None),
        };
        proof {
            assert(res == verdict_of(self@, chain, fingerprint, held));
        }
        res
    }
}

/// Once `fingerprint` is approved for `identity`, a peer of that name is
/// accepted with that fingerprint and turned away as a mismatch with any
/// other; a name for which nothing was ever approved is unknown.
pub proof fn law_trust_then_verify(
    trusted: Map<Seq<char>, Seq<char>>,
    identity: Seq<char>,
    fingerprint: Seq<char>,
    other: Seq<char>,
)
    requires
        fingerprint != other,
    ensures
        pin_rejection(trust_all(trusted, seq![identity], fingerprint), Some(identity), fingerprint)
            is None,
        pin_rejection(trust_all(trusted, seq![identity], fingerprint), Some(identity), other)
            == Some(CertValidatorError::FingerprintMismatch),
        !trusted.contains_key(identity) ==> pin_rejection(trusted, Some(identity), fingerprint)
            == Some(CertValidatorError::UnknownServer),
        pin_rejection(Map::empty(), Some(identity), fingerprint) == Some(
            CertValidatorError::UnknownServer,
        ),
{
    assert(seq![identity][0] == identity);
    assert(seq![identity].contains(identity));
}

/// Approving a second fingerprint for an identity replaces the first: a peer
/// that still presents the first is turned away as a mismatch.
pub proof fn law_trust_overwrites(
    trusted: Map<Seq<char>, Seq<char>>,
    identity: Seq<char>,
    first: Seq<char>,
    second: Seq<char>,
)
    requires
        first != second,
    ensures
        pin_rejection(
            trust_all(trust_all(trusted, seq![identity], first), seq![identity], second),
            Some(identity),
            first,
        ) == Some(CertValidatorError::FingerprintMismatch),
        pin_rejection(
            trust_all(trust_all(trusted, seq![identity], first), seq![identity], second),
            Some(identity),
            second,
        ) is None,
{
    assert(seq![identity][0] == identity);
    assert(seq![identity].contains(identity));
}

} // verus!

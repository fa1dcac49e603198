//! The settings that decisions depend on.

use crate::outside::{self_signed, self_signed_for};
use crate::time::{Span, SpanUnits};
use vstd::prelude::*;
use vstd::utf8::is_ascii_chars;

verus! {

/// The settings of the server.
#[derive(Debug)]
pub struct Settings {
    /// The address of the HTTPS server, as text.
    pub bind_https: String,
    /// The size in bytes beyond which uploads are refused.
    pub upload_size_limit: usize,
    /// How long the smallest files are kept.
    pub max_file_age: Span,
    /// How long the largest files are kept.
    pub min_file_age: Span,
    /// The domain name of the server, if it has one.
    pub fqdn: Option<String>,
}

/// The text in an option, if there is one.
pub open spec fn text_in(text: Option<String>) -> Option<Seq<char>> {
    match text {
        Some(t) => Some(t@),
        None => None,
    }
}

/// The values in a [`Settings`].
pub struct SettingsView {
    pub bind_https: Seq<char>,
    pub upload_size_limit: usize,
    pub max_file_age: SpanUnits,
    pub min_file_age: SpanUnits,
    pub fqdn: Option<Seq<char>>,
}

impl View for Settings {
    type V = SettingsView;

    open spec fn view(&self) -> SettingsView {
        SettingsView {
            bind_https: self.bind_https@,
            upload_size_limit: self.upload_size_limit,
            max_file_age: self.max_file_age@,
            min_file_age: self.min_file_age@,
            fqdn: text_in(self.fqdn),
        }
    }
}

/// The name under which clients reach the server over HTTPS: its domain name, or
/// else its address.
pub open spec fn https_name(settings: SettingsView) -> Seq<char> {
    match settings.fqdn {
        Some(fqdn) => fqdn,
        None => settings.bind_https,
    }
}

/// The names that a certificate made for this server alone covers.
pub open spec fn adhoc_domains(fqdn: Option<Seq<char>>) -> Seq<Seq<char>> {
    let local = seq!["localhost"@, "127.0.0.1"@, "::1"@];
    match fqdn {
        Some(name) => local.push(name),
        None => local,
    }
}

/// The texts in a vector.
pub open spec fn texts(v: Seq<String>) -> Seq<Seq<char>> {
    v.map_values(|s: String| s@)
}

impl Settings {
    /// The name under which clients reach the server over HTTPS.
    pub fn fqdn_https(&self) -> (name: String)
        ensures
            name@ == https_name(self@),
    {
        match &self.fqdn {
            Some(fqdn) => fqdn.clone(),
            None => self.bind_https.clone(),
        }
    }
}

/// The names for a certificate made for this server alone.
pub fn certificate_domains(fqdn: &Option<String>) -> (domains: Vec<String>)
    ensures
        texts(domains@) == adhoc_domains(text_in(*fqdn)),
{
    let mut domains: Vec<String> = Vec::new();
    domains.push("localhost".to_owned());
    domains.push("127.0.0.1".to_owned());
    domains.push("::1".to_owned());
    if let Some(fqdn) = fqdn {
        domains.push(fqdn.clone());
    }
    assert(texts(domains@) =~= adhoc_domains(text_in(*fqdn)));
    domains
}

/// A certificate and its key, as text.
#[derive(Debug)]
pub struct AdhocCertificate {
    pub cert: String,
    pub key: String,
}

/// No certificate could be made.
#[derive(Debug, Clone, Copy, PartialEq, Eq, Structural)]
pub struct CertificateError;

/// The certificate of a pair of texts, if there is one.
pub fn adhoc_certificate(pair: Result<(String, String), rcgen::Error>) -> (certificate: Result<
    AdhocCertificate,
    CertificateError,
>)
    ensures
        match pair {
            Ok((cert, key)) => {
                &&& certificate is Ok
                &&& certificate->Ok_0.cert@ == cert@
                &&& certificate->Ok_0.key@ == key@
            },
            Err(_) => certificate is Err,
        },
{
    match pair {
        Ok((cert, key)) => Ok(AdhocCertificate { cert, key }),
        Err(_) => Err(CertificateError),
    }
}

/// Makes a certificate for this server alone, under a random key. There is none for a
/// domain name outside of ASCII. For other names it rests on the source of randomness
/// whether one can be made.
pub fn generate_adhoc(fqdn: &Option<String>) -> (certificate: Result<
    AdhocCertificate,
    CertificateError,
>)
    ensures
        certificate is Ok ==> self_signed_for(
            adhoc_domains(text_in(*fqdn)),
            certificate->Ok_0.cert@,
            certificate->Ok_0.key@,
        ),
        *fqdn is Some && !is_ascii_chars(fqdn->0@) ==> certificate is Err,
{
    let pair = self_signed(certificate_domains(fqdn));
    assert(*fqdn is Some ==> adhoc_domains(text_in(*fqdn))[3] == fqdn->0@);
    adhoc_certificate(pair)
}

} // verus!

//! The signature-discovery outcomes: the model of a detached signature
//! manifest, and the classification of what the registry answered when the
//! manifest of the derived signature image was fetched.

use vstd::prelude::*;
use vstd::string::StringExecFns;

use crate::metadata::Annotations;
use crate::text;

verus! {

/// The error-message prefix by which the registry reports that a manifest
/// does not exist: the expected answer for an unsigned artifact.
pub const MANIFEST_UNKNOWN_PREFIX: &'static str = "OCI API error: manifest unknown on";

/// The scheme prefix of a registry-backed artifact reference.
pub const REGISTRY_SCHEME: &'static str = "registry://";

/// One layer of a signature manifest: a detached signature.
#[derive(Clone, Debug, PartialEq, Eq)]
pub struct SignatureLayer {
    pub digest: String,
    pub media_type: String,
    pub size: u64,
    pub annotations: Option<Annotations>,
}

/// The mathematical value of a signature layer.
pub struct SignatureLayerView {
    pub digest: Seq<char>,
    pub media_type: Seq<char>,
    pub size: u64,
    pub annotations: Option<Seq<(Seq<char>, Seq<char>)>>,
}

impl DeepView for SignatureLayer {
    type V = SignatureLayerView;

    open spec fn deep_view(&self) -> SignatureLayerView {
        SignatureLayerView {
            digest: self.digest.deep_view(),
            media_type: self.media_type.deep_view(),
            size: self.size,
            annotations: match self.annotations {
                Some(a) => Some(a.deep_view()),
                None => None,
            },
        }
    }
}

/// A signature manifest: the ordered layers of an OCI image manifest whose
/// layers are detached signatures. Produced only by the registry; the
/// library reads and renders it, never mutates it.
#[derive(Clone, Debug, PartialEq, Eq)]
pub struct SignatureManifest {
    pub layers: Vec<SignatureLayer>,
}

impl DeepView for SignatureManifest {
    type V = Seq<SignatureLayerView>;

    open spec fn deep_view(&self) -> Seq<SignatureLayerView> {
        self.layers.deep_view()
    }
}

/// What a successful manifest fetch returned: an image manifest, or some
/// other manifest variant (an index), which carries no signatures.
#[derive(Clone, Debug, PartialEq, Eq)]
pub enum ManifestAnswer {
    Image(SignatureManifest),
    OtherVariant,
}

/// The whole outcome of asking the registry for the signature manifest.
#[derive(Clone, Debug, PartialEq, Eq)]
pub enum RegistryReply {
    Answered(ManifestAnswer),
    Refused(String),
}

/// The three-way (plus one) outcome of signature discovery.
#[derive(Clone, Debug, PartialEq, Eq)]
pub enum SignatureOutcome {
    /// A signature manifest is attached to the artifact.
    Found(SignatureManifest),
    /// The registry knows no such manifest: the artifact is unsigned.
    NotSigned,
    /// The fetch succeeded but returned a manifest variant that carries no
    /// signatures; kept apart from `NotSigned` rather than collapsed.
    UnsupportedFormat,
    /// Any other registry failure, with its message.
    Failure(String),
}

/// Whether a registry error message reports an unknown manifest.
pub fn is_manifest_unknown(message: &str) -> (r: bool)
    ensures
        r == text::spec_starts_with(message@, MANIFEST_UNKNOWN_PREFIX@),
{
    text::starts_with(message, MANIFEST_UNKNOWN_PREFIX)
}

/// Classifies the registry's reply to the signature-manifest fetch.
///
/// An unknown-manifest refusal is the expected, common case of an unsigned
/// artifact, not a failure; every other refusal is kept as a failure with
/// its message, distinguishable by the caller.
pub fn classify_registry_reply(reply: RegistryReply) -> (o: SignatureOutcome)
    ensures
        match reply {
            RegistryReply::Answered(ManifestAnswer::Image(m)) => o == SignatureOutcome::Found(m),
            RegistryReply::Answered(ManifestAnswer::OtherVariant) => o
                == SignatureOutcome::UnsupportedFormat,
            RegistryReply::Refused(msg) => if text::spec_starts_with(
                msg@,
                MANIFEST_UNKNOWN_PREFIX@,
            ) {
                o == SignatureOutcome::NotSigned
            } else {
                o == SignatureOutcome::Failure(msg)
            },
        },
{
    match reply {
        RegistryReply::Answered(ManifestAnswer::Image(m)) => SignatureOutcome::Found(m),
        RegistryReply::Answered(ManifestAnswer::OtherVariant) => SignatureOutcome::UnsupportedFormat,
        RegistryReply::Refused(msg) => {
            if is_manifest_unknown(msg.as_str()) {
                SignatureOutcome::NotSigned
            } else {
                SignatureOutcome::Failure(msg)
            }
        },
    }
}

/// The outcome folded back into the resolver's result shape: an unknown
/// manifest is `Ok(None)`, never an error; a manifest of another variant is
/// also `Ok(None)`; only a real refusal is an error.
pub fn signatures_as_result(o: SignatureOutcome) -> (r: Result<
    Option<SignatureManifest>,
    String,
>)
    ensures
        match o {
            SignatureOutcome::Found(m) => r == Ok::<Option<SignatureManifest>, String>(Some(m)),
            SignatureOutcome::NotSigned => r == Ok::<Option<SignatureManifest>, String>(
                None::<SignatureManifest>,
            ),
            SignatureOutcome::UnsupportedFormat => r == Ok::<Option<SignatureManifest>, String>(
                None::<SignatureManifest>,
            ),
            SignatureOutcome::Failure(msg) => r == Err::<Option<SignatureManifest>, String>(msg),
        },
{
    match o {
        SignatureOutcome::Found(m) => Ok(Some(m)),
        SignatureOutcome::NotSigned => Ok(None),
        SignatureOutcome::UnsupportedFormat => Ok(None),
        SignatureOutcome::Failure(msg) => Err(msg),
    }
}

/// Derives the image name from a registry-scheme artifact reference by
/// stripping the scheme; any other scheme is refused, as the resolver is
/// only invoked on registry-backed references.
pub fn image_name_of_uri(uri: &str) -> (r: Result<String, String>)
    ensures
        if text::spec_starts_with(uri@, REGISTRY_SCHEME@) {
            r is Ok && r->Ok_0@ == uri@.skip(REGISTRY_SCHEME@.len() as int)
        } else {
            r is Err && r->Err_0@ == "invalid uri"@
        },
{
    if text::starts_with(uri, REGISTRY_SCHEME) {
        let prefix_len = REGISTRY_SCHEME.unicode_len();
        Ok(text::suffix_from(uri, prefix_len))
    } else {
        Err(String::from_str("invalid uri"))
    }
}

} // verus!

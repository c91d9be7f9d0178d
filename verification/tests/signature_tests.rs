use kwctl::metadata::Annotations;
use kwctl::render::{signature_outcome_events, RenderEvent, TableRow};
use kwctl::signature::{
    classify_registry_reply, image_name_of_uri, is_manifest_unknown, signatures_as_result,
    ManifestAnswer, RegistryReply, SignatureLayer, SignatureManifest, SignatureOutcome,
};
use kwctl::OutputType;

fn manifest() -> SignatureManifest {
    SignatureManifest {
        layers: vec![SignatureLayer {
            digest: "sha256:abc".to_string(),
            media_type: "application/vnd.dev.cosign.simplesigning.v1+json".to_string(),
            size: 42,
            annotations: Some(Annotations::from_entries(vec![(
                "dev.cosignproject.cosign/signature".to_string(),
                "MEUCIQ==".to_string(),
            )])),
        }],
    }
}

#[test]
fn manifest_unknown_is_unsigned_not_an_error() {
    let reply = RegistryReply::Refused(
        "OCI API error: manifest unknown on ghcr.io/kubewarden/policies/x:sha256-y.sig".to_string(),
    );
    let outcome = classify_registry_reply(reply);
    assert_eq!(outcome, SignatureOutcome::NotSigned);
    assert_eq!(signatures_as_result(outcome), Ok(None));
}

#[test]
fn other_registry_failures_stay_distinguishable_errors() {
    let reply = RegistryReply::Refused("connection refused".to_string());
    let outcome = classify_registry_reply(reply);
    assert_eq!(outcome, SignatureOutcome::Failure("connection refused".to_string()));
    assert_eq!(
        signatures_as_result(outcome),
        Err("connection refused".to_string())
    );
}

#[test]
fn image_manifest_answer_is_found() {
    let outcome = classify_registry_reply(RegistryReply::Answered(ManifestAnswer::Image(manifest())));
    assert_eq!(outcome, SignatureOutcome::Found(manifest()));
    assert_eq!(signatures_as_result(outcome), Ok(Some(manifest())));
}

#[test]
fn non_image_manifest_answer_is_kept_apart_and_rendered_silently() {
    let outcome = classify_registry_reply(RegistryReply::Answered(ManifestAnswer::OtherVariant));
    assert_eq!(outcome, SignatureOutcome::UnsupportedFormat);
    assert_eq!(signatures_as_result(outcome.clone()), Ok(None));
    assert_eq!(signature_outcome_events(outcome, &OutputType::Pretty), Vec::new());
}

#[test]
fn manifest_unknown_prefix_detection() {
    assert!(is_manifest_unknown("OCI API error: manifest unknown on x"));
    assert!(!is_manifest_unknown("OCI API error: unauthorized"));
    assert!(!is_manifest_unknown(""));
}

#[test]
fn unsigned_artifact_prints_one_informational_line() {
    let ev = signature_outcome_events(SignatureOutcome::NotSigned, &OutputType::Pretty);
    assert_eq!(
        ev,
        vec![
            RenderEvent::Blank,
            RenderEvent::Line("No sigstore signatures found".to_string()),
        ]
    );
}

#[test]
fn signature_failure_prints_one_diagnostic_line() {
    let ev = signature_outcome_events(
        SignatureOutcome::Failure("boom".to_string()),
        &OutputType::Pretty,
    );
    assert_eq!(
        ev,
        vec![
            RenderEvent::Blank,
            RenderEvent::Line(
                "Cannot determine if the policy has been signed. There was an error while attempting to fetch its signatures from the remote registry: boom ".to_string()
            ),
        ]
    );
}

#[test]
fn found_manifest_renders_one_table_per_layer() {
    let ev = signature_outcome_events(SignatureOutcome::Found(manifest()), &OutputType::Pretty);
    assert_eq!(
        ev,
        vec![
            RenderEvent::Blank,
            RenderEvent::Line("Sigstore signatures".to_string()),
            RenderEvent::Blank,
            RenderEvent::Table(vec![
                TableRow::HeadEntry("Digest: ".to_string(), "sha256:abc".to_string()),
                TableRow::HeadEntry(
                    "Media type: ".to_string(),
                    "application/vnd.dev.cosign.simplesigning.v1+json".to_string()
                ),
                TableRow::HeadEntry("Size: ".to_string(), "42".to_string()),
                TableRow::Title("Annotations".to_string()),
                TableRow::Entry(
                    "dev.cosignproject.cosign/signature".to_string(),
                    "MEUCIQ==".to_string()
                ),
            ]),
            RenderEvent::Blank,
        ]
    );
}

#[test]
fn found_manifest_under_structured_mode_serializes() {
    let ev = signature_outcome_events(SignatureOutcome::Found(manifest()), &OutputType::Yaml);
    assert_eq!(ev, vec![RenderEvent::SignaturesYaml]);
}

#[test]
fn registry_scheme_stripping() {
    assert_eq!(
        image_name_of_uri("registry://ghcr.io/kubewarden/policies/x:1.0"),
        Ok("ghcr.io/kubewarden/policies/x:1.0".to_string())
    );
    assert_eq!(image_name_of_uri("file:///tmp/x.wasm"), Err("invalid uri".to_string()));
}

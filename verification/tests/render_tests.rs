use kwctl::metadata::{Annotations, ExecutionMode, PolicyMetadata, PolicyType};
use kwctl::render::{
    annotation_row_key, details_rows, fence_yaml, inspect_events, metadata_events, InspectError,
    RenderError, RenderEvent, TableRow, CONTEXT_CAUTION, CONTEXT_INTRO,
};
use kwctl::{output_type_from_selector, OutputType};
use kwctl::signature::SignatureOutcome;

fn annotations(pairs: &[(&str, &str)]) -> Annotations {
    let entries = pairs
        .iter()
        .map(|(k, v)| (k.to_string(), v.to_string()))
        .collect();
    Annotations::from_entries(entries)
}

fn base_metadata(ann: Option<Annotations>, mode: ExecutionMode) -> PolicyMetadata {
    PolicyMetadata {
        protocol_version: None,
        rules: Vec::new(),
        annotations: ann,
        mutating: false,
        background_audit: false,
        context_aware_resources: Vec::new(),
        execution_mode: mode,
        policy_type: PolicyType::Kubernetes,
        minimum_kubewarden_version: None,
    }
}

fn entry(k: &str, v: &str) -> TableRow {
    TableRow::Entry(k.to_string(), v.to_string())
}

#[test]
fn details_table_scenario_one() {
    let m = base_metadata(
        Some(annotations(&[
            ("io.kubewarden.policy.title", "X"),
            ("io.kubewarden.policy.description", "d"),
            ("io.kubewarden.policy.url", "http://h"),
            ("io.kubewarden.policy.ociUrl", "reg/x"),
        ])),
        ExecutionMode::Opa,
    );
    let rows = details_rows(&m).unwrap();
    let expected = vec![
        TableRow::Title("Details".to_string()),
        entry("title:", "X"),
        entry("description:", "d"),
        entry("url:", "http://h"),
        entry("mutating:", "false"),
        entry("background audit support:", "false"),
        entry("context aware:", "false"),
        entry("policy type:", "kubernetes"),
        entry("execution mode:", "opa"),
        TableRow::Spacer,
        TableRow::Title("Annotations".to_string()),
        entry("io.kubewarden.policy.ociUrl", "reg/x"),
    ];
    assert_eq!(rows, expected);
}

#[test]
fn no_protocol_version_required_when_mode_does_not_ask() {
    let mut m = base_metadata(None, ExecutionMode::Opa);
    m.protocol_version = None;
    assert!(details_rows(&m).is_ok());
    let mut m = base_metadata(None, ExecutionMode::Gatekeeper);
    m.protocol_version = None;
    assert!(metadata_events(&m).is_ok());
}

#[test]
fn protocol_version_missing_is_fatal_under_wapc_mode() {
    let m = base_metadata(None, ExecutionMode::KubewardenWapc);
    assert_eq!(details_rows(&m).unwrap_err(), RenderError::ProtocolVersionMissing);
    assert_eq!(
        RenderError::ProtocolVersionMissing.message(),
        "Invalid policy: protocol_version not defined"
    );
}

#[test]
fn protocol_version_row_present_under_wapc_mode() {
    let mut m = base_metadata(Some(annotations(&[])), ExecutionMode::KubewardenWapc);
    m.protocol_version = Some("v1".to_string());
    let rows = details_rows(&m).unwrap();
    assert_eq!(rows.last().unwrap(), &entry("protocol version:", "v1"));
    assert!(rows.contains(&entry("execution mode:", "kubewarden-wapc")));
}

#[test]
fn stripping_applied_once_and_only_to_recognized_keys() {
    assert_eq!(annotation_row_key("io.kubewarden.policy.title"), "title:");
    assert_eq!(annotation_row_key("io.kubewarden.policy.license"), "license:");
    assert_eq!(annotation_row_key("custom-key"), "custom-key:");
    // A key that carries the prefix twice loses it once only.
    assert_eq!(
        annotation_row_key("io.kubewarden.policy.io.kubewarden.policy.title"),
        "io.kubewarden.policy.title:"
    );
    // The details table shows a pretty key in stripped form only.
    let m = base_metadata(
        Some(annotations(&[("io.kubewarden.policy.title", "X")])),
        ExecutionMode::Opa,
    );
    let rows = details_rows(&m).unwrap();
    assert!(rows.contains(&entry("title:", "X")));
    assert!(!rows.iter().any(|r| matches!(
        r,
        TableRow::Entry(k, _) if k.starts_with("io.kubewarden.policy.title")
    )));
}

#[test]
fn minimum_version_row_only_when_present() {
    let mut m = base_metadata(None, ExecutionMode::Opa);
    m.minimum_kubewarden_version = Some("1.9.0".to_string());
    let rows = details_rows(&m).unwrap();
    assert_eq!(rows.last().unwrap(), &entry("minimum kubewarden version:", "1.9.0"));
    let m = base_metadata(None, ExecutionMode::Opa);
    let rows = details_rows(&m).unwrap();
    assert!(!rows
        .iter()
        .any(|r| matches!(r, TableRow::Entry(k, _) if k == "minimum kubewarden version:")));
}

#[test]
fn context_aware_section_absent_for_empty_set() {
    let m = base_metadata(None, ExecutionMode::Opa);
    let ev = metadata_events(&m).unwrap();
    assert!(!ev.contains(&RenderEvent::ResourcesBlock));
    assert!(!ev.iter().any(|e| matches!(
        e,
        RenderEvent::Table(rows) if rows.contains(&TableRow::Title("Context Aware".to_string()))
    )));
}

#[test]
fn context_aware_section_present_for_non_empty_set() {
    let mut m = base_metadata(None, ExecutionMode::Opa);
    m.context_aware_resources = vec![kwctl::metadata::ContextAwareResource {
        api_version: "v1".to_string(),
        kind: "Pod".to_string(),
    }];
    let ev = metadata_events(&m).unwrap();
    let expected_tail = vec![
        RenderEvent::Table(vec![TableRow::Title("Context Aware".to_string())]),
        RenderEvent::Line(CONTEXT_INTRO.to_string()),
        RenderEvent::ResourcesBlock,
        RenderEvent::Line(CONTEXT_CAUTION.to_string()),
        RenderEvent::Blank,
    ];
    assert_eq!(&ev[5..10], expected_tail.as_slice());
}

#[test]
fn usage_section_present_only_with_usage_annotation() {
    let m = base_metadata(
        Some(annotations(&[("io.kubewarden.policy.usage", "# How to use")])),
        ExecutionMode::Opa,
    );
    let ev = metadata_events(&m).unwrap();
    assert_eq!(ev.last().unwrap(), &RenderEvent::Markdown("# How to use".to_string()));
    assert_eq!(
        ev[ev.len() - 2],
        RenderEvent::Table(vec![TableRow::Title("Usage".to_string())])
    );
    let m = base_metadata(None, ExecutionMode::Opa);
    let ev = metadata_events(&m).unwrap();
    assert!(!ev.iter().any(|e| matches!(e, RenderEvent::Markdown(_))));
}

#[test]
fn empty_annotations_show_facts_only() {
    let m = base_metadata(Some(annotations(&[])), ExecutionMode::Opa);
    let rows = details_rows(&m).unwrap();
    let expected = vec![
        TableRow::Title("Details".to_string()),
        entry("mutating:", "false"),
        entry("background audit support:", "false"),
        entry("context aware:", "false"),
        entry("policy type:", "kubernetes"),
        entry("execution mode:", "opa"),
    ];
    assert_eq!(rows, expected);
}

#[test]
fn usage_key_never_reaches_the_leftover_subtable() {
    let m = base_metadata(
        Some(annotations(&[
            ("io.kubewarden.policy.usage", "# docs"),
            ("custom", "y"),
        ])),
        ExecutionMode::Opa,
    );
    let rows = details_rows(&m).unwrap();
    assert!(rows.contains(&entry("custom", "y")));
    assert!(!rows
        .iter()
        .any(|r| matches!(r, TableRow::Entry(k, _) if k.contains("usage"))));
    let ev = metadata_events(&m).unwrap();
    assert_eq!(ev.last().unwrap(), &RenderEvent::Markdown("# docs".to_string()));
}

#[test]
fn inspect_fails_without_metadata() {
    let r = inspect_events("registry://x/y:1.0", &OutputType::Pretty, None, SignatureOutcome::NotSigned);
    let e = r.unwrap_err();
    assert_eq!(e, InspectError::MetadataMissing("registry://x/y:1.0".to_string()));
    assert_eq!(
        e.message(),
        "No Kubewarden metadata found inside of 'registry://x/y:1.0'.\nPolicies can be annotated with the `kwctl annotate` command."
    );
}

#[test]
fn inspect_yaml_mode_serializes_and_appends_signature_events() {
    let m = base_metadata(None, ExecutionMode::KubewardenWapc);
    // The structured mode never asks for the protocol version.
    let ev = inspect_events("x", &OutputType::Yaml, Some(m), SignatureOutcome::NotSigned).unwrap();
    assert_eq!(
        ev,
        vec![
            RenderEvent::MetadataYaml,
            RenderEvent::Blank,
            RenderEvent::Line("No sigstore signatures found".to_string()),
        ]
    );
}

#[test]
fn output_type_selector() {
    assert_eq!(output_type_from_selector(Some("yaml")).unwrap(), OutputType::Yaml);
    assert_eq!(output_type_from_selector(None).unwrap(), OutputType::Pretty);
    assert_eq!(
        output_type_from_selector(Some("json")).unwrap_err(),
        "Invalid output format 'json'"
    );
}

#[test]
fn yaml_fencing() {
    assert_eq!(fence_yaml("a: b\n"), "```yaml\na: b\n```");
}

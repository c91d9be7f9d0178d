use kwctl::metadata::{
    Annotations, ContextAwareResource, ExecutionMode, PolicyMetadata, PolicyType, Rule,
};
use kwctl::scaffold::{
    build_chart_doc, build_values_doc, common_questions, default_questions, generate_questions,
    merge_questions, FieldValue, QuestionNode, ScaffoldError, UserQuestions,
};
use kwctl::text::{split_and_trim, trim, u64_string};

fn annotations(pairs: &[(&str, &str)]) -> Annotations {
    let entries = pairs
        .iter()
        .map(|(k, v)| (k.to_string(), v.to_string()))
        .collect();
    Annotations::from_entries(entries)
}

fn full_annotations() -> Annotations {
    annotations(&[
        ("io.kubewarden.policy.ociUrl", "ghcr.io/kubewarden/policies/pod-privileged"),
        ("io.kubewarden.policy.title", "pod-privileged"),
        ("io.kubewarden.policy.description", "Limit privileged pods"),
        ("io.kubewarden.policy.url", "https://example.com/pod-privileged"),
    ])
}

fn metadata(ann: Option<Annotations>) -> PolicyMetadata {
    PolicyMetadata {
        protocol_version: Some("v1".to_string()),
        rules: vec![Rule {
            api_groups: vec!["".to_string()],
            api_versions: vec!["v1".to_string()],
            resources: vec!["pods".to_string()],
            operations: vec!["CREATE".to_string()],
        }],
        annotations: ann,
        mutating: false,
        background_audit: true,
        context_aware_resources: vec![ContextAwareResource {
            api_version: "v1".to_string(),
            kind: "Namespace".to_string(),
        }],
        execution_mode: ExecutionMode::KubewardenWapc,
        policy_type: PolicyType::Kubernetes,
        minimum_kubewarden_version: None,
    }
}

fn node(pairs: &[(&str, &str)]) -> QuestionNode {
    QuestionNode {
        fields: pairs
            .iter()
            .map(|(k, v)| (k.to_string(), FieldValue::Text(v.to_string())))
            .collect(),
    }
}

#[test]
fn values_module_reference_round_trip() {
    let m = metadata(Some(full_annotations()));
    let v = build_values_doc("1.2.3", m).unwrap();
    assert_eq!(
        v.spec.module.repository,
        "ghcr.io/kubewarden/policies/pod-privileged"
    );
    assert_eq!(v.spec.module.tag, "1.2.3");
    assert!(v.cluster_scoped);
    assert_eq!(v.spec.mode, "kubewarden-wapc");
    assert!(!v.spec.mutating);
    assert_eq!(v.spec.rules, metadata(None).rules);
    assert_eq!(
        v.spec.context_aware_resources,
        metadata(None).context_aware_resources
    );
}

#[test]
fn chart_doc_fields_are_pinned() {
    let m = metadata(Some(full_annotations()));
    let c = build_chart_doc("0.2.1", m).unwrap();
    assert_eq!(c.api_version, "v2");
    assert_eq!(c.name, "pod-privileged");
    assert_eq!(c.description, "Limit privileged pods");
    assert_eq!(c.icon, None);
    assert_eq!(c.chart_type, "application");
    assert_eq!(c.home, "https://example.com/pod-privileged");
    assert_eq!(c.kube_version, ">= 1.19.0");
    assert_eq!(c.keywords, None);
    assert_eq!(c.version, "0.2.1");
    assert_eq!(c.app_version, "0.2.1");
    assert_eq!(c.annotations, Some(full_annotations()));
}

#[test]
fn chart_keywords_split_and_trimmed() {
    let mut ann = full_annotations();
    ann.entries.push((
        "io.kubewarden.policy.keywords".to_string(),
        "psp, pod , security".to_string(),
    ));
    let c = build_chart_doc("1.0.0", metadata(Some(ann))).unwrap();
    assert_eq!(
        c.keywords,
        Some(vec!["psp".to_string(), "pod".to_string(), "security".to_string()])
    );
}

#[test]
fn chart_errors_name_the_missing_annotation() {
    assert_eq!(
        build_chart_doc("1.0.0", metadata(None)).unwrap_err(),
        ScaffoldError::MissingAnnotations
    );
    let missing = |skip: &str| {
        let ann = Annotations::from_entries(
            full_annotations()
                .entries
                .into_iter()
                .filter(|(k, _)| k != skip)
                .collect(),
        );
        build_chart_doc("1.0.0", metadata(Some(ann))).unwrap_err()
    };
    assert_eq!(missing("io.kubewarden.policy.ociUrl"), ScaffoldError::MissingRepository);
    assert_eq!(missing("io.kubewarden.policy.title"), ScaffoldError::MissingTitle);
    assert_eq!(
        missing("io.kubewarden.policy.description"),
        ScaffoldError::MissingDescription
    );
    assert_eq!(missing("io.kubewarden.policy.url"), ScaffoldError::MissingHomeUrl);
    assert_eq!(
        ScaffoldError::MissingHomeUrl.message(),
        "Missing url annotation."
    );
    assert_eq!(
        ScaffoldError::MissingAnnotations.message(),
        "Missing metadata annotations"
    );
}

#[test]
fn values_errors() {
    assert_eq!(
        build_values_doc("1.0.0", metadata(None)).unwrap_err(),
        ScaffoldError::MissingAnnotations
    );
    let ann = annotations(&[("io.kubewarden.policy.title", "x")]);
    assert_eq!(
        build_values_doc("1.0.0", metadata(Some(ann))).unwrap_err(),
        ScaffoldError::MissingRepository
    );
}

#[test]
fn merge_keeps_common_first_and_order_within_sides() {
    let common = common_questions();
    let a = vec![node(&[("variable", "a")]), node(&[("variable", "b")])];
    let merged = merge_questions(common.clone(), a.clone());
    assert_eq!(merged.len(), common.len() + a.len());
    assert_eq!(&merged[..common.len()], common.as_slice());
    assert_eq!(&merged[common.len()..], a.as_slice());
}

#[test]
fn questions_default_to_common_then_builtin() {
    let doc = generate_questions(None).unwrap();
    let mut expected = common_questions();
    expected.extend(default_questions());
    assert_eq!(doc.questions, expected);
}

#[test]
fn questions_user_sequence_appended_after_common() {
    let user = vec![node(&[("variable", "custom")])];
    let doc = generate_questions(Some(UserQuestions::Sequence(user.clone()))).unwrap();
    let mut expected = common_questions();
    expected.extend(user);
    assert_eq!(doc.questions, expected);
}

#[test]
fn questions_without_a_sequence_fail() {
    let r = generate_questions(Some(UserQuestions::NotASequence));
    assert_eq!(r.unwrap_err(), ScaffoldError::InvalidQuestionsFormat);
    assert_eq!(
        ScaffoldError::InvalidQuestionsFormat.message(),
        "Invalid questions format. Expected a sequence of questions"
    );
}

#[test]
fn keyword_splitting_exact() {
    assert_eq!(
        split_and_trim("a, b ,,c "),
        vec!["a".to_string(), "b".to_string(), "".to_string(), "c".to_string()]
    );
    assert_eq!(split_and_trim(""), vec!["".to_string()]);
    assert_eq!(split_and_trim("  solo  "), vec!["solo".to_string()]);
}

#[test]
fn trimming_exact() {
    assert_eq!(trim("  x\ty "), "x\ty");
    assert_eq!(trim("   "), "");
    assert_eq!(trim("x"), "x");
}

#[test]
fn decimal_rendering_exact() {
    assert_eq!(u64_string(0), "0");
    assert_eq!(u64_string(7), "7");
    assert_eq!(u64_string(1234567890), "1234567890");
    assert_eq!(u64_string(u64::MAX), "18446744073709551615");
}

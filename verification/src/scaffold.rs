//! The bundle scaffolder: shapes the descriptor and values documents out of
//! the artifact's metadata and merges the layered question schema. The
//! adapters around the library serialize each document and write it out;
//! every write is independent, and a failure partway leaves earlier writes
//! in place.

use vstd::prelude::*;
use vstd::string::StringExecFns;

use crate::metadata::{
    spec_get, spec_mode_str, Annotations, ContextAwareResource, PolicyMetadata, Rule,
};
use crate::metadata::{
    ANNOTATION_DESCRIPTION, ANNOTATION_KEYWORDS, ANNOTATION_OCI_URL, ANNOTATION_TITLE,
    ANNOTATION_URL,
};
use crate::text;

verus! {

/// What scaffolding can fail with; each names the precondition that failed.
#[derive(Clone, Debug, PartialEq, Eq)]
pub enum ScaffoldError {
    /// The metadata carries no annotations map at all.
    MissingAnnotations,
    /// The registry-url annotation is absent.
    MissingRepository,
    /// The title annotation is absent.
    MissingTitle,
    /// The description annotation is absent.
    MissingDescription,
    /// The home-url annotation is absent.
    MissingHomeUrl,
    /// The user-supplied question document holds no question sequence.
    InvalidQuestionsFormat,
}

impl ScaffoldError {
    /// The error's message.
    pub fn message(&self) -> (r: String)
        ensures
            match self {
                ScaffoldError::MissingAnnotations => r@ == "Missing metadata annotations"@,
                ScaffoldError::MissingRepository => r@ == "Missing repository annotation"@,
                ScaffoldError::MissingTitle => r@ == "Missing title annotation"@,
                ScaffoldError::MissingDescription => r@ == "Missing description annotation"@,
                ScaffoldError::MissingHomeUrl => r@ == "Missing url annotation."@,
                ScaffoldError::InvalidQuestionsFormat => r@
                    == "Invalid questions format. Expected a sequence of questions"@,
            },
    {
        match self {
            ScaffoldError::MissingAnnotations => String::from_str("Missing metadata annotations"),
            ScaffoldError::MissingRepository => String::from_str("Missing repository annotation"),
            ScaffoldError::MissingTitle => String::from_str("Missing title annotation"),
            ScaffoldError::MissingDescription => String::from_str(
                "Missing description annotation",
            ),
            ScaffoldError::MissingHomeUrl => String::from_str("Missing url annotation."),
            ScaffoldError::InvalidQuestionsFormat => String::from_str(
                "Invalid questions format. Expected a sequence of questions",
            ),
        }
    }
}

/// The descriptor document of the bundle.
#[derive(Clone, Debug, PartialEq, Eq)]
pub struct ChartDoc {
    pub api_version: String,
    pub name: String,
    pub description: String,
    pub icon: Option<String>,
    pub chart_type: String,
    pub home: String,
    pub kube_version: String,
    pub keywords: Option<Vec<String>>,
    pub version: String,
    pub app_version: String,
    pub annotations: Option<Annotations>,
}

/// The module reference of the values document: where the artifact lives
/// and at which tag.
#[derive(Clone, Debug, PartialEq, Eq)]
pub struct ModuleRef {
    pub repository: String,
    pub tag: String,
}

/// The spec object of the values document. The policy-specific settings
/// stay a null placeholder, added by the serializing adapter, to be filled
/// by the end user.
#[derive(Clone, Debug, PartialEq, Eq)]
pub struct ValuesSpec {
    pub module: ModuleRef,
    pub mode: String,
    pub mutating: bool,
    pub context_aware_resources: Vec<ContextAwareResource>,
    pub rules: Vec<Rule>,
}

/// The values document of the bundle.
#[derive(Clone, Debug, PartialEq, Eq)]
pub struct ValuesDoc {
    pub cluster_scoped: bool,
    pub spec: ValuesSpec,
}

/// The first missing precondition of the descriptor, if any: the
/// annotations map itself, then the four required keys, in the fixed order
/// registry-url, title, description, home-url.
pub open spec fn spec_chart_error(m: PolicyMetadata) -> Option<ScaffoldError> {
    match m.annotations {
        None => Some(ScaffoldError::MissingAnnotations),
        Some(a) => if spec_get(a@, ANNOTATION_OCI_URL@) is None {
            Some(ScaffoldError::MissingRepository)
        } else if spec_get(a@, ANNOTATION_TITLE@) is None {
            Some(ScaffoldError::MissingTitle)
        } else if spec_get(a@, ANNOTATION_DESCRIPTION@) is None {
            Some(ScaffoldError::MissingDescription)
        } else if spec_get(a@, ANNOTATION_URL@) is None {
            Some(ScaffoldError::MissingHomeUrl)
        } else {
            None
        },
    }
}

/// Builds the descriptor document.
///
/// Fails naming the first missing annotation; otherwise every field is
/// pinned: fixed schema and type markers, the annotation-derived fields,
/// the keyword list split on commas and trimmed (absent when the
/// annotation is absent), the tag as both version fields, and the whole
/// annotations map re-embedded verbatim.
pub fn build_chart_doc(tag: &str, m: PolicyMetadata) -> (r: Result<ChartDoc, ScaffoldError>)
    ensures
        match r {
            Err(e) => spec_chart_error(m) == Some(e),
            Ok(c) => {
                &&& spec_chart_error(m) is None
                &&& {
                    let a = m.annotations->Some_0@;
                    &&& c.api_version@ == "v2"@
                    &&& c.name@ == spec_get(a, ANNOTATION_TITLE@)->Some_0
                    &&& c.description@ == spec_get(a, ANNOTATION_DESCRIPTION@)->Some_0
                    &&& c.icon is None
                    &&& c.chart_type@ == "application"@
                    &&& c.home@ == spec_get(a, ANNOTATION_URL@)->Some_0
                    &&& c.kube_version@ == ">= 1.19.0"@
                    &&& (match spec_get(a, ANNOTATION_KEYWORDS@) {
                        Some(kw) => c.keywords matches Some(ks) && ks.deep_view()
                            == text::spec_split_trim(kw),
                        None => c.keywords is None,
                    })
                    &&& c.version@ == tag@
                    &&& c.app_version@ == tag@
                    &&& c.annotations matches Some(ca) && ca@ == a
                }
            },
        },
{
    let a = match m.annotations {
        Some(a) => a,
        None => {
            return Err(ScaffoldError::MissingAnnotations);
        },
    };
    let name: String;
    let description: String;
    let home: String;
    match a.get(ANNOTATION_OCI_URL) {
        Some(_) => {},
        None => {
            return Err(ScaffoldError::MissingRepository);
        },
    }
    match a.get(ANNOTATION_TITLE) {
        Some(v) => {
            name = v.clone();
        },
        None => {
            return Err(ScaffoldError::MissingTitle);
        },
    }
    match a.get(ANNOTATION_DESCRIPTION) {
        Some(v) => {
            description = v.clone();
        },
        None => {
            return Err(ScaffoldError::MissingDescription);
        },
    }
    match a.get(ANNOTATION_URL) {
        Some(v) => {
            home = v.clone();
        },
        None => {
            return Err(ScaffoldError::MissingHomeUrl);
        },
    }
    let keywords: Option<Vec<String>> = match a.get(ANNOTATION_KEYWORDS) {
        Some(kw) => Some(text::split_and_trim(kw.as_str())),
        None => None,
    };
    Ok(
        ChartDoc {
            api_version: String::from_str("v2"),
            name,
            description,
            icon: None,
            chart_type: String::from_str("application"),
            home,
            kube_version: String::from_str(">= 1.19.0"),
            keywords,
            version: tag.to_owned(),
            app_version: tag.to_owned(),
            annotations: Some(a),
        },
    )
}

/// Builds the values document, consuming the metadata.
///
/// Fails when the annotations map or the registry-url annotation is
/// absent; otherwise the document is pinned: cluster-scoped, the module
/// reference made of the registry-url annotation and the tag, the
/// execution mode's display string, the mutating flag, and the resource
/// and rule sets carried over unchanged.
pub fn build_values_doc(tag: &str, m: PolicyMetadata) -> (r: Result<ValuesDoc, ScaffoldError>)
    ensures
        match r {
            Err(e) => (m.annotations is None && e == ScaffoldError::MissingAnnotations) || (
            m.annotations matches Some(a) && spec_get(a@, ANNOTATION_OCI_URL@) is None && e
                == ScaffoldError::MissingRepository),
            Ok(v) => {
                &&& m.annotations matches Some(a) && spec_get(a@, ANNOTATION_OCI_URL@) matches Some(
                    repo,
                ) && v.spec.module.repository@ == repo
                &&& v.cluster_scoped == true
                &&& v.spec.module.tag@ == tag@
                &&& v.spec.mode@ == spec_mode_str(m.execution_mode)
                &&& v.spec.mutating == m.mutating
                &&& v.spec.context_aware_resources.deep_view()
                    == m.context_aware_resources.deep_view()
                &&& v.spec.rules.deep_view() == m.rules.deep_view()
            },
        },
{
    let repository: String = match &m.annotations {
        Some(a) => {
            match a.get(ANNOTATION_OCI_URL) {
                Some(v) => v.clone(),
                None => {
                    return Err(ScaffoldError::MissingRepository);
                },
            }
        },
        None => {
            return Err(ScaffoldError::MissingAnnotations);
        },
    };
    Ok(
        ValuesDoc {
            cluster_scoped: true,
            spec: ValuesSpec {
                module: ModuleRef { repository, tag: tag.to_owned() },
                mode: m.execution_mode.as_str().to_owned(),
                mutating: m.mutating,
                context_aware_resources: m.context_aware_resources,
                rules: m.rules,
            },
        },
    )
}

/// The scalar value of one question field.
#[derive(Clone, Debug, PartialEq, Eq)]
pub enum FieldValue {
    Bool(bool),
    Text(String),
}

/// The mathematical value of a question field.
pub enum FieldValueView {
    Bool(bool),
    Text(Seq<char>),
}

impl DeepView for FieldValue {
    type V = FieldValueView;

    open spec fn deep_view(&self) -> FieldValueView {
        match self {
            FieldValue::Bool(b) => FieldValueView::Bool(*b),
            FieldValue::Text(t) => FieldValueView::Text(t@),
        }
    }
}

/// One UI question: an ordered list of named scalar fields. The library
/// does not interpret a question beyond carrying it in order.
#[derive(Clone, Debug, PartialEq, Eq)]
pub struct QuestionNode {
    pub fields: Vec<(String, FieldValue)>,
}

impl DeepView for QuestionNode {
    type V = Seq<(Seq<char>, FieldValueView)>;

    open spec fn deep_view(&self) -> Seq<(Seq<char>, FieldValueView)> {
        self.fields.deep_view()
    }
}

/// The questions document: one ordered question sequence.
#[derive(Clone, Debug, PartialEq, Eq)]
pub struct QuestionsDoc {
    pub questions: Vec<QuestionNode>,
}

/// A user-supplied question document, as the adapter hands it in: either
/// the sequence found under its `questions` key, or the mark that it holds
/// no such sequence.
#[derive(Clone, Debug, PartialEq, Eq)]
pub enum UserQuestions {
    Sequence(Vec<QuestionNode>),
    NotASequence,
}

fn push_text_field(fields: &mut Vec<(String, FieldValue)>, k: &'static str, v: &'static str)
    ensures
        final(fields).deep_view() == old(fields).deep_view().push(
            (k@, FieldValueView::Text(v@)),
        ),
{
    let ghost pre = fields.deep_view();
    fields.push((k.to_owned(), FieldValue::Text(v.to_owned())));
    proof {
        assert(fields.deep_view() =~= pre.push((k@, FieldValueView::Text(v@))));
    }
}

fn push_bool_field(fields: &mut Vec<(String, FieldValue)>, k: &'static str, v: bool)
    ensures
        final(fields).deep_view() == old(fields).deep_view().push(
            (k@, FieldValueView::Bool(v)),
        ),
{
    let ghost pre = fields.deep_view();
    fields.push((k.to_owned(), FieldValue::Bool(v)));
    proof {
        assert(fields.deep_view() =~= pre.push((k@, FieldValueView::Bool(v))));
    }
}

/// The fixed common question set, shared by every policy: where to host
/// the policy and under which enforcement mode.
pub open spec fn spec_common_questions() -> Seq<Seq<(Seq<char>, FieldValueView)>> {
    seq![
        seq![
            ("variable"@, FieldValueView::Text("spec.policyServer"@)),
            ("label"@, FieldValueView::Text("Policy Server"@)),
            ("description"@, FieldValueView::Text("The policy server that will host the policy"@)),
            ("group"@, FieldValueView::Text("Settings"@)),
            ("type"@, FieldValueView::Text("string"@)),
            ("required"@, FieldValueView::Bool(false)),
        ],
        seq![
            ("variable"@, FieldValueView::Text("spec.mode"@)),
            ("label"@, FieldValueView::Text("Mode"@)),
            ("description"@, FieldValueView::Text("The enforcement mode of the policy"@)),
            ("group"@, FieldValueView::Text("Settings"@)),
            ("type"@, FieldValueView::Text("string"@)),
            ("default"@, FieldValueView::Text("protect"@)),
            ("required"@, FieldValueView::Bool(false)),
        ],
    ]
}

/// The fixed built-in default question set, used when the user supplies
/// none: one multiline question rendered as an editor for the settings.
pub open spec fn spec_default_questions() -> Seq<Seq<(Seq<char>, FieldValueView)>> {
    seq![
        seq![
            ("variable"@, FieldValueView::Text("spec.settings"@)),
            ("label"@, FieldValueView::Text("Settings"@)),
            ("description"@, FieldValueView::Text("The policy-specific settings, in YAML"@)),
            ("group"@, FieldValueView::Text("Settings"@)),
            ("type"@, FieldValueView::Text("multiline"@)),
            ("required"@, FieldValueView::Bool(false)),
        ],
    ]
}

/// Builds the fixed common question set.
pub fn common_questions() -> (r: Vec<QuestionNode>)
    ensures
        r.deep_view() == spec_common_questions(),
{
    let mut f1: Vec<(String, FieldValue)> = Vec::new();
    push_text_field(&mut f1, "variable", "spec.policyServer");
    push_text_field(&mut f1, "label", "Policy Server");
    push_text_field(&mut f1, "description", "The policy server that will host the policy");
    push_text_field(&mut f1, "group", "Settings");
    push_text_field(&mut f1, "type", "string");
    push_bool_field(&mut f1, "required", false);
    let mut f2: Vec<(String, FieldValue)> = Vec::new();
    push_text_field(&mut f2, "variable", "spec.mode");
    push_text_field(&mut f2, "label", "Mode");
    push_text_field(&mut f2, "description", "The enforcement mode of the policy");
    push_text_field(&mut f2, "group", "Settings");
    push_text_field(&mut f2, "type", "string");
    push_text_field(&mut f2, "default", "protect");
    push_bool_field(&mut f2, "required", false);
    let mut r: Vec<QuestionNode> = Vec::new();
    r.push(QuestionNode { fields: f1 });
    r.push(QuestionNode { fields: f2 });
    proof {
        assert(r.deep_view() =~~= spec_common_questions());
    }
    r
}

/// Builds the fixed built-in default question set.
pub fn default_questions() -> (r: Vec<QuestionNode>)
    ensures
        r.deep_view() == spec_default_questions(),
{
    let mut f1: Vec<(String, FieldValue)> = Vec::new();
    push_text_field(&mut f1, "variable", "spec.settings");
    push_text_field(&mut f1, "label", "Settings");
    push_text_field(&mut f1, "description", "The policy-specific settings, in YAML");
    push_text_field(&mut f1, "group", "Settings");
    push_text_field(&mut f1, "type", "multiline");
    push_bool_field(&mut f1, "required", false);
    let mut r: Vec<QuestionNode> = Vec::new();
    r.push(QuestionNode { fields: f1 });
    proof {
        assert(r.deep_view() =~~= spec_default_questions());
    }
    r
}

/// Merges two question sets: a pure append, no deduplication. Every
/// question of `common` precedes every question of `extra`, each side in
/// its original order.
pub fn merge_questions(common: Vec<QuestionNode>, extra: Vec<QuestionNode>) -> (r: Vec<
    QuestionNode,
>)
    ensures
        r.deep_view() == common.deep_view() + extra.deep_view(),
{
    let ghost c = common.deep_view();
    let ghost e = extra.deep_view();
    let mut r = common;
    let mut extra = extra;
    r.append(&mut extra);
    proof {
        assert(r.deep_view() =~= c + e);
    }
    r
}

/// Law: a merged question sequence keeps all of the first side's questions
/// before all of the second side's, each side in its original relative
/// order.
pub proof fn lemma_merge_order<T>(common: Seq<T>, extra: Seq<T>, merged: Seq<T>)
    requires
        merged == common + extra,
    ensures
        merged.len() == common.len() + extra.len(),
        forall|i: int| 0 <= i < common.len() ==> merged[i] == common[i],
        forall|j: int| 0 <= j < extra.len() ==> merged[common.len() + j] == extra[j],
{
}

/// Builds the questions document: the fixed common set, then either the
/// sequence of the user-supplied document or the built-in default set.
/// A user document without a question sequence fails.
pub fn generate_questions(user: Option<UserQuestions>) -> (r: Result<QuestionsDoc, ScaffoldError>)
    ensures
        match user {
            Some(UserQuestions::NotASequence) => r == Err::<QuestionsDoc, ScaffoldError>(
                ScaffoldError::InvalidQuestionsFormat,
            ),
            Some(UserQuestions::Sequence(u)) => r matches Ok(d) && d.questions.deep_view()
                == spec_common_questions() + u.deep_view(),
            None => r matches Ok(d) && d.questions.deep_view() == spec_common_questions()
                + spec_default_questions(),
        },
{
    let common = common_questions();
    let extra = match user {
        Some(UserQuestions::Sequence(u)) => u,
        Some(UserQuestions::NotASequence) => {
            return Err(ScaffoldError::InvalidQuestionsFormat);
        },
        None => default_questions(),
    };
    Ok(QuestionsDoc { questions: merge_questions(common, extra) })
}

} // verus!


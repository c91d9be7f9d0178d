//! The presentation engine: turns metadata and signature outcomes into an
//! ordered sequence of render events, decoupled from any tabular-output or
//! terminal library. An adapter walks the events and realizes each one:
//! a `Table` through a tabular printer, a markdown event through a
//! terminal markdown renderer, the lossless events through a serializer.

use vstd::prelude::*;
use vstd::string::StrSliceExecFns;
use vstd::string::StringExecFns;

use crate::metadata::{
    spec_annotations, spec_get, spec_mode_str, spec_policy_type_str, Annotations, PolicyMetadata,
};
use crate::metadata::{
    ANNOTATION_AUTHOR, ANNOTATION_DESCRIPTION, ANNOTATION_LICENSE, ANNOTATION_PREFIX,
    ANNOTATION_SOURCE, ANNOTATION_TITLE, ANNOTATION_URL, ANNOTATION_USAGE,
};
use crate::signature::{SignatureLayer, SignatureLayerView, SignatureManifest, SignatureOutcome};
use crate::text;
use crate::OutputType;

verus! {

/// One row of a two-column table.
#[derive(Clone, Debug, PartialEq, Eq)]
pub enum TableRow {
    /// A section title, emphasized.
    Title(String),
    /// A key-value row with an ordinary emphasized key.
    Entry(String, String),
    /// A key-value row whose key is styled like a title.
    HeadEntry(String, String),
    /// An empty separator row.
    Spacer,
}

/// The mathematical value of a table row.
pub enum TableRowView {
    Title(Seq<char>),
    Entry(Seq<char>, Seq<char>),
    HeadEntry(Seq<char>, Seq<char>),
    Spacer,
}

impl DeepView for TableRow {
    type V = TableRowView;

    open spec fn deep_view(&self) -> TableRowView {
        match self {
            TableRow::Title(t) => TableRowView::Title(t@),
            TableRow::Entry(k, v) => TableRowView::Entry(k@, v@),
            TableRow::HeadEntry(k, v) => TableRowView::HeadEntry(k@, v@),
            TableRow::Spacer => TableRowView::Spacer,
        }
    }
}

/// One presentation event. The events of an invocation are realized in
/// order by the output adapter.
#[derive(Clone, Debug, PartialEq, Eq)]
pub enum RenderEvent {
    /// A two-column table with compact padding.
    Table(Vec<TableRow>),
    /// An empty line.
    Blank,
    /// A plain text line.
    Line(String),
    /// The rule set, serialized to structured text and rendered through the
    /// markdown path inside a fenced code block.
    RulesBlock,
    /// The context-aware resource set, treated like `RulesBlock`.
    ResourcesBlock,
    /// Raw markdown text rendered through the markdown path.
    Markdown(String),
    /// The whole metadata, serialized losslessly.
    MetadataYaml,
    /// The whole signature manifest, serialized losslessly.
    SignaturesYaml,
}

/// The mathematical value of a render event.
pub enum RenderEventView {
    Table(Seq<TableRowView>),
    Blank,
    Line(Seq<char>),
    RulesBlock,
    ResourcesBlock,
    Markdown(Seq<char>),
    MetadataYaml,
    SignaturesYaml,
}

impl DeepView for RenderEvent {
    type V = RenderEventView;

    open spec fn deep_view(&self) -> RenderEventView {
        match self {
            RenderEvent::Table(rows) => RenderEventView::Table(rows.deep_view()),
            RenderEvent::Blank => RenderEventView::Blank,
            RenderEvent::Line(t) => RenderEventView::Line(t@),
            RenderEvent::RulesBlock => RenderEventView::RulesBlock,
            RenderEvent::ResourcesBlock => RenderEventView::ResourcesBlock,
            RenderEvent::Markdown(t) => RenderEventView::Markdown(t@),
            RenderEvent::MetadataYaml => RenderEventView::MetadataYaml,
            RenderEvent::SignaturesYaml => RenderEventView::SignaturesYaml,
        }
    }
}

/// What rendering can fail with.
#[derive(Clone, Debug, PartialEq, Eq)]
pub enum RenderError {
    /// The execution mode makes the protocol version meaningful, but the
    /// metadata carries none.
    ProtocolVersionMissing,
}

impl RenderError {
    /// The error's message.
    pub fn message(&self) -> (r: String)
        ensures
            r@ == "Invalid policy: protocol_version not defined"@,
    {
        String::from_str("Invalid policy: protocol_version not defined")
    }
}

/// The display key of a pretty annotation: a trailing colon is appended and
/// the common namespace prefix, when present, is stripped — exactly once.
pub open spec fn spec_row_key(k: Seq<char>) -> Seq<char> {
    let t = k + ":"@;
    if text::spec_starts_with(t, ANNOTATION_PREFIX@) {
        t.skip(ANNOTATION_PREFIX@.len() as int)
    } else {
        t
    }
}

/// Executable form of `spec_row_key`.
pub fn annotation_row_key(k: &str) -> (r: String)
    ensures
        r@ == spec_row_key(k@),
{
    let mut t = k.to_owned();
    t.append(":");
    if text::starts_with(t.as_str(), ANNOTATION_PREFIX) {
        let n = ANNOTATION_PREFIX.unicode_len();
        text::suffix_from(t.as_str(), n)
    } else {
        t
    }
}

/// The details rows a present pretty annotation contributes: one, under its
/// display key; an absent one contributes none.
pub open spec fn spec_pretty_row(
    a: Seq<(Seq<char>, Seq<char>)>,
    k: Seq<char>,
) -> Seq<TableRowView> {
    match spec_get(a, k) {
        Some(v) => seq![TableRowView::Entry(spec_row_key(k), v)],
        None => Seq::empty(),
    }
}

/// The rows of the fixed priority list of pretty annotations, in its order:
/// title, description, author, documentation URL, source, license.
pub open spec fn spec_pretty_rows(a: Seq<(Seq<char>, Seq<char>)>) -> Seq<TableRowView> {
    spec_pretty_row(a, ANNOTATION_TITLE@) + spec_pretty_row(a, ANNOTATION_DESCRIPTION@)
        + spec_pretty_row(a, ANNOTATION_AUTHOR@) + spec_pretty_row(a, ANNOTATION_URL@)
        + spec_pretty_row(a, ANNOTATION_SOURCE@) + spec_pretty_row(a, ANNOTATION_LICENSE@)
}

/// Whether a key belongs to the pretty priority list.
pub open spec fn spec_is_pretty_key(k: Seq<char>) -> bool {
    k == ANNOTATION_TITLE@ || k == ANNOTATION_DESCRIPTION@ || k == ANNOTATION_AUTHOR@ || k
        == ANNOTATION_URL@ || k == ANNOTATION_SOURCE@ || k == ANNOTATION_LICENSE@
}

/// The annotations left for the second sub-table: those neither on the
/// pretty list nor the reserved usage key, in their original order.
pub open spec fn spec_leftover(a: Seq<(Seq<char>, Seq<char>)>) -> Seq<(Seq<char>, Seq<char>)> {
    a.filter(|e: (Seq<char>, Seq<char>)| !spec_is_pretty_key(e.0) && e.0 != ANNOTATION_USAGE@)
}

/// Bindings turned into plain key-value rows, in order.
pub open spec fn spec_entry_rows(es: Seq<(Seq<char>, Seq<char>)>) -> Seq<TableRowView> {
    es.map_values(|e: (Seq<char>, Seq<char>)| TableRowView::Entry(e.0, e.1))
}

/// The fixed fact rows of the Details table, with the conditional protocol
/// and minimum-version rows.
pub open spec fn spec_fact_rows(m: PolicyMetadata) -> Seq<TableRowView> {
    seq![
        TableRowView::Entry("mutating:"@, text::spec_bool_str(m.mutating)),
        TableRowView::Entry(
            "background audit support:"@,
            text::spec_bool_str(m.background_audit),
        ),
        TableRowView::Entry(
            "context aware:"@,
            text::spec_bool_str(m.context_aware_resources.len() > 0),
        ),
        TableRowView::Entry("policy type:"@, spec_policy_type_str(m.policy_type)),
        TableRowView::Entry("execution mode:"@, spec_mode_str(m.execution_mode)),
    ] + (if m.execution_mode.spec_requires_protocol() {
        seq![
            TableRowView::Entry(
                "protocol version:"@,
                m.protocol_version->Some_0@,
            ),
        ]
    } else {
        Seq::empty()
    }) + (match m.minimum_kubewarden_version {
        Some(v) => seq![TableRowView::Entry("minimum kubewarden version:"@, v@)],
        None => Seq::empty(),
    })
}

/// The whole Details table: the title, the pretty rows, the fact rows, and,
/// only if any annotation is left over, a separated sub-table of them.
pub open spec fn spec_details_rows(m: PolicyMetadata) -> Seq<TableRowView> {
    let a = spec_annotations(m);
    seq![TableRowView::Title("Details"@)] + spec_pretty_rows(a) + spec_fact_rows(m) + (if spec_leftover(
        a,
    ).len() > 0 {
        seq![TableRowView::Spacer, TableRowView::Title("Annotations"@)] + spec_entry_rows(
            spec_leftover(a),
        )
    } else {
        Seq::empty()
    })
}

/// Appends the row of one pretty annotation, if present.
fn push_pretty_row(rows: &mut Vec<TableRow>, a: &Annotations, key: &'static str)
    ensures
        final(rows).deep_view() == old(rows).deep_view() + spec_pretty_row(a@, key@),
{
    let ghost pre = rows.deep_view();
    match a.get(key) {
        Some(v) => {
            let row = TableRow::Entry(annotation_row_key(key), v.clone());
            rows.push(row);
            proof {
                assert(rows.deep_view() =~= pre + spec_pretty_row(a@, key@));
            }
        },
        None => {
            proof {
                assert(rows.deep_view() =~= pre + spec_pretty_row(a@, key@));
            }
        },
    }
}

/// The leftover annotations of the second sub-table, in original order.
fn leftover_entries(a: &Annotations) -> (r: Vec<(String, String)>)
    ensures
        r.deep_view() == spec_leftover(a@),
{
    let mut r: Vec<(String, String)> = Vec::new();
    let n = a.entries.len();
    let mut i: usize = 0;
    proof {
        assert(a@.take(0) =~= Seq::<(Seq<char>, Seq<char>)>::empty());
        reveal(Seq::filter);
        assert(r.deep_view() =~= spec_leftover(a@.take(0)));
    }
    while i < n
        invariant
            n == a.entries.len(),
            i <= n,
            r.deep_view() == spec_leftover(a@.take(i as int)),
        decreases n - i,
    {
        let ghost pre = r.deep_view();
        let key = &a.entries[i].0;
        let keep = !text::str_eq(key.as_str(), ANNOTATION_TITLE) && !text::str_eq(
            key.as_str(),
            ANNOTATION_DESCRIPTION,
        ) && !text::str_eq(key.as_str(), ANNOTATION_AUTHOR) && !text::str_eq(
            key.as_str(),
            ANNOTATION_URL,
        ) && !text::str_eq(key.as_str(), ANNOTATION_SOURCE) && !text::str_eq(
            key.as_str(),
            ANNOTATION_LICENSE,
        ) && !text::str_eq(key.as_str(), ANNOTATION_USAGE);
        proof {
            assert(a@[i as int] == (a.entries@[i as int].0@, a.entries@[i as int].1@));
            assert(keep == (!spec_is_pretty_key(a@[i as int].0) && a@[i as int].0
                != ANNOTATION_USAGE@));
        }
        if keep {
            r.push((a.entries[i].0.clone(), a.entries[i].1.clone()));
            proof {
                assert(r.deep_view() =~= pre.push(a@[i as int]));
            }
        }
        proof {
            let t = a@.take(i as int + 1);
            assert(t.drop_last() =~= a@.take(i as int));
            assert(t.last() == a@[i as int]);
            reveal(Seq::filter);
            assert(r.deep_view() =~= spec_leftover(t));
        }
        i += 1;
    }
    proof {
        assert(a@.take(n as int) =~= a@);
    }
    r
}

/// Appends the fixed fact rows and the conditional version rows.
fn push_fact_rows(rows: &mut Vec<TableRow>, m: &PolicyMetadata)
    requires
        m.execution_mode.spec_requires_protocol() ==> m.protocol_version is Some,
    ensures
        final(rows).deep_view() == old(rows).deep_view() + spec_fact_rows(*m),
{
    let ghost pre = rows.deep_view();
    rows.push(TableRow::Entry(String::from_str("mutating:"), text::bool_string(m.mutating)));
    rows.push(
        TableRow::Entry(
            String::from_str("background audit support:"),
            text::bool_string(m.background_audit),
        ),
    );
    rows.push(
        TableRow::Entry(
            String::from_str("context aware:"),
            text::bool_string(m.context_aware_resources.len() > 0),
        ),
    );
    rows.push(
        TableRow::Entry(String::from_str("policy type:"), m.policy_type.as_str().to_owned()),
    );
    rows.push(
        TableRow::Entry(String::from_str("execution mode:"), m.execution_mode.as_str().to_owned()),
    );
    if m.execution_mode.requires_protocol() {
        match &m.protocol_version {
            Some(p) => {
                rows.push(TableRow::Entry(String::from_str("protocol version:"), p.clone()));
            },
            None => {
                proof {
                    assert(false);
                }
            },
        }
    }
    match &m.minimum_kubewarden_version {
        Some(v) => {
            rows.push(TableRow::Entry(String::from_str("minimum kubewarden version:"), v.clone()));
        },
        None => {},
    }
    proof {
        assert(rows.deep_view() =~= pre + spec_fact_rows(*m));
    }
}

/// Appends the separated leftover-annotation sub-table, when any binding is
/// left over.
fn push_leftover_block(rows: &mut Vec<TableRow>, a: &Annotations)
    ensures
        final(rows).deep_view() == old(rows).deep_view() + (if spec_leftover(a@).len() > 0 {
            seq![TableRowView::Spacer, TableRowView::Title("Annotations"@)] + spec_entry_rows(
                spec_leftover(a@),
            )
        } else {
            Seq::<TableRowView>::empty()
        }),
{
    let ghost pre = rows.deep_view();
    let leftover = leftover_entries(a);
    if leftover.len() == 0 {
        proof {
            assert(rows.deep_view() =~= pre + Seq::<TableRowView>::empty());
        }
        return ;
    }
    rows.push(TableRow::Spacer);
    rows.push(TableRow::Title(String::from_str("Annotations")));
    let ghost before_extra = rows.deep_view();
    let ghost lo = spec_leftover(a@);
    let k = leftover.len();
    let mut j: usize = 0;
    proof {
        assert(spec_entry_rows(lo.take(0)) =~= Seq::<TableRowView>::empty());
        assert(rows.deep_view() =~= before_extra + spec_entry_rows(lo.take(0)));
    }
    while j < k
        invariant
            k == leftover.len(),
            j <= k,
            leftover.deep_view() == lo,
            lo == spec_leftover(a@),
            rows.deep_view() == before_extra + spec_entry_rows(lo.take(j as int)),
        decreases k - j,
    {
        let ghost step_pre = rows.deep_view();
        rows.push(TableRow::Entry(leftover[j].0.clone(), leftover[j].1.clone()));
        proof {
            assert(lo[j as int] == (leftover@[j as int].0@, leftover@[j as int].1@));
            assert(rows.deep_view() =~= step_pre.push(
                TableRowView::Entry(lo[j as int].0, lo[j as int].1),
            ));
            assert(spec_entry_rows(lo.take(j as int + 1)) =~= spec_entry_rows(
                lo.take(j as int),
            ).push(TableRowView::Entry(lo[j as int].0, lo[j as int].1)));
        }
        j += 1;
    }
    proof {
        assert(lo.take(k as int) =~= lo);
        assert(rows.deep_view() =~= pre + (seq![
            TableRowView::Spacer,
            TableRowView::Title("Annotations"@),
        ] + spec_entry_rows(lo)));
    }
}

/// Builds the Details table of the interactive view.
///
/// Fails exactly when the execution mode makes the protocol version
/// meaningful and the metadata carries none; otherwise the rows are
/// `spec_details_rows`.
pub fn details_rows(m: &PolicyMetadata) -> (r: Result<Vec<TableRow>, RenderError>)
    ensures
        match r {
            Ok(rows) => !(m.execution_mode.spec_requires_protocol() && m.protocol_version is None)
                && rows.deep_view() == spec_details_rows(*m),
            Err(e) => m.execution_mode.spec_requires_protocol() && m.protocol_version is None && e
                == RenderError::ProtocolVersionMissing,
        },
{
    if m.execution_mode.requires_protocol() && m.protocol_version.is_none() {
        return Err(RenderError::ProtocolVersionMissing);
    }
    let empty = Annotations::new();
    let a: &Annotations = match &m.annotations {
        Some(a) => a,
        None => &empty,
    };
    proof {
        assert(a@ == spec_annotations(*m));
    }
    let mut rows: Vec<TableRow> = Vec::new();
    rows.push(TableRow::Title(String::from_str("Details")));
    proof {
        assert(rows.deep_view() =~= seq![TableRowView::Title("Details"@)]);
    }
    push_pretty_row(&mut rows, a, ANNOTATION_TITLE);
    push_pretty_row(&mut rows, a, ANNOTATION_DESCRIPTION);
    push_pretty_row(&mut rows, a, ANNOTATION_AUTHOR);
    push_pretty_row(&mut rows, a, ANNOTATION_URL);
    push_pretty_row(&mut rows, a, ANNOTATION_SOURCE);
    push_pretty_row(&mut rows, a, ANNOTATION_LICENSE);
    proof {
        assert(rows.deep_view() =~= seq![TableRowView::Title("Details"@)] + spec_pretty_rows(a@));
    }
    push_fact_rows(&mut rows, m);
    push_leftover_block(&mut rows, a);
    proof {
        assert(rows.deep_view() =~= spec_details_rows(*m));
    }
    Ok(rows)
}

/// The sentence introducing the Context Aware section.
pub const CONTEXT_INTRO: &'static str =
    "The policy requires access to the following Kubernetes resources at evaluation time:";

/// The cautionary note closing the Context Aware section.
pub const CONTEXT_CAUTION: &'static str =
    "To avoid abuses, review carefully what the policy requires access to.";

/// The interactive presentation of the metadata, in its fixed section
/// order: Details, Rules, the conditional Context Aware section, and the
/// conditional Usage section.
pub open spec fn spec_metadata_events(m: PolicyMetadata) -> Seq<RenderEventView> {
    seq![
        RenderEventView::Table(spec_details_rows(m)),
        RenderEventView::Blank,
        RenderEventView::Table(seq![TableRowView::Title("Rules"@)]),
        RenderEventView::RulesBlock,
        RenderEventView::Blank,
    ] + (if m.context_aware_resources.len() > 0 {
        seq![
            RenderEventView::Table(seq![TableRowView::Title("Context Aware"@)]),
            RenderEventView::Line(CONTEXT_INTRO@),
            RenderEventView::ResourcesBlock,
            RenderEventView::Line(CONTEXT_CAUTION@),
            RenderEventView::Blank,
        ]
    } else {
        Seq::empty()
    }) + (match spec_get(spec_annotations(m), ANNOTATION_USAGE@) {
        Some(u) => seq![
            RenderEventView::Table(seq![TableRowView::Title("Usage"@)]),
            RenderEventView::Markdown(u),
        ],
        None => Seq::empty(),
    })
}

/// Builds the interactive event stream for the metadata.
///
/// Fails exactly when the Details table does: a protocol version required
/// by the execution mode but absent. A metadata with an empty context-aware
/// resource set has no Context Aware section; one without a usage
/// annotation has no Usage section.
pub fn metadata_events(m: &PolicyMetadata) -> (r: Result<Vec<RenderEvent>, RenderError>)
    ensures
        match r {
            Ok(ev) => !(m.execution_mode.spec_requires_protocol() && m.protocol_version is None)
                && ev.deep_view() == spec_metadata_events(*m),
            Err(e) => m.execution_mode.spec_requires_protocol() && m.protocol_version is None && e
                == RenderError::ProtocolVersionMissing,
        },
{
    let details = match details_rows(m) {
        Ok(d) => d,
        Err(e) => {
            return Err(e);
        },
    };
    let mut ev: Vec<RenderEvent> = Vec::new();
    ev.push(RenderEvent::Table(details));
    ev.push(RenderEvent::Blank);
    let mut rules_title: Vec<TableRow> = Vec::new();
    rules_title.push(TableRow::Title(String::from_str("Rules")));
    proof {
        assert(rules_title.deep_view() =~= seq![TableRowView::Title("Rules"@)]);
    }
    ev.push(RenderEvent::Table(rules_title));
    ev.push(RenderEvent::RulesBlock);
    ev.push(RenderEvent::Blank);
    let ghost head = seq![
        RenderEventView::Table(spec_details_rows(*m)),
        RenderEventView::Blank,
        RenderEventView::Table(seq![TableRowView::Title("Rules"@)]),
        RenderEventView::RulesBlock,
        RenderEventView::Blank,
    ];
    proof {
        assert(ev.deep_view() =~= head);
    }
    if m.context_aware_resources.len() > 0 {
        let mut ctx_title: Vec<TableRow> = Vec::new();
        ctx_title.push(TableRow::Title(String::from_str("Context Aware")));
        proof {
            assert(ctx_title.deep_view() =~= seq![TableRowView::Title("Context Aware"@)]);
        }
        ev.push(RenderEvent::Table(ctx_title));
        ev.push(RenderEvent::Line(String::from_str(CONTEXT_INTRO)));
        ev.push(RenderEvent::ResourcesBlock);
        ev.push(RenderEvent::Line(String::from_str(CONTEXT_CAUTION)));
        ev.push(RenderEvent::Blank);
        proof {
            assert(ev.deep_view() =~= head + seq![
                RenderEventView::Table(seq![TableRowView::Title("Context Aware"@)]),
                RenderEventView::Line(CONTEXT_INTRO@),
                RenderEventView::ResourcesBlock,
                RenderEventView::Line(CONTEXT_CAUTION@),
                RenderEventView::Blank,
            ]);
        }
    }
    let ghost mid = ev.deep_view();
    proof {
        assert(mid == head + (if m.context_aware_resources.len() > 0 {
            seq![
                RenderEventView::Table(seq![TableRowView::Title("Context Aware"@)]),
                RenderEventView::Line(CONTEXT_INTRO@),
                RenderEventView::ResourcesBlock,
                RenderEventView::Line(CONTEXT_CAUTION@),
                RenderEventView::Blank,
            ]
        } else {
            Seq::<RenderEventView>::empty()
        })) by {
            if m.context_aware_resources.len() == 0 {
                assert(mid =~= head + Seq::<RenderEventView>::empty());
            }
        }
    }
    match &m.annotations {
        Some(ann) => {
            match ann.get(ANNOTATION_USAGE) {
                Some(u) => {
                    let mut usage_title: Vec<TableRow> = Vec::new();
                    usage_title.push(TableRow::Title(String::from_str("Usage")));
                    proof {
                        assert(usage_title.deep_view() =~= seq![TableRowView::Title("Usage"@)]);
                    }
                    ev.push(RenderEvent::Table(usage_title));
                    ev.push(RenderEvent::Markdown(u.clone()));
                    proof {
                        assert(spec_get(spec_annotations(*m), ANNOTATION_USAGE@) == Some(u@));
                        assert(ev.deep_view() =~= mid + seq![
                            RenderEventView::Table(seq![TableRowView::Title("Usage"@)]),
                            RenderEventView::Markdown(u@),
                        ]);
                        assert(ev.deep_view() == spec_metadata_events(*m));
                    }
                },
                None => {
                    proof {
                        assert(ev.deep_view() =~= mid + Seq::<RenderEventView>::empty());
                        assert(ev.deep_view() == spec_metadata_events(*m));
                    }
                },
            }
        },
        None => {
            proof {
                assert(spec_annotations(*m) =~= Seq::<(Seq<char>, Seq<char>)>::empty());
                assert(spec_get(spec_annotations(*m), ANNOTATION_USAGE@) is None);
                assert(ev.deep_view() =~= mid + Seq::<RenderEventView>::empty());
                assert(ev.deep_view() == spec_metadata_events(*m));
            }
        },
    }
    Ok(ev)
}

/// The rows of one signature layer's table: digest, media type, size, and,
/// when present, a separated sub-table of the layer's annotations.
pub open spec fn spec_layer_rows(l: SignatureLayerView) -> Seq<TableRowView> {
    seq![
        TableRowView::HeadEntry("Digest: "@, l.digest),
        TableRowView::HeadEntry("Media type: "@, l.media_type),
        TableRowView::HeadEntry("Size: "@, text::spec_decimal(l.size as nat)),
    ] + (match l.annotations {
        Some(a) => seq![TableRowView::Title("Annotations"@)] + spec_entry_rows(a),
        None => Seq::empty(),
    })
}

/// Builds one layer's table rows.
fn layer_rows(l: &SignatureLayer) -> (r: Vec<TableRow>)
    ensures
        r.deep_view() == spec_layer_rows(l.deep_view()),
{
    let mut rows: Vec<TableRow> = Vec::new();
    rows.push(TableRow::HeadEntry(String::from_str("Digest: "), l.digest.clone()));
    rows.push(TableRow::HeadEntry(String::from_str("Media type: "), l.media_type.clone()));
    rows.push(TableRow::HeadEntry(String::from_str("Size: "), text::u64_string(l.size)));
    match &l.annotations {
        Some(a) => {
            rows.push(TableRow::Title(String::from_str("Annotations")));
            let ghost before = rows.deep_view();
            let n = a.entries.len();
            let mut i: usize = 0;
            proof {
                assert(spec_entry_rows(a@.take(0)) =~= Seq::<TableRowView>::empty());
                assert(rows.deep_view() =~= before + spec_entry_rows(a@.take(0)));
            }
            while i < n
                invariant
                    n == a.entries.len(),
                    i <= n,
                    rows.deep_view() == before + spec_entry_rows(a@.take(i as int)),
                decreases n - i,
            {
                let ghost pre = rows.deep_view();
                rows.push(TableRow::Entry(a.entries[i].0.clone(), a.entries[i].1.clone()));
                proof {
                    assert(a@[i as int] == (a.entries@[i as int].0@, a.entries@[i as int].1@));
                    assert(rows.deep_view() =~= pre.push(
                        TableRowView::Entry(a@[i as int].0, a@[i as int].1),
                    ));
                    assert(spec_entry_rows(a@.take(i as int + 1)) =~= spec_entry_rows(
                        a@.take(i as int),
                    ).push(TableRowView::Entry(a@[i as int].0, a@[i as int].1)));
                }
                i += 1;
            }
            proof {
                assert(a@.take(n as int) =~= a@);
                assert(rows.deep_view() =~= spec_layer_rows(l.deep_view()));
            }
        },
        None => {
            proof {
                assert(rows.deep_view() =~= spec_layer_rows(l.deep_view()));
            }
        },
    }
    rows
}

/// One table per layer, each followed by a blank line.
pub open spec fn spec_layers_events(ls: Seq<SignatureLayerView>) -> Seq<RenderEventView>
    decreases ls.len(),
{
    if ls.len() == 0 {
        Seq::empty()
    } else {
        seq![RenderEventView::Table(spec_layer_rows(ls[0])), RenderEventView::Blank]
            + spec_layers_events(ls.drop_first())
    }
}

/// The interactive presentation of a found signature manifest.
pub open spec fn spec_signatures_pretty_events(ls: Seq<SignatureLayerView>) -> Seq<
    RenderEventView,
> {
    seq![
        RenderEventView::Blank,
        RenderEventView::Line("Sigstore signatures"@),
        RenderEventView::Blank,
    ] + spec_layers_events(ls)
}

/// The informational line for an unsigned artifact.
pub const NO_SIGNATURES_LINE: &'static str = "No sigstore signatures found";

/// The prefix of the diagnostic for a signature lookup that failed for any
/// other reason than an unknown manifest.
pub const SIGNATURE_FAILURE_PREFIX: &'static str =
    "Cannot determine if the policy has been signed. There was an error while attempting to fetch its signatures from the remote registry: ";

/// The events the signature outcome contributes after the metadata: a
/// manifest is rendered (lossless under the structured mode, one table per
/// layer under the interactive one); an unsigned artifact gets one
/// informational line; a manifest of an unsupported variant gets silence;
/// any other failure gets one diagnostic line and never aborts.
pub open spec fn spec_outcome_events(o: SignatureOutcome, output: OutputType) -> Seq<
    RenderEventView,
> {
    match o {
        SignatureOutcome::Found(m) => match output {
            OutputType::Yaml => seq![RenderEventView::SignaturesYaml],
            OutputType::Pretty => spec_signatures_pretty_events(m.deep_view()),
        },
        SignatureOutcome::NotSigned => seq![
            RenderEventView::Blank,
            RenderEventView::Line(NO_SIGNATURES_LINE@),
        ],
        SignatureOutcome::UnsupportedFormat => Seq::empty(),
        SignatureOutcome::Failure(msg) => seq![
            RenderEventView::Blank,
            RenderEventView::Line(SIGNATURE_FAILURE_PREFIX@ + msg@ + " "@),
        ],
    }
}

/// Builds the events for the signature outcome. Never fails: signature
/// status is auxiliary to metadata inspection.
pub fn signature_outcome_events(o: SignatureOutcome, output: &OutputType) -> (r: Vec<RenderEvent>)
    ensures
        r.deep_view() == spec_outcome_events(o, *output),
{
    let mut ev: Vec<RenderEvent> = Vec::new();
    match o {
        SignatureOutcome::Found(m) => {
            match output {
                OutputType::Yaml => {
                    ev.push(RenderEvent::SignaturesYaml);
                    proof {
                        assert(ev.deep_view() =~= spec_outcome_events(
                            SignatureOutcome::Found(m),
                            OutputType::Yaml,
                        ));
                    }
                },
                OutputType::Pretty => {
                    ev.push(RenderEvent::Blank);
                    ev.push(RenderEvent::Line(String::from_str("Sigstore signatures")));
                    ev.push(RenderEvent::Blank);
                    let ghost head = ev.deep_view();
                    let ghost ls = m.deep_view();
                    let n = m.layers.len();
                    let mut i: usize = 0;
                    proof {
                        assert(ls.skip(0) =~= ls);
                        assert(ev.deep_view() + spec_layers_events(ls) =~= head
                            + spec_layers_events(ls));
                    }
                    while i < n
                        invariant
                            n == m.layers.len(),
                            i <= n,
                            ls == m.deep_view(),
                            head + spec_layers_events(ls) == ev.deep_view() + spec_layers_events(
                                ls.skip(i as int),
                            ),
                        decreases n - i,
                    {
                        let ghost pre = ev.deep_view();
                        let rows = layer_rows(&m.layers[i]);
                        ev.push(RenderEvent::Table(rows));
                        ev.push(RenderEvent::Blank);
                        proof {
                            let t = ls.skip(i as int);
                            assert(t[0] == ls[i as int]);
                            assert(t.drop_first() =~= ls.skip(i as int + 1));
                            assert(ev.deep_view() =~= pre + seq![
                                RenderEventView::Table(spec_layer_rows(ls[i as int])),
                                RenderEventView::Blank,
                            ]);
                            assert(pre + spec_layers_events(t) =~= ev.deep_view()
                                + spec_layers_events(ls.skip(i as int + 1)));
                        }
                        i += 1;
                    }
                    proof {
                        assert(spec_layers_events(ls.skip(n as int)) =~= Seq::<
                            RenderEventView,
                        >::empty());
                        assert(ev.deep_view() =~= head + spec_layers_events(ls));
                        assert(ev.deep_view() =~= spec_outcome_events(
                            SignatureOutcome::Found(m),
                            OutputType::Pretty,
                        ));
                    }
                },
            }
        },
        SignatureOutcome::NotSigned => {
            ev.push(RenderEvent::Blank);
            ev.push(RenderEvent::Line(String::from_str(NO_SIGNATURES_LINE)));
            proof {
                assert(ev.deep_view() =~= spec_outcome_events(SignatureOutcome::NotSigned, *output));
            }
        },
        SignatureOutcome::UnsupportedFormat => {
            proof {
                assert(ev.deep_view() =~= spec_outcome_events(
                    SignatureOutcome::UnsupportedFormat,
                    *output,
                ));
            }
        },
        SignatureOutcome::Failure(msg) => {
            ev.push(RenderEvent::Blank);
            let mut line = String::from_str(SIGNATURE_FAILURE_PREFIX);
            line.append(msg.as_str());
            line.append(" ");
            ev.push(RenderEvent::Line(line));
            proof {
                assert(ev.deep_view() =~= spec_outcome_events(
                    SignatureOutcome::Failure(msg),
                    *output,
                ));
            }
        },
    }
    ev
}

/// What the whole inspect flow can fail with.
#[derive(Clone, Debug, PartialEq, Eq)]
pub enum InspectError {
    /// The artifact carries no metadata; the message instructs the user how
    /// to add it. Holds the artifact reference.
    MetadataMissing(String),
    /// The execution mode makes the protocol version meaningful, but the
    /// metadata carries none.
    ProtocolVersionMissing,
}

impl InspectError {
    /// The error's message.
    pub fn message(&self) -> (r: String)
        ensures
            match self {
                InspectError::MetadataMissing(uri) => r@ == "No Kubewarden metadata found inside of '"@
                    + uri@
                    + "'.\nPolicies can be annotated with the `kwctl annotate` command."@,
                InspectError::ProtocolVersionMissing => r@
                    == "Invalid policy: protocol_version not defined"@,
            },
    {
        match self {
            InspectError::MetadataMissing(uri) => {
                let mut msg = String::from_str("No Kubewarden metadata found inside of '");
                msg.append(uri.as_str());
                msg.append("'.\nPolicies can be annotated with the `kwctl annotate` command.");
                msg
            },
            InspectError::ProtocolVersionMissing => {
                String::from_str("Invalid policy: protocol_version not defined")
            },
        }
    }
}

/// The whole inspect flow's decision: given the extracted metadata (or its
/// absence) and the classified signature outcome, the full ordered event
/// stream, or the one fatal error.
///
/// Absent metadata is fatal before anything is rendered. Under the
/// structured mode the metadata is rendered losslessly; under the
/// interactive mode through `spec_metadata_events`. The signature outcome's
/// events follow; a signature failure never makes the flow fail.
pub fn inspect_events(
    uri: &str,
    output: &OutputType,
    metadata: Option<PolicyMetadata>,
    signatures: SignatureOutcome,
) -> (r: Result<Vec<RenderEvent>, InspectError>)
    ensures
        match metadata {
            None => r matches Err(e) && e matches InspectError::MetadataMissing(u) && u@ == uri@,
            Some(m) => {
                if (output is Pretty) && m.execution_mode.spec_requires_protocol()
                    && m.protocol_version is None {
                    r == Err::<Vec<RenderEvent>, InspectError>(InspectError::ProtocolVersionMissing)
                } else {
                    r matches Ok(ev) && ev.deep_view() == (match output {
                        OutputType::Yaml => seq![RenderEventView::MetadataYaml],
                        OutputType::Pretty => spec_metadata_events(m),
                    }) + spec_outcome_events(signatures, *output)
                }
            },
        },
{
    let m = match metadata {
        Some(m) => m,
        None => {
            return Err(InspectError::MetadataMissing(uri.to_owned()));
        },
    };
    let mut ev: Vec<RenderEvent> = match output {
        OutputType::Yaml => {
            let mut ev: Vec<RenderEvent> = Vec::new();
            ev.push(RenderEvent::MetadataYaml);
            ev
        },
        OutputType::Pretty => {
            match metadata_events(&m) {
                Ok(ev) => ev,
                Err(_) => {
                    return Err(InspectError::ProtocolVersionMissing);
                },
            }
        },
    };
    let ghost head = ev.deep_view();
    let mut tail = signature_outcome_events(signatures, output);
    let ghost tail_deep = tail.deep_view();
    ev.append(&mut tail);
    proof {
        assert(ev.deep_view() =~= head + tail_deep);
        assert(head =~= match output {
            OutputType::Yaml => seq![RenderEventView::MetadataYaml],
            OutputType::Pretty => spec_metadata_events(m),
        });
    }
    Ok(ev)
}

/// Law: a recognized pretty key is displayed under its display key — the
/// namespace prefix stripped exactly once and a colon appended — which
/// differs from its prefixed form; annotations outside the pretty list
/// keep their keys verbatim in the leftover sub-table, which never holds a
/// recognized key. So no annotations map makes the Details table show both
/// the prefixed and the stripped form of the same pretty key.
pub proof fn lemma_strip_applied_once(a: Seq<(Seq<char>, Seq<char>)>)
    ensures
        spec_row_key(ANNOTATION_TITLE@) == "title:"@,
        spec_row_key(ANNOTATION_DESCRIPTION@) == "description:"@,
        spec_row_key(ANNOTATION_AUTHOR@) == "author:"@,
        spec_row_key(ANNOTATION_URL@) == "url:"@,
        spec_row_key(ANNOTATION_SOURCE@) == "source:"@,
        spec_row_key(ANNOTATION_LICENSE@) == "license:"@,
        spec_row_key(ANNOTATION_TITLE@) != ANNOTATION_TITLE@ + ":"@,
        spec_row_key(ANNOTATION_DESCRIPTION@) != ANNOTATION_DESCRIPTION@ + ":"@,
        spec_row_key(ANNOTATION_AUTHOR@) != ANNOTATION_AUTHOR@ + ":"@,
        spec_row_key(ANNOTATION_URL@) != ANNOTATION_URL@ + ":"@,
        spec_row_key(ANNOTATION_SOURCE@) != ANNOTATION_SOURCE@ + ":"@,
        spec_row_key(ANNOTATION_LICENSE@) != ANNOTATION_LICENSE@ + ":"@,
        forall|i: int|
            0 <= i < spec_leftover(a).len() ==> !spec_is_pretty_key(
                #[trigger] spec_leftover(a)[i].0,
            ),
{
    reveal_strlit("io.kubewarden.policy.");
    reveal_strlit("io.kubewarden.policy.title");
    reveal_strlit("io.kubewarden.policy.description");
    reveal_strlit("io.kubewarden.policy.author");
    reveal_strlit("io.kubewarden.policy.url");
    reveal_strlit("io.kubewarden.policy.source");
    reveal_strlit("io.kubewarden.policy.license");
    reveal_strlit(":");
    reveal_strlit("title:");
    reveal_strlit("description:");
    reveal_strlit("author:");
    reveal_strlit("url:");
    reveal_strlit("source:");
    reveal_strlit("license:");
    assert((ANNOTATION_TITLE@ + ":"@).subrange(0, ANNOTATION_PREFIX@.len() as int) =~= ANNOTATION_PREFIX@);
    assert((ANNOTATION_TITLE@ + ":"@).skip(ANNOTATION_PREFIX@.len() as int) =~= "title:"@);
    assert((ANNOTATION_DESCRIPTION@ + ":"@).subrange(0, ANNOTATION_PREFIX@.len() as int)
        =~= ANNOTATION_PREFIX@);
    assert((ANNOTATION_DESCRIPTION@ + ":"@).skip(ANNOTATION_PREFIX@.len() as int)
        =~= "description:"@);
    assert((ANNOTATION_AUTHOR@ + ":"@).subrange(0, ANNOTATION_PREFIX@.len() as int)
        =~= ANNOTATION_PREFIX@);
    assert((ANNOTATION_AUTHOR@ + ":"@).skip(ANNOTATION_PREFIX@.len() as int) =~= "author:"@);
    assert((ANNOTATION_URL@ + ":"@).subrange(0, ANNOTATION_PREFIX@.len() as int)
        =~= ANNOTATION_PREFIX@);
    assert((ANNOTATION_URL@ + ":"@).skip(ANNOTATION_PREFIX@.len() as int) =~= "url:"@);
    assert((ANNOTATION_SOURCE@ + ":"@).subrange(0, ANNOTATION_PREFIX@.len() as int)
        =~= ANNOTATION_PREFIX@);
    assert((ANNOTATION_SOURCE@ + ":"@).skip(ANNOTATION_PREFIX@.len() as int) =~= "source:"@);
    assert((ANNOTATION_LICENSE@ + ":"@).subrange(0, ANNOTATION_PREFIX@.len() as int)
        =~= ANNOTATION_PREFIX@);
    assert((ANNOTATION_LICENSE@ + ":"@).skip(ANNOTATION_PREFIX@.len() as int) =~= "license:"@);
    broadcast use vstd::seq_lib::group_filter_ensures;

    assert forall|i: int|
        0 <= i < spec_leftover(a).len() implies !spec_is_pretty_key(
        #[trigger] spec_leftover(a)[i].0,
    ) by {
        assert(spec_leftover(a) == a.filter(
            |e: (Seq<char>, Seq<char>)| !spec_is_pretty_key(e.0) && e.0 != ANNOTATION_USAGE@,
        ));
    }
}

/// Law: the Context Aware section appears in the interactive output
/// exactly when the context-aware-resource set is non-empty.
pub proof fn lemma_context_aware_presence(m: PolicyMetadata)
    ensures
        m.context_aware_resources.len() == 0 ==> forall|i: int|
            0 <= i < spec_metadata_events(m).len() ==> !(#[trigger] spec_metadata_events(m)[i]
                is ResourcesBlock),
        m.context_aware_resources.len() > 0 ==> spec_metadata_events(m).contains(
            RenderEventView::ResourcesBlock,
        ),
{
    let ev = spec_metadata_events(m);
    if m.context_aware_resources.len() == 0 {
        assert forall|i: int| 0 <= i < ev.len() implies !(#[trigger] ev[i] is ResourcesBlock) by {
            if i >= 5 {
                match spec_get(spec_annotations(m), ANNOTATION_USAGE@) {
                    Some(u) => {
                        assert(ev[i] == seq![
                            RenderEventView::Table(seq![TableRowView::Title("Usage"@)]),
                            RenderEventView::Markdown(u),
                        ][i - 5]);
                    },
                    None => {},
                }
            }
        }
    } else {
        assert(ev[7] == RenderEventView::ResourcesBlock);
        assert(ev.contains(RenderEventView::ResourcesBlock));
    }
}

/// Frames structured text as a fenced code block for the markdown path,
/// the way the Rules and Context Aware sections are rendered.
pub fn fence_yaml(text: &str) -> (r: String)
    ensures
        r@ == "```yaml\n"@ + text@ + "```"@,
{
    let mut out = String::from_str("```yaml\n");
    out.append(text);
    out.append("```");
    out
}

} // verus!

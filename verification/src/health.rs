//! The summary pipeline: from the layer-0 nodes of a period to a summary
//! node and a report.

use vstd::prelude::*;
use crate::clock::{now_millis, utc_date, utc_date_text};
use crate::database::holds_id;
use crate::error::OrionError;
use crate::llm::LlmAdapter;
use crate::models::{node_views, HealthSummaryReport, MedicalNode, NodeView, SummaryType};
use crate::text::{decimal, decimal_text, join, joined, texts};
use crate::vector_store::{creation_outcome, on_layer, summary_metadata, VectorStoreService};

verus! {

/// The nodes of `nodes` that were created from `start` to `end`, both
/// included, in their order.
pub open spec fn in_window(nodes: Seq<NodeView>, start: i64, end: i64) -> Seq<NodeView>
    decreases nodes.len(),
{
    if nodes.len() == 0 {
        Seq::empty()
    } else if start <= nodes.last().metadata.created_at <= end {
        in_window(nodes.drop_last(), start, end).push(nodes.last())
    } else {
        in_window(nodes.drop_last(), start, end)
    }
}

/// The contents of `nodes`.
pub open spec fn contents_of(nodes: Seq<NodeView>) -> Seq<Seq<char>> {
    nodes.map_values(|n: NodeView| n.content)
}

/// The identifiers of `nodes`.
pub open spec fn ids_of(nodes: Seq<NodeView>) -> Seq<Seq<char>> {
    nodes.map_values(|n: NodeView| n.id)
}

/// The record types of `nodes`, each once, in the order of their first
/// occurrence.
pub open spec fn distinct_types(nodes: Seq<NodeView>) -> Seq<Seq<char>>
    decreases nodes.len(),
{
    if nodes.len() == 0 {
        Seq::empty()
    } else {
        let before = distinct_types(nodes.drop_last());
        if before.contains(nodes.last().metadata.record_type) {
            before
        } else {
            before.push(nodes.last().metadata.record_type)
        }
    }
}

/// How many nodes of `nodes` have the record type `record_type`.
pub open spec fn count_of(nodes: Seq<NodeView>, record_type: Seq<char>) -> nat
    decreases nodes.len(),
{
    if nodes.len() == 0 {
        0
    } else if nodes.last().metadata.record_type == record_type {
        count_of(nodes.drop_last(), record_type) + 1
    } else {
        count_of(nodes.drop_last(), record_type)
    }
}

/// The insight for one record type.
pub open spec fn insight_line(count: nat, record_type: Seq<char>) -> Seq<char> {
    decimal_text(count) + " registros de "@ + record_type
}

/// The insights for `nodes`: one line for each record type with the number
/// of its nodes, or one line that says that there is too little to go on.
pub open spec fn insights_of(nodes: Seq<NodeView>) -> Seq<Seq<char>> {
    if nodes.len() == 0 {
        seq!["No hay suficientes datos para generar insights"@]
    } else {
        distinct_types(nodes).map_values(|t: Seq<char>| insight_line(count_of(nodes, t), t))
    }
}

/// The recommendations that follow from a number of insights.
pub open spec fn recommendations_for(insights: nat) -> Seq<Seq<char>> {
    if insights < 3 {
        seq!["Registra más información médica para obtener mejores recomendaciones"@]
    } else {
        seq![
            "Mantén un registro regular de tu salud"@,
            "Consulta con tu médico para análisis detallados"@,
        ]
    }
}

/// The summary that is put together without a backend: a header with the
/// period's word and the number of records, then the contents.
pub open spec fn fallback_text(contents: Seq<Seq<char>>, summary_type: SummaryType) -> Seq<char> {
    "[Resumen "@ + summary_type.word() + " automático]\n\nTotal de registros: "@ + decimal_text(
        contents.len(),
    ) + "\n\n"@ + joined(contents, "\n\n"@)
}

/// The label of a period, given the dates of its two ends.
pub open spec fn period_text(summary_type: SummaryType, start: Seq<char>, end: Seq<char>) -> Seq<
    char,
> {
    summary_type.word() + ": "@ + start + " - "@ + end
}

/// A record type that no node has is counted zero times.
proof fn absent_type_counts_zero(nodes: Seq<NodeView>, record_type: Seq<char>)
    requires
        forall|j: int| 0 <= j < nodes.len() ==> (#[trigger] nodes[j]).metadata.record_type != record_type,
    ensures
        count_of(nodes, record_type) == 0,
    decreases nodes.len(),
{
    if nodes.len() > 0 {
        assert(nodes.last() == nodes[nodes.len() - 1]);
        assert forall|j: int| 0 <= j < nodes.drop_last().len() implies (#[trigger] nodes.drop_last()[j]).metadata.record_type
            != record_type by {
            assert(nodes.drop_last()[j] == nodes[j]);
        }
        absent_type_counts_zero(nodes.drop_last(), record_type);
    }
}

/// No more nodes have a given record type than there are nodes.
proof fn count_is_bounded(nodes: Seq<NodeView>, record_type: Seq<char>)
    ensures
        count_of(nodes, record_type) <= nodes.len(),
    decreases nodes.len(),
{
    if nodes.len() > 0 {
        count_is_bounded(nodes.drop_last(), record_type);
    }
}

/// There are no more distinct record types than nodes, and with a node
/// there is a type.
pub proof fn distinct_types_are_bounded(nodes: Seq<NodeView>)
    ensures
        distinct_types(nodes).len() <= nodes.len(),
        nodes.len() > 0 ==> distinct_types(nodes).len() > 0,
    decreases nodes.len(),
{
    if nodes.len() > 0 {
        distinct_types_are_bounded(nodes.drop_last());
        let before = distinct_types(nodes.drop_last());
        if before.contains(nodes.last().metadata.record_type) {
            assert(before.len() > 0);
        }
    }
}

/// The nodes of `nodes` that were created from `start_date` to `end_date`.
pub fn filter_window(nodes: &[MedicalNode], start_date: i64, end_date: i64) -> (r: Vec<MedicalNode>)
    ensures
        node_views(r@) == in_window(node_views(nodes@), start_date, end_date),
{
    let ghost table = node_views(nodes@);
    let mut found: Vec<MedicalNode> = Vec::new();
    let mut i: usize = 0;
    while i < nodes.len()
        invariant
            i <= nodes.len(),
            table == node_views(nodes@),
            node_views(found@) == in_window(table.take(i as int), start_date, end_date),
        decreases nodes.len() - i,
    {
        proof {
            assert(table.take(i as int + 1).drop_last() == table.take(i as int));
            assert(table.take(i as int + 1).last() == nodes@[i as int]@);
        }
        if nodes[i].metadata.created_at >= start_date && nodes[i].metadata.created_at <= end_date {
            let ghost before = found@;
            let copy = nodes[i].duplicate();
            found.push(copy);
            proof {
                assert(node_views(found@) =~= node_views(before).push(copy@));
            }
        }
        i = i + 1;
    }
    proof {
        assert(table.take(nodes.len() as int) == table);
    }
    found
}

/// The contents of `nodes`.
pub fn collect_contents(nodes: &[MedicalNode]) -> (r: Vec<String>)
    ensures
        texts(r@) == contents_of(node_views(nodes@)),
{
    let mut out: Vec<String> = Vec::new();
    let mut i: usize = 0;
    while i < nodes.len()
        invariant
            i <= nodes.len(),
            out@.len() == i,
            forall|j: int| 0 <= j < i ==> (#[trigger] out@[j])@ == nodes@[j]@.content,
        decreases nodes.len() - i,
    {
        out.push(nodes[i].content.clone());
        i = i + 1;
    }
    proof {
        assert(texts(out@) =~= contents_of(node_views(nodes@)));
    }
    out
}

/// The identifiers of `nodes`.
pub fn collect_ids(nodes: &[MedicalNode]) -> (r: Vec<String>)
    ensures
        texts(r@) == ids_of(node_views(nodes@)),
{
    let mut out: Vec<String> = Vec::new();
    let mut i: usize = 0;
    while i < nodes.len()
        invariant
            i <= nodes.len(),
            out@.len() == i,
            forall|j: int| 0 <= j < i ==> (#[trigger] out@[j])@ == nodes@[j]@.id,
        decreases nodes.len() - i,
    {
        out.push(nodes[i].id.clone());
        i = i + 1;
    }
    proof {
        assert(texts(out@) =~= ids_of(node_views(nodes@)));
    }
    out
}

/// The summary of `nodes` that needs no backend.
pub fn fallback_content(nodes: &[MedicalNode], summary_type: SummaryType) -> (r: String)
    ensures
        r@ == fallback_text(contents_of(node_views(nodes@)), summary_type),
{
    let contents = collect_contents(nodes);
    let count = decimal(nodes.len());
    let body = join(contents.as_slice(), "\n\n");
    let mut out = String::from_str("[Resumen ");
    out.append(summary_type.as_str());
    out.append(" automático]\n\nTotal de registros: ");
    out.append(count.as_str());
    out.append("\n\n");
    out.append(body.as_str());
    proof {
        assert(contents_of(node_views(nodes@)).len() == nodes@.len());
    }
    out
}

/// The content of a summary of `nodes`, given what a backend generated:
/// the backend's answer where it was asked, and the summary that needs no
/// backend where it was not.
pub fn summary_content(
    nodes: &[MedicalNode],
    summary_type: SummaryType,
    generated: Option<Result<String, OrionError>>,
) -> (r: Result<String, OrionError>)
    ensures
        match generated {
            Some(answer) => r == answer,
            None => r matches Ok(s) && s@ == fallback_text(
                contents_of(node_views(nodes@)),
                summary_type,
            ),
        },
{
    match generated {
        Some(answer) => answer,
        None => Ok(fallback_content(nodes, summary_type)),
    }
}

/// The insights for `nodes`.
pub fn gather_insights(nodes: &[MedicalNode]) -> (r: Vec<String>)
    ensures
        texts(r@) == insights_of(node_views(nodes@)),
{
    let ghost table = node_views(nodes@);
    let mut types: Vec<String> = Vec::new();
    let mut counts: Vec<usize> = Vec::new();
    let mut i: usize = 0;
    while i < nodes.len()
        invariant
            i <= nodes.len(),
            table == node_views(nodes@),
            types@.len() == counts@.len(),
            texts(types@) == distinct_types(table.take(i as int)),
            forall|k: int|
                0 <= k < counts@.len() ==> (#[trigger] counts@[k]) == count_of(
                    table.take(i as int),
                    types@[k]@,
                ),
            forall|j: int|
                0 <= j < i ==> texts(types@).contains((#[trigger] table[j]).metadata.record_type),
            forall|a: int, b: int|
                0 <= a < b < types@.len() ==> (#[trigger] types@[a])@ != (#[trigger] types@[b])@,
        decreases nodes.len() - i,
    {
        let ghost prefix = table.take(i as int);
        let ghost next = table.take(i as int + 1);
        let ghost old_types = types@;
        let ghost old_counts = counts@;
        let ghost this_type = nodes@[i as int]@.metadata.record_type;
        proof {
            assert(next.drop_last() == prefix);
            assert(next.last() == nodes@[i as int]@);
            assert(table[i as int] == nodes@[i as int]@);
        }
        let mut at: usize = 0;
        let mut found = false;
        while at < types.len() && !found
            invariant
                at <= types@.len(),
                i < nodes.len(),
                found ==> at < types@.len() && types@[at as int]@ == this_type,
                this_type == nodes@[i as int]@.metadata.record_type,
                forall|k: int| 0 <= k < at ==> (#[trigger] types@[k])@ != this_type,
            decreases types.len() - at + (if found { 0int } else { 1int }),
        {
            if types[at] == nodes[i].metadata.record_type {
                found = true;
            } else {
                at = at + 1;
            }
        }
        if found {
            proof {
                count_is_bounded(prefix, this_type);
                assert(texts(old_types)[at as int] == this_type);
                assert(texts(old_types).contains(this_type));
            }
            let bumped = counts[at] + 1;
            counts.set(at, bumped);
            proof {
                assert forall|k: int| 0 <= k < counts@.len() implies (#[trigger] counts@[k])
                    == count_of(next, types@[k]@) by {
                    if k != at {
                        assert(counts@[k] == old_counts[k]);
                        assert(types@[k]@ != types@[at as int]@);
                    }
                }
            }
        } else {
            proof {
                assert forall|k: int| 0 <= k < texts(old_types).len() implies texts(old_types)[k]
                    != this_type by {
                    assert(texts(old_types)[k] == old_types[k]@);
                }
                assert(!texts(old_types).contains(this_type));
                assert forall|j: int| 0 <= j < prefix.len() implies (#[trigger] prefix[j]).metadata.record_type
                    != this_type by {
                    assert(prefix[j] == table[j]);
                    assert(texts(old_types).contains(table[j].metadata.record_type));
                }
                absent_type_counts_zero(prefix, this_type);
            }
            types.push(nodes[i].metadata.record_type.clone());
            counts.push(1);
            proof {
                assert(texts(types@) =~= texts(old_types).push(this_type));
                assert forall|k: int| 0 <= k < counts@.len() implies (#[trigger] counts@[k])
                    == count_of(next, types@[k]@) by {
                    if k < old_counts.len() {
                        assert(counts@[k] == old_counts[k]);
                        assert(types@[k] == old_types[k]);
                        assert(texts(old_types)[k] == old_types[k]@);
                    }
                }
            }
        }
        proof {
            assert forall|j: int| 0 <= j < i + 1 implies texts(types@).contains(
                (#[trigger] table[j]).metadata.record_type,
            ) by {
                if j < i {
                    let w = choose|w: int|
                        0 <= w < texts(old_types).len() && texts(old_types)[w]
                            == table[j].metadata.record_type;
                    assert(texts(types@)[w] == table[j].metadata.record_type);
                } else if found {
                    assert(texts(types@)[at as int] == this_type);
                } else {
                    assert(texts(types@)[types@.len() - 1] == this_type);
                }
            }
        }
        i = i + 1;
    }
    proof {
        assert(table.take(nodes.len() as int) == table);
    }
    let mut insights: Vec<String> = Vec::new();
    let mut k: usize = 0;
    while k < types.len()
        invariant
            k <= types@.len(),
            types@.len() == counts@.len(),
            insights@.len() == k,
            forall|q: int|
                0 <= q < k ==> (#[trigger] insights@[q])@ == insight_line(
                    counts@[q] as nat,
                    types@[q]@,
                ),
        decreases types.len() - k,
    {
        let mut line = decimal(counts[k]);
        line.append(" registros de ");
        line.append(types[k].as_str());
        insights.push(line);
        k = k + 1;
    }
    if insights.len() == 0 {
        insights.push(String::from_str("No hay suficientes datos para generar insights"));
        proof {
            distinct_types_are_bounded(table);
            assert(table.len() == 0);
            assert(texts(insights@) =~= insights_of(table));
        }
    } else {
        proof {
            assert(table.len() > 0);
            assert(texts(insights@) =~= insights_of(table));
        }
    }
    insights
}

/// The recommendations that follow from `insights`.
pub fn generate_recommendations(insights: &[String]) -> (r: Vec<String>)
    ensures
        texts(r@) == recommendations_for(insights@.len()),
{
    let mut recommendations: Vec<String> = Vec::new();
    if insights.len() < 3 {
        recommendations.push(
            String::from_str("Registra más información médica para obtener mejores recomendaciones"),
        );
    } else {
        recommendations.push(String::from_str("Mantén un registro regular de tu salud"));
        recommendations.push(String::from_str("Consulta con tu médico para análisis detallados"));
    }
    proof {
        assert(texts(recommendations@) =~= recommendations_for(insights@.len()));
    }
    recommendations
}

/// The calendar date of an instant, `None` for an instant out of range.
pub fn format_date(date: i64) -> (r: Option<String>)
    ensures
        match r {
            Some(s) => utc_date_text(date) == Some(s@),
            None => utc_date_text(date) is None,
        },
{
    utc_date(date)
}

/// The record type of the summaries that the pipeline creates.
pub open spec fn period_summary_type() -> Seq<char> {
    "health_period_summary"@
}

/// The summary node that the pipeline creates for `window`.
pub open spec fn period_summary_node(
    id: Seq<char>,
    content: Seq<char>,
    now: i64,
    patient: Seq<char>,
    window: Seq<NodeView>,
) -> NodeView {
    NodeView {
        id,
        content,
        metadata: summary_metadata(now, period_summary_type(), patient, 1, ids_of(window)),
        embedding: None,
    }
}

/// `report` is the report for the records `window` of the period `period`,
/// with the summary node `id` where one was created.
pub open spec fn report_matches(
    report: HealthSummaryReport,
    window: Seq<NodeView>,
    period: Seq<char>,
    id: Option<Seq<char>>,
) -> bool {
    &&& report.period@ == period
    &&& report.total_records == window.len()
    &&& texts(report.key_insights@) == insights_of(window)
    &&& texts(report.recommendations@) == recommendations_for(insights_of(window).len())
    &&& report.used_llm == id is Some
    &&& match report.summary_node_id {
        Some(s) => id == Some(s@),
        None => id is None,
    }
}

/// What the pipeline comes to for a store that held `before` and holds
/// `after`, whatever the backend answered.
///
/// It fails, without a change to the store, on a date out of range and
/// before the store is initialized; with fewer than three records in the
/// period it never fails and creates no node. A report always shows the
/// period's records, and either no node was created and the store is as
/// it was, or there were three records or more and the store has grown by
/// one summary node on layer 1 that references all of them.
pub open spec fn pipeline_outcome(
    before: Option<Seq<NodeView>>,
    patient: Seq<char>,
    start: i64,
    end: i64,
    summary_type: SummaryType,
    r: Result<HealthSummaryReport, OrionError>,
    after: Option<Seq<NodeView>>,
) -> bool {
    let dated = utc_date_text(start) is Some && utc_date_text(end) is Some;
    let window = in_window(on_layer(before->0, 0), start, end);
    let period = period_text(summary_type, utc_date_text(start)->0, utc_date_text(end)->0);
    match r {
        Err(e) => {
            &&& after == before
            &&& !dated ==> (e matches OrionError::InvalidInput(m) && m@ == "Date out of range"@)
            &&& dated && before is None ==> (e matches OrionError::Database(m) && m@
                == "Database not initialized"@)
            &&& dated && before is Some ==> window.len() >= 3
        },
        Ok(report) => {
            &&& dated
            &&& before is Some
            &&& match report.summary_node_id {
                None => report_matches(report, window, period, None) && after == before,
                Some(id) => {
                    &&& report_matches(report, window, period, Some(id@))
                    &&& window.len() >= 3
                    &&& !holds_id(before->0, id@)
                    &&& exists|content: Seq<char>, now: i64|
                        after == Some(
                            before->0.push(
                                #[trigger] period_summary_node(id@, content, now, patient, window),
                            ),
                        )
                },
            }
        },
    }
}

/// Whether the pipeline asks a backend for a summary: it needs at least
/// three records and an available backend.
pub fn should_generate(records: usize, backend_available: bool) -> (r: bool)
    ensures
        r == (records >= 3 && backend_available),
{
    records >= 3 && backend_available
}

/// What the pipeline has settled before any backend is asked.
#[derive(Debug)]
pub struct SummaryPlan {
    /// The period's label.
    pub period: String,
    /// The period's records.
    pub relevant: Vec<MedicalNode>,
    /// Whether a backend is asked for a summary.
    pub ask_backend: bool,
}

/// Begins the pipeline for the period from `start_date` to `end_date`:
/// labels the period, reads its records, and settles whether a backend is
/// asked, which takes three records or more and an available backend. It
/// fails on a date out of range and before the store is initialized.
pub fn plan_summary(
    vector_store: &VectorStoreService,
    start_date: i64,
    end_date: i64,
    summary_type: SummaryType,
    backend_available: bool,
) -> (r: Result<SummaryPlan, OrionError>)
    ensures
        r is Ok <==> (utc_date_text(start_date) is Some && utc_date_text(end_date) is Some
            && vector_store.nodes() is Some),
        r matches Ok(plan) ==> {
            let window = in_window(on_layer(vector_store.nodes()->0, 0), start_date, end_date);
            &&& plan.period@ == period_text(
                summary_type,
                utc_date_text(start_date)->0,
                utc_date_text(end_date)->0,
            )
            &&& node_views(plan.relevant@) == window
            &&& plan.ask_backend == (window.len() >= 3 && backend_available)
        },
        r matches Err(e) ==> (if utc_date_text(start_date) is None || utc_date_text(end_date)
            is None {
            e matches OrionError::InvalidInput(m) && m@ == "Date out of range"@
        } else {
            e matches OrionError::Database(m) && m@ == "Database not initialized"@
        }),
{
    let start_text = match format_date(start_date) {
        Some(text) => text,
        None => {
            return Err(OrionError::InvalidInput(String::from_str("Date out of range")));
        },
    };
    let end_text = match format_date(end_date) {
        Some(text) => text,
        None => {
            return Err(OrionError::InvalidInput(String::from_str("Date out of range")));
        },
    };
    let base_nodes = vector_store.get_nodes_by_layer(0)?;
    let relevant = filter_window(base_nodes.as_slice(), start_date, end_date);
    let ask_backend = should_generate(relevant.len(), backend_available);
    let mut period = summary_type.to_string();
    period.append(": ");
    period.append(start_text.as_str());
    period.append(" - ");
    period.append(end_text.as_str());
    Ok(SummaryPlan { period, relevant, ask_backend })
}

/// Finishes the pipeline for the records `relevant` of a period. With no
/// generated text no node is created. A failed generation is passed on
/// unchanged. A generated text becomes the content of one summary node on
/// layer 1 that references all the records; the node's creation can fail
/// as `create_summary_node_at` says. The store changes only where a node
/// is created.
pub fn conclude_summary(
    vector_store: &mut VectorStoreService,
    relevant: &[MedicalNode],
    period: String,
    now: i64,
    generated: Option<Result<String, OrionError>>,
) -> (r: Result<HealthSummaryReport, OrionError>)
    requires
        old(vector_store).wf(),
    ensures
        final(vector_store).wf(),
        final(vector_store).patient() == old(vector_store).patient(),
        r is Err ==> final(vector_store).nodes() == old(vector_store).nodes(),
        match generated {
            None => r matches Ok(report) && report_matches(
                report,
                node_views(relevant@),
                period@,
                None,
            ) && final(vector_store).nodes() == old(vector_store).nodes(),
            Some(Err(e)) => r matches Err(f) && f == e,
            Some(Ok(content)) => {
                let meta = summary_metadata(
                    now,
                    period_summary_type(),
                    old(vector_store).patient(),
                    1,
                    ids_of(node_views(relevant@)),
                );
                match r {
                    Ok(report) => report.summary_node_id matches Some(id) && report_matches(
                        report,
                        node_views(relevant@),
                        period@,
                        Some(id@),
                    ) && creation_outcome(
                        old(vector_store).nodes(),
                        content@,
                        meta,
                        None,
                        Ok(id),
                        final(vector_store).nodes(),
                    ),
                    Err(e) => creation_outcome(
                        old(vector_store).nodes(),
                        content@,
                        meta,
                        None,
                        Err(e),
                        final(vector_store).nodes(),
                    ),
                }
            },
        },
{
    let summary_node_id = match generated {
        None => None,
        Some(Err(e)) => {
            return Err(e);
        },
        Some(Ok(content)) => {
            let node_ids = collect_ids(relevant);
            match vector_store.create_summary_node_at(
                now,
                content,
                node_ids,
                1,
                "health_period_summary",
            ) {
                Ok(id) => Some(id),
                Err(e) => {
                    return Err(e);
                },
            }
        },
    };
    let key_insights = gather_insights(relevant);
    let recommendations = generate_recommendations(key_insights.as_slice());
    let used_llm = summary_node_id.is_some();
    Ok(
        HealthSummaryReport {
            period,
            total_records: relevant.len(),
            summary_node_id,
            key_insights,
            recommendations,
            used_llm,
        },
    )
}

/// The summary pipeline over an engine and a generation backend.
pub struct HealthSummaryGenerator<A: LlmAdapter> {
    pub vector_store: VectorStoreService,
    pub llm_adapter: A,
}

impl<A: LlmAdapter> HealthSummaryGenerator<A> {
    /// A pipeline over `vector_store` that generates with `llm_adapter`.
    pub fn new(vector_store: VectorStoreService, llm_adapter: A) -> (r: Self)
        ensures
            r.vector_store == vector_store,
            r.llm_adapter == llm_adapter,
    {
        HealthSummaryGenerator { vector_store, llm_adapter }
    }

    /// The records of the period: the layer-0 nodes created from `start`
    /// to `end`.
    pub open spec fn window(&self, start: i64, end: i64) -> Seq<NodeView> {
        in_window(on_layer(self.vector_store.nodes()->0, 0), start, end)
    }

    /// `r` is a content that a summary of `nodes` can have with this
    /// backend. Either the backend can say that it is available, and `r`
    /// is an answer that it can give when asked to summarize the contents
    /// of `nodes` for the period; or it can say that it is not, and `r` is
    /// the summary that needs no backend.
    pub open spec fn content_outcome(
        &self,
        nodes: Seq<NodeView>,
        summary_type: SummaryType,
        r: Result<String, OrionError>,
    ) -> bool {
        ||| call_ensures(A::is_available, (&self.llm_adapter,), true) && exists|
            contents: Vec<String>,
        |
            texts(contents@) == contents_of(nodes) && #[trigger] call_ensures(
                A::generate_summary,
                (&self.llm_adapter, contents, summary_type),
                r,
            )
        ||| call_ensures(A::is_available, (&self.llm_adapter,), false) && (r matches Ok(s) && s@
            == fallback_text(contents_of(nodes), summary_type))
    }

    /// The content of a summary of `nodes`: what the backend generates
    /// from the contents of `nodes` where it says that it is available,
    /// and the summary that needs no backend where it says that it is not.
    /// What the backend says is its own affair; the result is stated in
    /// terms of what it can say.
    pub fn generate_summary_content(&self, nodes: &[MedicalNode], summary_type: SummaryType) -> (r:
        Result<String, OrionError>)
        ensures
            self.content_outcome(node_views(nodes@), summary_type, r),
    {
        let generated = if self.llm_adapter.is_available() {
            let contents = collect_contents(nodes);
            Some(self.llm_adapter.generate_summary(contents, summary_type))
        } else {
            None
        };
        summary_content(nodes, summary_type, generated)
    }

    /// Reports on the period from `start_date` to `end_date`. With three
    /// records or more and a backend that says it is available, the
    /// backend is asked for a summary, and its text becomes a summary
    /// node; with fewer records no backend is asked. What holds of the
    /// outcome, whatever the backend answers, is `pipeline_outcome`.
    pub fn generate_summary(&mut self, start_date: i64, end_date: i64, summary_type: SummaryType) -> (r:
        Result<HealthSummaryReport, OrionError>)
        requires
            old(self).vector_store.wf(),
        ensures
            final(self).vector_store.wf(),
            final(self).vector_store.patient() == old(self).vector_store.patient(),
            pipeline_outcome(
                old(self).vector_store.nodes(),
                old(self).vector_store.patient(),
                start_date,
                end_date,
                summary_type,
                r,
                final(self).vector_store.nodes(),
            ),
    {
        let is_llm_available = self.llm_adapter.is_available();
        let plan = plan_summary(
            &self.vector_store,
            start_date,
            end_date,
            summary_type,
            is_llm_available,
        )?;
        let generated = if plan.ask_backend {
            Some(
                self.llm_adapter.generate_summary(
                    collect_contents(plan.relevant.as_slice()),
                    summary_type,
                ),
            )
        } else {
            None
        };
        let now = now_millis();
        let ghost window = self.window(start_date, end_date);
        let ghost before = self.vector_store.nodes()->0;
        let ghost patient = self.vector_store.patient();
        let r = conclude_summary(
            &mut self.vector_store,
            plan.relevant.as_slice(),
            plan.period,
            now,
            generated,
        );
        proof {
            if r is Ok && r->Ok_0.summary_node_id is Some {
                let id = r->Ok_0.summary_node_id->0;
                let content = generated->0->Ok_0@;
                assert(self.vector_store.nodes() == Some(
                    before.push(period_summary_node(id@, content, now, patient, window)),
                ));
            }
        }
        r
    }
}

} // verus!

//! Assembling the map document from stored points and the rule file.

use vstd::prelude::*;
use crate::rules::{
    resolved, tag_views, RuleError, RuleErrorView, RuleSet, SectionView, Tag, TagView,
};

verus! {

/// One stored point, every column as the store prints it.
#[derive(Debug, PartialEq, Eq)]
pub struct PoiRow {
    pub id: String,
    pub lat: String,
    pub lon: String,
    pub created: String,
    pub category: String,
}

/// The smallest box of latitudes and longitudes that holds every stored
/// point, as the store prints its corners.
#[derive(Debug, PartialEq, Eq)]
pub struct Bounds {
    pub minlat: String,
    pub minlon: String,
    pub maxlat: String,
    pub maxlon: String,
}

/// One point of the map document.
#[derive(Debug, PartialEq, Eq)]
pub struct Node {
    pub lat: String,
    pub lon: String,
    pub id: String,
    pub created: String,
    pub tags: Vec<Tag>,
}

/// The content of the map document. Without bounds there is nothing to
/// write.
#[derive(Debug, PartialEq, Eq)]
pub struct OsmExport {
    pub bounds: Option<Bounds>,
    pub nodes: Vec<Node>,
}

/// Whether `node` is the document's point for `row`: the row's coordinates,
/// identifier and creation time, with the tags of the row's category.
pub open spec fn is_node_of(node: Node, row: PoiRow, rules: Seq<SectionView>) -> bool {
    &&& node.lat@ == row.lat@
    &&& node.lon@ == row.lon@
    &&& node.id@ == row.id@
    &&& node.created@ == row.created@
    &&& resolved(rules, row.category@) == Ok::<Seq<TagView>, RuleErrorView>(tag_views(node.tags@))
}

/// Whether the rules have tags for the category of every row before `upto`.
pub open spec fn all_resolve(rows: Seq<PoiRow>, rules: Seq<SectionView>, upto: int) -> bool {
    forall|i: int| 0 <= i < upto ==> resolved(rules, (#[trigger] rows[i]).category@) is Ok
}

/// Whether `export` is the document for `rows` within `bounds`: empty when
/// there are no bounds, one point per row in row order otherwise.
pub open spec fn is_export_of(
    export: OsmExport,
    bounds: Option<Bounds>,
    rows: Seq<PoiRow>,
    rules: Seq<SectionView>,
) -> bool {
    &&& export.bounds == bounds
    &&& bounds is None ==> export.nodes@.len() == 0
    &&& bounds is Some ==> export.nodes@.len() == rows.len()
    &&& bounds is Some ==> forall|i: int|
        0 <= i < rows.len() ==> is_node_of(#[trigger] export.nodes@[i], rows[i], rules)
}

/// Whether `error` is what the rules say of the first row that they cannot
/// tag.
pub open spec fn is_first_failure(
    error: RuleErrorView,
    rows: Seq<PoiRow>,
    rules: Seq<SectionView>,
) -> bool {
    exists|i: int|
        0 <= i < rows.len() && all_resolve(rows, rules, i) && resolved(
            rules,
            (#[trigger] rows[i]).category@,
        ) == Err::<Seq<TagView>, RuleErrorView>(error)
}

/// Pairs the four corners of the bounding-box query. Over an empty store
/// the query has no values, and there are no bounds.
pub fn bounds_from_row(
    minlat: Option<String>,
    minlon: Option<String>,
    maxlat: Option<String>,
    maxlon: Option<String>,
) -> (bounds: Option<Bounds>)
    ensures
        bounds is Some <==> minlat is Some && minlon is Some && maxlat is Some && maxlon is Some,
        bounds matches Some(b) ==> Some(b.minlat) == minlat && Some(b.minlon) == minlon && Some(
            b.maxlat,
        ) == maxlat && Some(b.maxlon) == maxlon,
{
    match (minlat, minlon, maxlat, maxlon) {
        (Some(minlat), Some(minlon), Some(maxlat), Some(maxlon)) => Some(
            Bounds { minlat, minlon, maxlat, maxlon },
        ),
        _ => None,
    }
}

/// Builds the document's point for one row.
pub fn node_for(row: &PoiRow, rules: &RuleSet) -> (node: Result<Node, RuleError>)
    ensures
        node is Ok <==> resolved(rules@, row.category@) is Ok,
        node matches Ok(n) ==> is_node_of(n, *row, rules@),
        node matches Err(error) ==> resolved(rules@, row.category@) == Err::<Seq<TagView>, RuleErrorView>(error@),
{
    match rules.tags_for(row.category.as_str()) {
        Ok(tags) => Ok(
            Node {
                lat: row.lat.clone(),
                lon: row.lon.clone(),
                id: row.id.clone(),
                created: row.created.clone(),
                tags,
            },
        ),
        Err(error) => Err(error),
    }
}

/// Assembles the map document.
///
/// Without bounds the store is empty and so is the document; the rows are
/// not looked at. With bounds there is one point per row, in row order. A
/// row whose category the rules cannot tag fails the whole export, with the
/// error of the first such row.
pub fn assemble(bounds: Option<Bounds>, rows: &Vec<PoiRow>, rules: &RuleSet) -> (export: Result<
    OsmExport,
    RuleError,
>)
    ensures
        export is Ok <==> bounds is None || all_resolve(rows@, rules@, rows@.len() as int),
        export matches Ok(e) ==> is_export_of(e, bounds, rows@, rules@),
        export matches Err(error) ==> is_first_failure(error@, rows@, rules@),
{
    if bounds.is_none() {
        return Ok(OsmExport { bounds: None, nodes: Vec::new() });
    }
    let mut nodes: Vec<Node> = Vec::new();
    let mut i: usize = 0;
    while i < rows.len()
        invariant
            i <= rows.len(),
            nodes@.len() == i,
            bounds is Some,
            all_resolve(rows@, rules@, i as int),
            forall|k: int| 0 <= k < i ==> is_node_of(#[trigger] nodes@[k], rows@[k], rules@),
        decreases rows.len() - i,
    {
        match node_for(&rows[i], rules) {
            Ok(node) => {
                nodes.push(node);
            },
            Err(error) => {
                assert(resolved(rules@, rows@[i as int].category@) is Err);
                assert(!all_resolve(rows@, rules@, rows@.len() as int));
                return Err(error);
            },
        }
        i = i + 1;
    }
    Ok(OsmExport { bounds, nodes })
}

} // verus!

//! Index creation and listing.
//!
//! The engine builds and stores the indices; the bridge decides which index
//! the caller asked for — the index-type string is matched without regard to
//! ASCII case — and serializes the engine's index listing as a JSON array.

use vstd::prelude::*;
use vstd::string::{StrSliceExecFns, StringExecFns};

use crate::error::Error;
use crate::query::{metric_from_code, spec_metric_from_code, Metric};

verus! {

/// ASCII case folding of one character: a lowercase ASCII letter maps to its
/// uppercase counterpart, everything else to itself.
pub open spec fn spec_fold_ascii(c: char) -> u32 {
    if 97 <= c as u32 && c as u32 <= 122 {
        (c as u32 - 32) as u32
    } else {
        c as u32
    }
}

/// Equality of two strings up to ASCII case.
pub open spec fn spec_eq_ignore_ascii_case(a: Seq<char>, b: Seq<char>) -> bool {
    a.len() == b.len() && forall|i: int|
        0 <= i < a.len() ==> spec_fold_ascii(a[i]) == spec_fold_ascii(b[i])
}

/// Compares two strings for equality up to ASCII case.
pub fn eq_ignore_ascii_case(a: &str, b: &str) -> (r: bool)
    ensures
        r == spec_eq_ignore_ascii_case(a@, b@),
{
    let a_len = a.unicode_len();
    let b_len = b.unicode_len();
    if a_len != b_len {
        return false;
    }
    let mut i: usize = 0;
    while i < a_len
        invariant
            i <= a_len,
            a_len == a@.len(),
            a_len == b@.len(),
            forall|j: int| 0 <= j < i ==> spec_fold_ascii(a@[j]) == spec_fold_ascii(b@[j]),
        decreases a_len - i,
    {
        let ca = a.get_char(i) as u32;
        let cb = b.get_char(i) as u32;
        let fa = if ca >= 97 && ca <= 122 {
            ca - 32
        } else {
            ca
        };
        let fb = if cb >= 97 && cb <= 122 {
            cb - 32
        } else {
            cb
        };
        if fa != fb {
            assert(spec_fold_ascii(a@[i as int]) != spec_fold_ascii(b@[i as int]));
            return false;
        }
        i = i + 1;
    }
    true
}

/// The index the caller asked the engine to build.
#[derive(Debug, Clone, PartialEq, Eq, Structural)]
pub enum IndexRequest {
    /// Inverted-file partitioning with product quantization; `None` counts
    /// leave the corresponding parameter to the engine's default.
    IvfPq { metric: Metric, num_partitions: Option<u32>, num_sub_vectors: Option<u32> },
    /// The engine picks the index structure itself.
    Auto,
}

/// Decodes the index-creation entry point's metric code, with that entry
/// point's own rejection message.
pub fn index_metric_from_code(metric: i32) -> (r: Result<Metric, String>)
    ensures
        match spec_metric_from_code(metric) {
            Some(m) => r == Ok::<Metric, String>(m),
            None => r matches Err(msg) && msg@
                == "Invalid distance metric. Use 0=L2, 1=Cosine, 2=Dot"@,
        },
{
    match metric_from_code(metric) {
        Some(m) => Ok(m),
        None => Err(String::from_str("Invalid distance metric. Use 0=L2, 1=Cosine, 2=Dot")),
    }
}

/// Decodes the index-creation entry point's partition-count arguments: zero
/// or less means the engine default.
pub fn index_count_from_code(count: i32) -> (r: Option<u32>)
    ensures
        count > 0 ==> r == Some(count as u32),
        count <= 0 ==> r == None::<u32>,
{
    if count > 0 {
        Some(count as u32)
    } else {
        None
    }
}

/// Builds the index request from the index-type string and the decoded
/// parameters.  Exactly the types `IVF_PQ` and `AUTO` are accepted, in any
/// ASCII case; anything else is an invalid argument.
pub fn index_request(
    index_type: &str,
    metric: Metric,
    num_partitions: Option<u32>,
    num_sub_vectors: Option<u32>,
) -> (r: Result<IndexRequest, Error>)
    ensures
        spec_eq_ignore_ascii_case(index_type@, "IVF_PQ"@) ==> r == Ok::<IndexRequest, Error>(
            IndexRequest::IvfPq { metric, num_partitions, num_sub_vectors },
        ),
        !spec_eq_ignore_ascii_case(index_type@, "IVF_PQ"@) && spec_eq_ignore_ascii_case(
            index_type@,
            "AUTO"@,
        ) ==> r == Ok::<IndexRequest, Error>(IndexRequest::Auto),
        !spec_eq_ignore_ascii_case(index_type@, "IVF_PQ"@) && !spec_eq_ignore_ascii_case(
            index_type@,
            "AUTO"@,
        ) ==> (r matches Err(e) && e matches Error::InvalidArgument { message } && message@
            == "Unsupported index type: "@ + index_type@),
{
    if eq_ignore_ascii_case(index_type, "IVF_PQ") {
        Ok(IndexRequest::IvfPq { metric, num_partitions, num_sub_vectors })
    } else if eq_ignore_ascii_case(index_type, "AUTO") {
        Ok(IndexRequest::Auto)
    } else {
        Err(
            Error::InvalidArgument {
                message: String::from_str("Unsupported index type: ").concat(index_type),
            },
        )
    }
}

/// One index as the engine reports it: its name, its type's name, and the
/// columns it covers.  The rim flattens the engine's listing into these
/// before serialization.
#[derive(Debug, Clone, PartialEq, Eq)]
pub struct IndexEntry {
    pub name: String,
    pub index_type: String,
    pub columns: Vec<String>,
}

/// The parts joined by the separator, in order.
pub open spec fn spec_join(parts: Seq<Seq<char>>, sep: Seq<char>) -> Seq<char>
    decreases parts.len(),
{
    if parts.len() == 0 {
        Seq::empty()
    } else if parts.len() == 1 {
        parts[0]
    } else {
        spec_join(parts.drop_last(), sep) + sep + parts.last()
    }
}

pub open spec fn spec_quoted(s: Seq<char>) -> Seq<char> {
    "\""@ + s + "\""@
}

/// One listing entry as a JSON object.  The names are emitted verbatim,
/// exactly as the engine reports them.
pub open spec fn spec_entry_json(e: IndexEntry) -> Seq<char> {
    "{\"name\":\""@ + e.name@ + "\",\"type\":\""@ + e.index_type@ + "\",\"columns\":["@
        + spec_join(e.columns@.map_values(|c: String| spec_quoted(c@)), ","@) + "]}"@
}

/// The whole listing as a JSON array of entry objects.
pub open spec fn spec_indices_json(entries: Seq<IndexEntry>) -> Seq<char> {
    "["@ + spec_join(entries.map_values(|e: IndexEntry| spec_entry_json(e)), ","@) + "]"@
}

/// Joins the parts with the separator.
fn join(parts: &Vec<String>, sep: &str) -> (r: String)
    ensures
        r@ == spec_join(parts.deep_view(), sep@),
{
    let ghost all: Seq<Seq<char>> = parts.deep_view();
    let mut out = String::new();
    let mut i: usize = 0;
    while i < parts.len()
        invariant
            i <= parts.len(),
            all == parts.deep_view(),
            all.len() == parts@.len(),
            out@ == spec_join(all.take(i as int), sep@),
        decreases parts.len() - i,
    {
        if i > 0 {
            out.append(sep);
        }
        out.append(parts[i].as_str());
        proof {
            let next = all.take(i + 1 as int);
            assert(next.drop_last() =~= all.take(i as int));
            assert(next.last() == all[i as int]);
        }
        i = i + 1;
    }
    proof {
        assert(all.take(parts@.len() as int) =~= all);
    }
    out
}

/// Wraps a name in JSON double quotes.
fn quoted(s: &str) -> (r: String)
    ensures
        r@ == spec_quoted(s@),
{
    String::from_str("\"").concat(s).concat("\"")
}

/// Serializes one listing entry as a JSON object.
pub fn entry_json(e: &IndexEntry) -> (r: String)
    ensures
        r@ == spec_entry_json(*e),
{
    let ghost quoted_cols: Seq<Seq<char>> = e.columns@.map_values(|c: String| spec_quoted(c@));
    let mut parts: Vec<String> = Vec::new();
    let mut i: usize = 0;
    while i < e.columns.len()
        invariant
            i <= e.columns.len(),
            quoted_cols == e.columns@.map_values(|c: String| spec_quoted(c@)),
            parts@.len() == i,
            forall|j: int| 0 <= j < i ==> #[trigger] parts@[j]@ == quoted_cols[j],
        decreases e.columns.len() - i,
    {
        parts.push(quoted(e.columns[i].as_str()));
        i = i + 1;
    }
    proof {
        assert(parts.deep_view() =~= quoted_cols);
    }
    let cols = join(&parts, ",");
    String::from_str("{\"name\":\"").concat(e.name.as_str()).concat("\",\"type\":\"").concat(
        e.index_type.as_str(),
    ).concat("\",\"columns\":[").concat(cols.as_str()).concat("]}")
}

/// Serializes the engine's index listing as a JSON array of objects, each
/// with the index's name, type and covered columns.
pub fn indices_to_json(entries: &Vec<IndexEntry>) -> (r: String)
    ensures
        r@ == spec_indices_json(entries@),
{
    let ghost jsons: Seq<Seq<char>> = entries@.map_values(|e: IndexEntry| spec_entry_json(e));
    let mut parts: Vec<String> = Vec::new();
    let mut i: usize = 0;
    while i < entries.len()
        invariant
            i <= entries.len(),
            jsons == entries@.map_values(|e: IndexEntry| spec_entry_json(e)),
            parts@.len() == i,
            forall|j: int| 0 <= j < i ==> #[trigger] parts@[j]@ == jsons[j],
        decreases entries.len() - i,
    {
        parts.push(entry_json(&entries[i]));
        i = i + 1;
    }
    proof {
        assert(parts.deep_view() =~= jsons);
    }
    let body = join(&parts, ",");
    String::from_str("[").concat(body.as_str()).concat("]")
}

} // verus!

//! The query-builder state machine.
//!
//! A query handle is a tagged value: *plain* (no nearest-neighbor vector) or
//! *vector* (carries the query vector and, optionally, a distance metric).
//! The transition from plain to vector happens at most once; setting a metric
//! is legal only in the vector state.  All other builder settings replace the
//! previous value and are legal in both states.
//!
//! The handle stores the configuration as plain values; the unverified rim
//! replays it onto the engine's query builder at execution time.  The
//! nearest-neighbor vector consists of 32-bit floating-point components,
//! which the bridge never interprets: they are carried as raw bit patterns.

use vstd::prelude::*;
use vstd::string::StringExecFns;

use crate::error::Error;

verus! {

/// Distance metric used to rank nearest-neighbor candidates.
///
/// Across the ABI the metric travels as an integer code: 0 is L2, 1 is
/// cosine, 2 is dot product.
#[derive(Clone, Copy, Debug, PartialEq, Eq, Structural)]
pub enum Metric {
    L2,
    Cosine,
    Dot,
}

/// Decodes the ABI's integer metric code; every value outside 0..=2 is
/// rejected.
pub fn metric_from_code(code: i32) -> (r: Option<Metric>)
    ensures
        r == spec_metric_from_code(code),
{
    match code {
        0 => Some(Metric::L2),
        1 => Some(Metric::Cosine),
        2 => Some(Metric::Dot),
        _ => None,
    }
}

pub open spec fn spec_metric_from_code(code: i32) -> Option<Metric> {
    if code == 0 {
        Some(Metric::L2)
    } else if code == 1 {
        Some(Metric::Cosine)
    } else if code == 2 {
        Some(Metric::Dot)
    } else {
        None
    }
}

/// The settings legal in both query states.  `None` everywhere means the
/// engine's defaults.
#[derive(Debug, Clone, PartialEq, Eq)]
pub struct QueryParams {
    pub limit: Option<usize>,
    pub offset: Option<usize>,
    pub filter: Option<String>,
    pub select: Option<Vec<String>>,
}

/// The settings of a query that has been given a nearest-neighbor vector.
#[derive(Debug, Clone, PartialEq, Eq)]
pub struct VectorParams {
    pub base: QueryParams,
    /// The query vector's components, as raw bit patterns of 32-bit floats.
    pub vector: Vec<u32>,
    pub metric: Option<Metric>,
}

/// A query under construction: either still plain, or committed to a
/// nearest-neighbor search.
#[derive(Debug, Clone, PartialEq, Eq)]
pub enum QueryHandle {
    Plain(QueryParams),
    Vector(VectorParams),
}

impl QueryHandle {
    /// The settings shared by both states.
    pub open spec fn spec_base(&self) -> QueryParams {
        match self {
            QueryHandle::Plain(p) => *p,
            QueryHandle::Vector(v) => v.base,
        }
    }

    pub open spec fn is_vector(&self) -> bool {
        self matches QueryHandle::Vector(_)
    }

    pub open spec fn spec_vector(&self) -> Option<Seq<u32>> {
        match self {
            QueryHandle::Plain(_) => None,
            QueryHandle::Vector(v) => Some(v.vector@),
        }
    }

    pub open spec fn spec_metric(&self) -> Option<Metric> {
        match self {
            QueryHandle::Plain(_) => None,
            QueryHandle::Vector(v) => v.metric,
        }
    }

    pub open spec fn spec_limit(&self) -> Option<usize> {
        self.spec_base().limit
    }

    pub open spec fn spec_offset(&self) -> Option<usize> {
        self.spec_base().offset
    }

    pub open spec fn spec_filter(&self) -> Option<Seq<char>> {
        match self.spec_base().filter {
            None => None,
            Some(f) => Some(f@),
        }
    }

    pub open spec fn spec_select(&self) -> Option<Seq<Seq<char>>> {
        match self.spec_base().select {
            None => None,
            Some(cols) => Some(cols.deep_view()),
        }
    }

    /// A fresh query starts plain, with every setting at the engine default.
    pub fn new() -> (r: QueryHandle)
        ensures
            !r.is_vector(),
            r.spec_limit() == None::<usize>,
            r.spec_offset() == None::<usize>,
            r.spec_filter() == None::<Seq<char>>,
            r.spec_select() == None::<Seq<Seq<char>>>,
    {
        QueryHandle::Plain(QueryParams { limit: None, offset: None, filter: None, select: None })
    }

    /// The one-way transition from plain to vector.  On a plain query it
    /// installs the vector and succeeds; on a vector query it fails with an
    /// invalid-argument error and leaves every setting as it was.
    pub fn nearest_to(&mut self, vector: Vec<u32>) -> (r: Result<(), Error>)
        ensures
            !old(self).is_vector() ==> r == Ok::<(), Error>(()) && final(self).is_vector()
                && final(self).spec_vector() == Some(vector@) && final(self).spec_metric()
                == None::<Metric> && final(self).spec_base() == old(self).spec_base(),
            old(self).is_vector() ==> (r matches Err(e) && e matches Error::InvalidArgument {
                message,
            } && message@ == "nearest_to can only be called once on a query"@ && *final(self)
                == *old(self)),
    {
        let mut taken = QueryHandle::Plain(
            QueryParams { limit: None, offset: None, filter: None, select: None },
        );
        core::mem::swap(self, &mut taken);
        match taken {
            QueryHandle::Plain(base) => {
                *self = QueryHandle::Vector(VectorParams { base, vector, metric: None });
                Ok(())
            },
            QueryHandle::Vector(v) => {
                *self = QueryHandle::Vector(v);
                Err(
                    Error::InvalidArgument {
                        message: String::from_str("nearest_to can only be called once on a query"),
                    },
                )
            },
        }
    }

    /// Replaces the distance metric.  Legal only once the query carries a
    /// nearest-neighbor vector; on a plain query it fails with an
    /// invalid-argument error and changes nothing.
    pub fn distance_type(&mut self, metric: Metric) -> (r: Result<(), Error>)
        ensures
            old(self).is_vector() ==> r == Ok::<(), Error>(()) && final(self).is_vector()
                && final(self).spec_vector() == old(self).spec_vector() && final(self).spec_metric()
                == Some(metric) && final(self).spec_base() == old(self).spec_base(),
            !old(self).is_vector() ==> (r matches Err(e) && e matches Error::InvalidArgument {
                message,
            } && message@ == "distance_type can only be set on vector queries"@ && *final(self)
                == *old(self)),
    {
        match self {
            QueryHandle::Vector(v) => {
                v.metric = Some(metric);
                Ok(())
            },
            QueryHandle::Plain(_) => Err(
                Error::InvalidArgument {
                    message: String::from_str("distance_type can only be set on vector queries"),
                },
            ),
        }
    }

    /// Replaces the row limit; the last value set wins.
    pub fn limit(&mut self, limit: usize) -> (r: Result<(), Error>)
        ensures
            r == Ok::<(), Error>(()),
            final(self).spec_limit() == Some(limit),
            final(self).spec_offset() == old(self).spec_offset(),
            final(self).spec_filter() == old(self).spec_filter(),
            final(self).spec_select() == old(self).spec_select(),
            final(self).is_vector() == old(self).is_vector(),
            final(self).spec_vector() == old(self).spec_vector(),
            final(self).spec_metric() == old(self).spec_metric(),
    {
        match self {
            QueryHandle::Plain(p) => {
                p.limit = Some(limit);
            },
            QueryHandle::Vector(v) => {
                v.base.limit = Some(limit);
            },
        }
        Ok(())
    }

    /// Replaces the row offset; the last value set wins.
    pub fn offset(&mut self, offset: usize) -> (r: Result<(), Error>)
        ensures
            r == Ok::<(), Error>(()),
            final(self).spec_offset() == Some(offset),
            final(self).spec_limit() == old(self).spec_limit(),
            final(self).spec_filter() == old(self).spec_filter(),
            final(self).spec_select() == old(self).spec_select(),
            final(self).is_vector() == old(self).is_vector(),
            final(self).spec_vector() == old(self).spec_vector(),
            final(self).spec_metric() == old(self).spec_metric(),
    {
        match self {
            QueryHandle::Plain(p) => {
                p.offset = Some(offset);
            },
            QueryHandle::Vector(v) => {
                v.base.offset = Some(offset);
            },
        }
        Ok(())
    }

    /// Replaces the predicate, stored verbatim — an empty string too is
    /// passed through to the engine, which decides what it means.
    pub fn filter(&mut self, filter: &str) -> (r: Result<(), Error>)
        ensures
            r == Ok::<(), Error>(()),
            final(self).spec_filter() == Some(filter@),
            final(self).spec_limit() == old(self).spec_limit(),
            final(self).spec_offset() == old(self).spec_offset(),
            final(self).spec_select() == old(self).spec_select(),
            final(self).is_vector() == old(self).is_vector(),
            final(self).spec_vector() == old(self).spec_vector(),
            final(self).spec_metric() == old(self).spec_metric(),
    {
        let stored = filter.to_owned();
        match self {
            QueryHandle::Plain(p) => {
                p.filter = Some(stored);
            },
            QueryHandle::Vector(v) => {
                v.base.filter = Some(stored);
            },
        }
        Ok(())
    }

    /// Replaces the projected column list; the last list set wins.
    pub fn select(&mut self, columns: Vec<String>) -> (r: Result<(), Error>)
        ensures
            r == Ok::<(), Error>(()),
            final(self).spec_select() == Some(columns.deep_view()),
            final(self).spec_limit() == old(self).spec_limit(),
            final(self).spec_offset() == old(self).spec_offset(),
            final(self).spec_filter() == old(self).spec_filter(),
            final(self).is_vector() == old(self).is_vector(),
            final(self).spec_vector() == old(self).spec_vector(),
            final(self).spec_metric() == old(self).spec_metric(),
    {
        match self {
            QueryHandle::Plain(p) => {
                p.select = Some(columns);
            },
            QueryHandle::Vector(v) => {
                v.base.select = Some(columns);
            },
        }
        Ok(())
    }
}

/// Argument check of the query-creation entry point.
pub fn plan_query_new(table_null: bool) -> (r: Result<(), String>)
    ensures
        !table_null ==> r == Ok::<(), String>(()),
        table_null ==> (r matches Err(m) && m@ == "table handle cannot be null"@),
{
    if table_null {
        Err(String::from_str("table handle cannot be null"))
    } else {
        Ok(())
    }
}

/// Argument check of the nearest-neighbor entry point: the handle and the
/// vector must be present and the vector length positive.
pub fn plan_query_nearest_to(handle_null: bool, vector_null: bool, vector_len: i32) -> (r: Result<
    (),
    String,
>)
    ensures
        !handle_null && !vector_null && vector_len > 0 ==> r == Ok::<(), String>(()),
        handle_null || vector_null || vector_len <= 0 ==> (r matches Err(m) && m@
            == "handle, vector cannot be null and vector_len must be positive"@),
{
    if handle_null || vector_null || vector_len <= 0 {
        Err(String::from_str("handle, vector cannot be null and vector_len must be positive"))
    } else {
        Ok(())
    }
}

/// Argument check and metric decoding of the distance-metric entry point.
pub fn plan_query_distance_type(handle_null: bool, distance_type: i32) -> (r: Result<
    Metric,
    String,
>)
    ensures
        handle_null ==> (r matches Err(m) && m@ == "handle cannot be null"@),
        !handle_null ==> (match spec_metric_from_code(distance_type) {
            Some(metric) => r == Ok::<Metric, String>(metric),
            None => r matches Err(m) && m@
                == "invalid distance type: must be 0 (L2), 1 (Cosine), or 2 (Dot)"@,
        }),
{
    if handle_null {
        Err(String::from_str("handle cannot be null"))
    } else {
        match metric_from_code(distance_type) {
            Some(metric) => Ok(metric),
            None => Err(
                String::from_str("invalid distance type: must be 0 (L2), 1 (Cosine), or 2 (Dot)"),
            ),
        }
    }
}

/// Argument check of the limit entry point: zero is a valid limit, a
/// negative one is rejected.
pub fn plan_query_limit(handle_null: bool, limit: i32) -> (r: Result<usize, String>)
    ensures
        !handle_null && limit >= 0 ==> r == Ok::<usize, String>(limit as usize),
        handle_null || limit < 0 ==> (r matches Err(m) && m@
            == "handle cannot be null and limit must be non-negative"@),
{
    if handle_null || limit < 0 {
        Err(String::from_str("handle cannot be null and limit must be non-negative"))
    } else {
        Ok(limit as usize)
    }
}

/// Argument check of the offset entry point: zero is a valid offset, a
/// negative one is rejected.
pub fn plan_query_offset(handle_null: bool, offset: i32) -> (r: Result<usize, String>)
    ensures
        !handle_null && offset >= 0 ==> r == Ok::<usize, String>(offset as usize),
        handle_null || offset < 0 ==> (r matches Err(m) && m@
            == "handle cannot be null and offset must be non-negative"@),
{
    if handle_null || offset < 0 {
        Err(String::from_str("handle cannot be null and offset must be non-negative"))
    } else {
        Ok(offset as usize)
    }
}

/// Argument check of the filter entry point.  The predicate itself — even an
/// empty one — is never inspected here: the engine decides what it means.
pub fn plan_query_filter(handle_null: bool, filter_null: bool) -> (r: Result<(), String>)
    ensures
        !handle_null && !filter_null ==> r == Ok::<(), String>(()),
        handle_null || filter_null ==> (r matches Err(m) && m@
            == "handle and filter cannot be null"@),
{
    if handle_null || filter_null {
        Err(String::from_str("handle and filter cannot be null"))
    } else {
        Ok(())
    }
}

/// Argument check of the projection entry point: the handle and the column
/// array must be present and the column count positive.
pub fn plan_query_select(handle_null: bool, columns_null: bool, columns_len: i32) -> (r: Result<
    usize,
    String,
>)
    ensures
        !handle_null && !columns_null && columns_len > 0 ==> r == Ok::<usize, String>(
            columns_len as usize,
        ),
        handle_null || columns_null || columns_len <= 0 ==> (r matches Err(m) && m@
            == "handle, columns cannot be null and columns_len must be positive"@),
{
    if handle_null || columns_null || columns_len <= 0 {
        Err(String::from_str("handle, columns cannot be null and columns_len must be positive"))
    } else {
        Ok(columns_len as usize)
    }
}

/// Argument check of the materialized-execute entry point.
pub fn plan_query_execute(
    handle_null: bool,
    arrays_out_null: bool,
    schemas_out_null: bool,
    count_out_null: bool,
) -> (r: Result<(), String>)
    ensures
        !(handle_null || arrays_out_null || schemas_out_null || count_out_null) ==> r == Ok::<
            (),
            String,
        >(()),
        handle_null || arrays_out_null || schemas_out_null || count_out_null ==> (r matches Err(m)
            && m@ == "handle, arrays_out, schemas_out, and count_out cannot be null"@),
{
    if handle_null || arrays_out_null || schemas_out_null || count_out_null {
        Err(String::from_str("handle, arrays_out, schemas_out, and count_out cannot be null"))
    } else {
        Ok(())
    }
}

/// Argument check of the streaming-execute entry point.
pub fn plan_query_execute_stream(handle_null: bool) -> (r: Result<(), String>)
    ensures
        !handle_null ==> r == Ok::<(), String>(()),
        handle_null ==> (r matches Err(m) && m@ == "handle cannot be null"@),
{
    if handle_null {
        Err(String::from_str("handle cannot be null"))
    } else {
        Ok(())
    }
}

/// Argument check of the one-batch pull on a result stream.
pub fn plan_stream_next(handle_null: bool, array_out_null: bool, schema_out_null: bool) -> (r:
    Result<(), String>)
    ensures
        !handle_null && !array_out_null && !schema_out_null ==> r == Ok::<(), String>(()),
        handle_null || array_out_null || schema_out_null ==> (r matches Err(m) && m@
            == "handle, array_out, and schema_out cannot be null"@),
{
    if handle_null || array_out_null || schema_out_null {
        Err(String::from_str("handle, array_out, and schema_out cannot be null"))
    } else {
        Ok(())
    }
}

} // verus!

//! Creating pipelines: the status a new pipeline starts in, and how the
//! settings of its jobs are filled in.
use vstd::prelude::*;
use crate::text::join2;

verus! {

/// The status and error message a manually triggered pipeline starts with,
/// from the reading of the CI configuration (the number of its jobs, or the
/// error): no job or an error fails it, otherwise it is pending.
pub open spec fn initial_pipeline_state(ci: Result<usize, Seq<char>>) -> (Seq<char>, Option<Seq<char>>) {
    match ci {
        Ok(n) => if n == 0 {
            ("failed"@, Some("No jobs defined in CI configuration"@))
        } else {
            ("pending"@, None)
        },
        Err(e) => ("failed"@, Some("CI configuration error: "@ + e)),
    }
}

/// The status and error message of a new pipeline.
pub fn initial_pipeline_status(ci: Result<usize, &str>) -> (r: (&'static str, Option<String>))
    ensures
        (r.0@, match r.1 {
            Some(m) => Some(m@),
            None => None,
        }) == initial_pipeline_state(match ci {
            Ok(n) => Ok(n),
            Err(e) => Err(e@),
        }),
{
    match ci {
        Ok(n) => if n == 0 {
            ("failed", Some(crate::text::owned("No jobs defined in CI configuration")))
        } else {
            ("pending", None)
        },
        Err(e) => ("failed", Some(join2("CI configuration error: ", e))),
    }
}

/// A job setting of its own wins over the pipeline's default.
pub fn job_or_default<T>(own: Option<T>, default: Option<T>) -> (r: Option<T>)
    ensures
        r == (match own {
            Some(v) => Some(v),
            None => default,
        }),
{
    match own {
        Some(v) => Some(v),
        None => default,
    }
}

/// A pipeline that got no job is skipped; otherwise it stays pending.
pub fn pipeline_status_after_creation(jobs_created: usize) -> (r: &'static str)
    ensures
        r@ == (if jobs_created == 0 {
            "skipped"@
        } else {
            "pending"@
        }),
{
    if jobs_created == 0 {
        "skipped"
    } else {
        "pending"
    }
}

} // verus!

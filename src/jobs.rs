//! Job triples taken from a flat argument list.

use vstd::prelude::*;
use vstd::string::*;

verus! {

/// One unit of batch work: render `input` with the table named `table`,
/// and write the result to `output`.
#[derive(Clone, Debug)]
pub struct Job {
    pub table: String,
    pub input: String,
    pub output: String,
}

impl Job {
    /// This job is the one formed by the three arguments from index `3 * k`.
    pub open spec fn formed_from(self, args: Seq<String>, k: int) -> bool {
        &&& self.table@ == args[3 * k]@
        &&& self.input@ == args[3 * k + 1]@
        &&& self.output@ == args[3 * k + 2]@
    }
}

/// Cuts an argument list into consecutive triples, in order; one or two
/// arguments left over at the end are dropped.
pub fn split_jobs(args: &Vec<String>) -> (jobs: Vec<Job>)
    ensures
        jobs@.len() == args@.len() / 3,
        forall|k: int| 0 <= k < jobs@.len() ==> #[trigger] jobs@[k].formed_from(args@, k),
{
    let mut jobs: Vec<Job> = Vec::new();
    let mut i: usize = 0;
    while 3 <= args.len() - i
        invariant
            i == 3 * jobs@.len(),
            i <= args@.len(),
            forall|k: int| 0 <= k < jobs@.len() ==> #[trigger] jobs@[k].formed_from(args@, k),
        decreases args@.len() - i,
    {
        let job = Job {
            table: args[i].clone(),
            input: args[i + 1].clone(),
            output: args[i + 2].clone(),
        };
        jobs.push(job);
        i = i + 3;
    }
    jobs
}

/// The line announced before a job starts.
pub open spec fn progress_text(input: Seq<char>, output: Seq<char>) -> Seq<char> {
    "processing "@ + input + " to "@ + output
}

/// Builds the progress line for a job that reads `input` and writes `output`.
pub fn progress_line(input: &str, output: &str) -> (r: String)
    ensures
        r@ == progress_text(input@, output@),
{
    let mut line = String::from_str("processing ");
    line.append(input);
    line.append(" to ");
    line.append(output);
    line
}

} // verus!

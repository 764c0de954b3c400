use vstd::prelude::*;
use crate::accession::{accession_norm_filt, accession_set, views};
use crate::errors::AppError;
use crate::text::{decimal, decimal_spec};
use crate::url::{get_url, url_of};

verus! {

/// How one accession of a batch ended.
#[derive(Debug, Clone)]
pub enum Outcome {
    Downloaded,
    Failed(AppError),
}

impl Outcome {
    pub open spec fn is_downloaded(&self) -> bool {
        self is Downloaded
    }
}

/// The counters of a batch.
#[derive(Debug, Clone, Copy, PartialEq, Eq, Structural)]
pub struct Tally {
    pub attempted: usize,
    pub succeeded: usize,
}

/// The work for one accession: what to fetch and where to write it.
pub struct Job {
    pub accession: String,
    pub url: String,
    pub file_path: String,
    pub status: String,
}

/// What the progress display does after an accession: how far to advance and
/// the status line to show.
pub struct Report {
    pub advance: u64,
    pub status: String,
}

/// What a batch holds, as mathematics: the output directory, the unique
/// accessions in processing order, for each processed one whether it was
/// downloaded, and how each processed one ended.
pub struct BatchView {
    pub outdir: Seq<char>,
    pub accessions: Seq<Seq<char>>,
    pub outcomes: Seq<bool>,
    pub records: Seq<Outcome>,
}

/// A run over a set of unique accessions, one at a time.
pub struct Batch {
    outdir: String,
    accessions: Vec<String>,
    outcomes: Vec<Outcome>,
    succeeded: usize,
}

/// How many entries of `s` are successes.
pub open spec fn successes(s: Seq<bool>) -> nat
    decreases s.len(),
{
    if s.len() == 0 {
        0
    } else {
        successes(s.drop_last()) + if s.last() {
            1nat
        } else {
            0nat
        }
    }
}

/// The file into which the record of `accession` is written.
pub open spec fn file_path_of(outdir: Seq<char>, accession: Seq<char>) -> Seq<char> {
    outdir + "/"@ + accession + ".fasta"@
}

/// The status line shown while an accession is fetched.
pub open spec fn starting_status(accession: Seq<char>) -> Seq<char> {
    accession + "..."@
}

/// The status line shown after an accession was fetched and written.
pub open spec fn success_status(accession: Seq<char>) -> Seq<char> {
    "[SUCCESS] "@ + accession + "..."@
}

/// The status line shown after an accession failed.
pub open spec fn failure_status(accession: Seq<char>, e: AppError) -> Seq<char> {
    "[FAILED] "@ + accession + ". [ERROR]: "@ + e.message_spec()
}

/// The closing line of a batch.
pub open spec fn summary_text(succeeded: nat, total: nat) -> Seq<char> {
    "Downloaded "@ + decimal_spec(succeeded) + " out of "@ + decimal_spec(total) + " accessions"@
}

/// The opening line of a batch.
pub open spec fn opening_text(total: nat) -> Seq<char> {
    "Downloading "@ + decimal_spec(total) + " unique accesssions"@
}

proof fn lemma_successes_bound(s: Seq<bool>)
    ensures
        successes(s) <= s.len(),
    decreases s.len(),
{
    if s.len() > 0 {
        lemma_successes_bound(s.drop_last());
    }
}

impl View for Batch {
    type V = BatchView;

    closed spec fn view(&self) -> BatchView {
        BatchView {
            outdir: self.outdir@,
            accessions: views(self.accessions@),
            outcomes: self.outcomes@.map_values(|o: Outcome| o.is_downloaded()),
            records: self.outcomes@,
        }
    }
}

impl Batch {
    /// The batch's invariant: the accessions are distinct and non-empty, no
    /// more of them were processed than there are, and the success counter
    /// matches the outcomes.
    pub closed spec fn wf(&self) -> bool {
        &&& views(self.accessions@).no_duplicates()
        &&& self.accessions@.len() > 0
        &&& self.outcomes@.len() <= self.accessions@.len()
        &&& self.succeeded == successes(self@.outcomes)
    }

    /// Starts a batch over the normalized, deduplicated accessions. Fails only
    /// when no accession is left after normalization.
    pub fn new(accessions: Vec<String>, outdir: &str) -> (r: Result<Batch, AppError>)
        ensures
            match r {
                Ok(b) => {
                    &&& b.wf()
                    &&& b@.outdir == outdir@
                    &&& b@.accessions.to_set() == accession_set(views(accessions@))
                    &&& b@.accessions.no_duplicates()
                    &&& b@.accessions.len() > 0
                    &&& b@.outcomes.len() == 0
                    &&& b@.records.len() == 0
                },
                Err(e) => {
                    &&& e is EmptyAccessionList
                    &&& accession_set(views(accessions@)) == Set::<Seq<char>>::empty()
                },
            },
    {
        match accession_norm_filt(accessions) {
            Ok(v) => {
                let b = Batch {
                    outdir: String::from_str(outdir),
                    accessions: v,
                    outcomes: Vec::new(),
                    succeeded: 0,
                };
                proof {
                    assert(b@.outcomes =~= Seq::<bool>::empty());
                }
                Ok(b)
            },
            Err(e) => Err(e),
        }
    }

    /// The number of unique accessions.
    pub fn len(&self) -> (r: usize)
        ensures
            r == self@.accessions.len(),
    {
        self.accessions.len()
    }

    /// How many accessions were processed.
    pub fn attempted(&self) -> (r: usize)
        ensures
            r == self@.outcomes.len(),
    {
        self.outcomes.len()
    }

    /// How many accessions were downloaded.
    pub fn succeeded(&self) -> (r: usize)
        requires
            self.wf(),
        ensures
            r == successes(self@.outcomes),
    {
        self.succeeded
    }

    /// Whether every accession was processed.
    pub fn is_finished(&self) -> (r: bool)
        ensures
            r == (self@.outcomes.len() == self@.accessions.len()),
    {
        self.outcomes.len() == self.accessions.len()
    }

    /// The counters of the batch.
    pub fn tally(&self) -> (r: Tally)
        requires
            self.wf(),
        ensures
            r.attempted == self@.outcomes.len(),
            r.succeeded == successes(self@.outcomes),
    {
        Tally { attempted: self.outcomes.len(), succeeded: self.succeeded }
    }

    /// How each processed accession ended, in processing order.
    pub fn outcomes(&self) -> (r: &Vec<Outcome>)
        ensures
            r@ == self@.records,
            r@.map_values(|o: Outcome| o.is_downloaded()) == self@.outcomes,
    {
        &self.outcomes
    }

    /// The unique accessions, in processing order.
    pub fn accessions(&self) -> (r: &Vec<String>)
        ensures
            views(r@) == self@.accessions,
    {
        &self.accessions
    }

    /// The line shown when the batch starts.
    pub fn opening(&self) -> (r: String)
        ensures
            r@ == opening_text(self@.accessions.len()),
    {
        String::from_str("Downloading ").concat(decimal(self.accessions.len()).as_str()).concat(
            " unique accesssions",
        )
    }

    /// The next accession to fetch, or `None` when all were processed.
    pub fn next_job(&self) -> (r: Option<Job>)
        requires
            self.wf(),
        ensures
            match r {
                Some(j) => {
                    let a = self@.accessions[self@.outcomes.len() as int];
                    &&& self@.outcomes.len() < self@.accessions.len()
                    &&& j.accession@ == a
                    &&& j.url@ == url_of(a)
                    &&& j.file_path@ == file_path_of(self@.outdir, a)
                    &&& j.status@ == starting_status(a)
                },
                None => self@.outcomes.len() == self@.accessions.len(),
            },
    {
        let i = self.outcomes.len();
        if i >= self.accessions.len() {
            return None;
        }
        let a = &self.accessions[i];
        let url = get_url(a.as_str());
        let file_path = self.outdir.clone().concat("/").concat(a.as_str()).concat(".fasta");
        let status = a.clone().concat("...");
        Some(Job { accession: a.clone(), url, file_path, status })
    }

    /// Records how the pending accession ended and moves on to the next one.
    /// A failure is kept as that accession's outcome and never stops the batch.
    pub fn record(&mut self, result: Result<(), AppError>) -> (r: Report)
        requires
            old(self).wf(),
            old(self)@.outcomes.len() < old(self)@.accessions.len(),
        ensures
            final(self).wf(),
            final(self)@.outdir == old(self)@.outdir,
            final(self)@.accessions == old(self)@.accessions,
            final(self)@.outcomes == old(self)@.outcomes.push(result is Ok),
            final(self)@.records == old(self)@.records.push(
                match result {
                    Ok(_) => Outcome::Downloaded,
                    Err(e) => Outcome::Failed(e),
                },
            ),
            r.advance == if result is Ok {
                1u64
            } else {
                0u64
            },
            match result {
                Ok(_) => r.status@ == success_status(
                    old(self)@.accessions[old(self)@.outcomes.len() as int],
                ),
                Err(e) => r.status@ == failure_status(
                    old(self)@.accessions[old(self)@.outcomes.len() as int],
                    e,
                ),
            },
    {
        let i = self.outcomes.len();
        let ghost before = self@.outcomes;
        proof {
            lemma_successes_bound(before);
            assert(before.len() == self.outcomes@.len());
            assert(self.succeeded < self.accessions.len());
        }
        let a = self.accessions[i].clone();
        let report = match result {
            Ok(_) => {
                self.outcomes.push(Outcome::Downloaded);
                self.succeeded = self.succeeded + 1;
                Report {
                    advance: 1,
                    status: String::from_str("[SUCCESS] ").concat(a.as_str()).concat("..."),
                }
            },
            Err(e) => {
                let status = String::from_str("[FAILED] ").concat(a.as_str()).concat(
                    ". [ERROR]: ",
                ).concat(e.message().as_str());
                self.outcomes.push(Outcome::Failed(e));
                Report { advance: 0, status }
            },
        };
        proof {
            assert(self@.outcomes =~= before.push(result is Ok));
            assert(self@.outcomes.drop_last() =~= before);
        }
        report
    }

    /// The closing line: how many accessions were downloaded out of how many.
    pub fn summary(&self) -> (r: String)
        requires
            self.wf(),
        ensures
            r@ == summary_text(successes(self@.outcomes), self@.accessions.len()),
    {
        String::from_str("Downloaded ").concat(decimal(self.succeeded).as_str()).concat(
            " out of ",
        ).concat(decimal(self.accessions.len()).as_str()).concat(" accessions")
    }
}

} // verus!

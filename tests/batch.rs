use nuccore_fetch::text::decimal;
use nuccore_fetch::{AppError, Batch, Outcome, Tally};

fn strings(xs: &[&str]) -> Vec<String> {
    xs.iter().map(|s| s.to_string()).collect()
}

#[test]
fn one_failure_does_not_stop_the_batch() {
    let mut batch = Batch::new(strings(&["a1", "b2", "c3"]), "out").unwrap();
    let mut seen = Vec::new();
    let mut k = 0;
    while let Some(job) = batch.next_job() {
        seen.push(job.accession.clone());
        let result = if k == 1 {
            Err(AppError::StatusCodeError("bad status".to_string()))
        } else {
            Ok(())
        };
        batch.record(result);
        k += 1;
    }
    assert_eq!(seen.len(), 3);
    assert_eq!(batch.tally(), Tally { attempted: 3, succeeded: 2 });
    assert!(batch.is_finished());
    assert!(matches!(batch.outcomes()[2], Outcome::Downloaded));
    match &batch.outcomes()[1] {
        Outcome::Failed(AppError::StatusCodeError(m)) => assert_eq!(m, "bad status"),
        other => panic!("unexpected {:?}", other),
    }
    assert_eq!(batch.summary(), "Downloaded 2 out of 3 accessions");
}

#[test]
fn batch_of_blanks_is_fatal() {
    assert!(matches!(Batch::new(strings(&[" ", ""]), "out"), Err(AppError::EmptyAccessionList)));
}

#[test]
fn batch_deduplicates() {
    let batch = Batch::new(strings(&["x1", "X1 ", "y"]), "out").unwrap();
    assert_eq!(batch.len(), 2);
    assert_eq!(batch.opening(), "Downloading 2 unique accesssions");
}

#[test]
fn job_names_url_file_and_status() {
    let batch = Batch::new(strings(&[" nc_1 "]), "/data/out").unwrap();
    let job = batch.next_job().unwrap();
    assert_eq!(job.accession, "NC_1");
    assert_eq!(
        job.url,
        "https://www.ncbi.nlm.nih.gov/sviewer/viewer.fcgi?id=NC_1&db=nuccore&report=fasta&retmode=text"
    );
    assert_eq!(job.file_path, "/data/out/NC_1.fasta");
    assert_eq!(job.status, "NC_1...");
}

#[test]
fn reports_for_success_and_failure() {
    let mut batch = Batch::new(strings(&["a", "b"]), "o").unwrap();
    let first = batch.accessions()[0].clone();
    let r = batch.record(Ok(()));
    assert_eq!(r.advance, 1);
    assert_eq!(r.status, format!("[SUCCESS] {}...", first));
    let second = batch.accessions()[1].clone();
    let r = batch.record(Err(AppError::IoError("denied".to_string())));
    assert_eq!(r.advance, 0);
    assert_eq!(r.status, format!("[FAILED] {}. [ERROR]: IO error: denied", second));
    assert!(batch.next_job().is_none());
    assert_eq!(batch.attempted(), 2);
    assert_eq!(batch.succeeded(), 1);
    assert_eq!(batch.summary(), "Downloaded 1 out of 2 accessions");
}

#[test]
fn all_failed_summary() {
    let mut batch = Batch::new(strings(&["a"]), "o").unwrap();
    batch.record(Err(AppError::InvalidResponseError("no".to_string())));
    assert_eq!(batch.summary(), "Downloaded 0 out of 1 accessions");
}

#[test]
fn decimal_notation() {
    assert_eq!(decimal(0), "0");
    assert_eq!(decimal(7), "7");
    assert_eq!(decimal(10), "10");
    assert_eq!(decimal(12345), "12345");
}

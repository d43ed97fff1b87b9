use void_upload::consumer::{Event, Outcome, Terminal};
use void_upload::status::Status;
use void_upload::upload::{upload_void, Upload};

#[test]
fn single_chunk_hello_is_drained_with_success() {
    let body: Vec<Result<&[u8], String>> = vec![Ok(b"hello")];
    let upload = upload_void(&body);
    assert_eq!(upload.outcome, Outcome { total: 5, terminal: Terminal::Completed });
    assert_eq!(upload.outcome.status(), Status::Success);
    assert_eq!(upload.outcome.status().code(), 200);
    assert_eq!(upload.frames_read, 1);
    assert_eq!(
        upload.events,
        vec![Event::Started, Event::Progress { total: 5 }, Event::Finished { total: 5 }]
    );
}

#[test]
fn three_chunks_total_3500() {
    let a = vec![0u8; 1000];
    let b = vec![1u8; 2000];
    let c = vec![2u8; 500];
    let body: Vec<Result<&[u8], String>> = vec![Ok(&a), Ok(&b), Ok(&c)];
    let upload = upload_void(&body);
    assert_eq!(
        upload,
        Upload {
            outcome: Outcome { total: 3500, terminal: Terminal::Completed },
            frames_read: 3,
            events: vec![
                Event::Started,
                Event::Progress { total: 1000 },
                Event::Progress { total: 3000 },
                Event::Progress { total: 3500 },
                Event::Finished { total: 3500 },
            ],
        }
    );
    assert_eq!(upload.outcome.status().code(), 200);
}

#[test]
fn error_after_ten_bytes_is_a_server_error() {
    let body: Vec<Result<&[u8], String>> =
        vec![Ok(&[7u8; 10]), Err(String::from("connection reset"))];
    let upload = upload_void(&body);
    assert_eq!(upload.outcome, Outcome { total: 10, terminal: Terminal::Failed });
    assert_eq!(upload.outcome.status(), Status::ServerError);
    assert_eq!(upload.outcome.status().code(), 500);
    assert_eq!(upload.frames_read, 2);
    assert_eq!(
        upload.events,
        vec![
            Event::Started,
            Event::Progress { total: 10 },
            Event::ReadFailed { detail: String::from("connection reset") },
        ]
    );
}

#[test]
fn empty_body_is_success_with_total_zero() {
    let body: Vec<Result<&[u8], String>> = Vec::new();
    let upload = upload_void(&body);
    assert_eq!(
        upload,
        Upload {
            outcome: Outcome { total: 0, terminal: Terminal::Completed },
            frames_read: 0,
            events: vec![Event::Started, Event::Finished { total: 0 }],
        }
    );
    assert_eq!(upload.outcome.status().code(), 200);
}

#[test]
fn frames_behind_a_failure_are_not_read() {
    let body: Vec<Result<&[u8], String>> = vec![
        Ok(&[0u8; 4]),
        Ok(&[0u8; 6]),
        Err(String::from("reset")),
        Ok(&[0u8; 1000]),
        Err(String::from("never seen")),
        Ok(&[0u8; 1]),
    ];
    let upload = upload_void(&body);
    assert_eq!(upload.outcome, Outcome { total: 10, terminal: Terminal::Failed });
    assert_eq!(upload.frames_read, 3);
    assert_eq!(
        upload.events,
        vec![
            Event::Started,
            Event::Progress { total: 4 },
            Event::Progress { total: 10 },
            Event::ReadFailed { detail: String::from("reset") },
        ]
    );
}

#[test]
fn failure_on_the_first_pull_counts_nothing() {
    let body: Vec<Result<&[u8], String>> = vec![Err(String::from("reset")), Ok(b"late")];
    let upload = upload_void(&body);
    assert_eq!(upload.outcome, Outcome { total: 0, terminal: Terminal::Failed });
    assert_eq!(upload.outcome.status().code(), 500);
    assert_eq!(upload.frames_read, 1);
    assert_eq!(
        upload.events,
        vec![Event::Started, Event::ReadFailed { detail: String::from("reset") }]
    );
}

#[test]
fn total_is_the_sum_of_the_chunk_lengths() {
    let lengths: Vec<usize> = vec![0, 1, 2, 3, 5, 8, 13, 21, 34, 55, 89, 144, 0, 233];
    let chunks: Vec<Vec<u8>> = lengths.iter().map(|n| vec![0xAB; *n]).collect();
    let body: Vec<Result<&[u8], String>> = chunks.iter().map(|c| Ok(c.as_slice())).collect();
    let upload = upload_void(&body);
    let sum: usize = lengths.iter().sum();
    assert_eq!(sum, 608);
    assert_eq!(upload.outcome.total, u128::try_from(sum).unwrap());
    assert_eq!(upload.outcome, Outcome { total: 608, terminal: Terminal::Completed });
    assert_eq!(upload.frames_read, lengths.len());
    assert_eq!(upload.events.len(), lengths.len() + 2);
    assert_eq!(upload.events[upload.events.len() - 1], Event::Finished { total: 608 });
}

#[test]
fn failure_after_k_chunks_reports_the_sum_of_the_first_k() {
    let lengths: Vec<usize> = vec![10, 20, 30, 40, 50];
    let chunks: Vec<Vec<u8>> = lengths.iter().map(|n| vec![1; *n]).collect();
    for k in 0..lengths.len() {
        let mut body: Vec<Result<&[u8], String>> =
            chunks[..k].iter().map(|c| Ok(c.as_slice())).collect();
        body.push(Err(String::from("reset")));
        for c in &chunks[k..] {
            body.push(Ok(c.as_slice()));
        }
        let upload = upload_void(&body);
        let expected: usize = lengths[..k].iter().sum();
        let expected = u128::try_from(expected).unwrap();
        assert_eq!(upload.outcome, Outcome { total: expected, terminal: Terminal::Failed });
        assert_eq!(upload.outcome.status(), Status::ServerError);
        assert_eq!(upload.frames_read, k + 1);
        assert_eq!(upload.events.len(), k + 2);
    }
}

#[test]
fn empty_chunks_only_is_success_with_total_zero() {
    let body: Vec<Result<&[u8], String>> = vec![Ok(b""), Ok(b""), Ok(b"")];
    let upload = upload_void(&body);
    assert_eq!(upload.outcome, Outcome { total: 0, terminal: Terminal::Completed });
    assert_eq!(upload.frames_read, 3);
    assert_eq!(
        upload.events,
        vec![
            Event::Started,
            Event::Progress { total: 0 },
            Event::Progress { total: 0 },
            Event::Progress { total: 0 },
            Event::Finished { total: 0 },
        ]
    );
}

#[test]
fn two_uploads_do_not_touch_each_other() {
    let one: Vec<Result<&[u8], String>> = vec![Ok(&[0u8; 100]), Ok(&[0u8; 200])];
    let other: Vec<Result<&[u8], String>> = vec![Ok(&[0u8; 3]), Err(String::from("reset"))];
    let first = upload_void(&one);
    let second = upload_void(&other);
    let first_again = upload_void(&one);
    assert_eq!(first.outcome, Outcome { total: 300, terminal: Terminal::Completed });
    assert_eq!(second.outcome, Outcome { total: 3, terminal: Terminal::Failed });
    assert_eq!(first, first_again);
}

use bigtable_rs::{
    assemble, Anomaly, AssemblyState, CellChunk, DecodeError, Decoder, RowCell, RowStatus,
    TimeSpan,
};

fn chunk(
    row_key: &[u8],
    family: Option<&str>,
    qualifier: Option<&[u8]>,
    timestamp_micros: i64,
    value: &[u8],
    row_status: RowStatus,
) -> CellChunk {
    CellChunk {
        row_key: row_key.to_vec(),
        family_name: family.map(|f| f.to_string()),
        qualifier: qualifier.map(|q| q.to_vec()),
        timestamp_micros,
        value: value.to_vec(),
        row_status,
    }
}

fn cell(family: &str, qualifier: &[u8], value: &[u8], timestamp_micros: i64) -> RowCell {
    RowCell {
        family_name: family.to_string(),
        qualifier: qualifier.to_vec(),
        value: value.to_vec(),
        timestamp_micros,
    }
}

#[test]
fn single_chunk_row() {
    let rows = assemble(vec![chunk(b"K", Some("F"), Some(b"Q"), 7, b"V", RowStatus::Commit)]);
    assert_eq!(rows, vec![(b"K".to_vec(), vec![cell("F", b"Q", b"V", 7)])]);
}

#[test]
fn split_value_cell() {
    let rows = assemble(vec![
        chunk(b"K", Some("F"), Some(b"Q"), 11, b"V1", RowStatus::Continue),
        chunk(b"", None, None, 0, b"V2", RowStatus::Commit),
    ]);
    assert_eq!(rows, vec![(b"K".to_vec(), vec![cell("F", b"Q", b"V1V2", 11)])]);
}

#[test]
fn multi_cell_row() {
    let rows = assemble(vec![
        chunk(b"K", Some("F"), Some(b"Qa"), 1, b"A", RowStatus::Continue),
        chunk(b"", Some("G"), Some(b"Qb"), 2, b"B", RowStatus::Continue),
        chunk(b"", None, None, 0, b"", RowStatus::Commit),
    ]);
    assert_eq!(
        rows,
        vec![(b"K".to_vec(), vec![cell("F", b"Qa", b"A", 1), cell("G", b"Qb", b"B", 2)])]
    );
}

#[test]
fn reset_discards_progress() {
    let rows = assemble(vec![
        chunk(b"K", Some("F"), Some(b"Q1"), 1, b"x", RowStatus::Continue),
        chunk(b"", Some("F"), Some(b"Q2"), 2, b"y", RowStatus::Reset),
        chunk(b"K2", Some("F"), Some(b"Q"), 3, b"z", RowStatus::Commit),
    ]);
    assert_eq!(rows, vec![(b"K2".to_vec(), vec![cell("F", b"Q", b"z", 3)])]);
}

#[test]
fn reset_drops_pending_value() {
    let rows = assemble(vec![
        chunk(b"K", Some("F"), Some(b"Q"), 1, b"stale", RowStatus::Reset),
        chunk(b"K2", None, None, 0, b"new", RowStatus::Commit),
    ]);
    assert_eq!(rows, vec![(b"K2".to_vec(), vec![])]);
}

#[test]
fn reset_then_commit_without_key_emits_nothing() {
    let rows = assemble(vec![
        chunk(b"K", Some("F"), Some(b"Q"), 1, b"x", RowStatus::Reset),
        chunk(b"", None, None, 0, b"", RowStatus::Commit),
    ]);
    assert!(rows.is_empty());
}

#[test]
fn timeout_discards_rows() {
    let mut d = Decoder::new(Some(TimeSpan::new(2, 0)));
    let first = vec![chunk(b"K", Some("F"), Some(b"Q"), 1, b"V", RowStatus::Commit)];
    assert!(d.on_message(Ok(Some(first)), TimeSpan::new(1, 0)).is_none());
    assert_eq!(d.rows.len(), 1);
    let second = vec![chunk(b"L", Some("F"), Some(b"Q"), 1, b"V", RowStatus::Commit)];
    match d.on_message(Ok(Some(second)), TimeSpan::new(2, 1)) {
        Some(Err(DecodeError::Timeout(secs))) => assert_eq!(secs, 2),
        _ => panic!("expected a timeout"),
    }
}

#[test]
fn deadline_reached_exactly_is_not_late() {
    let mut d = Decoder::new(Some(TimeSpan::new(2, 500)));
    let batch = vec![chunk(b"K", Some("F"), Some(b"Q"), 1, b"V", RowStatus::Commit)];
    assert!(d.on_message(Ok(Some(batch)), TimeSpan::new(2, 500)).is_none());
    match d.on_message(Ok(None), TimeSpan::new(9, 0)) {
        Some(Ok(rows)) => assert_eq!(rows, vec![(b"K".to_vec(), vec![cell("F", b"Q", b"V", 1)])]),
        _ => panic!("expected rows"),
    }
}

#[test]
fn no_deadline_never_times_out() {
    let mut d = Decoder::new(None);
    let batch = vec![chunk(b"K", Some("F"), Some(b"Q"), 1, b"V", RowStatus::Continue)];
    assert!(d.on_message(Ok(Some(batch)), TimeSpan::new(u64::MAX, 999_999_999)).is_none());
    match d.on_message(Ok(None), TimeSpan::new(0, 0)) {
        Some(Ok(rows)) => assert!(rows.is_empty()),
        _ => panic!("expected an empty result"),
    }
}

#[test]
fn transport_error_is_passed_on() {
    let mut d = Decoder::new(None);
    let status = tonic::Status::new(tonic::Code::Unavailable, "gone");
    match d.on_message(Err(status), TimeSpan::new(0, 0)) {
        Some(Err(DecodeError::Transport(s))) => {
            assert_eq!(s.code(), tonic::Code::Unavailable);
            assert_eq!(s.message(), "gone");
        }
        _ => panic!("expected the transport error"),
    }
}

#[test]
fn rows_follow_commit_order() {
    let chunks = vec![
        chunk(b"A", Some("F"), Some(b"Q"), 1, b"1", RowStatus::Commit),
        chunk(b"B", Some("F"), Some(b"Q"), 2, b"2", RowStatus::Continue),
        chunk(b"", None, None, 0, b"2", RowStatus::Commit),
        chunk(b"C", Some("F"), Some(b"Q"), 3, b"3", RowStatus::Commit),
    ];
    let first = assemble(chunks.clone());
    let keys: Vec<Vec<u8>> = first.iter().map(|r| r.0.clone()).collect();
    assert_eq!(keys, vec![b"A".to_vec(), b"B".to_vec(), b"C".to_vec()]);
    assert_eq!(first[1].1, vec![cell("F", b"Q", b"22", 2)]);
    let second = assemble(chunks);
    assert_eq!(first, second);
}

#[test]
fn rows_span_batches() {
    let mut d = Decoder::new(None);
    let b1 = vec![chunk(b"K", Some("F"), Some(b"Q"), 4, b"ab", RowStatus::Continue)];
    let b2 = vec![chunk(b"", None, None, 0, b"cd", RowStatus::Commit)];
    assert!(d.on_message(Ok(Some(b1)), TimeSpan::new(0, 0)).is_none());
    assert!(d.rows.is_empty());
    assert!(d.on_message(Ok(Some(b2)), TimeSpan::new(0, 0)).is_none());
    match d.on_message(Ok(None), TimeSpan::new(0, 0)) {
        Some(Ok(rows)) => assert_eq!(rows, vec![(b"K".to_vec(), vec![cell("F", b"Q", b"abcd", 4)])]),
        _ => panic!("expected rows"),
    }
}

#[test]
fn commit_without_cell_emits_closed_cells() {
    let mut state = AssemblyState::new();
    let mut rows = Vec::new();
    let mut found = Vec::new();
    state.push_batch(
        vec![
            chunk(b"K", Some("F"), Some(b"Q"), 1, b"V", RowStatus::Commit),
            chunk(b"L", None, None, 0, b"", RowStatus::Commit),
        ],
        &mut rows,
        &mut found,
    );
    assert_eq!(
        rows,
        vec![(b"K".to_vec(), vec![cell("F", b"Q", b"V", 1)]), (b"L".to_vec(), vec![])]
    );
    assert_eq!(found, vec![Anomaly::CommitWithoutCell]);
}

#[test]
fn commit_without_row_key_drops_cells() {
    let mut state = AssemblyState::new();
    let mut rows = Vec::new();
    let mut found = Vec::new();
    state.push_batch(
        vec![
            chunk(b"", Some("F"), Some(b"Q"), 1, b"V", RowStatus::Commit),
            chunk(b"K", Some("F"), Some(b"R"), 2, b"W", RowStatus::Commit),
        ],
        &mut rows,
        &mut found,
    );
    assert_eq!(rows, vec![(b"K".to_vec(), vec![cell("F", b"R", b"W", 2)])]);
    assert_eq!(found, vec![Anomaly::CommitWithoutRowKey]);
}

#[test]
fn decoder_reports_found_irregularities() {
    let mut d = Decoder::new(None);
    let batch = vec![chunk(b"", None, None, 0, b"", RowStatus::Commit)];
    assert!(d.on_message(Ok(Some(batch)), TimeSpan::new(0, 0)).is_none());
    assert_eq!(
        d.take_found(),
        vec![Anomaly::CommitWithoutCell, Anomaly::CommitWithoutRowKey]
    );
    assert!(d.take_found().is_empty());
}

#[test]
fn family_name_is_not_carried_to_next_cell() {
    let rows = assemble(vec![
        chunk(b"K", Some("F"), Some(b"Qa"), 1, b"A", RowStatus::Continue),
        chunk(b"", None, Some(b"Qb"), 2, b"B", RowStatus::Commit),
    ]);
    assert_eq!(
        rows,
        vec![(b"K".to_vec(), vec![cell("F", b"Qa", b"A", 1), cell("", b"Qb", b"B", 2)])]
    );
}

#[test]
fn stream_ending_mid_row_drops_it() {
    let rows = assemble(vec![
        chunk(b"K", Some("F"), Some(b"Q"), 1, b"V", RowStatus::Commit),
        chunk(b"L", Some("F"), Some(b"Q"), 1, b"V", RowStatus::Continue),
    ]);
    assert_eq!(rows.len(), 1);
    assert_eq!(rows[0].0, b"K".to_vec());
}

#[test]
fn empty_stream_gives_no_rows() {
    assert!(assemble(vec![]).is_empty());
}

#[test]
fn new_row_key_replaces_open_key() {
    let rows = assemble(vec![
        chunk(b"K", Some("F"), Some(b"Q"), 1, b"V", RowStatus::Continue),
        chunk(b"L", Some("F"), Some(b"R"), 2, b"W", RowStatus::Commit),
    ]);
    assert_eq!(
        rows,
        vec![(b"L".to_vec(), vec![cell("F", b"Q", b"V", 1), cell("F", b"R", b"W", 2)])]
    );
}

#[test]
fn time_span_comparison() {
    assert!(TimeSpan::new(3, 0).exceeds(&TimeSpan::new(2, 999_999_999)));
    assert!(TimeSpan::new(2, 2).exceeds(&TimeSpan::new(2, 1)));
    assert!(!TimeSpan::new(2, 1).exceeds(&TimeSpan::new(2, 1)));
    assert!(!TimeSpan::new(1, 999_999_999).exceeds(&TimeSpan::new(2, 0)));
}

use seekable_compress::compress::{Compress, CompressError, Step};
use seekable_compress::sink::CompressSink;

// Mirrors the pull protocol of an asynchronous driver: once the transducer is
// finished nothing is ever fetched from upstream again; otherwise upstream
// items are fed in until something becomes visible.
fn expect_bytes(item: Result<Vec<u8>, CompressError<String>>) -> Vec<u8> {
    match item {
        Ok(b) => b,
        Err(_) => panic!("unexpected fault"),
    }
}

fn pull(
    c: &mut Compress,
    upstream: &mut std::vec::IntoIter<Result<Vec<u8>, String>>,
) -> Option<Result<Vec<u8>, CompressError<String>>> {
    if c.finished() {
        return None;
    }
    loop {
        let item = upstream.next();
        let borrowed: Option<Result<&[u8], String>> = match &item {
            None => None,
            Some(Ok(v)) => Some(Ok(&v[..])),
            Some(Err(e)) => Some(Err(e.clone())),
        };
        match c.on_item(borrowed) {
            Step::Output(b) => return Some(Ok(b)),
            Step::Fault(f) => return Some(Err(f)),
            Step::Done => return None,
            Step::Again => continue,
        }
    }
}

fn transduce_all(level: usize, frame_size: usize, chunks: &[&[u8]]) -> Vec<u8> {
    let mut c = Compress::new(level, frame_size).unwrap();
    let mut upstream: std::vec::IntoIter<Result<Vec<u8>, String>> = chunks
        .iter()
        .map(|c| Ok(c.to_vec()))
        .collect::<Vec<_>>()
        .into_iter();
    let mut out: Vec<u8> = Vec::new();
    while let Some(item) = pull(&mut c, &mut upstream) {
        out.extend_from_slice(&expect_bytes(item));
    }
    out
}

fn sink_all(level: usize, frame_size: usize, chunks: &[&[u8]]) -> Vec<u8> {
    let mut sink = CompressSink::new(level, frame_size).unwrap();
    let mut out: Vec<u8> = Vec::new();
    for chunk in chunks {
        out.extend_from_slice(&sink.write(chunk).unwrap());
    }
    out.extend_from_slice(&sink.finalize().unwrap());
    out
}

fn decompress_all(compressed: &[u8], expected_len: usize) -> Vec<u8> {
    let mut s = zstd_seekable::Seekable::init_buf(compressed).unwrap();
    let mut out = vec![0u8; expected_len];
    let n = s.decompress(&mut out, 0).unwrap();
    out.truncate(n);
    out
}

#[test]
fn round_trip_through_sync_sink() {
    let chunks: &[&[u8]] = &[b"the quick brown fox ", b"jumps over ", b"the lazy dog"];
    let compressed = sink_all(5, 8, chunks);
    let plain: Vec<u8> = chunks.concat();
    assert_eq!(decompress_all(&compressed, plain.len()), plain);
}

#[test]
fn round_trip_large_input_many_frames() {
    let big: Vec<u8> = (0..100_000u32).map(|i| (i % 251) as u8).collect();
    let chunks: Vec<&[u8]> = big.chunks(7919).collect();
    let compressed = sink_all(1, 1024, &chunks);
    assert_eq!(decompress_all(&compressed, big.len()), big);
}

#[test]
fn async_model_matches_sync_model() {
    let chunks: &[&[u8]] = &[b"alpha ", b"beta ", b"", b"gamma"];
    let via_stream = transduce_all(3, 4096, chunks);
    let via_sink = sink_all(3, 4096, chunks);
    assert_eq!(via_stream, via_sink);
    let plain: Vec<u8> = chunks.concat();
    assert_eq!(decompress_all(&via_stream, plain.len()), plain);
}

#[test]
fn async_model_empty_sequence_matches_sync() {
    let via_stream = transduce_all(3, 4096, &[]);
    let via_sink = sink_all(3, 4096, &[]);
    assert_eq!(via_stream, via_sink);
    assert!(!via_stream.is_empty(), "even an empty input carries a seek table");
}

#[test]
fn termination_is_idempotent_and_stops_touching_upstream() {
    let mut c = Compress::new(3, 4096).unwrap();
    let mut upstream: std::vec::IntoIter<Result<Vec<u8>, String>> =
        vec![Ok(b"payload".to_vec())].into_iter();
    while pull(&mut c, &mut upstream).is_some() {}
    assert!(c.finished());
    // The upstream source is exhausted and poisoned: any further fetch would
    // be visible.  A finished transducer must yield "no more" without one.
    let mut poisoned: std::vec::IntoIter<Result<Vec<u8>, String>> =
        vec![Err("must never be fetched".to_string())].into_iter();
    for _ in 0..3 {
        assert!(pull(&mut c, &mut poisoned).is_none());
    }
    assert_eq!(poisoned.len(), 1, "a finished transducer touched upstream");
}

#[test]
fn empty_chunk_produces_no_bytes_but_tail_still_comes() {
    let mut sink = CompressSink::new(3, 4096).unwrap();
    let wrote = sink.write(b"").unwrap();
    assert!(wrote.is_empty());
    let tail = sink.finalize().unwrap();
    assert!(!tail.is_empty());
}

#[test]
fn finalize_consumes_the_sink() {
    // The single-call invariant is enforced by ownership: `finalize` takes
    // the sink by value, so a second call does not type-check.  What can be
    // observed at run time is the one supported call succeeding.
    let mut sink = CompressSink::new(3, 4096).unwrap();
    sink.write(b"one shot").unwrap();
    let tail = sink.finalize().unwrap();
    assert!(!tail.is_empty());
}

#[test]
fn hello_world_scenario_is_seekable() {
    let chunks: &[&[u8]] = &[b"hello ", b"world", b""];
    let mut c = Compress::new(3, 4096).unwrap();
    let mut upstream: std::vec::IntoIter<Result<Vec<u8>, String>> = chunks
        .iter()
        .map(|c| Ok(c.to_vec()))
        .collect::<Vec<_>>()
        .into_iter();
    let mut elements: Vec<Vec<u8>> = Vec::new();
    while let Some(item) = pull(&mut c, &mut upstream) {
        elements.push(expect_bytes(item));
    }
    // The final element is the non-empty seek-table-bearing tail, and no
    // element is ever empty.
    assert!(!elements.is_empty());
    assert!(elements.iter().all(|e| !e.is_empty()));
    let compressed: Vec<u8> = elements.concat();
    assert_eq!(decompress_all(&compressed, 11), b"hello world");
    // Random access through the codec's own seeking reader.
    let mut s = zstd_seekable::Seekable::init_buf(&compressed).unwrap();
    let mut out = vec![0u8; 5];
    s.decompress(&mut out, 6).unwrap();
    assert_eq!(&out, b"world");
}

#[test]
fn upstream_fault_surfaces_once_and_leaves_the_transducer_active() {
    let mut c = Compress::new(3, 64).unwrap();
    let mut upstream: std::vec::IntoIter<Result<Vec<u8>, String>> = vec![
        Ok(b"first chunk of bytes".to_vec()),
        Ok(b"second chunk of bytes".to_vec()),
        Err("upstream went away".to_string()),
    ]
    .into_iter();
    let mut upstream_faults = 0usize;
    let mut compressed: Vec<u8> = Vec::new();
    loop {
        match pull(&mut c, &mut upstream) {
            Some(Ok(b)) => compressed.extend_from_slice(&b),
            Some(Err(f)) => {
                assert!(f.is_upstream_fault());
                assert!(!f.is_codec_fault());
                upstream_faults += 1;
                // The fault did not finalize anything: the transducer is
                // still active and can be driven to a proper end.
                assert!(!c.finished());
                break;
            }
            None => panic!("the fault must surface before the sequence ends"),
        }
    }
    assert_eq!(upstream_faults, 1);
    assert_eq!(upstream.len(), 0);
    let mut rest: std::vec::IntoIter<Result<Vec<u8>, String>> = Vec::new().into_iter();
    while let Some(item) = pull(&mut c, &mut rest) {
        compressed.extend_from_slice(&expect_bytes(item));
    }
    assert!(c.finished());
    let plain: Vec<u8> = b"first chunk of bytessecond chunk of bytes".to_vec();
    assert_eq!(decompress_all(&compressed, plain.len()), plain);
}

#[test]
fn rejected_configuration_reports_a_codec_error() {
    // The seekable codec caps the frame size; far beyond the cap the
    // initialisation must fail rather than hand back a handle.
    assert!(Compress::new(3, usize::MAX).is_err());
    assert!(CompressSink::new(3, usize::MAX).is_err());
}

#[test]
fn error_wrapper_reports_variant_and_describes_itself() {
    let up: CompressError<String> = CompressError::Underlying("broken pipe".to_string());
    assert!(up.is_upstream_fault());
    assert!(!up.is_codec_fault());
    assert!(!up.describe().is_empty());
    let codec_err = match Compress::new(3, usize::MAX) {
        Err(e) => e,
        Ok(_) => panic!("an oversized frame must be rejected"),
    };
    let down: CompressError<String> = CompressError::ZstdError(codec_err);
    assert!(down.is_codec_fault());
    assert!(!down.is_upstream_fault());
    assert!(!down.describe().is_empty());
}

#[test]
fn round_trip_incompressible_large_frame() {
    // Incompressible input with a frame larger than the codec's single-call
    // output budget: a frame's flush can then span calls, the state in
    // which a compress call accepts no input while it finishes the flush.
    let mut x: u64 = 0x9E3779B97F4A7C15;
    let big: Vec<u8> = (0..2_000_000usize)
        .map(|_| {
            x ^= x << 13;
            x ^= x >> 7;
            x ^= x << 17;
            (x >> 24) as u8
        })
        .collect();
    let compressed = sink_all(1, 1 << 20, &[&big]);
    assert!(compressed.len() > 1 << 17, "incompressible input must not shrink");
    assert_eq!(decompress_all(&compressed, big.len()), big);
}

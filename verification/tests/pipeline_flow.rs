use std::sync::mpsc;

use asset_sync::console::{ConsoleMessage, CorruptedMetadataAction, State};
use asset_sync::hash::{sha1_hash, Sha1Hash};
use asset_sync::pipeline::{ItemPipeline, Phase};

use base64::Engine;

fn standard_base64(bytes: &[u8]) -> Vec<u8> {
    let engine = base64::engine::GeneralPurpose::new(
        &base64::alphabet::STANDARD,
        base64::engine::GeneralPurposeConfig::new(),
    );
    engine.encode(bytes).into_bytes()
}

fn is_terminal_state(state: &State) -> bool {
    matches!(
        state,
        State::Cached
            | State::Done
            | State::CorruptedMetadata(CorruptedMetadataAction::Skipped { .. })
    )
}

#[test]
fn valid_download_runs_to_done() {
    let bytes = vec![1u8, 2, 3, 4, 5, 6, 7, 8, 9, 10];
    let hash = sha1_hash(&bytes);
    let (mut pl, msgs) = ItemPipeline::new(hash, 10, 1, false, false);
    assert_eq!(msgs.len(), 1);
    assert!(matches!(msgs[0].state, State::Checking));
    assert_eq!(pl.phase(), Phase::Checking);

    let msgs = pl.on_cache_probe(None, None);
    assert!(msgs.is_empty());
    assert_eq!(pl.phase(), Phase::Fetching);

    let msgs = pl.on_fetched(bytes.clone());
    assert_eq!(msgs.len(), 1);
    assert!(matches!(msgs[0].state, State::Processing));
    assert_eq!(pl.phase(), Phase::Writing);
    assert_eq!(pl.bytes_to_write(), &bytes);

    let msgs = pl.on_written();
    assert_eq!(msgs.len(), 1);
    assert!(matches!(msgs[0].state, State::Done));
    assert_eq!(pl.phase(), Phase::Finished);
}

#[test]
fn short_body_is_skipped_with_nothing_written() {
    let good = vec![1u8, 2, 3, 4, 5, 6, 7, 8, 9, 10];
    let hash = sha1_hash(&good);
    let (mut pl, _) = ItemPipeline::new(hash, 10, 1, false, false);
    let msgs = pl.on_cache_probe(None, None);
    assert!(msgs.is_empty());

    let short = vec![1u8, 2, 3, 4, 5, 6, 7, 8, 9];
    let msgs = pl.on_fetched(short.clone());
    assert_eq!(msgs.len(), 1);
    match &msgs[0].state {
        State::CorruptedMetadata(CorruptedMetadataAction::Skipped { actual_hash }) => {
            assert!(*actual_hash == sha1_hash(&short));
        }
        other => panic!("expected a skip, got {other:?}"),
    }
    // Straight to finished: the writing phase is never entered.
    assert_eq!(pl.phase(), Phase::Finished);
}

#[test]
fn wrong_hash_is_skipped() {
    let bytes = vec![9u8; 10];
    let hash = sha1_hash(&vec![1u8; 10]);
    let (mut pl, _) = ItemPipeline::new(hash, 10, 4, false, false);
    pl.on_cache_probe(None, None);
    let msgs = pl.on_fetched(bytes);
    assert_eq!(msgs.len(), 1);
    assert!(matches!(
        msgs[0].state,
        State::CorruptedMetadata(CorruptedMetadataAction::Skipped { .. })
    ));
    assert_eq!(pl.phase(), Phase::Finished);
}

#[test]
fn bypass_forces_mismatched_bytes_through() {
    let bytes = vec![9u8; 7];
    let hash = sha1_hash(&vec![1u8; 10]);
    let (mut pl, _) = ItemPipeline::new(hash, 10, 2, false, true);
    let msgs = pl.on_cache_probe(None, None);
    assert!(msgs.is_empty());

    let msgs = pl.on_fetched(bytes.clone());
    assert_eq!(msgs.len(), 2);
    assert!(matches!(
        msgs[0].state,
        State::CorruptedMetadata(CorruptedMetadataAction::ForciblyContinued)
    ));
    assert!(matches!(msgs[1].state, State::Processing));
    assert_eq!(pl.phase(), Phase::Writing);
    // The mismatched bytes themselves are what gets persisted.
    assert_eq!(pl.bytes_to_write(), &bytes);

    let msgs = pl.on_written();
    assert_eq!(msgs.len(), 1);
    assert!(matches!(msgs[0].state, State::Done));
    assert_eq!(pl.phase(), Phase::Finished);
}

#[test]
fn validated_cache_ends_as_cached_without_fetch() {
    let file = vec![5u8, 6, 7, 8];
    let hash = sha1_hash(&file);
    let header = standard_base64(&md5::compute(&file).0);
    let (mut pl, _) = ItemPipeline::new(hash, 4, 3, false, false);
    let msgs = pl.on_cache_probe(Some(header), Some(file));
    assert_eq!(msgs.len(), 1);
    assert!(matches!(msgs[0].state, State::Cached));
    // Finished directly from checking: no fetch was ever requested.
    assert_eq!(pl.phase(), Phase::Finished);
}

#[test]
fn force_redownload_skips_the_probe() {
    let bytes = vec![1u8, 2, 3];
    let hash = sha1_hash(&bytes);
    let (pl, msgs) = ItemPipeline::new(hash, 3, 1, true, false);
    assert_eq!(msgs.len(), 1);
    assert!(matches!(msgs[0].state, State::Checking));
    assert_eq!(pl.phase(), Phase::Fetching);
}

#[test]
fn all_items_report_exactly_one_terminal_event() {
    // More items than workers; every item must come back with exactly
    // one terminal event and no event may be lost.
    let items: Vec<(usize, Vec<u8>)> = (0..32)
        .map(|i| {
            let len = 4 + (i % 5);
            let bytes: Vec<u8> = (0..len).map(|b| (b as u8).wrapping_add(i as u8)).collect();
            (i, bytes)
        })
        .collect();

    let (sender, receiver) = mpsc::channel::<ConsoleMessage>();
    let pool = rayon::ThreadPoolBuilder::new().num_threads(4).build().unwrap();
    pool.install(|| {
        rayon::iter::ParallelIterator::for_each(
            rayon::iter::IntoParallelRefIterator::par_iter(&items),
            |(i, bytes)| {
                let hash = sha1_hash(bytes);
                // A third of the items get corrupted payloads.
                let fetched = if i % 3 == 0 {
                    let mut c = bytes.clone();
                    c[0] ^= 0xff;
                    c
                } else {
                    bytes.clone()
                };
                let (mut pl, msgs) =
                    ItemPipeline::new(hash, bytes.len(), i + 1, false, false);
                for m in msgs {
                    sender.send(m).unwrap();
                }
                loop {
                    match pl.phase() {
                        Phase::Checking => {
                            for m in pl.on_cache_probe(None, None) {
                                sender.send(m).unwrap();
                            }
                        }
                        Phase::Fetching => {
                            for m in pl.on_fetched(fetched.clone()) {
                                sender.send(m).unwrap();
                            }
                        }
                        Phase::Writing => {
                            for m in pl.on_written() {
                                sender.send(m).unwrap();
                            }
                        }
                        Phase::Finished => break,
                    }
                }
            },
        );
    });
    drop(sender);

    let received: Vec<ConsoleMessage> = receiver.iter().collect();
    let mut terminal_per_item = vec![0usize; items.len()];
    let mut total_per_item = vec![0usize; items.len()];
    for m in &received {
        let idx = m.item_index - 1;
        total_per_item[idx] += 1;
        if is_terminal_state(&m.state) {
            terminal_per_item[idx] += 1;
        }
    }
    for (i, _) in &items {
        assert_eq!(terminal_per_item[*i], 1);
        // Corrupted items: Checking + Skipped; clean ones: Checking +
        // Processing + Done.
        let expected = if i % 3 == 0 { 2 } else { 3 };
        assert_eq!(total_per_item[*i], expected);
    }
    let expected_total: usize = items.iter().map(|(i, _)| if i % 3 == 0 { 2 } else { 3 }).sum();
    assert_eq!(received.len(), expected_total);
}

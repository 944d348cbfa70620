use traffic_harness::harness::Action;
use traffic_harness::harness::Config;
use traffic_harness::harness::Event;
use traffic_harness::harness::Failure;
use traffic_harness::harness::Harness;
use traffic_harness::harness::Phase;
use traffic_harness::transfer::generate_transfers;
use traffic_harness::transfer::take_batch;

#[test]
fn end_to_end_hundred_blocks_of_ten() {
    // seed 2322, 100 batches of 10 transfers: 1000 transfers generated
    // upfront, the producer reaches height 100 with 11 entries per block, and
    // the validator commits every block.
    let num_blocks: usize = 100;
    let num_transactions: usize = 10;
    let transfers = generate_transfers(2322, num_blocks * num_transactions);
    assert_eq!(transfers.len(), 1000);

    let mut h = Harness::new(Config { num_blocks, num_transactions });
    for i in 0..num_blocks {
        assert_eq!(h.next_action(), Action::SubmitBatch(i));
        let batch = take_batch(&transfers, i, num_transactions);
        assert_eq!(&batch[..], &transfers[i * 10..(i + 1) * 10]);
        h.step(Event::Submitted);
        assert_eq!(h.next_action(), Action::ProduceBlock);
        h.step(Event::Produced);
        assert_eq!(h.next_action(), Action::FetchBlock(i + 1));
        h.step(Event::Fetched(num_transactions + 1));
        assert_eq!(h.next_action(), Action::ValidateBlock);
        h.step(Event::Validated);
        assert_eq!(h.producer_height, i + 1);
        assert_eq!(h.validator_height, i + 1);
    }
    assert_eq!(h.phase, Phase::Done);
    assert_eq!(h.batches_done, 100);
    assert_eq!(h.producer_height, 100);
    assert_eq!(h.validator_height, 100);
    assert_eq!(h.next_action(), Action::Stop);
}

fn advance_to_fetching(h: &mut Harness) {
    h.step(Event::Submitted);
    h.step(Event::Produced);
}

#[test]
fn count_mismatch_is_fatal() {
    let mut h = Harness::new(Config { num_blocks: 3, num_transactions: 10 });
    advance_to_fetching(&mut h);
    // One transaction short of batch + implicit system transaction.
    h.step(Event::Fetched(10));
    assert_eq!(h.phase, Phase::Failed(Failure::CountMismatch));
    assert_eq!(h.next_action(), Action::Stop);
}

#[test]
fn exact_count_advances() {
    let mut h = Harness::new(Config { num_blocks: 3, num_transactions: 10 });
    advance_to_fetching(&mut h);
    h.step(Event::Fetched(11));
    assert_eq!(h.phase, Phase::Validating);
    assert_eq!(h.producer_height, 1);
    assert_eq!(h.validator_height, 0);
}

#[test]
fn missing_block_is_fatal() {
    let mut h = Harness::new(Config { num_blocks: 2, num_transactions: 4 });
    advance_to_fetching(&mut h);
    h.step(Event::BlockMissing);
    assert_eq!(h.phase, Phase::Failed(Failure::MissingBlock));
}

#[test]
fn validator_rejection_is_fatal() {
    let mut h = Harness::new(Config { num_blocks: 2, num_transactions: 4 });
    advance_to_fetching(&mut h);
    h.step(Event::Fetched(5));
    h.step(Event::ValidationFailed);
    assert_eq!(h.phase, Phase::Failed(Failure::ValidatorRejected));
}

#[test]
fn submit_error_is_fatal() {
    let mut h = Harness::new(Config { num_blocks: 2, num_transactions: 4 });
    h.step(Event::SubmitError);
    assert_eq!(h.phase, Phase::Failed(Failure::SubmitFailed));
}

#[test]
fn produce_error_is_fatal() {
    let mut h = Harness::new(Config { num_blocks: 2, num_transactions: 4 });
    h.step(Event::Submitted);
    h.step(Event::ProduceError);
    assert_eq!(h.phase, Phase::Failed(Failure::ProduceFailed));
}

#[test]
fn out_of_phase_event_is_fatal() {
    let mut h = Harness::new(Config { num_blocks: 2, num_transactions: 4 });
    h.step(Event::Validated);
    assert_eq!(h.phase, Phase::Failed(Failure::UnexpectedEvent));
}

#[test]
fn failed_state_absorbs_events() {
    let mut h = Harness::new(Config { num_blocks: 2, num_transactions: 4 });
    h.step(Event::SubmitError);
    let before = h;
    h.step(Event::Submitted);
    assert_eq!(h, before);
}

#[test]
fn zero_blocks_completes_immediately() {
    let h = Harness::new(Config { num_blocks: 0, num_transactions: 10 });
    assert_eq!(h.phase, Phase::Done);
    assert_eq!(h.next_action(), Action::Stop);
}

use reliable_broadcast::account::{Authenticator, LiteAccount};
use reliable_broadcast::aggregation::{BroadcastStatus, QuorumStatus};
use reliable_broadcast::aug_data::{filter_by_epoch, AugDataId};
use reliable_broadcast::block_epilogue::{BlockEndInfo, BlockEpiloguePayload, HashValue};
use reliable_broadcast::network_loss::{NetworkLossTest, CORRELATION_PERCENTAGE, LOSS_PERCENTAGE};

#[test]
fn lite_account_holds_its_fields() {
    let account = LiteAccount::new(42, vec![1, 2, 3]);
    assert_eq!(account.sequence_number(), 42);
    assert_eq!(account.authentication_key(), &[1u8, 2, 3][..]);
    assert!(matches!(account.authenticator, Authenticator::Native(_)));
    assert_eq!(account, LiteAccount::new(42, vec![1, 2, 3]));
    assert_ne!(account, LiteAccount::new(43, vec![1, 2, 3]));
}

#[test]
fn lite_account_with_empty_key() {
    let account = LiteAccount::new(0, vec![]);
    assert_eq!(account.sequence_number(), 0);
    assert!(account.authentication_key().is_empty());
}

fn info() -> BlockEndInfo {
    BlockEndInfo {
        block_gas_limit_reached: true,
        block_output_limit_reached: false,
        block_effective_block_gas: 500,
        block_approx_output_size: 1024,
    }
}

#[test]
fn block_id_payload_has_no_end_info() {
    let payload = BlockEpiloguePayload::BlockId(HashValue { bytes: [7; 32] });
    assert_eq!(payload.try_as_block_end_info(), None);
}

#[test]
fn end_info_payload_hands_out_its_info() {
    let payload = BlockEpiloguePayload::WithBlockEndInfo { block_id: HashValue { bytes: [0; 32] }, block_end_info: info() };
    assert_eq!(payload.try_as_block_end_info(), Some(&info()));
}

#[test]
fn network_loss_test_settings() {
    let t = NetworkLossTest;
    assert_eq!(t.name(), "network::loss-test");
    assert_eq!(t.loss(), (20, 10));
    assert_eq!((LOSS_PERCENTAGE, CORRELATION_PERCENTAGE), (20, 10));
}

#[test]
fn quorum_counts_each_peer_once() {
    let mut q = QuorumStatus::new(2);
    assert_eq!(q.add_ack(5), None);
    assert_eq!(q.add_ack(5), None);
    assert_eq!(q.acked(), &vec![5]);
    assert_eq!(q.add_ack(6), Some(vec![5, 6]));
    assert_eq!(q.add_ack(5), Some(vec![5, 6]));
}

#[test]
fn quorum_of_zero_completes_at_once() {
    let mut q = QuorumStatus::new(0);
    assert_eq!(q.add(9, ()), Ok(Some(vec![9])));
}

#[test]
fn filter_by_epoch_splits_stale_entries() {
    let id = |epoch: u64, author: u64| AugDataId { epoch, author };
    let all = vec![(id(3, 1), "a"), (id(2, 2), "b"), (id(3, 3), "c"), (id(4, 1), "d")];
    let (to_remove, to_keep) = filter_by_epoch(3, all);
    assert_eq!(to_remove, vec!["b", "d"]);
    assert_eq!(to_keep, vec![(id(3, 1), "a"), (id(3, 3), "c")]);
}

#[test]
fn filter_by_epoch_of_nothing() {
    let (to_remove, to_keep) = filter_by_epoch::<u8>(1, vec![]);
    assert!(to_remove.is_empty() && to_keep.is_empty());
}

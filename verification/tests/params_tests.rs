use std::sync::Arc;

use foundry_sandbox::common_params::{CommonParams, DecodeError, NetworkId};
use foundry_sandbox::miner::{MinerClient, MinerError, Work};

#[test]
fn encode_and_decode_default() {
    let params = CommonParams::default_for_test();
    let bytes = params.rlp_bytes();
    let decoded = CommonParams::decode(&bytes).unwrap();
    assert_eq!(decoded, params);
}

#[test]
fn encode_and_decode_arbitrary_record() {
    let params = CommonParams::new(
        4096,
        NetworkId { c0: 97, c1: 98 },
        10_000_000,
        16_384,
        7,
    );
    let bytes = params.rlp_bytes();
    let decoded = CommonParams::decode(&bytes).unwrap();
    assert_eq!(decoded, params);
    assert_eq!(decoded.max_extra_data_size(), 4096);
    assert_eq!(decoded.network_id(), NetworkId { c0: 97, c1: 98 });
    assert_eq!(decoded.max_body_size(), 10_000_000);
    assert_eq!(decoded.snapshot_period(), 16_384);
    assert_eq!(decoded.era(), 7);
}

#[test]
fn decode_refuses_wrong_list_length() {
    let mut st = rlp::RlpStream::new();
    st.begin_list(3);
    st.append(&1u64).append(&2u64).append(&3u64);
    let bytes = st.out().to_vec();
    assert_eq!(
        CommonParams::decode(&bytes),
        Err(DecodeError::IncorrectListLen { expected: 5, got: 3 })
    );
}

#[test]
fn decode_refuses_garbage() {
    assert!(CommonParams::decode(&Vec::new()).is_err());
}

#[test]
fn default_record_is_all_zero_on_test_network() {
    let params = CommonParams::default_for_test();
    assert_eq!(params, CommonParams::default());
    assert_eq!(params.max_extra_data_size(), 0);
    assert_eq!(params.network_id(), NetworkId { c0: 116, c1: 99 });
    assert_eq!(params.network_id().text(), "tc");
    assert_eq!(params.max_body_size(), 0);
    assert_eq!(params.snapshot_period(), 0);
    assert_eq!(params.era(), 0);
}

#[test]
fn network_id_code_round_trips() {
    let id = NetworkId { c0: 116, c1: 99 };
    assert_eq!(NetworkId::from_code(id.code()), id);
    assert_eq!(NetworkId::default(), id);
}

#[test]
fn verify_always_accepts() {
    assert!(CommonParams::default_for_test().verify().is_ok());
}

#[test]
fn verify_change_accepts_same_network_and_later_era() {
    let current = CommonParams::new(0, NetworkId { c0: 116, c1: 99 }, 0, 0, 3);
    let proposed = CommonParams::new(9, NetworkId { c0: 116, c1: 99 }, 9, 9, 4);
    assert!(proposed.verify_change(&current).is_ok());
    assert!(current.verify_change(&current).is_ok());
}

#[test]
fn verify_change_refuses_network_id_change() {
    let current = CommonParams::new(0, NetworkId { c0: 116, c1: 99 }, 0, 0, 0);
    let proposed = CommonParams::new(0, NetworkId { c0: 97, c1: 98 }, 0, 0, 0);
    let message = proposed.verify_change(&current).unwrap_err();
    assert_eq!(
        message,
        "The current network id is tc but the transaction tries to change the network id to ab"
    );
}

#[test]
fn verify_change_refuses_era_decrease() {
    let current = CommonParams::new(0, NetworkId { c0: 116, c1: 99 }, 0, 0, 15);
    let proposed = CommonParams::new(0, NetworkId { c0: 116, c1: 99 }, 0, 0, 3);
    let message = proposed.verify_change(&current).unwrap_err();
    assert_eq!(message, "The era(3) shouldn't be less than the current era(15)");
}

#[test]
fn verify_change_renders_large_eras_in_decimal() {
    let current = CommonParams::new(0, NetworkId { c0: 116, c1: 99 }, 0, 0, u64::MAX);
    let proposed = CommonParams::new(0, NetworkId { c0: 116, c1: 99 }, 0, 0, 0);
    let message = proposed.verify_change(&current).unwrap_err();
    assert_eq!(
        message,
        "The era(0) shouldn't be less than the current era(18446744073709551615)"
    );
}

#[test]
fn get_work_refuses_internally_sealing_engine() {
    let client = MinerClient::new(Arc::new(()), Arc::new(()));
    let r = client.get_work(false, false, None);
    assert!(matches!(r, Err(MinerError::NoWorkRequired)));
}

#[test]
fn get_work_requires_an_author() {
    let client = MinerClient::new(Arc::new(()), Arc::new(()));
    let r = client.get_work(true, true, None);
    assert!(matches!(r, Err(MinerError::NoAuthor)));
}

#[test]
fn get_work_hands_out_the_sealing_work() {
    let client = MinerClient::new(Arc::new(()), Arc::new(()));
    let work = Work { pow_hash: vec![1u8; 32], target: vec![0xffu8; 32] };
    let r = client.get_work(true, false, Some(work)).unwrap();
    assert_eq!(r.pow_hash, vec![1u8; 32]);
    assert_eq!(r.target, vec![0xffu8; 32]);

    let none = client.get_work(true, false, None);
    assert!(matches!(none, Err(MinerError::NoWorkFound)));
}

#[test]
fn submit_work_reports_the_services_verdict() {
    let client = MinerClient::new(Arc::new(()), Arc::new(()));
    assert!(matches!(
        client.submit_work(false, true),
        Err(MinerError::NoWorkRequired)
    ));
    assert_eq!(client.submit_work(true, true).unwrap(), true);
    assert_eq!(client.submit_work(true, false).unwrap(), false);
}

#[test]
fn decode_refuses_oversized_values() {
    let mut st = rlp::RlpStream::new();
    st.begin_list(5);
    st.append(&u128::MAX)
        .append(&1u64)
        .append(&2u64)
        .append(&3u64)
        .append(&4u64);
    let bytes = st.out().to_vec();
    assert_eq!(CommonParams::decode(&bytes), Err(DecodeError::InvalidValue));
}

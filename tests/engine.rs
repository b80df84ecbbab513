use token_bridge::abi::EthAddress;
use token_bridge::amount::Amount;
use token_bridge::bridge::{Chain, SwapDirection, TokenBridge};
use token_bridge::confirm::{Awaited, Confirmation, WaitEvent, WaitStep};
use token_bridge::error::BridgeError;
use token_bridge::pricing::{deadline, decode_allowance, decode_amount, exceeds_half_max, min_output};

fn hex_bytes(s: &str) -> Vec<u8> {
    let s = s.trim_start_matches("0x");
    (0..s.len())
        .step_by(2)
        .map(|i| u8::from_str_radix(&s[i..i + 2], 16).unwrap())
        .collect()
}

fn address(s: &str) -> EthAddress {
    let mut bytes = [0u8; 20];
    bytes.copy_from_slice(&hex_bytes(s));
    EthAddress { bytes }
}

fn amount_u128(v: u128) -> Amount {
    let mut bytes = [0u8; 32];
    bytes[16..].copy_from_slice(&v.to_be_bytes());
    Amount { bytes }
}

fn word(a: &Amount) -> Vec<u8> {
    a.bytes.to_vec()
}

fn address_word(a: &EthAddress) -> Vec<u8> {
    let mut w = vec![0u8; 12];
    w.extend_from_slice(&a.bytes);
    w
}

fn new_token_bridge() -> TokenBridge {
    TokenBridge::new(
        address("0x09cabEC1eAd1c0Ba254B09efb3EE13841712bE14"),
        address("0x7301CFA0e1756B71869E93d4e4Dca5c7d0eb0AA6"),
        address("0x4aa42145Aa6Ebf72e164C9bBC74fbD3788045016"),
        address("0x89d24A6b4CcB1B6fAA2625fE562bDD9a23260359"),
        address("0x79AE13432950bF5CDC3499f8d4Cf5963c3F0d42c"),
        "https://eth.althea.org".to_string(),
        "https://dai.althea.org".to_string(),
    )
}

fn purchase_topics(bought: &Amount) -> Vec<Vec<u8>> {
    vec![vec![0xaa; 32], vec![0xbb; 32], vec![0xcc; 32], word(bought)]
}

#[test]
fn min_output_truncates_before_scaling() {
    assert_eq!(min_output(&Amount::from_u64(4000)), Amount::from_u64(3900));
    assert_eq!(min_output(&Amount::from_u64(39)), Amount::from_u64(0));
    assert_eq!(min_output(&Amount::from_u64(40)), Amount::from_u64(39));
    assert_eq!(min_output(&Amount::from_u64(79)), Amount::from_u64(39));
    assert_eq!(min_output(&Amount::from_u64(0)), Amount::from_u64(0));
}

#[test]
fn min_output_of_wide_values() {
    let q: u128 = 123_456_789_012_345_678_901_234_567_890;
    assert_eq!(min_output(&amount_u128(q)), amount_u128((q / 40) * 39));
    let r = min_output(&Amount::max());
    let mut expected = [0x99u8; 32];
    expected[0] = 0xf9;
    expected[31] = 0x8a;
    assert_eq!(r.bytes, expected);
}

#[test]
fn from_u64_is_big_endian() {
    let a = Amount::from_u64(0x0102_0304_0506_0708);
    assert_eq!(&a.bytes[24..], &[1, 2, 3, 4, 5, 6, 7, 8]);
    assert!(a.bytes[..24].iter().all(|b| *b == 0));
}

#[test]
fn checked_arithmetic_reports_overflow() {
    let max = Amount::max();
    assert_eq!(max.checked_add(&Amount::from_u64(1)), None);
    assert_eq!(max.checked_add(&Amount::from_u64(0)), Some(max));
    assert_eq!(max.checked_mul_small(2), None);
    assert_eq!(
        amount_u128(u128::MAX).checked_add(&Amount::from_u64(1)).unwrap().bytes[15],
        1
    );
    assert_eq!(Amount::from_u64(7).checked_mul_small(6), Some(Amount::from_u64(42)));
    assert_eq!(Amount::from_u64(1000).div_small(7), Amount::from_u64(142));
}

#[test]
fn deadline_adds_timeout() {
    assert_eq!(deadline(&Amount::from_u64(1000), 600), Ok(Amount::from_u64(1600)));
    assert_eq!(
        deadline(&Amount::from_u64(u64::MAX), u64::MAX),
        Ok(amount_u128(u64::MAX as u128 * 2))
    );
}

#[test]
fn deadline_overflow_fails() {
    let max = Amount::max();
    assert_eq!(deadline(&max, 1), Err(BridgeError::Overflow));
    let mut near = max;
    near.bytes[31] = 0xfa;
    assert_eq!(deadline(&near, 5), Ok(max));
    assert_eq!(deadline(&near, 6), Err(BridgeError::Overflow));
}

#[test]
fn decode_short_response_is_malformed() {
    assert_eq!(decode_amount(&[0u8; 31]), Err(BridgeError::MalformedResponse));
    assert_eq!(decode_amount(&[]), Err(BridgeError::MalformedResponse));
    assert_eq!(decode_allowance(&[0xffu8; 31]), Err(BridgeError::MalformedResponse));
}

#[test]
fn decode_exact_word() {
    assert_eq!(decode_amount(&[0u8; 32]), Ok(Amount::from_u64(0)));
    let mut resp = [0u8; 32];
    resp[29] = 0x0f;
    resp[30] = 0x42;
    resp[31] = 0x40;
    assert_eq!(decode_amount(&resp), Ok(Amount::from_u64(1_000_000)));
    let mut longer = resp.to_vec();
    longer.extend_from_slice(&[9u8; 8]);
    assert_eq!(decode_amount(&longer), Ok(Amount::from_u64(1_000_000)));
}

#[test]
fn allowance_threshold_is_half_max() {
    let mut half = [0xffu8; 32];
    half[0] = 0x7f;
    assert_eq!(decode_allowance(&half), Ok(false));
    let mut above = [0u8; 32];
    above[0] = 0x80;
    assert_eq!(decode_allowance(&above), Ok(true));
    assert_eq!(decode_allowance(&[0xffu8; 32]), Ok(true));
    assert_eq!(decode_allowance(&[0u8; 32]), Ok(false));
    assert!(!exceeds_half_max(&Amount::from_u64(u64::MAX)));
}

#[test]
fn elapsed_before_event_times_out() {
    let c = Confirmation::new(Awaited::Purchase);
    let c = match c.step(WaitEvent::Submitted) {
        WaitStep::Waiting(c) => c,
        other => panic!("unexpected {:?}", other),
    };
    assert_eq!(c.step(WaitEvent::Elapsed), WaitStep::Done(Err(BridgeError::Timeout)));
}

#[test]
fn elapsed_before_submission_times_out() {
    let c = Confirmation::new(Awaited::Purchase);
    let c = match c.step(WaitEvent::EventObserved(purchase_topics(&Amount::from_u64(5)))) {
        WaitStep::Waiting(c) => c,
        other => panic!("unexpected {:?}", other),
    };
    assert!(c.observed && !c.submitted);
    assert_eq!(c.step(WaitEvent::Elapsed), WaitStep::Done(Err(BridgeError::Timeout)));
    let fresh = Confirmation::new(Awaited::Approval);
    assert_eq!(fresh.step(WaitEvent::Elapsed), WaitStep::Done(Err(BridgeError::Timeout)));
}

#[test]
fn purchase_event_yields_bought_amount() {
    let bought = Amount::from_u64(3950);
    let c = Confirmation::new(Awaited::Purchase);
    let c = match c.step(WaitEvent::Submitted) {
        WaitStep::Waiting(c) => c,
        other => panic!("unexpected {:?}", other),
    };
    assert_eq!(
        c.step(WaitEvent::EventObserved(purchase_topics(&bought))),
        WaitStep::Done(Ok(bought))
    );
    let d = Confirmation::new(Awaited::Purchase);
    let d = match d.step(WaitEvent::EventObserved(purchase_topics(&bought))) {
        WaitStep::Waiting(d) => d,
        other => panic!("unexpected {:?}", other),
    };
    assert_eq!(d.step(WaitEvent::Submitted), WaitStep::Done(Ok(bought)));
}

#[test]
fn purchase_event_without_amount_is_malformed() {
    let c = Confirmation::new(Awaited::Purchase);
    let topics = vec![vec![0u8; 32], vec![0u8; 32], vec![0u8; 32]];
    assert_eq!(
        c.step(WaitEvent::EventObserved(topics)),
        WaitStep::Done(Err(BridgeError::MalformedResponse))
    );
    let short = vec![vec![0u8; 32], vec![0u8; 32], vec![0u8; 32], vec![1u8; 16]];
    assert_eq!(
        c.step(WaitEvent::EventObserved(short)),
        WaitStep::Done(Err(BridgeError::MalformedResponse))
    );
}

#[test]
fn collaborator_failures_pass_through() {
    let c = Confirmation::new(Awaited::Purchase);
    assert_eq!(
        c.step(WaitEvent::SubmitFailed("nonce too low".to_string())),
        WaitStep::Done(Err(BridgeError::TransportFailure("nonce too low".to_string())))
    );
    assert_eq!(
        c.step(WaitEvent::EventFailed("connection reset".to_string())),
        WaitStep::Done(Err(BridgeError::TransportFailure("connection reset".to_string())))
    );
}

#[test]
fn read_calls_encode_their_arguments() {
    let tb = new_token_bridge();
    let price = tb.price_call(SwapDirection::EthToDai, Amount::from_u64(1000)).unwrap();
    assert_eq!(price.contract, tb.uniswap_address);
    assert_eq!(price.caller, tb.own_address);
    assert_eq!(price.data.len(), 36);
    assert_eq!(&price.data[4..], &word(&Amount::from_u64(1000))[..]);
    let other = tb.price_call(SwapDirection::DaiToEth, Amount::from_u64(1000)).unwrap();
    assert_ne!(&price.data[..4], &other.data[..4]);

    let allowance = tb.allowance_call().unwrap();
    assert_eq!(allowance.contract, tb.foreign_dai_contract_address);
    assert_eq!(&allowance.data[..4], &[0xdd, 0x62, 0xed, 0x3e]);
    assert_eq!(&allowance.data[4..36], &address_word(&tb.own_address)[..]);
    assert_eq!(&allowance.data[36..], &address_word(&tb.uniswap_address)[..]);

    let someone = address("0x0000000000000000000000000000000000001234");
    let balance = tb.balance_call(someone).unwrap();
    assert_eq!(&balance.data[..4], &[0x70, 0xa0, 0x82, 0x31]);
    assert_eq!(&balance.data[4..], &address_word(&someone)[..]);
}

#[test]
fn swap_plan_bounds_and_deadline() {
    let tb = new_token_bridge();
    let quote = word(&Amount::from_u64(4000));
    let amount = Amount::from_u64(1_000_000);
    let plan = tb
        .swap_plan(SwapDirection::EthToDai, amount, &Amount::from_u64(1_600_000_000), &quote, 600)
        .unwrap();
    assert_eq!(plan.min_output, Amount::from_u64(3900));
    assert_eq!(plan.deadline, Amount::from_u64(1_600_000_600));
    assert_eq!(plan.wait_seconds, 600);
    assert_eq!(plan.tx.chain, Chain::Eth);
    assert_eq!(plan.tx.to, tb.uniswap_address);
    assert_eq!(plan.tx.value, amount);
    assert_eq!(plan.tx.gas_price_multiplier, Some(2));
    assert_eq!(plan.tx.gas_limit, Some(60_000));
    assert_eq!(plan.tx.data.len(), 68);
    assert_eq!(&plan.tx.data[4..36], &word(&plan.min_output)[..]);
    assert_eq!(&plan.tx.data[36..], &word(&plan.deadline)[..]);
    assert_eq!(plan.event.contract, tb.uniswap_address);
    assert_eq!(plan.event.signature, "TokenPurchase(address,uint256,uint256)");
    assert_eq!(plan.event.topic1, Some(tb.own_address));
    assert_eq!(plan.event.topic2, None);

    let back = tb
        .swap_plan(SwapDirection::DaiToEth, amount, &Amount::from_u64(10), &quote, 600)
        .unwrap();
    assert_eq!(back.tx.value, Amount::from_u64(0));
    assert_eq!(back.tx.data.len(), 100);
    assert_eq!(&back.tx.data[4..36], &word(&amount)[..]);
    assert_eq!(&back.tx.data[36..68], &word(&Amount::from_u64(3900))[..]);
    assert_eq!(&back.tx.data[68..], &word(&Amount::from_u64(610))[..]);
    assert_eq!(back.event.signature, "EthPurchase(address,uint256,uint256)");
}

#[test]
fn swap_plan_errors() {
    let tb = new_token_bridge();
    let amount = Amount::from_u64(1);
    assert_eq!(
        tb.swap_plan(SwapDirection::EthToDai, amount, &Amount::from_u64(0), &[0u8; 16], 600),
        Err(BridgeError::MalformedResponse)
    );
    assert_eq!(
        tb.swap_plan(SwapDirection::DaiToEth, amount, &Amount::max(), &[0u8; 32], 600),
        Err(BridgeError::Overflow)
    );
}

#[test]
fn end_to_end_swap_returns_realised_amount() {
    let tb = new_token_bridge();
    let quoted = Amount::from_u64(8_000_000);
    let plan = tb
        .swap_plan(SwapDirection::EthToDai, Amount::from_u64(5), &Amount::from_u64(100), &word(&quoted), 30)
        .unwrap();
    assert_eq!(plan.min_output, Amount::from_u64(7_800_000));
    let realised = Amount::from_u64(7_912_345);
    let c = Confirmation::new(Awaited::Purchase);
    let c = match c.step(WaitEvent::Submitted) {
        WaitStep::Waiting(c) => c,
        other => panic!("unexpected {:?}", other),
    };
    let topics = vec![vec![0u8; 32], address_word(&tb.own_address), word(&Amount::from_u64(5)), word(&realised)];
    assert_eq!(c.step(WaitEvent::EventObserved(topics)), WaitStep::Done(Ok(realised)));
}

#[test]
fn approval_is_planned_afresh_each_time() {
    let tb = new_token_bridge();
    let first = tb.approval_plan().unwrap();
    let second = tb.approval_plan().unwrap();
    assert_eq!(first, second);
    assert_eq!(&first.tx.data[..4], &[0x09, 0x5e, 0xa7, 0xb3]);
    assert_eq!(&first.tx.data[4..36], &address_word(&tb.uniswap_address)[..]);
    assert_eq!(&first.tx.data[36..], &[0xffu8; 32][..]);
    assert_eq!(first.event.topic1, Some(tb.own_address));
    assert_eq!(first.event.topic2, Some(tb.uniswap_address));
    for _ in 0..2 {
        let c = Confirmation::new(Awaited::Approval);
        assert!(!c.submitted && !c.observed);
        let c = match c.step(WaitEvent::Submitted) {
            WaitStep::Waiting(c) => c,
            other => panic!("unexpected {:?}", other),
        };
        assert!(matches!(
            c.step(WaitEvent::EventObserved(vec![vec![0u8; 32]; 3])),
            WaitStep::Done(Ok(_))
        ));
    }
}

#[test]
fn bridge_transfers_carry_their_gas_policy() {
    let tb = new_token_bridge();
    let amount = Amount::from_u64(10_000_000_000_000_000);
    let out = tb.dai_to_xdai_transfer(amount).unwrap();
    assert_eq!(out.chain, Chain::Eth);
    assert_eq!(out.to, tb.foreign_dai_contract_address);
    assert_eq!(out.value, Amount::from_u64(0));
    assert_eq!(&out.data[..4], &[0xa9, 0x05, 0x9c, 0xbb]);
    assert_eq!(&out.data[4..36], &address_word(&tb.xdai_foreign_bridge_address)[..]);
    assert_eq!(&out.data[36..], &word(&amount)[..]);
    assert_eq!(out.gas_price, None);

    let back = tb.xdai_to_dai_transfer(amount);
    assert_eq!(back.chain, Chain::Xdai);
    assert_eq!(back.to, tb.xdai_home_bridge_address);
    assert!(back.data.is_empty());
    assert_eq!(back.value, amount);
    assert_eq!(back.gas_price, Some(10_000_000_000));
    assert_eq!(back.network_id, Some(100));
}

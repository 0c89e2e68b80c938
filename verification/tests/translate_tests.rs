use sv2_core::messages::{
    CloseChannel, NewTemplate, SetupConnection, SubmitSharesStandard, Sv2Message, Sv2MessageError,
};
use sv2_core::translate::{inner_to_sv2_message, sv2_message_to_inner};

fn sample_template() -> NewTemplate {
    NewTemplate {
        template_id: 7,
        future_template: true,
        version: 0x20000000,
        coinbase_tx_version: 2,
        coinbase_prefix: vec![3, 100, 0, 0],
        coinbase_tx_input_sequence: 0xffffffff,
        coinbase_tx_value_remaining: 5_000_000_000,
        coinbase_tx_outputs_count: 0,
        coinbase_tx_outputs: vec![],
        coinbase_tx_locktime: 0,
        merkle_path: vec![vec![0xab; 32], vec![0xcd; 32]],
    }
}

#[test]
fn valid_message_round_trips() {
    let m = Sv2Message::NewTemplate(sample_template());
    let inner = sv2_message_to_inner(m.clone()).expect("valid");
    let back = inner_to_sv2_message(inner);
    assert_eq!(back, m);
}

#[test]
fn setup_connection_round_trips() {
    let m = Sv2Message::SetupConnection(SetupConnection {
        protocol: 0,
        min_version: 2,
        max_version: 2,
        flags: 0,
        endpoint_host: String::from("pool.example"),
        endpoint_port: 34254,
        vendor: String::from("somevendor"),
        hardware_version: String::from("hw1"),
        firmware: String::from("fw1"),
        device_id: String::from("dev-1"),
    });
    let inner = sv2_message_to_inner(m.clone()).expect("valid");
    assert_eq!(inner_to_sv2_message(inner), m);
}

#[test]
fn unknown_protocol_discriminant_rejected() {
    let m = Sv2Message::SetupConnection(SetupConnection {
        protocol: 5,
        min_version: 2,
        max_version: 2,
        flags: 0,
        endpoint_host: String::new(),
        endpoint_port: 0,
        vendor: String::new(),
        hardware_version: String::new(),
        firmware: String::new(),
        device_id: String::new(),
    });
    assert_eq!(
        sv2_message_to_inner(m),
        Err(Sv2MessageError::FailedToConvertProtocol)
    );
}

#[test]
fn oversized_string_rejected() {
    let m = Sv2Message::CloseChannel(CloseChannel {
        channel_id: 1,
        reason_code: "x".repeat(300),
    });
    assert_eq!(
        sv2_message_to_inner(m),
        Err(Sv2MessageError::FailedToSerializeString)
    );
}

#[test]
fn wrong_hash_width_rejected() {
    let mut t = sample_template();
    t.merkle_path = vec![vec![0xab; 31]];
    assert_eq!(
        sv2_message_to_inner(Sv2Message::NewTemplate(t)),
        Err(Sv2MessageError::FailedToSerializeByteArray)
    );
}

#[test]
fn fixed_size_messages_round_trip() {
    let m = Sv2Message::SubmitSharesStandard(SubmitSharesStandard {
        channel_id: 1,
        sequence_number: 2,
        job_id: 3,
        nonce: 4,
        ntime: 5,
        version: 6,
    });
    let inner = sv2_message_to_inner(m.clone()).expect("always valid");
    assert_eq!(inner_to_sv2_message(inner), m);
}

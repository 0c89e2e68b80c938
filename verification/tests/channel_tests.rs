use sv2_core::extended_channel::Sv2ExtendedChannelServer;
use sv2_core::group_channel::Sv2GroupChannelServer;
use sv2_core::messages::{
    NewTemplate, SetCustomMiningJob, SetNewPrevHashTemplateDistribution, SubmitSharesExtended,
    SubmitSharesStandard,
};
use sv2_core::share_accounting::{ShareValidationError, ShareValidationResult};
use sv2_core::standard_channel::{Sv2ServerStandardChannelError, Sv2StandardChannelServer};

fn template(id: u64, future: bool) -> NewTemplate {
    NewTemplate {
        template_id: id,
        future_template: future,
        version: 0x20000000,
        coinbase_tx_version: 2,
        coinbase_prefix: vec![3, 100, 0, 0],
        coinbase_tx_input_sequence: 0xffffffff,
        coinbase_tx_value_remaining: 5_000_000_000,
        coinbase_tx_outputs_count: 0,
        coinbase_tx_outputs: vec![],
        coinbase_tx_locktime: 0,
        merkle_path: vec![],
    }
}

fn prev_hash_event(template_id: u64) -> SetNewPrevHashTemplateDistribution {
    SetNewPrevHashTemplateDistribution {
        template_id,
        prev_hash: vec![0x11; 32],
        header_timestamp: 1700000000,
        nbits: 0x1d00ffff,
        // an easy network target would declare blocks found; keep it tiny
        target: {
            let mut t = vec![0u8; 32];
            t[0] = 0x01;
            t
        },
    }
}

fn open_easy_standard_channel() -> Sv2StandardChannelServer {
    // one expected hash per share: the channel target is half the hash
    // space, so a conforming nonce is quickly found by search
    Sv2StandardChannelServer::new(
        1,
        String::from("miner.worker"),
        vec![7, 7],
        vec![0xff; 32],
        1,
        1,
        60,
        String::from("tagpool"),
    )
    .expect("parameters in range")
}

fn find_valid_nonce(
    channel: &mut Sv2StandardChannelServer,
    job_id: u32,
    sequence_number: u32,
) -> (u32, ShareValidationResult) {
    for nonce in 0..10_000u32 {
        let share = SubmitSharesStandard {
            channel_id: 1,
            sequence_number,
            job_id,
            nonce,
            ntime: 1700000000,
            version: 0x20000000,
        };
        match channel.validate_share(share) {
            Ok(res) => return (nonce, res),
            Err(Sv2ServerStandardChannelError::ShareValidationError(
                ShareValidationError::DoesNotMeetTarget,
            )) => continue,
            Err(e) => panic!("unexpected rejection: {:?}", e),
        }
    }
    panic!("no conforming nonce in range");
}

#[test]
fn future_template_then_prev_hash_then_valid_share() {
    let mut c = open_easy_standard_channel();
    c.on_new_template(template(7, true), vec![]).expect("future job queued");
    assert_eq!(c.get_future_jobs().len(), 1);
    let job_id = c.get_future_jobs()[0].get_job_id();
    c.on_set_new_prev_hash(prev_hash_event(7)).expect("promoted");
    assert_eq!(c.get_active_job().expect("active").get_job_id(), job_id);
    let (_, res) = find_valid_nonce(&mut c, job_id, 1);
    // batch size one: the first accepted share closes a batch
    assert_eq!(res, ShareValidationResult::ValidWithAcknowledgement(1, 1, 1));
}

#[test]
fn share_for_unknown_job_is_rejected() {
    let mut c = Sv2StandardChannelServer::new(
        1,
        String::from("miner.worker"),
        vec![7, 7],
        {
            // the protocol's customary pool ceiling, most significant bytes
            // 0x00000000ffff00...00, written in little-endian order
            let mut t = vec![0u8; 32];
            t[27] = 0xff;
            t[26] = 0xff;
            t
        },
        1,
        1,
        60,
        String::from("tagpool"),
    )
    .expect("parameters in range");
    c.on_new_template(template(7, true), vec![]).expect("future job queued");
    c.on_set_new_prev_hash(prev_hash_event(7)).expect("promoted");
    let share = SubmitSharesStandard {
        channel_id: 1,
        sequence_number: 1,
        job_id: 999,
        nonce: 0,
        ntime: 1700000000,
        version: 0x20000000,
    };
    assert_eq!(
        c.validate_share(share),
        Err(Sv2ServerStandardChannelError::ShareValidationError(
            ShareValidationError::InvalidJobId
        ))
    );
}

#[test]
fn duplicate_sequence_number_accepted_once() {
    let mut c = open_easy_standard_channel();
    c.on_new_template(template(7, true), vec![]).expect("queued");
    let job_id = c.get_future_jobs()[0].get_job_id();
    c.on_set_new_prev_hash(prev_hash_event(7)).expect("promoted");
    let (nonce, res) = find_valid_nonce(&mut c, job_id, 5);
    assert_eq!(res, ShareValidationResult::ValidWithAcknowledgement(5, 1, 1));
    let replay = SubmitSharesStandard {
        channel_id: 1,
        sequence_number: 5,
        job_id,
        nonce,
        ntime: 1700000000,
        version: 0x20000000,
    };
    assert_eq!(
        c.validate_share(replay),
        Err(Sv2ServerStandardChannelError::ShareValidationError(
            ShareValidationError::DuplicateShare
        ))
    );
    // a fresh sequence number is accepted again, counting exactly once more
    let (_, res2) = find_valid_nonce(&mut c, job_id, 6);
    assert_eq!(res2, ShareValidationResult::ValidWithAcknowledgement(6, 2, 2));
}

#[test]
fn share_without_chain_tip_rejected() {
    let mut c = open_easy_standard_channel();
    // a non-future template needs a chain tip to activate
    assert_eq!(
        c.on_new_template(template(3, false), vec![]),
        Err(Sv2ServerStandardChannelError::FailedToProcessNewTemplate)
    );
}

#[test]
fn prev_hash_without_matching_template_changes_nothing() {
    let mut c = open_easy_standard_channel();
    c.on_new_template(template(7, true), vec![]).expect("queued");
    let before: Vec<u32> = c.get_future_jobs().iter().map(|j| j.get_job_id()).collect();
    assert_eq!(
        c.on_set_new_prev_hash(prev_hash_event(8)),
        Err(Sv2ServerStandardChannelError::FailedToProcessNewPrevHash)
    );
    let after: Vec<u32> = c.get_future_jobs().iter().map(|j| j.get_job_id()).collect();
    assert_eq!(before, after);
    assert!(c.get_active_job().is_err());
}

#[test]
fn update_channel_clamps_target_to_ceiling() {
    let mut c = open_easy_standard_channel();
    let mut small = vec![0u8; 32];
    small[10] = 1;
    c.update_channel(1, Some(small.clone())).expect("update applies");
    assert_eq!(c.get_target(), small);
    // a zero ceiling is rejected and nothing changes
    assert_eq!(
        c.update_channel(1, Some(vec![0u8; 32])),
        Err(Sv2ServerStandardChannelError::FailedToUpdateChannel)
    );
    assert_eq!(c.get_target(), small);
    // a requested ceiling above the configured one is rejected too
    assert_eq!(
        c.update_channel(1, Some(vec![0xff; 32])),
        Err(Sv2ServerStandardChannelError::FailedToUpdateChannel)
    );
    assert_eq!(c.get_target(), small);
    // at the current ceiling the update is accepted
    c.update_channel(1, Some(small.clone())).expect("equal ceiling accepted");
    assert_eq!(c.get_target(), small);
}

#[test]
fn bad_max_target_length_rejected() {
    let r = Sv2StandardChannelServer::new(
        1,
        String::from("w"),
        vec![],
        vec![0xff; 31],
        1,
        1,
        60,
        String::new(),
    );
    assert!(matches!(r, Err(Sv2ServerStandardChannelError::BadMaxTarget)));
}

#[test]
fn zero_hashrate_rejected() {
    let r = Sv2StandardChannelServer::new(
        1,
        String::from("w"),
        vec![],
        vec![0xff; 32],
        0,
        1,
        60,
        String::new(),
    );
    assert!(matches!(
        r,
        Err(Sv2ServerStandardChannelError::FailedToCreateStandardChannel)
    ));
}

#[test]
fn extended_channel_validates_rolled_share() {
    let mut c = Sv2ExtendedChannelServer::new(
        2,
        String::from("miner.worker"),
        vec![5, 5, 5, 5],
        vec![0xff; 32],
        1,
        true,
        4,
        1,
        60,
        String::from("tagpool"),
    )
    .expect("parameters in range");
    assert_eq!(c.get_rollable_extranonce_size(), 28);
    c.on_new_template(template(9, true), vec![]).expect("queued");
    let job_id = c.get_future_jobs()[0].get_job_id();
    c.on_set_new_prev_hash(prev_hash_event(9)).expect("promoted");
    let mut accepted = None;
    for nonce in 0..10_000u32 {
        let share = SubmitSharesExtended {
            channel_id: 2,
            sequence_number: 1,
            job_id,
            nonce,
            ntime: 1700000000,
            version: 0x20000000,
            extranonce: vec![0xaa; 28],
        };
        match c.validate_share(share) {
            Ok(res) => {
                accepted = Some(res);
                break;
            },
            Err(sv2_core::extended_channel::Sv2ServerExtendedChannelError::ShareValidationError(
                ShareValidationError::DoesNotMeetTarget,
            )) => continue,
            Err(e) => panic!("unexpected rejection: {:?}", e),
        }
    }
    assert_eq!(
        accepted,
        Some(ShareValidationResult::ValidWithAcknowledgement(1, 1, 1))
    );
    // a wrong extranonce width is invalid
    let bad = SubmitSharesExtended {
        channel_id: 2,
        sequence_number: 2,
        job_id,
        nonce: 0,
        ntime: 1700000000,
        version: 0x20000000,
        extranonce: vec![0xaa; 5],
    };
    assert_eq!(
        c.validate_share(bad),
        Err(
            sv2_core::extended_channel::Sv2ServerExtendedChannelError::ShareValidationError(
                ShareValidationError::Invalid
            )
        )
    );
}

#[test]
fn extended_channel_rejects_disallowed_version_rolling() {
    let mut c = Sv2ExtendedChannelServer::new(
        2,
        String::from("w"),
        vec![5; 4],
        vec![0xff; 32],
        1,
        false,
        4,
        1,
        60,
        String::new(),
    )
    .expect("parameters in range");
    c.on_new_template(template(9, true), vec![]).expect("queued");
    let job_id = c.get_future_jobs()[0].get_job_id();
    c.on_set_new_prev_hash(prev_hash_event(9)).expect("promoted");
    let share = SubmitSharesExtended {
        channel_id: 2,
        sequence_number: 1,
        job_id,
        nonce: 0,
        ntime: 1700000000,
        version: 0x20002000,
        extranonce: vec![0; 28],
    };
    assert_eq!(
        c.validate_share(share),
        Err(
            sv2_core::extended_channel::Sv2ServerExtendedChannelError::ShareValidationError(
                ShareValidationError::VersionRollingNotAllowed
            )
        )
    );
}

#[test]
fn extended_min_extranonce_size_enforced() {
    let r = Sv2ExtendedChannelServer::new(
        2,
        String::from("w"),
        vec![5; 4],
        vec![0xff; 32],
        1,
        true,
        30,
        1,
        60,
        String::new(),
    );
    assert!(matches!(
        r,
        Err(
            sv2_core::extended_channel::Sv2ServerExtendedChannelError::RequestedMinExtranonceSizeTooLarge
        )
    ));
}

#[test]
fn custom_job_becomes_active() {
    let mut c = Sv2ExtendedChannelServer::new(
        2,
        String::from("w"),
        vec![5; 4],
        vec![0xff; 32],
        1,
        true,
        4,
        1,
        60,
        String::new(),
    )
    .expect("parameters in range");
    let custom = SetCustomMiningJob {
        channel_id: 2,
        request_id: 1,
        mining_job_token: vec![1, 2, 3],
        version: 0x20000000,
        prev_hash: vec![0x22; 32],
        min_ntime: 1700000000,
        nbits: 0x1d00ffff,
        coinbase_tx_version: 2,
        coinbase_prefix: vec![3, 0, 0],
        coinbase_tx_input_nsequence: 0xffffffff,
        coinbase_tx_outputs: vec![0x00],
        coinbase_tx_locktime: 0,
        merkle_path: vec![],
    };
    c.on_set_custom_mining_job(custom).expect("applies");
    let j = c.get_active_job().expect("active");
    assert_eq!(j.get_job_id(), 1);
    assert!(matches!(
        j.get_job_origin(),
        sv2_core::jobs::Sv2ExtendedJobOrigin::SetCustomMiningJob(_)
    ));
}

#[test]
fn group_membership_is_a_set() {
    let mut g = Sv2GroupChannelServer::new(10, String::from("tagpool")).expect("opens");
    g.add_standard_channel_id(1).expect("added");
    g.add_standard_channel_id(1).expect("idempotent");
    g.add_standard_channel_id(2).expect("added");
    assert_eq!(g.get_standard_channel_ids().as_slice(), &[1, 2]);
    g.remove_standard_channel_id(1).expect("removed");
    assert_eq!(g.get_standard_channel_ids().as_slice(), &[2]);
    g.remove_standard_channel_id(7).expect("absent id ignored");
    assert_eq!(g.get_standard_channel_ids().as_slice(), &[2]);
}

#[test]
fn group_builds_sharable_jobs() {
    let mut g = Sv2GroupChannelServer::new(10, String::from("tagpool")).expect("opens");
    g.on_new_template(template(4, true), vec![]).expect("queued");
    assert_eq!(g.get_future_template_to_job_id(), vec![(4, 1)]);
    g.on_set_new_prev_hash(prev_hash_event(4)).expect("promoted");
    let msg = g.get_active_job().expect("active");
    assert_eq!(msg.job_id, 1);
    assert_eq!(msg.channel_id, 10);
    assert!(msg.version_rolling_allowed);
    assert_eq!(msg.min_ntime, Some(1700000000));
}

#[test]
fn standard_member_installs_group_job() {
    // the member needs a chain tip of its own before a future group job
    // can bind to it
    let mut c = open_easy_standard_channel();
    c.on_new_template(template(70, true), vec![]).expect("queued");
    c.on_set_new_prev_hash(prev_hash_event(70)).expect("tip set");

    let mut g = Sv2GroupChannelServer::new(12, String::from("tagpool")).expect("opens");
    g.on_new_template(template(6, true), vec![]).expect("queued");
    {
        let jobs = g.get_future_jobs();
        let job = &jobs[0];
        c.on_group_channel_job(job).expect("installed");
    }
    let active = c.get_active_job().expect("active");
    // the member pads its two-byte prefix to the group job's full space
    assert_eq!(active.get_extranonce_prefix().len(), 32);
    assert_eq!(&active.get_extranonce_prefix()[0..2], &[7, 7]);
}

#[test]
fn initial_target_is_computed_from_hashrate() {
    // one expected hash per share against an unbounded ceiling: the target
    // is half the hash space, 0x7fff...ff
    let c = open_easy_standard_channel();
    let t = c.get_target();
    for i in 0..31 {
        assert_eq!(t[i], 0xff);
    }
    assert_eq!(t[31], 0x7f);
}

#[test]
fn future_template_map_lists_queued_jobs() {
    let mut c = open_easy_standard_channel();
    c.on_new_template(template(7, true), vec![]).expect("queued");
    c.on_new_template(template(9, true), vec![]).expect("queued");
    assert_eq!(c.get_future_template_to_job_id(), vec![(7, 1), (9, 2)]);
}

use magicplace::PixelError;
use magicplace::canvas::Canvas;
use magicplace::codec::BitDepth;
use magicplace::events::PixelChanged;
use magicplace::identity::Identity;
use magicplace::identity::SessionProof;
use magicplace::lifecycle::TierState;
use magicplace::lifecycle::check_write_tier;
use magicplace::session::COOLDOWN_LIMIT;

fn ident(tag: u8) -> Identity {
    Identity::from_bytes(&[tag; 32])
}

fn proof_for(wallet_bytes: &[u8; 32]) -> SessionProof {
    let mut payload = vec![0u8; 50];
    payload[0] = 1;
    payload[6] = 18;
    payload[18..50].copy_from_slice(wallet_bytes);
    SessionProof { verifier_id: Identity::sig_verifier_id(), payload }
}

/// A canvas with the creator's session (root 1, authority 2) bound, a
/// visitor's session (root 3, authority 4) bound, and shard (0, 0) created
/// by root 1.
fn canvas_with_two_sessions() -> Canvas {
    let mut c = Canvas::new(BitDepth::Eight);
    c.initialize_user(ident(1), ident(2), &proof_for(&[1; 32])).unwrap();
    c.initialize_user(ident(3), ident(4), &proof_for(&[3; 32])).unwrap();
    c.initialize_shard(0, 0, ident(2), 500).unwrap();
    c
}

#[test]
fn initialize_user_requires_certifying_proof() {
    let mut c = Canvas::new(BitDepth::Eight);
    let r = c.initialize_user(ident(1), ident(2), &proof_for(&[9; 32]));
    assert_eq!(r, Err(PixelError::InvalidAuth));
    assert_eq!(c.sessions.len(), 0);
}

#[test]
fn rebinding_root_identity_fails() {
    let mut c = Canvas::new(BitDepth::Eight);
    c.initialize_user(ident(1), ident(2), &proof_for(&[1; 32])).unwrap();
    let r = c.initialize_user(ident(1), ident(9), &proof_for(&[1; 32]));
    assert_eq!(r, Err(PixelError::AlreadyExists));
    assert_eq!(c.sessions.len(), 1);
}

#[test]
fn reusing_authority_fails() {
    let mut c = Canvas::new(BitDepth::Eight);
    c.initialize_user(ident(1), ident(2), &proof_for(&[1; 32])).unwrap();
    let r = c.initialize_user(ident(5), ident(2), &proof_for(&[5; 32]));
    assert_eq!(r, Err(PixelError::AlreadyExists));
}

#[test]
fn delegate_user_lifecycle() {
    let mut c = Canvas::new(BitDepth::Eight);
    c.initialize_user(ident(1), ident(2), &proof_for(&[1; 32])).unwrap();
    assert_eq!(c.delegate_user(ident(9)), Err(PixelError::InvalidAuth));
    assert_eq!(c.delegate_user(ident(2)), Ok(()));
    assert_eq!(c.sessions[0].tier_state, TierState::Delegated);
    assert_eq!(c.delegate_user(ident(2)), Err(PixelError::AlreadyDelegated));
}

#[test]
fn initialize_shard_validates_coordinates() {
    let mut c = Canvas::new(BitDepth::Eight);
    c.initialize_user(ident(1), ident(2), &proof_for(&[1; 32])).unwrap();
    let r = c.initialize_shard(5826, 0, ident(2), 0);
    assert_eq!(r.unwrap_err(), PixelError::InvalidShardCoord);
    let r = c.initialize_shard(0, 5826, ident(2), 0);
    assert_eq!(r.unwrap_err(), PixelError::InvalidShardCoord);
    assert!(c.initialize_shard(5825, 5825, ident(2), 0).is_ok());
}

#[test]
fn initialize_shard_requires_session() {
    let mut c = Canvas::new(BitDepth::Eight);
    let r = c.initialize_shard(0, 0, ident(2), 0);
    assert_eq!(r.unwrap_err(), PixelError::InvalidAuth);
}

#[test]
fn initialize_shard_once_per_coordinate() {
    let mut c = canvas_with_two_sessions();
    let r = c.initialize_shard(0, 0, ident(4), 501);
    assert_eq!(r.unwrap_err(), PixelError::AlreadyExists);
    assert_eq!(c.shards.len(), 1);
}

#[test]
fn initialize_shard_emits_event_and_zero_buffer() {
    let mut c = Canvas::new(BitDepth::Eight);
    c.initialize_user(ident(1), ident(2), &proof_for(&[1; 32])).unwrap();
    let ev = c.initialize_shard(7, 8, ident(2), 4242).unwrap();
    assert_eq!(ev.shard_x, 7);
    assert_eq!(ev.shard_y, 8);
    assert_eq!(ev.creator, ident(1));
    assert_eq!(ev.main_wallet, ident(1));
    assert_eq!(ev.timestamp, 4242);
    assert_eq!(c.shards[0].pixels.len(), 8100);
    assert!(c.shards[0].pixels.iter().all(|&b| b == 0));
    assert_eq!(c.shards[0].creator, ident(1));
    assert_eq!(c.shards[0].tier_state, TierState::Durable);
}

#[test]
fn place_pixel_writes_byte_and_reports_event() {
    let mut c = canvas_with_two_sessions();
    let ev = c.place_pixel(ident(2), 0, 0, 89, 89, 11, 600).unwrap();
    assert_eq!(
        ev,
        PixelChanged {
            px: 89,
            py: 89,
            color: 11,
            painter: ident(2),
            main_wallet: ident(1),
            timestamp: 600,
        }
    );
    assert_eq!(c.shards[0].pixels[8099], 11);
    assert_eq!(c.read_pixel(0, 0, 89, 89), Ok(11));
}

#[test]
fn place_pixel_rejects_unknown_signer() {
    let mut c = canvas_with_two_sessions();
    let r = c.place_pixel(ident(9), 0, 0, 1, 1, 5, 600);
    assert_eq!(r.unwrap_err(), PixelError::InvalidAuth);
}

#[test]
fn place_pixel_rejects_off_canvas() {
    let mut c = canvas_with_two_sessions();
    let r = c.place_pixel(ident(2), 0, 0, 524288, 0, 5, 600);
    assert_eq!(r.unwrap_err(), PixelError::InvalidPixelCoord);
}

#[test]
fn place_pixel_rejects_color_zero() {
    let mut c = canvas_with_two_sessions();
    let r = c.place_pixel(ident(2), 0, 0, 1, 1, 0, 600);
    assert_eq!(r.unwrap_err(), PixelError::InvalidColor);
}

#[test]
fn place_pixel_rejects_missing_shard() {
    let mut c = canvas_with_two_sessions();
    let r = c.place_pixel(ident(2), 1, 0, 95, 5, 5, 600);
    assert_eq!(r.unwrap_err(), PixelError::InvalidShardCoord);
}

#[test]
fn place_pixel_rejects_wrong_handle() {
    let mut c = canvas_with_two_sessions();
    // pixel (95, 5) lies in shard (1, 0), not in (0, 0)
    let r = c.place_pixel(ident(2), 0, 0, 95, 5, 5, 600);
    assert_eq!(r.unwrap_err(), PixelError::ShardMismatch);
    assert!(c.shards[0].pixels.iter().all(|&b| b == 0));
}

#[test]
fn visitor_burst_hits_cooldown_then_window_resets() {
    let mut c = canvas_with_two_sessions();
    // visitor (root 3, authority 4) did not create shard (0, 0)
    for t in 0..u64::from(COOLDOWN_LIMIT) {
        let r = c.place_pixel(ident(4), 0, 0, t as u32, 0, 7, t);
        assert!(r.is_ok(), "write {} rejected", t);
    }
    assert_eq!(c.sessions[1].cooldown_counter, COOLDOWN_LIMIT);
    assert_eq!(c.sessions[1].last_place_timestamp, 49);
    let r = c.place_pixel(ident(4), 0, 0, 50, 0, 7, 50);
    assert_eq!(r.unwrap_err(), PixelError::Cooldown);
    // the rejection neither painted nor advanced the counters
    assert_eq!(c.read_pixel(0, 0, 50, 0), Ok(0));
    assert_eq!(c.sessions[1].cooldown_counter, COOLDOWN_LIMIT);
    assert_eq!(c.sessions[1].last_place_timestamp, 49);
    // waiting out the window admits the write and restarts the burst
    let r = c.place_pixel(ident(4), 0, 0, 50, 0, 7, 79);
    assert!(r.is_ok());
    assert_eq!(c.sessions[1].cooldown_counter, 1);
}

#[test]
fn creator_never_hits_cooldown() {
    let mut c = canvas_with_two_sessions();
    // far more writes than the burst limit, all at the same instant
    for k in 0..(3 * u32::from(COOLDOWN_LIMIT)) {
        let r = c.place_pixel(ident(2), 0, 0, k % 90, k / 90, 9, 777);
        assert!(r.is_ok(), "creator write {} rejected", k);
    }
    // the creator's counters never moved
    assert_eq!(c.sessions[0].cooldown_counter, 0);
    assert_eq!(c.sessions[0].last_place_timestamp, 0);
}

#[test]
fn erase_pixel_clears_and_reports_color_zero() {
    let mut c = canvas_with_two_sessions();
    c.place_pixel(ident(2), 0, 0, 5, 6, 13, 600).unwrap();
    let ev = c.erase_pixel(ident(4), 0, 0, 5, 6, 601).unwrap();
    assert_eq!(
        ev,
        PixelChanged {
            px: 5,
            py: 6,
            color: 0,
            painter: ident(4),
            main_wallet: ident(3),
            timestamp: 601,
        }
    );
    assert_eq!(c.read_pixel(0, 0, 5, 6), Ok(0));
}

#[test]
fn erase_already_unset_pixel_succeeds() {
    let mut c = canvas_with_two_sessions();
    assert_eq!(c.read_pixel(0, 0, 2, 3), Ok(0));
    assert!(c.erase_pixel(ident(2), 0, 0, 2, 3, 600).is_ok());
    assert_eq!(c.read_pixel(0, 0, 2, 3), Ok(0));
    // and again: idempotent, no error
    assert!(c.erase_pixel(ident(2), 0, 0, 2, 3, 601).is_ok());
    assert_eq!(c.read_pixel(0, 0, 2, 3), Ok(0));
}

#[test]
fn erase_is_not_rate_limited() {
    let mut c = canvas_with_two_sessions();
    for t in 0..u64::from(COOLDOWN_LIMIT) {
        c.place_pixel(ident(4), 0, 0, t as u32, 0, 7, t).unwrap();
    }
    // the visitor's burst is spent, yet erasing still passes
    assert!(c.erase_pixel(ident(4), 0, 0, 0, 0, 50).is_ok());
    assert_eq!(c.read_pixel(0, 0, 0, 0), Ok(0));
}

#[test]
fn erase_pixel_validates_like_place() {
    let mut c = canvas_with_two_sessions();
    assert_eq!(c.erase_pixel(ident(9), 0, 0, 1, 1, 0).unwrap_err(), PixelError::InvalidAuth);
    assert_eq!(
        c.erase_pixel(ident(2), 0, 0, 0, 524288, 0).unwrap_err(),
        PixelError::InvalidPixelCoord
    );
    assert_eq!(
        c.erase_pixel(ident(2), 3, 3, 1, 1, 0).unwrap_err(),
        PixelError::InvalidShardCoord
    );
    assert_eq!(c.erase_pixel(ident(2), 0, 0, 95, 5, 0).unwrap_err(), PixelError::ShardMismatch);
}

#[test]
fn tier_protocol_on_shard() {
    let mut c = canvas_with_two_sessions();
    // commit while durable: nothing to reconcile
    assert_eq!(c.commit_shard(0, 0), Err(PixelError::NotDelegated));
    assert_eq!(c.delegate_shard(0, 0), Ok(()));
    assert_eq!(c.shards[0].tier_state, TierState::Delegated);
    assert_eq!(c.delegate_shard(0, 0), Err(PixelError::AlreadyDelegated));
    // committing hands the shard back to the durable tier, pixels intact
    assert_eq!(c.commit_shard(0, 0), Ok(()));
    assert_eq!(c.shards[0].tier_state, TierState::Durable);
    assert_eq!(c.commit_shard(0, 0), Err(PixelError::NotDelegated));
    // back in the durable tier the shard accepts durable-ledger writes
    assert_eq!(check_write_tier(c.shards[0].tier_state, TierState::Durable), Ok(()));
    assert!(c.place_pixel(ident(2), 0, 0, 1, 2, 3, 900).is_ok());
}

#[test]
fn tier_ops_need_existing_shard() {
    let mut c = canvas_with_two_sessions();
    assert_eq!(c.delegate_shard(4, 4), Err(PixelError::InvalidShardCoord));
    assert_eq!(c.commit_shard(4, 4), Err(PixelError::InvalidShardCoord));
}

#[test]
fn write_at_wrong_tier_rejected() {
    let mut c = canvas_with_two_sessions();
    c.delegate_shard(0, 0).unwrap();
    // a write arriving at the durable ledger while the fast tier owns it
    assert_eq!(
        check_write_tier(c.shards[0].tier_state, TierState::Durable),
        Err(PixelError::WrongTier)
    );
    assert_eq!(check_write_tier(c.shards[0].tier_state, TierState::Delegated), Ok(()));
}

#[test]
fn read_pixel_needs_no_session() {
    let c = canvas_with_two_sessions();
    assert_eq!(c.read_pixel(0, 0, 0, 0), Ok(0));
    assert_eq!(c.read_pixel(0, 0, 524288, 0), Err(PixelError::InvalidPixelCoord));
    assert_eq!(c.read_pixel(2, 2, 200, 200), Err(PixelError::InvalidShardCoord));
    assert_eq!(c.read_pixel(0, 0, 95, 5), Err(PixelError::ShardMismatch));
}

#[test]
fn four_bit_canvas_packs_two_pixels_per_byte() {
    let mut c = Canvas::new(BitDepth::Four);
    c.initialize_user(ident(1), ident(2), &proof_for(&[1; 32])).unwrap();
    c.initialize_shard(0, 0, ident(2), 0).unwrap();
    assert_eq!(c.shards[0].pixels.len(), 4050);
    // local indices 0 and 1 share byte 0: high nibble then low nibble
    c.place_pixel(ident(2), 0, 0, 0, 0, 0x0a, 1).unwrap();
    c.place_pixel(ident(2), 0, 0, 1, 0, 0x05, 2).unwrap();
    assert_eq!(c.shards[0].pixels[0], 0xa5);
    assert_eq!(c.read_pixel(0, 0, 0, 0), Ok(0x0a));
    assert_eq!(c.read_pixel(0, 0, 1, 0), Ok(0x05));
    // a 4-bit canvas rejects colors above its palette
    let r = c.place_pixel(ident(2), 0, 0, 2, 0, 16, 3);
    assert_eq!(r.unwrap_err(), PixelError::InvalidColor);
    // erasing one nibble leaves its neighbour
    c.erase_pixel(ident(2), 0, 0, 0, 0, 4).unwrap();
    assert_eq!(c.shards[0].pixels[0], 0x05);
}

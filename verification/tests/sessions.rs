use magicplace::PixelError;
use magicplace::identity::Identity;
use magicplace::identity::SessionProof;
use magicplace::identity::verify_session_proof;
use magicplace::lifecycle::TierState;
use magicplace::session::COOLDOWN_LIMIT;
use magicplace::session::COOLDOWN_PERIOD;
use magicplace::session::SessionAccount;

fn ident(tag: u8) -> Identity {
    Identity::from_bytes(&[tag; 32])
}

fn proof_for(wallet_bytes: &[u8; 32]) -> SessionProof {
    let mut payload = vec![0u8; 50];
    payload[0] = 1; // one signature in the proof
    payload[6] = 18; // identity offset, little-endian
    payload[7] = 0;
    payload[18..50].copy_from_slice(wallet_bytes);
    SessionProof { verifier_id: Identity::sig_verifier_id(), payload }
}

#[test]
fn identity_from_bytes_equality() {
    assert_eq!(ident(3), ident(3));
    assert_ne!(ident(3), ident(4));
    let mut b = [7u8; 32];
    b[31] = 8;
    assert_ne!(Identity::from_bytes(&b), ident(7));
}

#[test]
fn good_proof_accepted() {
    let wallet = ident(1);
    assert!(verify_session_proof(&proof_for(&[1; 32]), &wallet));
}

#[test]
fn proof_from_wrong_verifier_rejected() {
    let wallet = ident(1);
    let mut p = proof_for(&[1; 32]);
    p.verifier_id = ident(9);
    assert!(!verify_session_proof(&p, &wallet));
}

#[test]
fn proof_with_zero_signatures_rejected() {
    let wallet = ident(1);
    let mut p = proof_for(&[1; 32]);
    p.payload[0] = 0;
    assert!(!verify_session_proof(&p, &wallet));
}

#[test]
fn truncated_proof_rejected() {
    let wallet = ident(1);
    let mut p = proof_for(&[1; 32]);
    p.payload.truncate(17);
    assert!(!verify_session_proof(&p, &wallet));
    p.payload.truncate(1);
    assert!(!verify_session_proof(&p, &wallet));
    p.payload.clear();
    assert!(!verify_session_proof(&p, &wallet));
}

#[test]
fn proof_with_identity_out_of_range_rejected() {
    let wallet = ident(1);
    let mut p = proof_for(&[1; 32]);
    // the header claims the identity sits past the end of the payload
    p.payload[6] = 19;
    assert!(!verify_session_proof(&p, &wallet));
}

#[test]
fn proof_for_other_wallet_rejected() {
    let wallet = ident(1);
    assert!(!verify_session_proof(&proof_for(&[2; 32]), &wallet));
}

#[test]
fn proof_offset_read_little_endian() {
    let wallet = ident(5);
    let mut payload = vec![0u8; 300];
    payload[0] = 1;
    payload[6] = 0; // offset 256, low byte
    payload[7] = 1; // offset 256, high byte
    payload[256..288].copy_from_slice(&[5; 32]);
    let p = SessionProof { verifier_id: Identity::sig_verifier_id(), payload };
    assert!(verify_session_proof(&p, &wallet));
}

#[test]
fn new_session_starts_zeroed_and_durable() {
    let s = SessionAccount::new(ident(1), ident(2));
    assert_eq!(s.main_address, ident(1));
    assert_eq!(s.authority, ident(2));
    assert_eq!(s.cooldown_counter, 0);
    assert_eq!(s.last_place_timestamp, 0);
    assert_eq!(s.tier_state, TierState::Durable);
}

#[test]
fn authorize_write_checks_signer() {
    let s = SessionAccount::new(ident(1), ident(2));
    assert_eq!(s.authorize_write(&ident(2)), Ok(()));
    assert_eq!(s.authorize_write(&ident(1)), Err(PixelError::InvalidAuth));
    assert_eq!(s.authorize_write(&ident(3)), Err(PixelError::InvalidAuth));
}

#[test]
fn cooldown_burst_window_and_reset() {
    let mut s = SessionAccount::new(ident(1), ident(2));
    // 50 consecutive writes at t = 0..=49 all pass
    for t in 0..u64::from(COOLDOWN_LIMIT) {
        assert_eq!(s.note_write(t), Ok(()), "write {} rejected", t);
        assert_eq!(u64::from(s.cooldown_counter), t + 1);
    }
    assert_eq!(s.cooldown_counter, COOLDOWN_LIMIT);
    assert_eq!(s.last_place_timestamp, 49);
    // the 51st, one second later, is inside the window
    let rejected = s.note_write(50);
    assert_eq!(rejected, Err(PixelError::Cooldown));
    // the rejected attempt corrupted nothing
    assert_eq!(s.cooldown_counter, COOLDOWN_LIMIT);
    assert_eq!(s.last_place_timestamp, 49);
    // once the full window has elapsed the counter restarts at 1
    assert_eq!(s.note_write(49 + COOLDOWN_PERIOD), Ok(()));
    assert_eq!(s.cooldown_counter, 1);
}

#[test]
fn cooldown_tolerates_clock_going_backwards() {
    let mut s = SessionAccount::new(ident(1), ident(2));
    for t in 0..u64::from(COOLDOWN_LIMIT) {
        assert_eq!(s.note_write(100 + t), Ok(()));
    }
    // now earlier than the recorded timestamp: still gated, not a panic
    assert_eq!(s.note_write(3), Err(PixelError::Cooldown));
}

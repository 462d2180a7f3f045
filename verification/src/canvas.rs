//! The canvas: an arena of shard records keyed by shard coordinate, the
//! session records bound to root identities, and every operation of the
//! system's surface.
//!
//! Each operation validates everything before it mutates anything: an
//! operation that reports an error leaves the canvas exactly as it was. The
//! current time is a parameter of the rate-limited operations — the clock
//! belongs to the ledger, not to this core.

use vstd::prelude::*;
use crate::PixelError;
use crate::codec;
use crate::codec::BitDepth;
use crate::events::PixelChanged;
use crate::events::ShardInitialized;
use crate::identity::Identity;
use crate::identity::SessionProof;
use crate::identity::proof_certifies;
use crate::identity::verify_session_proof;
use crate::lifecycle;
use crate::lifecycle::TierState;
use crate::mapper;
use crate::session::SessionAccount;
use crate::session::cooldown_allows;
use crate::session::cooldown_next_counter;
use crate::session::cooldown_next_timestamp;
use crate::shard::PixelShard;

verus! {

/// The whole collaborative canvas: shard records materialized so far and the
/// session records bound so far.
pub struct Canvas {
    /// The packing depth every shard buffer uses.
    pub bit_depth: BitDepth,
    /// One record per materialized tile; no two share a coordinate.
    pub shards: Vec<PixelShard>,
    /// One record per bound root identity; authorities are unique too.
    pub sessions: Vec<SessionAccount>,
}

impl Canvas {
    /// The arena's invariant: every record well-formed, shard coordinates
    /// unique, and one session per root identity and per authority.
    pub open spec fn wf(self) -> bool {
        &&& forall|i: int|
            0 <= i < self.shards@.len() ==> (#[trigger] self.shards@[i]).wf(self.bit_depth)
        &&& forall|i: int, j: int|
            #![trigger self.shards@[i], self.shards@[j]]
            0 <= i < self.shards@.len() && 0 <= j < self.shards@.len() && i != j ==> !(
            self.shards@[i].shard_x == self.shards@[j].shard_x && self.shards@[i].shard_y
                == self.shards@[j].shard_y)
        &&& forall|i: int| 0 <= i < self.sessions@.len() ==> (#[trigger] self.sessions@[i]).wf()
        &&& forall|i: int, j: int|
            #![trigger self.sessions@[i], self.sessions@[j]]
            0 <= i < self.sessions@.len() && 0 <= j < self.sessions@.len() && i != j ==> (
            self.sessions@[i].main_address != self.sessions@[j].main_address
                && self.sessions@[i].authority != self.sessions@[j].authority)
    }

    /// Whether a shard record exists at `(sx, sy)`.
    pub open spec fn has_shard(self, sx: u16, sy: u16) -> bool {
        exists|i: int|
            0 <= i < self.shards@.len() && (#[trigger] self.shards@[i]).shard_x == sx
                && self.shards@[i].shard_y == sy
    }

    /// The index of the shard record at `(sx, sy)`.
    pub open spec fn shard_index(self, sx: u16, sy: u16) -> int {
        choose|i: int|
            0 <= i < self.shards@.len() && (#[trigger] self.shards@[i]).shard_x == sx
                && self.shards@[i].shard_y == sy
    }

    /// Whether a session record names `authority` as its signer.
    pub open spec fn has_session(self, authority: Identity) -> bool {
        exists|i: int|
            0 <= i < self.sessions@.len() && (#[trigger] self.sessions@[i]).authority == authority
    }

    /// The index of the session record whose signer is `authority`.
    pub open spec fn session_index(self, authority: Identity) -> int {
        choose|i: int|
            0 <= i < self.sessions@.len() && (#[trigger] self.sessions@[i]).authority == authority
    }

    /// Whether a session record is bound to the root identity `main`.
    pub open spec fn has_session_for(self, main: Identity) -> bool {
        exists|i: int|
            0 <= i < self.sessions@.len() && (#[trigger] self.sessions@[i]).main_address == main
    }

    /// An empty canvas at the given packing depth.
    pub fn new(bit_depth: BitDepth) -> (c: Canvas)
        ensures
            c.wf(),
            c.bit_depth == bit_depth,
            c.shards@.len() == 0,
            c.sessions@.len() == 0,
    {
        Canvas { bit_depth, shards: Vec::new(), sessions: Vec::new() }
    }

    /// Finds the shard record at `(sx, sy)`.
    fn find_shard(&self, sx: u16, sy: u16) -> (r: Option<usize>)
        requires
            self.wf(),
        ensures
            match r {
                Some(i) => self.has_shard(sx, sy) && i == self.shard_index(sx, sy) && 0 <= i
                    < self.shards@.len() && self.shards@[i as int].shard_x == sx
                    && self.shards@[i as int].shard_y == sy,
                None => !self.has_shard(sx, sy),
            },
    {
        let n = self.shards.len();
        let mut k: usize = 0;
        while k < n
            invariant
                self.wf(),
                n == self.shards@.len(),
                k <= n,
                forall|j: int|
                    0 <= j < k ==> !((#[trigger] self.shards@[j]).shard_x == sx
                        && self.shards@[j].shard_y == sy),
            decreases n - k,
        {
            if self.shards[k].shard_x == sx && self.shards[k].shard_y == sy {
                proof {
                    assert(self.has_shard(sx, sy));
                    let ci = self.shard_index(sx, sy);
                    assert(self.shards@[ci].shard_x == sx && self.shards@[ci].shard_y == sy);
                    assert(ci == k as int);
                }
                return Some(k);
            }
            k = k + 1;
        }
        None
    }

    /// Finds the session record whose signer is `authority`.
    fn find_session(&self, authority: &Identity) -> (r: Option<usize>)
        requires
            self.wf(),
        ensures
            match r {
                Some(i) => self.has_session(*authority) && i == self.session_index(*authority) && 0
                    <= i < self.sessions@.len() && self.sessions@[i as int].authority == *authority,
                None => !self.has_session(*authority),
            },
    {
        let n = self.sessions.len();
        let mut k: usize = 0;
        while k < n
            invariant
                self.wf(),
                n == self.sessions@.len(),
                k <= n,
                forall|j: int| 0 <= j < k ==> (#[trigger] self.sessions@[j]).authority != *authority,
            decreases n - k,
        {
            if self.sessions[k].authority == *authority {
                proof {
                    assert(self.has_session(*authority));
                    let ci = self.session_index(*authority);
                    assert(self.sessions@[ci].authority == *authority);
                    assert(ci == k as int);
                }
                return Some(k);
            }
            k = k + 1;
        }
        None
    }

    /// The error `initialize_user` reports, if any: the proof must certify
    /// the root identity, which must not be bound yet, by an authority not
    /// in use yet.
    pub open spec fn initialize_user_error(
        self,
        main_wallet: Identity,
        authority: Identity,
        proof: SessionProof,
    ) -> Option<PixelError> {
        if !proof_certifies(proof, main_wallet) {
            Some(PixelError::InvalidAuth)
        } else if self.has_session_for(main_wallet) || self.has_session(authority) {
            Some(PixelError::AlreadyExists)
        } else {
            None
        }
    }

    /// Binds a session: creates the one session record of the root identity
    /// `main_wallet`, naming `authority` as the credential that will sign
    /// its writes.
    ///
    /// Requires a proof, already checked cryptographically by the
    /// out-of-scope signature verifier, that `main_wallet` authorized the
    /// binding; fails with `InvalidAuth` when the proof is malformed or
    /// certifies some other identity, and with `AlreadyExists` when the root
    /// identity is already bound or the authority already signs for another
    /// session. On error the canvas is unchanged.
    pub fn initialize_user(
        &mut self,
        main_wallet: Identity,
        authority: Identity,
        proof: &SessionProof,
    ) -> (r: Result<(), PixelError>)
        requires
            old(self).wf(),
        ensures
            final(self).wf(),
            final(self).bit_depth == old(self).bit_depth,
            match r {
                Ok(()) => old(self).initialize_user_error(main_wallet, authority, *proof) is None
                    && final(self).shards@ == old(self).shards@ && final(self).sessions@
                    == old(self).sessions@.push(SessionAccount::spec_new(main_wallet, authority)),
                Err(e) => Some(e) == old(self).initialize_user_error(
                    main_wallet,
                    authority,
                    *proof,
                ) && *final(self) == *old(self),
            },
    {
        if !verify_session_proof(proof, &main_wallet) {
            return Err(PixelError::InvalidAuth);
        }
        let n = self.sessions.len();
        let mut k: usize = 0;
        while k < n
            invariant
                *self == *old(self),
                self.wf(),
                proof_certifies(*proof, main_wallet),
                n == self.sessions@.len(),
                k <= n,
                forall|j: int|
                    0 <= j < k ==> (#[trigger] self.sessions@[j]).main_address != main_wallet
                        && self.sessions@[j].authority != authority,
            decreases n - k,
        {
            if self.sessions[k].main_address == main_wallet || self.sessions[k].authority
                == authority {
                proof {
                    if self.sessions@[k as int].main_address == main_wallet {
                        assert(self.has_session_for(main_wallet));
                    } else {
                        assert(self.has_session(authority));
                    }
                }
                return Err(PixelError::AlreadyExists);
            }
            k = k + 1;
        }
        let fresh = SessionAccount::new(main_wallet, authority);
        self.sessions.push(fresh);
        Ok(())
    }

    /// The error `delegate_user` reports, if any: the signer must have a
    /// session and it must still be owned by the durable tier.
    pub open spec fn delegate_user_error(self, signer: Identity) -> Option<PixelError> {
        if !self.has_session(signer) {
            Some(PixelError::InvalidAuth)
        } else if self.sessions@[self.session_index(signer)].tier_state != TierState::Durable {
            Some(PixelError::AlreadyDelegated)
        } else {
            None
        }
    }

    /// Hands the signer's session record to the fast execution tier.
    ///
    /// Only the session's own authority may request this: an unknown signer
    /// fails with `InvalidAuth`, a session already delegated with
    /// `AlreadyDelegated`. The transition transfers write authority only; no
    /// counter or identity in the record changes. On error the canvas is
    /// unchanged.
    pub fn delegate_user(&mut self, signer: Identity) -> (r: Result<(), PixelError>)
        requires
            old(self).wf(),
        ensures
            final(self).wf(),
            final(self).bit_depth == old(self).bit_depth,
            match r {
                Ok(()) => old(self).delegate_user_error(signer) is None && final(self).shards@
                    == old(self).shards@ && final(self).sessions@ == old(self).sessions@.update(
                    old(self).session_index(signer),
                    (SessionAccount {
                        tier_state: TierState::Delegated,
                        ..old(self).sessions@[old(self).session_index(signer)]
                    }),
                ),
                Err(e) => Some(e) == old(self).delegate_user_error(signer) 
                    && *final(self) == *old(self),
            },
    {
        let si = match self.find_session(&signer) {
            Some(i) => i,
            None => { return Err(PixelError::InvalidAuth) },
        };
        let mut s = self.sessions[si];
        s.tier_state = match lifecycle::delegate(s.tier_state) {
            Ok(t) => t,
            Err(e) => { return Err(e) },
        };
        self.sessions[si] = s;
        Ok(())
    }

    /// The error `initialize_shard` reports, if any: coordinates in range,
    /// a session for the requesting authority, and no record there yet.
    pub open spec fn initialize_shard_error(
        self,
        shard_x: u16,
        shard_y: u16,
        authority: Identity,
    ) -> Option<PixelError> {
        if !(shard_x < mapper::SHARDS_PER_DIM && shard_y < mapper::SHARDS_PER_DIM) {
            Some(PixelError::InvalidShardCoord)
        } else if !self.has_session(authority) {
            Some(PixelError::InvalidAuth)
        } else if self.has_shard(shard_x, shard_y) {
            Some(PixelError::AlreadyExists)
        } else {
            None
        }
    }

    /// Materializes the shard at `(shard_x, shard_y)` on demand: a
    /// zero-filled buffer, created in the durable tier, whose creator is the
    /// root identity of the requesting session.
    ///
    /// Fails with `InvalidShardCoord` when the coordinates are out of range,
    /// `InvalidAuth` when `authority` has no session, and `AlreadyExists`
    /// when the tile is already materialized — creation is once per
    /// coordinate, ever. On error the canvas is unchanged.
    pub fn initialize_shard(
        &mut self,
        shard_x: u16,
        shard_y: u16,
        authority: Identity,
        now: u64,
    ) -> (r: Result<ShardInitialized, PixelError>)
        requires
            old(self).wf(),
        ensures
            final(self).wf(),
            final(self).bit_depth == old(self).bit_depth,
            match r {
                Ok(ev) => {
                    let creator = old(self).sessions@[old(self).session_index(
                        authority,
                    )].main_address;
                    &&& old(self).initialize_shard_error(shard_x, shard_y, authority) is None
                    &&& final(self).sessions@ == old(self).sessions@
                    &&& final(self).shards@.len() == old(self).shards@.len() + 1
                    &&& final(self).shards@.drop_last() == old(self).shards@
                    &&& final(self).shards@.last().is_fresh(
                        old(self).bit_depth,
                        shard_x,
                        shard_y,
                        creator,
                    )
                    &&& ev == (ShardInitialized {
                        shard_x,
                        shard_y,
                        creator,
                        main_wallet: creator,
                        timestamp: now,
                    })
                },
                Err(e) => Some(e) == old(self).initialize_shard_error(shard_x, shard_y, authority)
                    && *final(self) == *old(self),
            },
    {
        if !(shard_x < mapper::SHARDS_PER_DIM as u16 && shard_y < mapper::SHARDS_PER_DIM as u16) {
            return Err(PixelError::InvalidShardCoord);
        }
        let si = match self.find_session(&authority) {
            Some(i) => i,
            None => { return Err(PixelError::InvalidAuth) },
        };
        if self.find_shard(shard_x, shard_y).is_some() {
            return Err(PixelError::AlreadyExists);
        }
        let creator = self.sessions[si].main_address;
        let fresh = PixelShard::new(shard_x, shard_y, creator, self.bit_depth);
        self.shards.push(fresh);
        proof {
            assert(final(self).shards@.drop_last() =~= old(self).shards@);
        }
        Ok(ShardInitialized { shard_x, shard_y, creator, main_wallet: creator, timestamp: now })
    }

    /// The error `delegate_shard` reports, if any.
    pub open spec fn delegate_shard_error(self, shard_x: u16, shard_y: u16) -> Option<PixelError> {
        if !self.has_shard(shard_x, shard_y) {
            Some(PixelError::InvalidShardCoord)
        } else if self.shards@[self.shard_index(shard_x, shard_y)].tier_state
            != TierState::Durable {
            Some(PixelError::AlreadyDelegated)
        } else {
            None
        }
    }

    /// Hands the shard at `(shard_x, shard_y)` to the fast execution tier.
    ///
    /// A capability transfer only: no pixel changes. Fails with
    /// `InvalidShardCoord` when no record exists there and with
    /// `AlreadyDelegated` when the shard is already delegated. On error the
    /// canvas is unchanged.
    pub fn delegate_shard(&mut self, shard_x: u16, shard_y: u16) -> (r: Result<(), PixelError>)
        requires
            old(self).wf(),
        ensures
            final(self).wf(),
            final(self).bit_depth == old(self).bit_depth,
            match r {
                Ok(()) => {
                    let hi = old(self).shard_index(shard_x, shard_y);
                    &&& old(self).delegate_shard_error(shard_x, shard_y) is None
                    &&& final(self).sessions@ == old(self).sessions@
                    &&& final(self).shards@.len() == old(self).shards@.len()
                    &&& forall|j: int|
                        0 <= j < old(self).shards@.len() && j != hi ==> final(self).shards@[j]
                            == old(self).shards@[j]
                    &&& old(self).shards@[hi].same_except_tier(final(self).shards@[hi])
                    &&& final(self).shards@[hi].tier_state == TierState::Delegated
                },
                Err(e) => Some(e) == old(self).delegate_shard_error(shard_x, shard_y) 
                    && *final(self) == *old(self),
            },
    {
        let hi = match self.find_shard(shard_x, shard_y) {
            Some(i) => i,
            None => { return Err(PixelError::InvalidShardCoord) },
        };
        let nt = match lifecycle::delegate(self.shards[hi].tier_state) {
            Ok(t) => t,
            Err(e) => { return Err(e) },
        };
        let ghost pre = *self;
        let mut h = self.shards.remove(hi);
        h.tier_state = nt;
        self.shards.insert(hi, h);
        proof {
            assert(final(self).shards@ =~= pre.shards@.update(
                hi as int,
                final(self).shards@[hi as int],
            ));
        }
        Ok(())
    }

    /// The error `commit_shard` reports, if any.
    pub open spec fn commit_shard_error(self, shard_x: u16, shard_y: u16) -> Option<PixelError> {
        if !self.has_shard(shard_x, shard_y) {
            Some(PixelError::InvalidShardCoord)
        } else if self.shards@[self.shard_index(shard_x, shard_y)].tier_state
            != TierState::Delegated {
            Some(PixelError::NotDelegated)
        } else {
            None
        }
    }

    /// Reconciles the shard at `(shard_x, shard_y)` back into the durable
    /// store, making it writable via the durable ledger again.
    ///
    /// Fails with `InvalidShardCoord` when no record exists there and with
    /// `NotDelegated` when the shard is not currently delegated. On error
    /// the canvas is unchanged.
    pub fn commit_shard(&mut self, shard_x: u16, shard_y: u16) -> (r: Result<(), PixelError>)
        requires
            old(self).wf(),
        ensures
            final(self).wf(),
            final(self).bit_depth == old(self).bit_depth,
            match r {
                Ok(()) => {
                    let hi = old(self).shard_index(shard_x, shard_y);
                    &&& old(self).commit_shard_error(shard_x, shard_y) is None
                    &&& final(self).sessions@ == old(self).sessions@
                    &&& final(self).shards@.len() == old(self).shards@.len()
                    &&& forall|j: int|
                        0 <= j < old(self).shards@.len() && j != hi ==> final(self).shards@[j]
                            == old(self).shards@[j]
                    &&& old(self).shards@[hi].same_except_tier(final(self).shards@[hi])
                    &&& final(self).shards@[hi].tier_state == TierState::Durable
                },
                Err(e) => Some(e) == old(self).commit_shard_error(shard_x, shard_y) 
                    && *final(self) == *old(self),
            },
    {
        let hi = match self.find_shard(shard_x, shard_y) {
            Some(i) => i,
            None => { return Err(PixelError::InvalidShardCoord) },
        };
        let nt = match lifecycle::commit(self.shards[hi].tier_state) {
            Ok(t) => t,
            Err(e) => { return Err(e) },
        };
        let ghost pre = *self;
        let mut h = self.shards.remove(hi);
        h.tier_state = nt;
        self.shards.insert(hi, h);
        proof {
            assert(final(self).shards@ =~= pre.shards@.update(
                hi as int,
                final(self).shards@[hi as int],
            ));
        }
        Ok(())
    }

    /// The error `place_pixel` reports, if any, in validation order: signer
    /// session, pixel bounds, color, shard record, shard match, cooldown.
    /// The shard's creator is exempt from the cooldown check.
    pub open spec fn place_pixel_error(
        self,
        signer: Identity,
        shard_x: u16,
        shard_y: u16,
        px: u32,
        py: u32,
        color: u8,
        now: u64,
    ) -> Option<PixelError> {
        if !self.has_session(signer) {
            Some(PixelError::InvalidAuth)
        } else if !mapper::pixel_in_bounds(px, py) {
            Some(PixelError::InvalidPixelCoord)
        } else if !codec::valid_color(self.bit_depth, color) {
            Some(PixelError::InvalidColor)
        } else if !self.has_shard(shard_x, shard_y) {
            Some(PixelError::InvalidShardCoord)
        } else if !self.shards@[self.shard_index(shard_x, shard_y)].covers(px, py) {
            Some(PixelError::ShardMismatch)
        } else if ({
            let s = self.sessions@[self.session_index(signer)];
            let h = self.shards@[self.shard_index(shard_x, shard_y)];
            h.creator != s.main_address && !cooldown_allows(
                s.cooldown_counter,
                s.last_place_timestamp,
                now,
            )
        }) {
            Some(PixelError::Cooldown)
        } else {
            None
        }
    }

    /// How an accepted write changes the canvas: the addressed pixel of the
    /// addressed shard is set to `color`; the writing session's cooldown
    /// counters advance unless the writer created the shard; nothing else
    /// changes.
    pub open spec fn place_pixel_applied(
        pre: Canvas,
        post: Canvas,
        signer: Identity,
        shard_x: u16,
        shard_y: u16,
        px: u32,
        py: u32,
        color: u8,
        now: u64,
    ) -> bool {
        let si = pre.session_index(signer);
        let hi = pre.shard_index(shard_x, shard_y);
        let s = pre.sessions@[si];
        let h = pre.shards@[hi];
        &&& post.bit_depth == pre.bit_depth
        &&& post.shards@.len() == pre.shards@.len()
        &&& forall|j: int|
            0 <= j < pre.shards@.len() && j != hi ==> post.shards@[j] == pre.shards@[j]
        &&& h.same_except_pixels(post.shards@[hi])
        &&& post.shards@[hi].pixels@ == codec::with_pixel(
            pre.bit_depth,
            h.pixels@,
            mapper::spec_local_index(px, py) as nat,
            color,
        )
        &&& if h.creator == s.main_address {
            post.sessions@ == pre.sessions@
        } else {
            post.sessions@ == pre.sessions@.update(
                si,
                (SessionAccount {
                    cooldown_counter: cooldown_next_counter(s.cooldown_counter),
                    last_place_timestamp: cooldown_next_timestamp(
                        s.cooldown_counter,
                        s.last_place_timestamp,
                        now,
                    ),
                    ..s
                }),
            )
        }
    }

    /// Places `color` at global pixel `(px, py)`, as a write signed by
    /// `signer` against the shard handle `(shard_x, shard_y)` at time `now`.
    ///
    /// Validates, in order: the signer has a session (`InvalidAuth`), the
    /// pixel is on the canvas (`InvalidPixelCoord`), the color is paintable
    /// (`InvalidColor`), a record exists at the handle (`InvalidShardCoord`),
    /// the handle is the tile that holds the pixel (`ShardMismatch`), and —
    /// unless the session's root identity created the shard — the burst
    /// limiter admits the write (`Cooldown`). Only then are the pixel and
    /// the session's counters updated, and the change notification returned.
    /// An error, the rate-limit rejection included, leaves the canvas
    /// exactly unchanged.
    pub fn place_pixel(
        &mut self,
        signer: Identity,
        shard_x: u16,
        shard_y: u16,
        px: u32,
        py: u32,
        color: u8,
        now: u64,
    ) -> (r: Result<PixelChanged, PixelError>)
        requires
            old(self).wf(),
        ensures
            final(self).wf(),
            match r {
                Ok(ev) => {
                    &&& old(self).place_pixel_error(
                        signer,
                        shard_x,
                        shard_y,
                        px,
                        py,
                        color,
                        now,
                    ) is None
                    &&& Canvas::place_pixel_applied(
                        *old(self),
                        *final(self),
                        signer,
                        shard_x,
                        shard_y,
                        px,
                        py,
                        color,
                        now,
                    )
                    &&& ev == (PixelChanged {
                        px,
                        py,
                        color,
                        painter: signer,
                        main_wallet: old(self).sessions@[old(self).session_index(
                            signer,
                        )].main_address,
                        timestamp: now,
                    })
                },
                Err(e) => Some(e) == old(self).place_pixel_error(
                    signer,
                    shard_x,
                    shard_y,
                    px,
                    py,
                    color,
                    now,
                ) && *final(self) == *old(self),
            },
    {
        let si = match self.find_session(&signer) {
            Some(i) => i,
            None => { return Err(PixelError::InvalidAuth) },
        };
        if !(px < mapper::CANVAS_RES && py < mapper::CANVAS_RES) {
            return Err(PixelError::InvalidPixelCoord);
        }
        if color == 0 || color > codec::max_color(self.bit_depth) {
            return Err(PixelError::InvalidColor);
        }
        let hi = match self.find_shard(shard_x, shard_y) {
            Some(i) => i,
            None => { return Err(PixelError::InvalidShardCoord) },
        };
        let expected_x = (px / mapper::SHARD_DIMENSION) as u16;
        let expected_y = (py / mapper::SHARD_DIMENSION) as u16;
        if self.shards[hi].shard_x != expected_x || self.shards[hi].shard_y != expected_y {
            return Err(PixelError::ShardMismatch);
        }
        let main_wallet = self.sessions[si].main_address;
        if self.shards[hi].creator != main_wallet {
            let mut s = self.sessions[si];
            match s.note_write(now) {
                Ok(()) => { self.sessions[si] = s },
                Err(e) => { return Err(e) },
            }
        }
        let ghost pre = *self;
        let mut h = self.shards.remove(hi);
        let wres = h.write_pixel(self.bit_depth, px, py, color);
        self.shards.insert(hi, h);
        proof {
            assert(wres is Ok);
            assert(final(self).shards@ =~= pre.shards@.update(
                hi as int,
                final(self).shards@[hi as int],
            ));
        }
        Ok(PixelChanged { px, py, color, painter: signer, main_wallet, timestamp: now })
    }

    /// The error `erase_pixel` reports, if any, in validation order: signer
    /// session, pixel bounds, shard record, shard match. Erasing is not
    /// rate-limited and needs no paintable color.
    pub open spec fn erase_pixel_error(
        self,
        signer: Identity,
        shard_x: u16,
        shard_y: u16,
        px: u32,
        py: u32,
    ) -> Option<PixelError> {
        if !self.has_session(signer) {
            Some(PixelError::InvalidAuth)
        } else if !mapper::pixel_in_bounds(px, py) {
            Some(PixelError::InvalidPixelCoord)
        } else if !self.has_shard(shard_x, shard_y) {
            Some(PixelError::InvalidShardCoord)
        } else if !self.shards@[self.shard_index(shard_x, shard_y)].covers(px, py) {
            Some(PixelError::ShardMismatch)
        } else {
            None
        }
    }

    /// Erases global pixel `(px, py)`: its stored value becomes `0`,
    /// whatever it was — erasing an unset pixel succeeds and leaves it `0`.
    ///
    /// Validation order is as in `place_pixel`, but there is no color to
    /// reject and no cooldown: erasing is free. The notification carries
    /// color `0`. On error the canvas is unchanged.
    pub fn erase_pixel(
        &mut self,
        signer: Identity,
        shard_x: u16,
        shard_y: u16,
        px: u32,
        py: u32,
        now: u64,
    ) -> (r: Result<PixelChanged, PixelError>)
        requires
            old(self).wf(),
        ensures
            final(self).wf(),
            final(self).bit_depth == old(self).bit_depth,
            match r {
                Ok(ev) => {
                    let hi = old(self).shard_index(shard_x, shard_y);
                    let h = old(self).shards@[hi];
                    &&& old(self).erase_pixel_error(signer, shard_x, shard_y, px, py) is None
                    &&& final(self).sessions@ == old(self).sessions@
                    &&& final(self).shards@.len() == old(self).shards@.len()
                    &&& forall|j: int|
                        0 <= j < old(self).shards@.len() && j != hi ==> final(self).shards@[j]
                            == old(self).shards@[j]
                    &&& h.same_except_pixels(final(self).shards@[hi])
                    &&& final(self).shards@[hi].pixels@ == codec::with_pixel(
                        old(self).bit_depth,
                        h.pixels@,
                        mapper::spec_local_index(px, py) as nat,
                        0,
                    )
                    &&& ev == (PixelChanged {
                        px,
                        py,
                        color: 0,
                        painter: signer,
                        main_wallet: old(self).sessions@[old(self).session_index(
                            signer,
                        )].main_address,
                        timestamp: now,
                    })
                },
                Err(e) => Some(e) == old(self).erase_pixel_error(signer, shard_x, shard_y, px, py)
                    && *final(self) == *old(self),
            },
    {
        let si = match self.find_session(&signer) {
            Some(i) => i,
            None => { return Err(PixelError::InvalidAuth) },
        };
        if !(px < mapper::CANVAS_RES && py < mapper::CANVAS_RES) {
            return Err(PixelError::InvalidPixelCoord);
        }
        let hi = match self.find_shard(shard_x, shard_y) {
            Some(i) => i,
            None => { return Err(PixelError::InvalidShardCoord) },
        };
        let expected_x = (px / mapper::SHARD_DIMENSION) as u16;
        let expected_y = (py / mapper::SHARD_DIMENSION) as u16;
        if self.shards[hi].shard_x != expected_x || self.shards[hi].shard_y != expected_y {
            return Err(PixelError::ShardMismatch);
        }
        let main_wallet = self.sessions[si].main_address;
        let ghost pre = *self;
        let mut h = self.shards.remove(hi);
        let eres = h.erase_pixel(self.bit_depth, px, py);
        self.shards.insert(hi, h);
        proof {
            assert(eres is Ok);
            assert(final(self).shards@ =~= pre.shards@.update(
                hi as int,
                final(self).shards@[hi as int],
            ));
        }
        Ok(PixelChanged { px, py, color: 0, painter: signer, main_wallet, timestamp: now })
    }

    /// Creator exemption: a write signed by the session of the shard's own
    /// creator is never rejected by the rate limiter, whatever the session's
    /// counter and timestamp and whatever the time.
    pub proof fn lemma_creator_exempt(
        self,
        signer: Identity,
        shard_x: u16,
        shard_y: u16,
        px: u32,
        py: u32,
        color: u8,
        now: u64,
    )
        requires
            self.has_session(signer),
            self.has_shard(shard_x, shard_y),
            self.shards@[self.shard_index(shard_x, shard_y)].creator == self.sessions@[self.session_index(signer)].main_address,
        ensures
            self.place_pixel_error(signer, shard_x, shard_y, px, py, color, now) != Some(
                PixelError::Cooldown,
            ),
    {
    }

    /// Reads the color stored at global pixel `(px, py)` through the shard
    /// handle `(shard_x, shard_y)`.
    ///
    /// A pure lookup, open to anyone — no session, no cooldown, no
    /// mutation. Fails with `InvalidPixelCoord` off the canvas,
    /// `InvalidShardCoord` when no record exists at the handle, and
    /// `ShardMismatch` when the handle is not the pixel's tile. A pixel of a
    /// tile never materialized cannot be read through this surface; it is
    /// unset by construction.
    pub fn read_pixel(&self, shard_x: u16, shard_y: u16, px: u32, py: u32) -> (r: Result<
        u8,
        PixelError,
    >)
        requires
            self.wf(),
        ensures
            match r {
                Ok(c) => mapper::pixel_in_bounds(px, py) && self.has_shard(shard_x, shard_y)
                    && self.shards@[self.shard_index(shard_x, shard_y)].covers(px, py) && c
                    == codec::pixel_at(
                    self.bit_depth,
                    self.shards@[self.shard_index(shard_x, shard_y)].pixels@,
                    mapper::spec_local_index(px, py) as nat,
                ),
                Err(e) => if !mapper::pixel_in_bounds(px, py) {
                    e == PixelError::InvalidPixelCoord
                } else if !self.has_shard(shard_x, shard_y) {
                    e == PixelError::InvalidShardCoord
                } else if !self.shards@[self.shard_index(shard_x, shard_y)].covers(px, py) {
                    e == PixelError::ShardMismatch
                } else {
                    false
                },
            },
    {
        if !(px < mapper::CANVAS_RES && py < mapper::CANVAS_RES) {
            return Err(PixelError::InvalidPixelCoord);
        }
        let hi = match self.find_shard(shard_x, shard_y) {
            Some(i) => i,
            None => { return Err(PixelError::InvalidShardCoord) },
        };
        self.shards[hi].read_pixel(self.bit_depth, px, py)
    }
}

} // verus!

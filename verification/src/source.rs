//! Where a track comes from: telling remote streams from local files,
//! accepting or refusing a stream by its status, and sizing the read buffer.

use vstd::prelude::*;
use vstd::arithmetic::power2::{lemma_pow2_strictly_increases, lemma_pow2_unfold, pow2};
use vstd::string::StringSliceAdditionalSpecFns;
use crate::decode::PlaybackError;

verus! {

/// Seconds allowed for each of connecting to, reading from and writing to
/// a remote stream.
pub const STREAM_TIMEOUT_SECS: u64 = 10;

/// The only status with which a remote stream is accepted.
pub const STREAM_STATUS_OK: u16 = 200;

/// Bytes in one unit of the configured buffer budget.
pub const BYTES_PER_BUDGET_UNIT: usize = 1048576;

/// The bytes `h`, `t`, `t`, `p`.
pub open spec fn remote_prefix() -> Seq<u8> {
    seq![104u8, 116u8, 116u8, 112u8]
}

/// Whether a locator with these bytes names a remote stream: it begins with
/// the four bytes `http`. Nothing else of the locator is looked at.
pub open spec fn is_remote(locator: Seq<u8>) -> bool {
    locator.len() >= 4 && locator.subrange(0, 4) == remote_prefix()
}

/// Whether `locator` names a remote stream rather than a file below the
/// music directory.
pub fn is_remote_locator(locator: &str) -> (remote: bool)
    ensures
        remote == is_remote(locator.spec_bytes()),
{
    let bytes = locator.as_bytes();
    if bytes.len() < 4 {
        return false;
    }
    let remote = bytes[0] == 104 && bytes[1] == 116 && bytes[2] == 116 && bytes[3] == 112;
    proof {
        let head = bytes@.subrange(0, 4);
        if remote {
            assert(head =~= remote_prefix());
        } else {
            assert(head[0] == bytes@[0] && head[1] == bytes@[1] && head[2] == bytes@[2] && head[3]
                == bytes@[3]);
        }
    }
    remote
}

/// Accepts a remote stream that answered with `status`: only 200 is a
/// stream that can be played.
pub fn check_stream_status(status: u16) -> (accepted: Result<(), PlaybackError>)
    ensures
        accepted == (if status == STREAM_STATUS_OK {
            Ok::<(), PlaybackError>(())
        } else {
            Err::<(), PlaybackError>(PlaybackError::StreamUnavailable)
        }),
{
    if status == STREAM_STATUS_OK {
        Ok(())
    } else {
        Err(PlaybackError::StreamUnavailable)
    }
}

/// Whether `len` is the smallest power of two that is not below `bytes`.
pub open spec fn is_next_power_of_two(len: nat, bytes: nat) -> bool {
    exists|k: nat| #[trigger] pow2(k) == len && len >= bytes && (k > 0 ==> pow2((k - 1) as nat) < bytes)
}

/// Length in bytes of the read buffer for a budget of `budget` units of
/// 2^20 bytes: the budget in bytes, rounded up to the next power of two.
///
/// Returns `None` exactly when no such length fits in `usize`.
pub fn buffer_len(budget: usize) -> (len: Option<usize>)
    ensures
        match len {
            Some(len) => is_next_power_of_two(len as nat, (budget * BYTES_PER_BUDGET_UNIT) as nat),
            None => forall|k: nat|
                #[trigger] pow2(k) >= budget * BYTES_PER_BUDGET_UNIT ==> pow2(k) > usize::MAX,
        },
{
    if budget > usize::MAX / BYTES_PER_BUDGET_UNIT {
        proof {
            assert(budget * BYTES_PER_BUDGET_UNIT > usize::MAX) by (nonlinear_arith)
                requires
                    budget > usize::MAX / BYTES_PER_BUDGET_UNIT,
                    BYTES_PER_BUDGET_UNIT == 1048576,
            ;
        }
        return None;
    }
    let bytes: usize = budget * BYTES_PER_BUDGET_UNIT;
    let mut len: usize = 1;
    let ghost mut k: nat = 0;
    proof {
        vstd::arithmetic::power2::lemma2_to64();
    }
    while len < bytes
        invariant
            bytes == budget * BYTES_PER_BUDGET_UNIT,
            len >= 1,
            pow2(k) == len,
            k > 0 ==> pow2((k - 1) as nat) < bytes,
        decreases
                (if len < bytes {
                    bytes - len
                } else {
                    0
                }),
    {
        if len > usize::MAX / 2 {
            proof {
                assert forall|j: nat| #[trigger] pow2(j) >= bytes implies pow2(j) > usize::MAX by {
                    if j <= k {
                        if j < k {
                            lemma_pow2_strictly_increases(j, k);
                        }
                    } else {
                        lemma_pow2_unfold(j);
                        if k < j - 1 {
                            lemma_pow2_strictly_increases(k, (j - 1) as nat);
                        }
                    }
                }
            }
            return None;
        }
        proof {
            lemma_pow2_unfold(k + 1);
            k = k + 1;
        }
        len = len * 2;
    }
    Some(len)
}

} // verus!

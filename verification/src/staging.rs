//! The staging directory name.
//!
//! Each distinct launcher build gets its own working directory under the
//! platform temporary-files root, named from the launcher file's own creation
//! time in milliseconds.  Repeated runs of the same build therefore resolve
//! the same directory, while builds with different creation times never
//! collide.

use vstd::prelude::*;

use crate::decimal::{dec_bytes, lemma_dec_val_of_dec_bytes};
use crate::decimal::dec_bytes_exec;

verus! {

/// The fixed prefix of every staging directory name.
pub open spec fn staging_prefix() -> Seq<u8> {
    seq![115u8, 112u8, 119u8, 110u8, 99u8, 109u8, 112u8, 108u8, 95u8]
}

/// The directory name for a build created `millis` milliseconds into the
/// epoch: the fixed prefix, then the timestamp in decimal.
pub open spec fn staging_name_spec(millis: nat) -> Seq<u8> {
    staging_prefix() + dec_bytes(millis)
}

/// Derives the staging directory name from the launcher's creation time.
pub fn staging_dir_name(millis: u128) -> (r: Vec<u8>)
    ensures
        r@ == staging_name_spec(millis as nat),
{
    let mut r: Vec<u8> = Vec::new();
    r.push(115u8);
    r.push(112u8);
    r.push(119u8);
    r.push(110u8);
    r.push(99u8);
    r.push(109u8);
    r.push(112u8);
    r.push(108u8);
    r.push(95u8);
    let d = dec_bytes_exec(millis);
    r.extend_from_slice(d.as_slice());
    assert(r@ =~= staging_name_spec(millis as nat));
    r
}

/// Collision resistance: two builds resolve the same staging directory name
/// only when their creation timestamps are equal.
pub proof fn lemma_staging_name_injective(m1: nat, m2: nat)
    requires
        staging_name_spec(m1) == staging_name_spec(m2),
    ensures
        m1 == m2,
{
    let d1 = dec_bytes(m1);
    let d2 = dec_bytes(m2);
    assert(staging_name_spec(m1).len() == 9 + d1.len());
    assert(staging_name_spec(m2).len() == 9 + d2.len());
    assert(d1.len() == d2.len());
    assert forall|i: int| 0 <= i < d1.len() implies d1[i] == d2[i] by {
        assert(staging_name_spec(m1)[9 + i] == d1[i]);
        assert(staging_name_spec(m2)[9 + i] == d2[i]);
    }
    assert(d1 =~= d2);
    lemma_dec_val_of_dec_bytes(m1);
    lemma_dec_val_of_dec_bytes(m2);
}

} // verus!

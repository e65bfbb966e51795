//! The sensor's side: which advertised device is the radar, and what is done
//! with the records decoded from one notification.

use crate::geometry::TargetRecord;
use crate::queue::{pushed_all, OverflowPolicy, TargetQueue};
use vstd::prelude::*;

verus! {

/// The bytes with which the advertised name of the radar begins:
/// `HLK-LD2450_`.
pub open spec fn radar_name_prefix() -> Seq<u8> {
    seq![0x48u8, 0x4Cu8, 0x4Bu8, 0x2Du8, 0x4Cu8, 0x44u8, 0x32u8, 0x34u8, 0x35u8, 0x30u8, 0x5Fu8]
}

/// Whether an advertised name begins with the radar's prefix.
pub open spec fn names_radar(name: Seq<u8>) -> bool {
    name.len() >= 11 && name.subrange(0, 11) == radar_name_prefix()
}

/// Tells whether an advertised name is that of the radar.
pub fn is_radar_name(name: &[u8]) -> (found: bool)
    ensures
        found == names_radar(name@),
{
    let prefix: [u8; 11] = [0x48, 0x4C, 0x4B, 0x2D, 0x4C, 0x44, 0x32, 0x34, 0x35, 0x30, 0x5F];
    assert(prefix@ =~= radar_name_prefix());
    if name.len() < 11 {
        return false;
    }
    let mut index: usize = 0;
    while index < 11
        invariant
            index <= 11,
            name@.len() >= 11,
            prefix@ == radar_name_prefix(),
            forall|i: int| 0 <= i < index ==> name@[i] == prefix@[i],
        decreases 11 - index,
    {
        if name[index] != prefix[index] {
            assert(name@.subrange(0, 11)[index as int] != radar_name_prefix()[index as int]);
            return false;
        }
        index += 1;
    }
    assert(name@.subrange(0, 11) =~= radar_name_prefix());
    true
}

/// Number of records of a decoded notification: none where the notification
/// held no frame.
pub open spec fn decoded_count(decoded: Option<Vec<TargetRecord>>) -> nat {
    match decoded {
        Some(records) => records@.len(),
        None => 0,
    }
}

/// Forwards what was decoded from one notification, from index `from` on.
/// A notification that held no frame is dropped: nothing is pushed. The
/// result is the index of the first record that still waits, which is the
/// number of records when all were forwarded.
pub fn forward_notification(
    queue: &mut TargetQueue,
    decoded: &Option<Vec<TargetRecord>>,
    from: usize,
) -> (next: usize)
    requires
        old(queue).wf(),
    ensures
        final(queue).wf(),
        final(queue).bound() == old(queue).bound(),
        final(queue).rule() == old(queue).rule(),
        from >= decoded_count(*decoded) ==> next == from && final(queue)@ == old(queue)@,
        from <= decoded_count(*decoded) ==> from <= next <= decoded_count(*decoded),
        decoded matches Some(records) ==> from <= records@.len() ==> {
            &&& final(queue)@ == pushed_all(
                old(queue)@,
                old(queue).bound(),
                old(queue).rule(),
                records@.subrange(from as int, next as int),
            )
            &&& next < records@.len() ==> old(queue).rule() == OverflowPolicy::Block
                && final(queue)@.len() == old(queue).bound()
            &&& old(queue).rule() == OverflowPolicy::Block ==> final(queue)@ == old(queue)@
                + records@.subrange(from as int, next as int)
        },
{
    match decoded {
        Some(records) => queue.forward(records, from),
        None => from,
    }
}

} // verus!

//! The volume list of the control channel.
use vstd::prelude::*;
use crate::error::{ErrorCode, Failure, Fatal, ProtocolError};

verus! {

/// The most volumes a filesystem has, and a reply has room for.
pub const MAX_VOLUMES: i32 = 64;

/// A volume, as the engine describes it.
#[derive(Clone, Debug, PartialEq, Eq)]
pub struct VolumeInfo {
    pub id: u64,
    pub path: String,
    pub offset: u64,
    pub size: u64,
}

/// A volume, as the reply lists it.
#[derive(Clone, Debug, PartialEq, Eq)]
pub struct VolumeEntry {
    pub id: i32,
    pub path: String,
    pub offset: u64,
    pub size: u64,
}

/// What a volume list query sets in the reply structure.
#[derive(Clone, Debug, PartialEq, Eq)]
pub struct VolumeListReply {
    /// The entries filled, from the first on.
    pub volumes: Vec<VolumeEntry>,
    /// How many entries were filled.
    pub nvolumes: i32,
    /// The version of the volume data.
    pub version: i32,
    /// The label of the mounted namespace.
    pub pfs_name: String,
}

/// How many entries a reply fills: as many as the caller has room for, or all
/// volumes if that is less.
pub open spec fn filled(capacity: i32, volumes: nat) -> nat {
    if capacity <= 0 {
        0
    } else if volumes <= capacity {
        volumes
    } else {
        capacity as nat
    }
}

/// A reply entry lists a volume.
pub open spec fn lists(entry: VolumeEntry, volume: VolumeInfo) -> bool {
    entry.id == volume.id && entry.path@ == volume.path@ && entry.offset == volume.offset
        && entry.size == volume.size
}

/// A count or an identifier does not fit its field: the caller's capacity is
/// negative though there are volumes to list, or one of the volumes to list
/// has an identifier the entry cannot hold.
pub open spec fn out_of_range(capacity: i32, volumes: Seq<VolumeInfo>) -> bool {
    ||| capacity < 0 && volumes.len() > 0
    ||| exists|i: int|
        0 <= i < filled(capacity, volumes.len()) && (#[trigger] volumes[i]).id > i32::MAX
}

/// `reply` is the reply to a query with room for `capacity` entries.
pub open spec fn is_volume_reply(
    reply: VolumeListReply,
    capacity: i32,
    volumes: Seq<VolumeInfo>,
    version: i32,
    label: Seq<char>,
) -> bool {
    &&& reply.volumes@.len() == filled(capacity, volumes.len())
    &&& forall|i: int|
        0 <= i < reply.volumes@.len() ==> lists(#[trigger] reply.volumes@[i], volumes[i])
    &&& reply.nvolumes == filled(capacity, volumes.len())
    &&& reply.version == version
    &&& reply.pfs_name@ == label
}

/// Answers a volume list query: lists the volumes in the engine's order up to
/// the capacity the caller declared, and reports how many it listed.
///
/// A capacity above [`MAX_VOLUMES`] is an invalid argument. Volumes beyond
/// the capacity are left out without notice.
pub fn volume_list2(capacity: i32, volumes: &Vec<VolumeInfo>, version: i32, label: String) -> (r:
    Result<VolumeListReply, Failure>)
    ensures
        capacity > MAX_VOLUMES ==> r == Err::<VolumeListReply, Failure>(
            Failure::Reply(ProtocolError::Code(ErrorCode::InvalidArgument)),
        ),
        capacity <= MAX_VOLUMES ==> match r {
            Ok(reply) => !out_of_range(capacity, volumes@) && is_volume_reply(
                reply,
                capacity,
                volumes@,
                version,
                label@,
            ),
            Err(f) => f == Failure::Fatal(Fatal::OutOfRange) && out_of_range(capacity, volumes@),
        },
{
    if capacity > MAX_VOLUMES {
        return Err(Failure::Reply(ProtocolError::Code(ErrorCode::InvalidArgument)));
    }
    let mut out: Vec<VolumeEntry> = Vec::new();
    let mut count: i32 = 0;
    let mut i: usize = 0;
    while i < volumes.len()
        invariant
            capacity <= MAX_VOLUMES,
            i <= volumes@.len(),
            i == count,
            out@.len() == i,
            i > 0 ==> capacity >= 0,
            i <= filled(capacity, volumes@.len()),
            i < volumes@.len() ==> i == filled(capacity, i as nat),
            forall|j: int| 0 <= j < i ==> lists(#[trigger] out@[j], volumes@[j]),
            forall|j: int| 0 <= j < i ==> (#[trigger] volumes@[j]).id <= i32::MAX,
        ensures
            i == filled(capacity, volumes@.len()),
            i == count,
            out@.len() == i,
            capacity >= 0 || volumes@.len() == 0,
            forall|j: int| 0 <= j < i ==> lists(#[trigger] out@[j], volumes@[j]),
            forall|j: int| 0 <= j < i ==> (#[trigger] volumes@[j]).id <= i32::MAX,
        decreases volumes@.len() - i,
    {
        if capacity < 0 {
            return Err(Failure::Fatal(Fatal::OutOfRange));
        }
        if i >= capacity as usize {
            break ;
        }
        let v = &volumes[i];
        if v.id > i32::MAX as u64 {
            return Err(Failure::Fatal(Fatal::OutOfRange));
        }
        out.push(VolumeEntry { id: v.id as i32, path: v.path.clone(), offset: v.offset, size: v.size });
        count = count + 1;
        i += 1;
    }
    Ok(VolumeListReply { volumes: out, nvolumes: count, version, pfs_name: label })
}

} // verus!

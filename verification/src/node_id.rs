//! Identity of a node.
//!
//! An identity is 256 bits that a node keeps for life. A new one is a random
//! UUID written twice; a stored one is taken as it is if it has the right
//! size.

use vstd::prelude::*;

verus! {

/// Number of bytes of an identity.
pub const NODE_ID_LEN: usize = 32;

/// Identity of a node.
pub type NodeId = [u8; 32];

/// The identity made of a UUID: its sixteen bytes, twice.
pub open spec fn doubled(uuid: [u8; 16]) -> Seq<u8> {
    uuid@ + uuid@
}

/// Whether sixteen bytes have the layout of a random UUID: version 4 in the
/// upper half of byte 6, and the two top bits of byte 8 set to one and zero.
pub open spec fn is_random_uuid(bytes: [u8; 16]) -> bool {
    bytes@[6] / 16 == 4 && bytes@[8] / 64 == 2
}

/// Calls `uuid::Uuid::new_v4` and `uuid::Uuid::into_bytes`: sixteen random
/// bytes with the version and variant marks of a random UUID.
#[verifier::external_body]
fn random_uuid_bytes() -> (bytes: [u8; 16])
    ensures
        is_random_uuid(bytes),
{
    uuid::Uuid::new_v4().into_bytes()
}

/// The identity made of a UUID: its sixteen bytes, twice.
pub fn node_id_from_uuid(uuid: [u8; 16]) -> (id: NodeId)
    ensures
        id@ == doubled(uuid),
{
    let mut id: [u8; 32] = [0u8; 32];
    let mut i: usize = 0;
    while i < 16
        invariant
            i <= 16,
            forall|k: int| 0 <= k < i ==> id@[k] == uuid@[k] && id@[k + 16] == uuid@[k],
        decreases 16 - i,
    {
        id.set(i, uuid[i]);
        id.set(i + 16, uuid[i]);
        i = i + 1;
    }
    assert(id@ =~= doubled(uuid));
    id
}

/// The identity that stored bytes stand for: the bytes themselves if there are
/// exactly 32 of them, else none.
pub fn node_id_from_bytes(bytes: &Vec<u8>) -> (id: Option<NodeId>)
    ensures
        id is Some <==> bytes@.len() == NODE_ID_LEN,
        id is Some ==> id->0@ == bytes@,
{
    if bytes.len() != NODE_ID_LEN {
        return None;
    }
    let mut id: [u8; 32] = [0u8; 32];
    let mut i: usize = 0;
    while i < NODE_ID_LEN
        invariant
            i <= NODE_ID_LEN,
            bytes@.len() == NODE_ID_LEN,
            forall|k: int| 0 <= k < i ==> id@[k] == bytes@[k],
        decreases NODE_ID_LEN - i,
    {
        id.set(i, bytes[i]);
        i = i + 1;
    }
    assert(id@ =~= bytes@);
    Some(id)
}

/// A new identity: a random UUID, twice.
pub fn new_node_id() -> (id: NodeId)
    ensures
        exists|uuid: [u8; 16]| is_random_uuid(uuid) && id@ == #[trigger] doubled(uuid),
{
    let uuid = random_uuid_bytes();
    node_id_from_uuid(uuid)
}

/// Both halves of an identity made of a UUID are that UUID.
pub proof fn lemma_doubled_halves(uuid: [u8; 16])
    ensures
        doubled(uuid).len() == 32,
        doubled(uuid).subrange(0, 16) == uuid@,
        doubled(uuid).subrange(16, 32) == uuid@,
{
    assert(doubled(uuid).subrange(0, 16) =~= uuid@);
    assert(doubled(uuid).subrange(16, 32) =~= uuid@);
}

} // verus!

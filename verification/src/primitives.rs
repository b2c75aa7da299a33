//! Shared vocabulary: the plain types of the governance engines and the
//! interface of the identity gate they consult.

use vstd::prelude::*;

verus! {

/// A participant.
pub type AccountId = u64;

/// A tick of the external clock.
pub type BlockNumber = u64;

/// A 256-bit digest: a content hash or an identity marker.
pub type H256 = [u8; 32];

/// A balance of vote points.
pub type Points = u32;

/// The bodies of a list of proposals, each as its bytes.
pub open spec fn bodies(proposals: Seq<Vec<u8>>) -> Seq<Seq<u8>> {
    Seq::new(proposals.len(), |i: int| proposals[i]@)
}

/// Identity interface for loosely coupling an identity registry to the
/// engines that consult it.
///
/// The engines promise nothing about an implementation and rely on nothing
/// but the values it hands back.
pub trait IdentityInterface<AccountId, Name> {
    fn has_identity(&self, who: &AccountId) -> bool;

    fn set_identity(&mut self, who: &AccountId, name: Name);

    fn get_identity(&self, who: &AccountId) -> Option<Name>;

    fn clear_identity(&mut self, who: &AccountId);
}

} // verus!

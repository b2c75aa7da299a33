//! Setting an engine up with a first set of voters.

use crate::primitives::{AccountId, IdentityInterface, Points, H256};
use crate::quadratic_voting::config::Config;
use crate::quadratic_voting::event::Error;
use crate::quadratic_voting::pallet::Pallet;
use crate::quadratic_voting::state::PalletState;
use vstd::prelude::*;

verus! {

/// The voters an engine starts with.
pub struct GenesisConfig {
    pub voters: Vec<AccountId>,
}

impl Default for GenesisConfig {
    fn default() -> (genesis: GenesisConfig)
        ensures
            genesis.voters@ == Seq::<AccountId>::empty(),
    {
        GenesisConfig { voters: Vec::new() }
    }
}

impl GenesisConfig {
    /// The ledger of an engine set up from `self`: each voter holds the full
    /// budget.
    pub open spec fn points(self, config: Config) -> Map<AccountId, Points> {
        Map::new(
            |account: AccountId| self.voters@.contains(account),
            |account: AccountId| config.budget() as Points,
        )
    }

    /// Sets up an engine with the parameters `config` in which every account
    /// of `voters` is registered. Each of them is first given a blank identity
    /// in `identity`, all zero, and then registered as `register_voter` does.
    ///
    /// The first registration that fails ends the set-up with its error: an
    /// account that is listed twice, or one that the identity gate denies
    /// although it was just given an identity.
    pub fn build<I: IdentityInterface<AccountId, H256>>(
        &self,
        config: Config,
        identity: &mut I,
    ) -> (res: Result<Pallet, Error>)
        requires
            config.wf(),
        ensures
            res matches Ok(pallet) ==> {
                &&& pallet@.wf()
                &&& pallet@ == (PalletState {
                    points: self.points(config),
                    ..PalletState::initial(config)
                })
            },
            res is Ok ==> self.voters@.no_duplicates(),
            self.voters@.len() == 0 ==> res is Ok,
            res matches Err(e) ==> e == Error::NoIdentity || e == Error::VoterAlreadyRegistered,
            res matches Err(e) ==> self.voters@.no_duplicates() ==> e == Error::NoIdentity,
    {
        let mut pallet = Pallet::new(config);
        let mut i: usize = 0;
        while i < self.voters.len()
            invariant
                i <= self.voters@.len(),
                config.wf(),
                self.voters@.take(i as int).no_duplicates(),
                pallet@.wf(),
                pallet@.config == config,
                pallet@.queue == PalletState::initial(config).queue,
                pallet@.referenda == PalletState::initial(config).referenda,
                forall|account: AccountId|
                    #[trigger] pallet@.points.contains_key(account) <==> self.voters@.take(
                        i as int,
                    ).contains(account),
                forall|account: AccountId|
                    #[trigger] pallet@.points.contains_key(account) ==> pallet@.points[account]
                        == config.budget(),
            decreases self.voters.len() - i,
        {
            let voter = self.voters[i];
            let ghost before = self.voters@.take(i as int);
            proof {
                assert(self.voters@.take(i as int + 1) =~= before.push(voter));
                assert forall|account: AccountId|
                    before.push(voter).contains(account) <==> (before.contains(account) || account
                        == voter) by {
                    if before.contains(account) {
                        let j = choose|j: int| 0 <= j < before.len() && before[j] == account;
                        assert(before.push(voter)[j] == account);
                    }
                    if account == voter {
                        assert(before.push(voter)[before.len() as int] == voter);
                    }
                }
            }
            identity.set_identity(&voter, [0u8;32]);
            match pallet.register_voter(&*identity, voter) {
                Ok(()) => {},
                Err(e) => {
                    proof {
                        if e == Error::VoterAlreadyRegistered {
                            let j = choose|j: int| 0 <= j < before.len() && before[j] == voter;
                            assert(self.voters@[j] == self.voters@[i as int]);
                        }
                    }
                    return Err(e);
                },
            }
            i += 1;
        }
        proof {
            assert(self.voters@.take(self.voters@.len() as int) =~= self.voters@);
            assert(pallet@.points =~= self.points(config));
        }
        Ok(pallet)
    }
}

} // verus!

//! How many of the pending contracts a block releases.
//!
//! One deployer broadcasts all contracts, and a block takes fewer than
//! twenty-five chained transactions of one account. The contracts that wait
//! are therefore spread over the blocks that they need.

use vstd::prelude::*;
use vstd::string::*;
use crate::integrate::events_observer::{
    EventObserverConfig,
    PendingContract,
    SessionAccount,
    SessionAccountView,
};
use crate::text::{decimal_text, u64_to_string};

verus! {

/// The number of chained transactions of one account at which a further
/// block is planned.
pub const TX_CHAINING_LIMIT: usize = 25;

/// The number of blocks planned for `contracts_left` contracts.
pub open spec fn blocks_required(contracts_left: nat) -> nat {
    1 + contracts_left / 25
}

/// The number of contracts that the next block releases when
/// `contracts_left` wait: all of them where one block is planned, else their
/// number divided by the number of blocks planned, rounded down.
pub open spec fn chunk_size(contracts_left: nat) -> nat {
    if blocks_required(contracts_left) == 1 {
        contracts_left
    } else {
        contracts_left / blocks_required(contracts_left)
    }
}

/// The number of contracts that the next block releases.
pub fn contracts_to_deploy_in_block(contracts_left: usize) -> (r: usize)
    ensures
        r == chunk_size(contracts_left as nat),
{
    let blocks_required = 1 + (contracts_left / TX_CHAINING_LIMIT);
    if blocks_required == 1 {
        contracts_left
    } else {
        contracts_left / blocks_required
    }
}

/// A block releases fewer contracts than the chaining limit and no more than
/// wait, and at least one while any waits: the queue empties.
pub proof fn lemma_chunk_size_bounds(contracts_left: nat)
    ensures
        chunk_size(contracts_left) <= contracts_left,
        chunk_size(contracts_left) < TX_CHAINING_LIMIT,
        contracts_left > 0 ==> chunk_size(contracts_left) >= 1,
{
    let n = contracts_left as int;
    let b = blocks_required(contracts_left) as int;
    if b != 1 {
        assert(n >= 25 && b == 1 + n / 25);
        assert(n < 25 * b && b <= n && n / b < 25 && n / b >= 1 && n / b <= n) by (nonlinear_arith)
            requires
                n >= 25,
                b == 1 + n / 25,
        ;
    }
}

/// The account named `deployer` among the accounts of a session: the last
/// one, where several have the name.
pub open spec fn deployer_of(accounts: Seq<SessionAccount>) -> Option<SessionAccountView>
    decreases accounts.len(),
{
    if accounts.len() == 0 {
        None
    } else if accounts.last().name@ == "deployer"@ {
        Some(accounts.last()@)
    } else {
        deployer_of(accounts.drop_last())
    }
}

/// The view of an optional account.
pub open spec fn option_account(o: Option<SessionAccount>) -> Option<SessionAccountView> {
    match o {
        Some(a) => Some(a@),
        None => None,
    }
}

/// Looks for the account named `deployer`.
pub fn find_deployer(accounts: &Vec<SessionAccount>) -> (r: Option<SessionAccount>)
    ensures
        option_account(r) == deployer_of(accounts@),
{
    let name = String::from_str("deployer");
    let mut found: Option<SessionAccount> = None;
    let mut i: usize = 0;
    assert(accounts@.take(0) == Seq::<SessionAccount>::empty());
    while i < accounts.len()
        invariant
            i <= accounts.len(),
            name@ == "deployer"@,
            option_account(found) == deployer_of(accounts@.take(i as int)),
        decreases accounts.len() - i,
    {
        proof {
            assert(accounts@.take(i + 1).drop_last() == accounts@.take(i as int));
            assert(accounts@.take(i + 1).last() == accounts@[i as int]);
        }
        let account = &accounts[i];
        if account.name == name {
            found = Some(
                SessionAccount {
                    address: account.address.clone(),
                    balance: account.balance,
                    name: account.name.clone(),
                },
            );
        }
        i += 1;
    }
    assert(accounts@.take(i as int) == accounts@);
    found
}

/// The address at which the node of the network answers on `port`.
pub open spec fn node_url_of(port: u16) -> Seq<char> {
    "http://localhost:"@ + decimal_text(port as nat)
}

/// The address at which the node of the network answers on `port`.
pub fn node_url(port: u16) -> (r: String)
    ensures
        r@ == node_url_of(port),
{
    let mut url = String::from_str("http://localhost:");
    url.append(u64_to_string(port as u64).as_str());
    url
}

/// The contracts that one block releases, and what their broadcast needs.
#[derive(Clone, Debug, PartialEq, Eq)]
pub struct DeploymentChunk {
    /// The contracts, in the order in which they are to be broadcast.
    pub contracts: Vec<PendingContract>,
    /// The account that signs them, if the session has one.
    pub deployer: Option<SessionAccount>,
    /// The nonce of the first of them.
    pub deployer_nonce: u64,
    /// The node that takes them.
    pub node_url: String,
}

impl DeploymentChunk {
    /// The place in the chunk and the nonce of the contract to broadcast
    /// next, when `done` of them have been broadcast and the last of these
    /// was taken or not. The contracts go in their order, each with the
    /// next nonce. Once the node has refused one, the rest of the chunk is
    /// given up.
    pub open spec fn next(self, done: nat, last_taken: bool) -> Option<(nat, u64)> {
        if last_taken && done < self.contracts@.len() && self.deployer_nonce + done <= u64::MAX {
            Some((done, (self.deployer_nonce + done) as u64))
        } else {
            None
        }
    }

    /// Tells which contract to broadcast next, and with which nonce.
    pub fn next_submission(&self, done: usize, last_taken: bool) -> (r: Option<(usize, u64)>)
        ensures
            match self.next(done as nat, last_taken) {
                Some((place, nonce)) => r == Some((place as usize, nonce)),
                None => r is None,
            },
    {
        if !last_taken || done >= self.contracts.len() {
            return None;
        }
        match self.deployer_nonce.checked_add(done as u64) {
            Some(nonce) => Some((done, nonce)),
            None => None,
        }
    }
}

/// Whether `after` and `chunk` are what a release leaves of `before`: the
/// contracts of one block have left the front of the queue in their order,
/// the deployer's nonce has moved past them, and nothing else has changed.
/// There is a chunk exactly where a contract waited.
pub open spec fn is_release(
    before: EventObserverConfig,
    after: EventObserverConfig,
    chunk: Option<DeploymentChunk>,
) -> bool {
    let count = chunk_size(before.contracts_to_deploy@.len());
    &&& after.devnet_config == before.devnet_config
    &&& after.accounts == before.accounts
    &&& after.manifest_path == before.manifest_path
    &&& after.pox_info == before.pox_info
    &&& after.session == before.session
    &&& after.contracts_to_deploy@ == before.contracts_to_deploy@.skip(count as int)
    &&& after.deployer_nonce == before.deployer_nonce + count
    &&& chunk is Some <==> before.contracts_to_deploy@.len() > 0
    &&& chunk matches Some(released) ==> {
        &&& released.contracts@ == before.contracts_to_deploy@.take(count as int)
        &&& option_account(released.deployer) == deployer_of(before.session.initial_accounts@)
        &&& released.deployer_nonce == before.deployer_nonce
        &&& released.node_url@ == node_url_of(before.devnet_config.stacks_node_rpc_port)
    }
}

/// A release loses no contract and keeps their order: the released
/// contracts followed by those that still wait are those that waited. The
/// deployer's nonce never goes back, and the queue gets shorter whenever a
/// contract waited.
pub proof fn lemma_release_keeps_order(
    before: EventObserverConfig,
    after: EventObserverConfig,
    chunk: Option<DeploymentChunk>,
)
    requires
        is_release(before, after, chunk),
    ensures
        after.deployer_nonce >= before.deployer_nonce,
        after.deployer_nonce - before.deployer_nonce == before.contracts_to_deploy@.len()
            - after.contracts_to_deploy@.len(),
        match chunk {
            Some(released) => {
                &&& released.contracts@ + after.contracts_to_deploy@
                    == before.contracts_to_deploy@
                &&& released.contracts@.len() == after.deployer_nonce - before.deployer_nonce
                &&& after.contracts_to_deploy@.len() < before.contracts_to_deploy@.len()
            },
            None => after.contracts_to_deploy@ == before.contracts_to_deploy@,
        },
{
    lemma_chunk_size_bounds(before.contracts_to_deploy@.len());
    if chunk is None {
        assert(before.contracts_to_deploy@.skip(0) == before.contracts_to_deploy@);
    }
}

/// Two releases, one after the other, never hand out a contract or a nonce
/// twice: the second chunk starts where the first ended, in the queue and in
/// the nonces, and together with what still waits they are what waited
/// before the first.
pub proof fn lemma_releases_do_not_overlap(
    before: EventObserverConfig,
    between: EventObserverConfig,
    after: EventObserverConfig,
    first: DeploymentChunk,
    second: DeploymentChunk,
)
    requires
        is_release(before, between, Some(first)),
        is_release(between, after, Some(second)),
    ensures
        second.deployer_nonce == first.deployer_nonce + first.contracts@.len(),
        first.contracts@ + second.contracts@ + after.contracts_to_deploy@
            == before.contracts_to_deploy@,
        after.deployer_nonce == before.deployer_nonce + first.contracts@.len()
            + second.contracts@.len(),
{
    lemma_release_keeps_order(before, between, Some(first));
    lemma_release_keeps_order(between, after, Some(second));
}

/// Whether `after` and `chunk` are what a block leaves of `before`: a
/// release, where the deployer has nonces left for the contracts of the
/// block, and else nothing released and nothing changed.
pub open spec fn is_block_release(
    before: EventObserverConfig,
    after: EventObserverConfig,
    chunk: Option<DeploymentChunk>,
) -> bool {
    if before.has_nonces_left() {
        is_release(before, after, chunk)
    } else {
        after == before && chunk is None
    }
}

impl EventObserverConfig {
    /// The number of contracts that the next block releases.
    pub open spec fn next_chunk_size(self) -> nat {
        chunk_size(self.contracts_to_deploy@.len())
    }

    /// Whether the deployer has a nonce left for each contract that the
    /// next block releases: a nonce has 64 bits.
    pub open spec fn has_nonces_left(self) -> bool {
        self.deployer_nonce + self.next_chunk_size() <= u64::MAX
    }

    /// Releases the contracts of one block where the deployer has nonces
    /// left for them; else nothing is released and nothing changes. The
    /// second part of the result tells which.
    pub fn release_for_block(&mut self) -> (r: (Option<DeploymentChunk>, bool))
        ensures
            is_block_release(*old(self), *final(self), r.0),
            r.1 == old(self).has_nonces_left(),
    {
        let count = contracts_to_deploy_in_block(self.contracts_to_deploy.len());
        proof {
            lemma_chunk_size_bounds(self.contracts_to_deploy@.len());
        }
        if count as u64 <= u64::MAX - self.deployer_nonce {
            (self.take_deployment_chunk(), true)
        } else {
            (None, false)
        }
    }

    /// Releases the contracts of one block: they leave the front of the
    /// queue in their order, and the deployer's nonce moves past them
    /// before anything is broadcast. Nothing happens where no contract
    /// waits.
    pub fn take_deployment_chunk(&mut self) -> (r: Option<DeploymentChunk>)
        requires
            old(self).deployer_nonce + old(self).next_chunk_size() <= u64::MAX,
        ensures
            is_release(*old(self), *final(self), r),
    {
        let contracts_left = self.contracts_to_deploy.len();
        if contracts_left == 0 {
            assert(self.contracts_to_deploy@.skip(0) == self.contracts_to_deploy@);
            return None;
        }
        let count = contracts_to_deploy_in_block(contracts_left);
        proof {
            lemma_chunk_size_bounds(contracts_left as nat);
        }
        let ghost queued = self.contracts_to_deploy@;
        let mut contracts: Vec<PendingContract> = Vec::new();
        let mut taken: usize = 0;
        assert(queued.skip(0) == queued);
        assert(queued.take(0) == Seq::<PendingContract>::empty());
        while taken < count
            invariant
                taken <= count <= queued.len(),
                contracts@ == queued.take(taken as int),
                self.contracts_to_deploy@ == queued.skip(taken as int),
                self.devnet_config == old(self).devnet_config,
                self.accounts == old(self).accounts,
                self.manifest_path == old(self).manifest_path,
                self.pox_info == old(self).pox_info,
                self.session == old(self).session,
                self.deployer_nonce == old(self).deployer_nonce,
            decreases count - taken,
        {
            match self.contracts_to_deploy.pop_front() {
                Some(contract) => {
                    contracts.push(contract);
                },
                None => {},
            }
            proof {
                assert(queued.skip(taken as int).skip(1) == queued.skip(taken + 1));
                assert(queued.take(taken + 1) == queued.take(taken as int).push(
                    queued[taken as int],
                ));
            }
            taken += 1;
        }
        let deployer_nonce = self.deployer_nonce;
        self.deployer_nonce = self.deployer_nonce + count as u64;
        Some(
            DeploymentChunk {
                contracts,
                deployer: find_deployer(&self.session.initial_accounts),
                deployer_nonce,
                node_url: node_url(self.devnet_config.stacks_node_rpc_port),
            },
        )
    }
}

} // verus!

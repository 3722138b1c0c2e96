use vstd::prelude::*;

use crate::errors::{LedgerError, TipperError};
use crate::instructions::add_tip::{fresh_tip, spec_apply_tip, spec_tip_check};
use crate::instructions::initialize_tipper::{fresh_tipper, initialize_tipper};
use crate::instructions::withdraw::withdraw;
use crate::states::{prefix_eq, pubkey_eq, tipper_key_eq, Pubkey, Tip, Tipper, TipperKey};

verus! {

/// The host ledger's storage, as far as this program reads or writes it: the
/// live campaign records and the tip receipts. Every record sits at an
/// address derived deterministically from its seed values — (name, owner)
/// for a campaign, (contributor, campaign, message) for a receipt — and the
/// host refuses to create a second record at an occupied address, so each
/// operation below checks the seeds of what it would create against what is
/// live. Each operation is one atomic unit of work: it either completes or
/// leaves the store untouched.
pub struct Ledger {
    /// The live campaign records. A withdrawn campaign is destroyed, so it
    /// is no longer here.
    pub campaigns: Vec<Tipper>,
    /// The receipts, one per accepted contribution, immutable and never
    /// deleted.
    pub tips: Vec<Tip>,
}

impl Ledger {
    /// Whether a live campaign record sits at the address derived from `key`.
    pub open spec fn has_campaign(self, key: (Seq<u8>, Seq<u8>)) -> bool {
        exists|i: int| 0 <= i < self.campaigns@.len() && (#[trigger] self.campaigns@[i]).key()
            == key
    }

    /// The position of the live campaign with seeds `key`, when there is one.
    pub open spec fn campaign_index_of(self, key: (Seq<u8>, Seq<u8>)) -> int {
        choose|i: int| 0 <= i < self.campaigns@.len() && (#[trigger] self.campaigns@[i]).key()
            == key
    }

    /// The live campaign record with seeds `key`, when there is one.
    pub open spec fn campaign_at(self, key: (Seq<u8>, Seq<u8>)) -> Tipper {
        self.campaigns@[self.campaign_index_of(key)]
    }

    /// Whether a receipt sits at the address derived from
    /// (contributor, campaign, message).
    pub open spec fn has_tip(self, key: (Seq<u8>, (Seq<u8>, Seq<u8>), Seq<u8>)) -> bool {
        exists|i: int| 0 <= i < self.tips@.len() && (#[trigger] self.tips@[i]).key() == key
    }

    /// Invariant of the store: every record is well formed, and no two live
    /// records share their address seeds — the host's per-address uniqueness.
    pub open spec fn wf(self) -> bool {
        &&& forall|i: int|
            0 <= i < self.campaigns@.len() ==> (#[trigger] self.campaigns@[i]).wf()
        &&& forall|i: int, j: int|
            0 <= i < j < self.campaigns@.len() ==> (#[trigger] self.campaigns@[i]).key() != (
            #[trigger] self.campaigns@[j]).key()
        &&& forall|i: int| 0 <= i < self.tips@.len() ==> (#[trigger] self.tips@[i]).wf()
        &&& forall|i: int, j: int|
            0 <= i < j < self.tips@.len() ==> (#[trigger] self.tips@[i]).key() != (
            #[trigger] self.tips@[j]).key()
    }

    /// Two live campaigns at distinct positions never share their (name,
    /// owner) seeds: a campaign exists at most once per key.
    pub proof fn lemma_campaign_keys_unique(self, i: int, j: int)
        requires
            self.wf(),
            0 <= i < self.campaigns@.len(),
            0 <= j < self.campaigns@.len(),
            i != j,
        ensures
            self.campaigns@[i].key() != self.campaigns@[j].key(),
    {
    }

    /// Two receipts at distinct positions never share their (contributor,
    /// campaign, message) seeds: a contributor files at most one receipt per
    /// campaign and message.
    pub proof fn lemma_tip_keys_unique(self, i: int, j: int)
        requires
            self.wf(),
            0 <= i < self.tips@.len(),
            0 <= j < self.tips@.len(),
            i != j,
        ensures
            self.tips@[i].key() != self.tips@[j].key(),
    {
    }

    /// A position holding `key` is the only one, so it is the one
    /// `campaign_index_of` names.
    pub proof fn lemma_campaign_index(self, i: int, key: (Seq<u8>, Seq<u8>))
        requires
            self.wf(),
            0 <= i < self.campaigns@.len(),
            self.campaigns@[i].key() == key,
        ensures
            self.has_campaign(key),
            self.campaign_index_of(key) == i,
            self.campaign_at(key) == self.campaigns@[i],
    {
        assert(self.has_campaign(key));
        let j = self.campaign_index_of(key);
        if j != i {
            self.lemma_campaign_keys_unique(i, j);
        }
    }

    /// An empty store: no campaign was ever created, no tip accepted.
    pub fn new() -> (r: Ledger)
        ensures
            r.wf(),
            r.campaigns@.len() == 0,
            r.tips@.len() == 0,
    {
        Ledger { campaigns: Vec::new(), tips: Vec::new() }
    }

    /// The position of the live campaign whose seeds equal `key`, if any.
    fn find_campaign(&self, key: &TipperKey) -> (r: Option<usize>)
        requires
            self.wf(),
            key.wf(),
        ensures
            r matches Some(i) ==> i < self.campaigns@.len() && self.campaigns@[i as int].key()
                == key.key(),
            r is None ==> !self.has_campaign(key.key()),
    {
        let mut i: usize = 0;
        while i < self.campaigns.len()
            invariant
                self.wf(),
                key.wf(),
                0 <= i <= self.campaigns@.len(),
                forall|j: int|
                    0 <= j < i ==> (#[trigger] self.campaigns@[j]).key() != key.key(),
            decreases self.campaigns@.len() - i,
        {
            let t = &self.campaigns[i];
            if tipper_key_eq(&t.record_key(), key) {
                return Some(i);
            }
            i = i + 1;
        }
        None
    }

    /// The whole `create campaign` operation against the store: validate the
    /// name, derive the record's address from (name, authority), fail if a
    /// record already sits there, otherwise create the fresh open record.
    ///
    /// Succeeds exactly when the name fits and no live campaign has the same
    /// (name, owner) pair; on any failure the store is untouched.
    pub fn initialize(
        &mut self,
        authority: Pubkey,
        target_name: &Vec<u8>,
        max_balance: u64,
        bump: u8,
    ) -> (r: Result<(), LedgerError>)
        requires
            old(self).wf(),
        ensures
            final(self).wf(),
            r is Ok <==> target_name@.len() <= 32 && !old(self).has_campaign(
                (target_name@, authority@),
            ),
            target_name@.len() > 32 ==> r == Err::<(), LedgerError>(
                LedgerError::Program(TipperError::TargetNameTooLong),
            ),
            target_name@.len() <= 32 && old(self).has_campaign((target_name@, authority@))
                ==> r == Err::<(), LedgerError>(LedgerError::AccountAlreadyInUse),
            r is Err ==> *final(self) == *old(self),
            r is Ok ==> {
                &&& final(self).tips@ == old(self).tips@
                &&& final(self).campaigns@.len() == old(self).campaigns@.len() + 1
                &&& final(self).campaigns@.take(old(self).campaigns@.len() as int) == old(
                    self,
                ).campaigns@
                &&& fresh_tipper(
                    final(self).campaigns@.last(),
                    authority,
                    target_name@,
                    max_balance,
                    bump,
                )
                &&& final(self).has_campaign((target_name@, authority@))
            },
    {
        match initialize_tipper(authority, target_name, max_balance, bump) {
            Err(e) => Err(LedgerError::Program(e)),
            Ok(t) => {
                let key = t.record_key();
                match self.find_campaign(&key) {
                    Some(i) => {
                        proof {
                            self.lemma_campaign_index(i as int, key.key());
                        }
                        Err(LedgerError::AccountAlreadyInUse)
                    },
                    None => {
                        self.campaigns.push(t);
                        proof {
                            let pre = *old(self);
                            let post = *self;
                            assert(post.campaigns@.take(pre.campaigns@.len() as int)
                                =~= pre.campaigns@);
                            assert(post.campaigns@[pre.campaigns@.len() as int] == t);
                            assert(post.has_campaign((target_name@, authority@)));
                            assert forall|i: int, j: int|
                                0 <= i < j < post.campaigns@.len() implies (
                            #[trigger] post.campaigns@[i]).key() != (
                            #[trigger] post.campaigns@[j]).key() by {
                                if j == pre.campaigns@.len() as int {
                                    assert(post.campaigns@[i] == pre.campaigns@[i]);
                                    assert(pre.campaigns@[i].key() != key.key());
                                }
                            }
                        }
                        Ok(())
                    },
                }
            },
        }
    }

    /// The whole `add tip` operation against the store, in the order the
    /// host runs it: resolve the campaign record from its seeds, derive the
    /// receipt's address from (author, campaign, message) and fail if a
    /// receipt already sits there — a repeated contribution collides whatever
    /// its amount — then let the tip ledger check state, amount and overflow,
    /// transfer the funds into the campaign's held balance, and write the
    /// receipt. On any failure the store is untouched.
    pub fn tip(
        &mut self,
        key: &TipperKey,
        author: Pubkey,
        amount: u64,
        message: &Vec<u8>,
        bump: u8,
    ) -> (r: Result<(), LedgerError>)
        requires
            old(self).wf(),
            key.wf(),
            message@.len() <= 32,
        ensures
            final(self).wf(),
            r is Ok <==> old(self).has_campaign(key.key()) && !old(self).has_tip(
                (author@, key.key(), message@),
            ) && spec_tip_check(old(self).campaign_at(key.key()), amount) is None,
            !old(self).has_campaign(key.key()) ==> r == Err::<(), LedgerError>(
                LedgerError::AccountNotFound,
            ),
            old(self).has_campaign(key.key()) && old(self).has_tip(
                (author@, key.key(), message@),
            ) ==> r == Err::<(), LedgerError>(LedgerError::AccountAlreadyInUse),
            old(self).has_campaign(key.key()) && !old(self).has_tip(
                (author@, key.key(), message@),
            ) && spec_tip_check(old(self).campaign_at(key.key()), amount) is Some ==> r
                == Err::<(), LedgerError>(
                LedgerError::Program(
                    spec_tip_check(old(self).campaign_at(key.key()), amount)->Some_0,
                ),
            ),
            r is Err ==> *final(self) == *old(self),
            r is Ok ==> {
                &&& final(self).campaigns@.len() == old(self).campaigns@.len()
                &&& forall|i: int|
                    0 <= i < old(self).campaigns@.len() && i != old(self).campaign_index_of(
                        key.key(),
                    ) ==> final(self).campaigns@[i] == old(self).campaigns@[i]
                &&& final(self).has_campaign(key.key())
                &&& final(self).campaign_at(key.key()) == spec_apply_tip(
                    old(self).campaign_at(key.key()),
                    amount,
                )
                &&& final(self).tips@.len() == old(self).tips@.len() + 1
                &&& final(self).tips@.take(old(self).tips@.len() as int) == old(self).tips@
                &&& fresh_tip(final(self).tips@.last(), author, *key, amount, message@, bump)
                &&& final(self).has_tip((author@, key.key(), message@))
            },
    {
        let found = self.find_campaign(key);
        match found {
            None => Err(LedgerError::AccountNotFound),
            Some(i) => {
                proof {
                    self.lemma_campaign_index(i as int, key.key());
                }
                if self.find_tip(&author, key, message) {
                    return Err(LedgerError::AccountAlreadyInUse);
                }
                let mut t = self.campaigns[i];
                match crate::instructions::add_tip::add_tip(&mut t, author, amount, message, bump)
                {
                    Err(e) => Err(LedgerError::Program(e)),
                    Ok(tip) => {
                        proof {
                            assert(tip.key() == (author@, key.key(), message@));
                        }
                        self.campaigns[i] = t;
                        self.tips.push(tip);
                        proof {
                            let pre = *old(self);
                            let post = *self;
                            let gi = pre.campaign_index_of(key.key());
                            assert(gi == i as int);
                            assert(post.campaigns@ =~= pre.campaigns@.update(i as int, t));
                            assert forall|a: int, b: int|
                                0 <= a < b < post.campaigns@.len() implies (
                            #[trigger] post.campaigns@[a]).key() != (
                            #[trigger] post.campaigns@[b]).key() by {
                                assert(post.campaigns@[a].key() == pre.campaigns@[a].key());
                                assert(post.campaigns@[b].key() == pre.campaigns@[b].key());
                            }
                            self.lemma_campaign_index(i as int, key.key());
                            assert(post.tips@.take(pre.tips@.len() as int) =~= pre.tips@);
                            assert forall|a: int, b: int|
                                0 <= a < b < post.tips@.len() implies (
                            #[trigger] post.tips@[a]).key() != (#[trigger] post.tips@[b]).key() by {
                                if b == pre.tips@.len() as int {
                                    assert(pre.tips@[a].key() != (author@, key.key(), message@));
                                    assert(post.tips@[a] == pre.tips@[a]);
                                }
                            }
                            assert(post.tips@[pre.tips@.len() as int] == tip);
                            assert(post.has_tip((author@, key.key(), message@)));
                        }
                        Ok(())
                    },
                }
            },
        }
    }

    /// The whole `withdraw and close` operation against the store: resolve
    /// the campaign record from its seeds — a record already withdrawn is
    /// gone, so a second attempt fails on the absent record — check that the
    /// requester is the owner, transfer the entire balance to the requester,
    /// and destroy the record in the same step. The returned amount is
    /// exactly the balance at the instant of withdrawal; partial or repeated
    /// withdrawal is impossible. On any failure the store, balance included,
    /// is untouched. Receipts outlive the campaign: none is deleted.
    pub fn withdraw_and_close(&mut self, key: &TipperKey, user: Pubkey) -> (r: Result<
        u64,
        LedgerError,
    >)
        requires
            old(self).wf(),
            key.wf(),
        ensures
            final(self).wf(),
            r is Ok <==> old(self).has_campaign(key.key()) && user@ == old(self).campaign_at(
                key.key(),
            ).authority@,
            !old(self).has_campaign(key.key()) ==> r == Err::<u64, LedgerError>(
                LedgerError::AccountNotFound,
            ),
            old(self).has_campaign(key.key()) && user@ != old(self).campaign_at(
                key.key(),
            ).authority@ ==> r == Err::<u64, LedgerError>(
                LedgerError::Program(TipperError::Unauthorized),
            ),
            r is Err ==> *final(self) == *old(self),
            r is Ok ==> {
                &&& r == Ok::<u64, LedgerError>(old(self).campaign_at(key.key()).balance)
                &&& final(self).campaigns@ == old(self).campaigns@.remove(
                    old(self).campaign_index_of(key.key()),
                )
                &&& !final(self).has_campaign(key.key())
                &&& final(self).tips@ == old(self).tips@
            },
    {
        let found = self.find_campaign(key);
        match found {
            None => Err(LedgerError::AccountNotFound),
            Some(i) => {
                proof {
                    self.lemma_campaign_index(i as int, key.key());
                }
                let mut t = self.campaigns[i];
                match withdraw(&mut t, user) {
                    Err(e) => Err(LedgerError::Program(e)),
                    Ok(balance) => {
                        self.campaigns.remove(i);
                        proof {
                            let pre = *old(self);
                            let post = *self;
                            assert(post.campaigns@ == pre.campaigns@.remove(i as int));
                            assert forall|a: int|
                                0 <= a < post.campaigns@.len() implies (
                            #[trigger] post.campaigns@[a]).key() != key.key() by {
                                if a < i as int {
                                    assert(post.campaigns@[a] == pre.campaigns@[a]);
                                    pre.lemma_campaign_keys_unique(a, i as int);
                                } else {
                                    assert(post.campaigns@[a] == pre.campaigns@[a + 1]);
                                    pre.lemma_campaign_keys_unique(a + 1, i as int);
                                }
                            }
                            assert forall|a: int, b: int|
                                0 <= a < b < post.campaigns@.len() implies (
                            #[trigger] post.campaigns@[a]).key() != (
                            #[trigger] post.campaigns@[b]).key() by {
                                let pa: int = if a < i as int { a } else { a + 1 };
                                let pb: int = if b < i as int { b } else { b + 1 };
                                assert(post.campaigns@[a] == pre.campaigns@[pa]);
                                assert(post.campaigns@[b] == pre.campaigns@[pb]);
                                pre.lemma_campaign_keys_unique(pa, pb);
                            }
                        }
                        Ok(balance)
                    },
                }
            },
        }
    }

    /// Whether a receipt by `author` against the campaign keyed `parent`
    /// with exactly these message bytes is already on file.
    fn find_tip(&self, author: &Pubkey, parent: &TipperKey, message: &Vec<u8>) -> (r: bool)
        requires
            self.wf(),
            parent.wf(),
            message@.len() <= 32,
        ensures
            r <==> self.has_tip((author@, parent.key(), message@)),
    {
        let msg_buf = fill_from(message);
        let msg_len = message.len() as u8;
        let mut i: usize = 0;
        while i < self.tips.len()
            invariant
                self.wf(),
                parent.wf(),
                message@.len() <= 32,
                msg_buf@.take(message@.len() as int) == message@,
                msg_len == message@.len(),
                0 <= i <= self.tips@.len(),
                forall|j: int|
                    0 <= j < i ==> (#[trigger] self.tips@[j]).key() != (
                    author@,
                    parent.key(),
                    message@,
                ),
            decreases self.tips@.len() - i,
        {
            let t = &self.tips[i];
            proof {
                assert(self.tips@[i as int].wf());
            }
            if pubkey_eq(&t.author, author) && tipper_key_eq(&t.parent_tipper, parent)
                && prefix_eq(&t.message, t.message_len, &msg_buf, msg_len) {
                proof {
                    assert(self.tips@[i as int].key() == (author@, parent.key(), message@));
                }
                return true;
            }
            i = i + 1;
        }
        false
    }
}

/// Copies a short byte string into a fresh zero-filled fixed buffer.
fn fill_from(src: &Vec<u8>) -> (r: [u8; 32])
    requires
        src@.len() <= 32,
    ensures
        r@.take(src@.len() as int) == src@,
{
    let r = crate::states::fill_buffer(src);
    proof {
        assert(r@.take(src@.len() as int) =~= src@);
    }
    r
}

} // verus!

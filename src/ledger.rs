use vstd::prelude::*;

use crate::reputation::{reputation_consistent, reputation_of};
use crate::types::{strings_view, RegistryError, 
    AgentProfile, AgentStatus, EscrowKey, EscrowRef, EscrowView, ProfileView, Pubkey, TaskEscrow,
    TaskStatus,
};

verus! {

/// The mathematical content of a ledger: the records at their derived
/// addresses, the lamports each escrow custodies, and the principals'
/// balances.
pub struct LedgerView {
    pub profiles: Map<Pubkey, ProfileView>,
    pub escrows: Map<EscrowKey, EscrowView>,
    pub custody: Map<EscrowKey, u64>,
    pub balances: Map<Pubkey, u64>,
}

impl LedgerView {
    /// Lamports held by a principal; one that never held any holds 0.
    pub open spec fn balance(self, k: Pubkey) -> u64 {
        if self.balances.contains_key(k) {
            self.balances[k]
        } else {
            0
        }
    }

    /// Each record sits at the address derived from its own keys, every
    /// escrow has a custody entry, and every score matches its accumulators.
    pub open spec fn consistent(self) -> bool {
        &&& forall|k: Pubkey| #[trigger]
            self.profiles.contains_key(k) ==> self.profiles[k].owner == k
                && reputation_consistent(self.profiles[k])
        &&& forall|k: EscrowKey| #[trigger]
            self.escrows.contains_key(k) ==> self.escrows[k].client == k.0
                && self.escrows[k].task_id == k.1
        &&& self.custody.dom() == self.escrows.dom()
        &&& forall|k: EscrowKey| #[trigger]
            self.escrows.contains_key(k) ==> custody_matches(self.escrows[k], self.custody[k])
    }
}

/// An escrow holds its full amount until the task completes, and nothing after.
pub open spec fn custody_matches(e: EscrowView, lamports: u64) -> bool {
    match e.status {
        TaskStatus::Funded | TaskStatus::InProgress => lamports == e.amount,
        _ => lamports == 0,
    }
}

struct Wallet {
    key: Pubkey,
    lamports: u64,
}

/// A keyed store of agent profiles, task escrows and balances.
pub struct Ledger {
    profiles: Vec<AgentProfile>,
    escrows: Vec<TaskEscrow>,
    custody: Vec<u64>,
    wallets: Vec<Wallet>,
    profile_map: Ghost<Map<Pubkey, ProfileView>>,
    escrow_map: Ghost<Map<EscrowKey, EscrowView>>,
    custody_map: Ghost<Map<EscrowKey, u64>>,
    balance_map: Ghost<Map<Pubkey, u64>>,
}

pub open spec fn escrow_key_of(e: EscrowView) -> EscrowKey {
    (e.client, e.task_id)
}

pub open spec fn opt_view(o: Option<String>) -> Option<Seq<char>> {
    match o {
        Some(s) => Some(s@),
        None => None,
    }
}

pub open spec fn opt_strings_view(o: Option<Vec<String>>) -> Option<Seq<Seq<char>>> {
    match o {
        Some(v) => Some(strings_view(v@)),
        None => None,
    }
}

/// `p` with each supplied field replaced and the others kept.
pub open spec fn patched(
    p: ProfileView,
    name: Option<Seq<char>>,
    capabilities: Option<Seq<Seq<char>>>,
    pricing_lamports: Option<u64>,
    metadata_uri: Option<Seq<char>>,
) -> ProfileView {
    ProfileView {
        name: if name.is_some() { name.unwrap() } else { p.name },
        capabilities: if capabilities.is_some() { capabilities.unwrap() } else { p.capabilities },
        pricing_lamports: if pricing_lamports.is_some() {
            pricing_lamports.unwrap()
        } else {
            p.pricing_lamports
        },
        metadata_uri: if metadata_uri.is_some() { metadata_uri.unwrap() } else { p.metadata_uri },
        ..p
    }
}

impl View for Ledger {
    type V = LedgerView;

    closed spec fn view(&self) -> LedgerView {
        LedgerView {
            profiles: self.profile_map@,
            escrows: self.escrow_map@,
            custody: self.custody_map@,
            balances: self.balance_map@,
        }
    }
}

impl Ledger {
    closed spec fn profiles_wf(&self) -> bool {
        &&& forall|i: int|
            0 <= i < self.profiles.len() ==> self.profile_map@.contains_key(
                #[trigger] self.profiles@[i].owner,
            ) && self.profile_map@[self.profiles@[i].owner] == self.profiles@[i]@
        &&& forall|k: Pubkey| #[trigger]
            self.profile_map@.contains_key(k) ==> exists|i: int|
                0 <= i < self.profiles.len() && self.profiles@[i].owner == k
        &&& forall|i: int, j: int|
            0 <= i < self.profiles.len() && 0 <= j < self.profiles.len() && i != j
                ==> #[trigger] self.profiles@[i].owner != #[trigger] self.profiles@[j].owner
    }

    closed spec fn escrows_wf(&self) -> bool {
        &&& self.custody.len() == self.escrows.len()
        &&& forall|i: int|
            0 <= i < self.escrows.len() ==> self.escrow_map@.contains_key(
                #[trigger] escrow_key_of(self.escrows@[i]@),
            ) && self.escrow_map@[escrow_key_of(self.escrows@[i]@)] == self.escrows@[i]@
                && self.custody_map@[escrow_key_of(self.escrows@[i]@)] == self.custody@[i]
        &&& forall|k: EscrowKey| #[trigger]
            self.escrow_map@.contains_key(k) ==> exists|i: int|
                0 <= i < self.escrows.len() && escrow_key_of(self.escrows@[i]@) == k
        &&& forall|i: int, j: int|
            0 <= i < self.escrows.len() && 0 <= j < self.escrows.len() && i != j
                ==> #[trigger] escrow_key_of(self.escrows@[i]@) != #[trigger] escrow_key_of(
                self.escrows@[j]@,
            )
    }

    closed spec fn wallets_wf(&self) -> bool {
        &&& forall|i: int|
            0 <= i < self.wallets.len() ==> self.balance_map@.contains_key(
                #[trigger] self.wallets@[i].key,
            ) && self.balance_map@[self.wallets@[i].key] == self.wallets@[i].lamports
        &&& forall|k: Pubkey| #[trigger]
            self.balance_map@.contains_key(k) ==> exists|i: int|
                0 <= i < self.wallets.len() && self.wallets@[i].key == k
        &&& forall|i: int, j: int|
            0 <= i < self.wallets.len() && 0 <= j < self.wallets.len() && i != j
                ==> #[trigger] self.wallets@[i].key != #[trigger] self.wallets@[j].key
    }

    /// The ledger's well-formedness: its stores agree with its view, and the
    /// view is consistent.
    pub open spec fn wf(&self) -> bool {
        &&& self.stores_wf()
        &&& self@.consistent()
    }

    pub closed spec fn stores_wf(&self) -> bool {
        &&& self.profiles_wf()
        &&& self.escrows_wf()
        &&& self.wallets_wf()
    }

    /// An empty ledger: no records, no balances.
    pub fn new() -> (r: Ledger)
        ensures
            r.wf(),
            r@.profiles.is_empty(),
            r@.escrows.is_empty(),
            r@.custody.is_empty(),
            r@.balances.is_empty(),
    {
        Ledger {
            profiles: Vec::new(),
            escrows: Vec::new(),
            custody: Vec::new(),
            wallets: Vec::new(),
            profile_map: Ghost(Map::empty()),
            escrow_map: Ghost(Map::empty()),
            custody_map: Ghost(Map::empty()),
            balance_map: Ghost(Map::empty()),
        }
    }

    fn find_profile(&self, owner: Pubkey) -> (r: Option<usize>)
        requires
            self.wf(),
        ensures
            r.is_some() == self@.profiles.contains_key(owner),
            r.is_some() ==> r.unwrap() < self.profiles.len() && self.profiles@[r.unwrap() as int].owner
                == owner,
    {
        let mut i: usize = 0;
        while i < self.profiles.len()
            invariant
                i <= self.profiles.len(),
                self.wf(),
                forall|j: int| 0 <= j < i ==> self.profiles@[j].owner != owner,
            decreases self.profiles.len() - i,
        {
            if self.profiles[i].owner == owner {
                return Some(i);
            }
            i = i + 1;
        }
        None
    }

    fn find_escrow(&self, key: &EscrowRef) -> (r: Option<usize>)
        requires
            self.wf(),
        ensures
            r.is_some() == self@.escrows.contains_key(key@),
            r.is_some() ==> r.unwrap() < self.escrows.len() && escrow_key_of(
                self.escrows@[r.unwrap() as int]@,
            ) == key@,
    {
        let mut i: usize = 0;
        while i < self.escrows.len()
            invariant
                i <= self.escrows.len(),
                self.wf(),
                forall|j: int| 0 <= j < i ==> escrow_key_of(self.escrows@[j]@) != key@,
            decreases self.escrows.len() - i,
        {
            if self.escrows[i].client == key.client && self.escrows[i].task_id == key.task_id {
                assert(escrow_key_of(self.escrows@[i as int]@) == key@);
                return Some(i);
            }
            i = i + 1;
        }
        None
    }

    fn find_wallet(&self, k: Pubkey) -> (r: Option<usize>)
        requires
            self.wf(),
        ensures
            r.is_some() == self@.balances.contains_key(k),
            r.is_some() ==> r.unwrap() < self.wallets.len() && self.wallets@[r.unwrap() as int].key
                == k,
    {
        let mut i: usize = 0;
        while i < self.wallets.len()
            invariant
                i <= self.wallets.len(),
                self.wf(),
                forall|j: int| 0 <= j < i ==> self.wallets@[j].key != k,
            decreases self.wallets.len() - i,
        {
            if self.wallets[i].key == k {
                return Some(i);
            }
            i = i + 1;
        }
        None
    }

    /// The profile at the address derived from `owner`, if one is there.
    pub fn profile(&self, owner: Pubkey) -> (r: Option<&AgentProfile>)
        requires
            self.wf(),
        ensures
            r.is_some() == self@.profiles.contains_key(owner),
            r.is_some() ==> r.unwrap()@ == self@.profiles[owner],
    {
        match self.find_profile(owner) {
            Some(i) => Some(&self.profiles[i]),
            None => None,
        }
    }

    /// The escrow at the address derived from `key`, if one is there.
    pub fn escrow(&self, key: &EscrowRef) -> (r: Option<&TaskEscrow>)
        requires
            self.wf(),
        ensures
            r.is_some() == self@.escrows.contains_key(key@),
            r.is_some() ==> r.unwrap()@ == self@.escrows[key@],
    {
        match self.find_escrow(key) {
            Some(i) => Some(&self.escrows[i]),
            None => None,
        }
    }

    /// The lamports that the escrow at `key` custodies, if it exists.
    pub fn custody(&self, key: &EscrowRef) -> (r: Option<u64>)
        requires
            self.wf(),
        ensures
            r.is_some() == self@.custody.contains_key(key@),
            r.is_some() ==> r.unwrap() == self@.custody[key@],
    {
        match self.find_escrow(key) {
            Some(i) => Some(self.custody[i]),
            None => None,
        }
    }

    /// Lamports held by principal `k`.
    pub fn balance(&self, k: Pubkey) -> (r: u64)
        requires
            self.wf(),
        ensures
            r == self@.balance(k),
    {
        match self.find_wallet(k) {
            Some(i) => self.wallets[i].lamports,
            None => 0,
        }
    }

    pub(crate) fn insert_profile(&mut self, p: AgentProfile)
        requires
            old(self).wf(),
            !old(self)@.profiles.contains_key(p.owner),
            reputation_consistent(p@),
        ensures
            final(self).wf(),
            final(self)@ == (LedgerView { profiles: old(self)@.profiles.insert(p.owner, p@), ..old(self)@ }),
    {
        let ghost owner = p.owner;
        let ghost pv = p@;
        let ghost n = self.profiles.len() as int;
        self.profiles.push(p);
        self.profile_map = Ghost(self.profile_map@.insert(owner, pv));
        assert forall|i: int, j: int|
            0 <= i < self.profiles.len() && 0 <= j < self.profiles.len() && i != j
                implies #[trigger] self.profiles@[i].owner != #[trigger] self.profiles@[j].owner by {
            if i == n {
                assert(old(self).profile_map@.contains_key(self.profiles@[j].owner));
            } else if j == n {
                assert(old(self).profile_map@.contains_key(self.profiles@[i].owner));
            }
        }
        assert forall|k: Pubkey| #[trigger] self.profile_map@.contains_key(k) implies exists|i: int|
            0 <= i < self.profiles.len() && self.profiles@[i].owner == k by {
            if k == owner {
                assert(self.profiles@[n].owner == k);
            } else {
                assert(old(self).profile_map@.contains_key(k));
                let j = choose|j: int| 0 <= j < old(self).profiles.len() && old(self).profiles@[j].owner == k;
                assert(self.profiles@[j].owner == k);
            }
        }
        assert(self.profiles_wf());
        assert(self.escrows_wf());
        assert(self.wallets@ == old(self).wallets@);
        assert(old(self).wallets_wf());
        assert(self.wallets_wf());
    }

    pub(crate) fn set_profile_status(&mut self, owner: Pubkey, status: AgentStatus)
        requires
            old(self).wf(),
            old(self)@.profiles.contains_key(owner),
        ensures
            final(self).wf(),
            final(self)@ == (LedgerView {
                profiles: old(self)@.profiles.insert(
                    owner,
                    ProfileView { status, ..old(self)@.profiles[owner] },
                ),
                ..old(self)@
            }),
    {
        let ghost prev = *self;
        let i = self.find_profile(owner).unwrap();
        self.profiles[i].status = status;
        let ghost pv = self.profiles@[i as int]@;
        self.profile_map = Ghost(self.profile_map@.insert(owner, pv));
        proof {
            assert(self.profiles@ =~= prev.profiles@.update(i as int, self.profiles@[i as int]));
            self.lemma_profile_replaced(&prev, i as int);
        }
    }

    /// Replacing the profile at index `i` by one with the same owner keeps
    /// the profile store well formed.
    proof fn lemma_profile_replaced(&self, prev: &Ledger, i: int)
        requires
            prev.wf(),
            0 <= i < prev.profiles.len(),
            self.profiles@ == prev.profiles@.update(i, self.profiles@[i]),
            self.profiles@[i].owner == prev.profiles@[i].owner,
            self.profile_map@ == prev.profile_map@.insert(self.profiles@[i].owner, self.profiles@[i]@),
            self.escrows == prev.escrows,
            self.custody == prev.custody,
            self.wallets == prev.wallets,
            self.escrow_map == prev.escrow_map,
            self.custody_map == prev.custody_map,
            self.balance_map == prev.balance_map,
            reputation_consistent(self.profiles@[i]@),
        ensures
            self.wf(),
    {
        let owner = self.profiles@[i].owner;
        assert forall|j: int| 0 <= j < self.profiles.len() implies self.profile_map@.contains_key(
            #[trigger] self.profiles@[j].owner,
        ) && self.profile_map@[self.profiles@[j].owner] == self.profiles@[j]@ by {
            if j != i {
                assert(prev.profiles@[j].owner != prev.profiles@[i].owner);
            }
        }
        assert forall|k: Pubkey| #[trigger] self.profile_map@.contains_key(k) implies exists|j: int|
            0 <= j < self.profiles.len() && self.profiles@[j].owner == k by {
            if k == owner {
                assert(self.profiles@[i].owner == k);
            } else {
                assert(prev.profile_map@.contains_key(k));
                let j = choose|j: int| 0 <= j < prev.profiles.len() && prev.profiles@[j].owner == k;
                assert(self.profiles@[j].owner == k);
            }
        }
        assert forall|j1: int, j2: int|
            0 <= j1 < self.profiles.len() && 0 <= j2 < self.profiles.len() && j1 != j2
                implies #[trigger] self.profiles@[j1].owner != #[trigger] self.profiles@[j2].owner by {
            assert(prev.profiles@[j1].owner != prev.profiles@[j2].owner);
        }
        assert forall|k: Pubkey| #[trigger] self@.profiles.contains_key(k) implies self@.profiles[k].owner == k
            && reputation_consistent(self@.profiles[k]) by {
            if k != owner {
                assert(prev@.profiles.contains_key(k));
            }
        }
        assert(self.escrows_wf());
        assert(self.wallets_wf());
    }

    pub(crate) fn update_profile(
        &mut self,
        owner: Pubkey,
        name: Option<String>,
        capabilities: Option<Vec<String>>,
        pricing_lamports: Option<u64>,
        metadata_uri: Option<String>,
    )
        requires
            old(self).wf(),
            old(self)@.profiles.contains_key(owner),
        ensures
            final(self).wf(),
            final(self)@ == (LedgerView {
                profiles: old(self)@.profiles.insert(
                    owner,
                    patched(
                        old(self)@.profiles[owner],
                        opt_view(name),
                        opt_strings_view(capabilities),
                        pricing_lamports,
                        opt_view(metadata_uri),
                    ),
                ),
                ..old(self)@
            }),
    {
        let ghost prev = *self;
        let i = self.find_profile(owner).unwrap();
        if let Some(n) = name {
            self.profiles[i].name = n;
        }
        if let Some(c) = capabilities {
            self.profiles[i].capabilities = c;
        }
        if let Some(p) = pricing_lamports {
            self.profiles[i].pricing_lamports = p;
        }
        if let Some(u) = metadata_uri {
            self.profiles[i].metadata_uri = u;
        }
        let ghost pv = self.profiles@[i as int]@;
        self.profile_map = Ghost(self.profile_map@.insert(owner, pv));
        proof {
            assert(self.profiles@ =~= prev.profiles@.update(i as int, self.profiles@[i as int]));
            self.lemma_profile_replaced(&prev, i as int);
        }
    }

    pub(crate) fn set_tasks_completed(&mut self, owner: Pubkey, tasks_completed: u64)
        requires
            old(self).wf(),
            old(self)@.profiles.contains_key(owner),
        ensures
            final(self).wf(),
            final(self)@ == (LedgerView {
                profiles: old(self)@.profiles.insert(
                    owner,
                    ProfileView { tasks_completed, ..old(self)@.profiles[owner] },
                ),
                ..old(self)@
            }),
    {
        let ghost prev = *self;
        let i = self.find_profile(owner).unwrap();
        self.profiles[i].tasks_completed = tasks_completed;
        let ghost pv = self.profiles@[i as int]@;
        self.profile_map = Ghost(self.profile_map@.insert(owner, pv));
        proof {
            assert(self.profiles@ =~= prev.profiles@.update(i as int, self.profiles@[i as int]));
            self.lemma_profile_replaced(&prev, i as int);
        }
    }

    pub(crate) fn set_ratings(
        &mut self,
        owner: Pubkey,
        total_ratings: u64,
        rating_sum: u64,
        reputation_score: u64,
    )
        requires
            old(self).wf(),
            old(self)@.profiles.contains_key(owner),
            reputation_score as nat == reputation_of(rating_sum, total_ratings),
        ensures
            final(self).wf(),
            final(self)@ == (LedgerView {
                profiles: old(self)@.profiles.insert(
                    owner,
                    ProfileView {
                        total_ratings,
                        rating_sum,
                        reputation_score,
                        ..old(self)@.profiles[owner]
                    },
                ),
                ..old(self)@
            }),
    {
        let ghost prev = *self;
        let i = self.find_profile(owner).unwrap();
        self.profiles[i].total_ratings = total_ratings;
        self.profiles[i].rating_sum = rating_sum;
        self.profiles[i].reputation_score = reputation_score;
        let ghost pv = self.profiles@[i as int]@;
        self.profile_map = Ghost(self.profile_map@.insert(owner, pv));
        proof {
            assert(self.profiles@ =~= prev.profiles@.update(i as int, self.profiles@[i as int]));
            self.lemma_profile_replaced(&prev, i as int);
        }
    }

    pub(crate) fn insert_escrow(&mut self, e: TaskEscrow, lamports: u64)
        requires
            old(self).wf(),
            !old(self)@.escrows.contains_key(escrow_key_of(e@)),
            custody_matches(e@, lamports),
        ensures
            final(self).wf(),
            final(self)@ == (LedgerView {
                escrows: old(self)@.escrows.insert(escrow_key_of(e@), e@),
                custody: old(self)@.custody.insert(escrow_key_of(e@), lamports),
                ..old(self)@
            }),
    {
        let ghost key = escrow_key_of(e@);
        let ghost ev = e@;
        let ghost n = self.escrows.len() as int;
        self.escrows.push(e);
        self.custody.push(lamports);
        self.escrow_map = Ghost(self.escrow_map@.insert(key, ev));
        self.custody_map = Ghost(self.custody_map@.insert(key, lamports));
        assert forall|i: int|
            0 <= i < self.escrows.len() implies self.escrow_map@.contains_key(
                #[trigger] escrow_key_of(self.escrows@[i]@),
            ) && self.escrow_map@[escrow_key_of(self.escrows@[i]@)] == self.escrows@[i]@
                && self.custody_map@[escrow_key_of(self.escrows@[i]@)] == self.custody@[i] by {
            if i != n {
                assert(old(self).escrow_map@.contains_key(escrow_key_of(self.escrows@[i]@)));
            }
        }
        assert forall|i: int, j: int|
            0 <= i < self.escrows.len() && 0 <= j < self.escrows.len() && i != j
                implies #[trigger] escrow_key_of(self.escrows@[i]@) != #[trigger] escrow_key_of(
                self.escrows@[j]@,
            ) by {
            if i == n {
                assert(old(self).escrow_map@.contains_key(escrow_key_of(self.escrows@[j]@)));
            } else if j == n {
                assert(old(self).escrow_map@.contains_key(escrow_key_of(self.escrows@[i]@)));
            }
        }
        assert forall|k: EscrowKey| #[trigger] self.escrow_map@.contains_key(k) implies exists|i: int|
            0 <= i < self.escrows.len() && escrow_key_of(self.escrows@[i]@) == k by {
            if k == key {
                assert(escrow_key_of(self.escrows@[n]@) == k);
            } else {
                assert(old(self).escrow_map@.contains_key(k));
                let j = choose|j: int|
                    0 <= j < old(self).escrows.len() && escrow_key_of(old(self).escrows@[j]@) == k;
                assert(escrow_key_of(self.escrows@[j]@) == k);
            }
        }
        assert(self.profiles_wf());
        assert(self.escrows_wf());
        assert(self.wallets@ == old(self).wallets@);
        assert(old(self).wallets_wf());
        assert(self.wallets_wf());
        assert(self@.custody.dom() =~= self@.escrows.dom());
        assert forall|k: EscrowKey| #[trigger] self@.escrows.contains_key(k) implies custody_matches(
            self@.escrows[k],
            self@.custody[k],
        ) by {
            if k != key {
                assert(old(self)@.escrows.contains_key(k));
            }
        }
    }

    /// Replacing the escrow at index `i` (and its custody) by one with the
    /// same key keeps the escrow store well formed.
    proof fn lemma_escrow_replaced(&self, prev: &Ledger, i: int)
        requires
            prev.wf(),
            0 <= i < prev.escrows.len(),
            self.escrows@ == prev.escrows@.update(i, self.escrows@[i]),
            self.custody@ == prev.custody@.update(i, self.custody@[i]),
            escrow_key_of(self.escrows@[i]@) == escrow_key_of(prev.escrows@[i]@),
            self.escrow_map@ == prev.escrow_map@.insert(
                escrow_key_of(self.escrows@[i]@),
                self.escrows@[i]@,
            ),
            self.custody_map@ == prev.custody_map@.insert(
                escrow_key_of(self.escrows@[i]@),
                self.custody@[i],
            ),
            self.profiles == prev.profiles,
            self.wallets == prev.wallets,
            self.profile_map == prev.profile_map,
            self.balance_map == prev.balance_map,
            custody_matches(self.escrows@[i]@, self.custody@[i]),
        ensures
            self.wf(),
    {
        let key = escrow_key_of(self.escrows@[i]@);
        assert forall|j: int|
            0 <= j < self.escrows.len() implies self.escrow_map@.contains_key(
                #[trigger] escrow_key_of(self.escrows@[j]@),
            ) && self.escrow_map@[escrow_key_of(self.escrows@[j]@)] == self.escrows@[j]@
                && self.custody_map@[escrow_key_of(self.escrows@[j]@)] == self.custody@[j] by {
            if j != i {
                assert(escrow_key_of(prev.escrows@[j]@) != escrow_key_of(prev.escrows@[i]@));
            }
        }
        assert forall|k: EscrowKey| #[trigger] self.escrow_map@.contains_key(k) implies exists|j: int|
            0 <= j < self.escrows.len() && escrow_key_of(self.escrows@[j]@) == k by {
            if k == key {
                assert(escrow_key_of(self.escrows@[i]@) == k);
            } else {
                assert(prev.escrow_map@.contains_key(k));
                let j = choose|j: int|
                    0 <= j < prev.escrows.len() && escrow_key_of(prev.escrows@[j]@) == k;
                assert(escrow_key_of(self.escrows@[j]@) == k);
            }
        }
        assert forall|j1: int, j2: int|
            0 <= j1 < self.escrows.len() && 0 <= j2 < self.escrows.len() && j1 != j2
                implies #[trigger] escrow_key_of(self.escrows@[j1]@) != #[trigger] escrow_key_of(
                self.escrows@[j2]@,
            ) by {
            assert(escrow_key_of(prev.escrows@[j1]@) != escrow_key_of(prev.escrows@[j2]@));
        }
        assert forall|k: EscrowKey| #[trigger] self@.escrows.contains_key(k) implies self@.escrows[k].client
            == k.0 && self@.escrows[k].task_id == k.1 by {
            if k != key {
                assert(prev@.escrows.contains_key(k));
            }
        }
        assert forall|k: EscrowKey| #[trigger] self@.escrows.contains_key(k) implies custody_matches(
            self@.escrows[k],
            self@.custody[k],
        ) by {
            if k != key {
                assert(prev@.escrows.contains_key(k));
            }
        }
        assert(self@.custody.dom() =~= self@.escrows.dom());
        assert(self.profiles_wf());
        assert(self.wallets@ == prev.wallets@);
        assert(prev.wallets_wf());
        assert(self.wallets_wf());
    }

    pub(crate) fn set_escrow_state(&mut self, key: &EscrowRef, status: TaskStatus, lamports: u64)
        requires
            old(self).wf(),
            old(self)@.escrows.contains_key(key@),
            custody_matches(EscrowView { status, ..old(self)@.escrows[key@] }, lamports),
        ensures
            final(self).wf(),
            final(self)@ == (LedgerView {
                escrows: old(self)@.escrows.insert(
                    key@,
                    EscrowView { status, ..old(self)@.escrows[key@] },
                ),
                custody: old(self)@.custody.insert(key@, lamports),
                ..old(self)@
            }),
    {
        let ghost prev = *self;
        let i = self.find_escrow(key).unwrap();
        self.escrows[i].status = status;
        self.custody.set(i, lamports);
        let ghost ev = self.escrows@[i as int]@;
        self.escrow_map = Ghost(self.escrow_map@.insert(key@, ev));
        self.custody_map = Ghost(self.custody_map@.insert(key@, lamports));
        proof {
            assert(self.escrows@ =~= prev.escrows@.update(i as int, self.escrows@[i as int]));
            self.lemma_escrow_replaced(&prev, i as int);
        }
    }

    pub(crate) fn set_balance(&mut self, k: Pubkey, lamports: u64)
        requires
            old(self).wf(),
        ensures
            final(self).wf(),
            final(self)@ == (LedgerView {
                balances: old(self)@.balances.insert(k, lamports),
                ..old(self)@
            }),
    {
        let ghost prev = *self;
        match self.find_wallet(k) {
            Some(i) => {
                self.wallets[i].lamports = lamports;
                self.balance_map = Ghost(self.balance_map@.insert(k, lamports));
                assert forall|j: int|
                    0 <= j < self.wallets.len() implies self.balance_map@.contains_key(
                        #[trigger] self.wallets@[j].key,
                    ) && self.balance_map@[self.wallets@[j].key] == self.wallets@[j].lamports by {
                    if j != i {
                        assert(prev.wallets@[j].key != prev.wallets@[i as int].key);
                    }
                }
                assert forall|key: Pubkey| #[trigger] self.balance_map@.contains_key(key) implies exists|j: int|
                    0 <= j < self.wallets.len() && self.wallets@[j].key == key by {
                    if key == k {
                        assert(self.wallets@[i as int].key == key);
                    } else {
                        assert(prev.balance_map@.contains_key(key));
                        let j = choose|j: int| 0 <= j < prev.wallets.len() && prev.wallets@[j].key == key;
                        assert(self.wallets@[j].key == key);
                    }
                }
                assert forall|j1: int, j2: int|
                    0 <= j1 < self.wallets.len() && 0 <= j2 < self.wallets.len() && j1 != j2
                        implies #[trigger] self.wallets@[j1].key != #[trigger] self.wallets@[j2].key by {
                    assert(prev.wallets@[j1].key != prev.wallets@[j2].key);
                }
            },
            None => {
                let ghost n = self.wallets.len() as int;
                self.wallets.push(Wallet { key: k, lamports });
                self.balance_map = Ghost(self.balance_map@.insert(k, lamports));
                assert forall|j: int|
                    0 <= j < self.wallets.len() implies self.balance_map@.contains_key(
                        #[trigger] self.wallets@[j].key,
                    ) && self.balance_map@[self.wallets@[j].key] == self.wallets@[j].lamports by {
                    if j != n {
                        assert(prev.balance_map@.contains_key(prev.wallets@[j].key));
                    }
                }
                assert forall|key: Pubkey| #[trigger] self.balance_map@.contains_key(key) implies exists|j: int|
                    0 <= j < self.wallets.len() && self.wallets@[j].key == key by {
                    if key == k {
                        assert(self.wallets@[n].key == key);
                    } else {
                        assert(prev.balance_map@.contains_key(key));
                        let j = choose|j: int| 0 <= j < prev.wallets.len() && prev.wallets@[j].key == key;
                        assert(self.wallets@[j].key == key);
                    }
                }
                assert forall|j1: int, j2: int|
                    0 <= j1 < self.wallets.len() && 0 <= j2 < self.wallets.len() && j1 != j2
                        implies #[trigger] self.wallets@[j1].key != #[trigger] self.wallets@[j2].key by {
                    if j1 == n {
                        assert(prev.balance_map@.contains_key(self.wallets@[j2].key));
                    } else if j2 == n {
                        assert(prev.balance_map@.contains_key(self.wallets@[j1].key));
                    }
                }
            },
        }
        assert(self.profiles@ == prev.profiles@);
        assert(self.escrows@ == prev.escrows@);
        assert(self.custody@ == prev.custody@);
        assert(prev.profiles_wf());
        assert(prev.escrows_wf());
        assert(self.profiles_wf());
        assert(self.escrows_wf());
    }

    /// Credits `lamports` to principal `k` from outside the system (funding
    /// a wallet); fails with `ArithmeticOverflow`, changing nothing, where
    /// the balance would exceed 64 bits.
    pub fn deposit(&mut self, k: Pubkey, lamports: u64) -> (r: Result<(), RegistryError>)
        requires
            old(self).wf(),
        ensures
            final(self).wf(),
            r.is_ok() == (old(self)@.balance(k) as nat + lamports as nat <= u64::MAX as nat),
            r.is_ok() ==> final(self)@ == (LedgerView {
                balances: old(self)@.balances.insert(k, (old(self)@.balance(k) + lamports) as u64),
                ..old(self)@
            }),
            r.is_err() ==> r == Err::<(), RegistryError>(RegistryError::ArithmeticOverflow)
                && final(self)@ == old(self)@,
    {
        let current = self.balance(k);
        if current > u64::MAX - lamports {
            return Err(RegistryError::ArithmeticOverflow);
        }
        self.set_balance(k, current + lamports);
        Ok(())
    }
}

} // verus!

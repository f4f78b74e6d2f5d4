//! The ledger's vocabulary as plain values: references to components and
//! resources, identifiers of unique tokens, and the containers that tokens
//! and divisible amounts travel and rest in.
//!
//! A bucket carries resources between calls, a vault keeps them at rest, and
//! a proof shows possession without giving anything up.

use crate::decimal::representable;
use crate::decimal::Decimal;
use vstd::prelude::*;

verus! {

/// Reference to a component on the ledger.
#[derive(Clone, Copy, Debug, PartialEq, Eq, Hash, Structural)]
pub struct ComponentRef(pub u64);

/// Reference to a resource type on the ledger.
#[derive(Clone, Copy, Debug, PartialEq, Eq, Hash, Structural)]
pub struct ResourceRef(pub u64);

/// Reference to the blueprint a component was made from.
#[derive(Clone, Copy, Debug, PartialEq, Eq, Hash, Structural)]
pub struct BlueprintRef(pub u64);

/// Identifier of one unique token within its resource type.
#[derive(Clone, Copy, Debug, PartialEq, Eq, Hash, Structural)]
pub struct LocalId(pub u64);

/// Who may call a privileged operation: what a caller must present.
#[derive(Clone, Copy, Debug, PartialEq, Eq, Structural)]
pub enum AccessRule {
    /// Any caller.
    AllowAll,
    /// No caller.
    DenyAll,
    /// A caller who presents a badge of this resource.
    Require(ResourceRef),
}

impl AccessRule {
    /// Whether a caller who presents the `badges` meets the rule.
    pub open spec fn allows(self, badges: Seq<ResourceRef>) -> bool {
        match self {
            AccessRule::AllowAll => true,
            AccessRule::DenyAll => false,
            AccessRule::Require(badge) => badges.contains(badge),
        }
    }

    /// Decides whether a caller who presents the `badges` meets the rule.
    pub fn check(&self, badges: &Vec<ResourceRef>) -> (r: bool)
        ensures
            r == self.allows(badges@),
    {
        match self {
            AccessRule::AllowAll => true,
            AccessRule::DenyAll => false,
            AccessRule::Require(badge) => {
                let mut i: usize = 0;
                while i < badges.len()
                    invariant
                        i <= badges.len(),
                        *self == AccessRule::Require(*badge),
                        forall|k: int| 0 <= k < i ==> badges@[k] != *badge,
                    decreases badges.len() - i,
                {
                    if badges[i] == *badge {
                        assert(badges@[i as int] == *badge);
                        return true;
                    }
                    i += 1;
                }
                false
            },
        }
    }
}

/// Why a container refused an operation.
#[derive(Clone, Copy, Debug, PartialEq, Eq, Structural)]
pub enum ResourceError {
    /// The resource type offered is not the one the container holds.
    ResourceMismatch,
    /// A divisible amount below zero was offered or asked for.
    NegativeAmount,
    /// More was asked for than the container holds.
    InsufficientBalance,
    /// The container cannot hold the resulting amount.
    Overflow,
}

/// Unique tokens of one resource type, on their way between two holders.
#[derive(Debug)]
pub struct NonFungibleBucket {
    pub resource: ResourceRef,
    pub ids: Vec<LocalId>,
}

/// Evidence that the presenter holds the listed tokens of one resource type.
#[derive(Debug)]
pub struct NonFungibleProof {
    pub resource: ResourceRef,
    pub ids: Vec<LocalId>,
}

/// Unique tokens of one resource type, at rest with their owner.
#[derive(Debug)]
pub struct NonFungibleVault {
    pub resource: ResourceRef,
    pub ids: Vec<LocalId>,
}

/// A divisible amount of one resource type, on its way between two holders.
#[derive(Clone, Copy, Debug, PartialEq, Eq, Structural)]
pub struct FungibleBucket {
    pub resource: ResourceRef,
    pub amount: Decimal,
}

/// A divisible amount of one resource type, at rest with its owner.
#[derive(Clone, Copy, Debug, PartialEq, Eq, Structural)]
pub struct FungibleVault {
    pub resource: ResourceRef,
    pub amount: Decimal,
}

/// What a bucket, a proof or a vault of unique tokens holds.
pub struct Tokens {
    pub resource: ResourceRef,
    pub ids: Seq<LocalId>,
}

impl View for NonFungibleBucket {
    type V = Tokens;

    open spec fn view(&self) -> Tokens {
        Tokens { resource: self.resource, ids: self.ids@ }
    }
}

impl View for NonFungibleProof {
    type V = Tokens;

    open spec fn view(&self) -> Tokens {
        Tokens { resource: self.resource, ids: self.ids@ }
    }
}

impl View for NonFungibleVault {
    type V = Tokens;

    open spec fn view(&self) -> Tokens {
        Tokens { resource: self.resource, ids: self.ids@ }
    }
}

/// A copy of `ids`, element by element.
pub fn copy_ids(ids: &Vec<LocalId>) -> (r: Vec<LocalId>)
    ensures
        r@ == ids@,
{
    let mut out: Vec<LocalId> = Vec::new();
    let mut i: usize = 0;
    while i < ids.len()
        invariant
            i <= ids.len(),
            out@ == ids@.subrange(0, i as int),
        decreases ids.len() - i,
    {
        out.push(ids[i]);
        i += 1;
    }
    assert(ids@.subrange(0, ids.len() as int) == ids@);
    out
}

impl NonFungibleBucket {
    /// A bucket of the given tokens.
    pub fn new(resource: ResourceRef, ids: Vec<LocalId>) -> (r: NonFungibleBucket)
        ensures
            r.resource == resource,
            r.ids@ == ids@,
    {
        NonFungibleBucket { resource, ids }
    }

    /// A bucket of one token.
    pub fn single(resource: ResourceRef, id: LocalId) -> (r: NonFungibleBucket)
        ensures
            r.resource == resource,
            r.ids@ == seq![id],
    {
        let mut ids: Vec<LocalId> = Vec::new();
        ids.push(id);
        NonFungibleBucket { resource, ids }
    }

    /// How many tokens the bucket carries.
    pub fn amount(&self) -> (r: usize)
        ensures
            r == self.ids@.len(),
    {
        self.ids.len()
    }

    /// The resource type of the tokens.
    pub fn resource_address(&self) -> (r: ResourceRef)
        ensures
            r == self.resource,
    {
        self.resource
    }

    /// The identifier of the bucket's only token.
    pub fn non_fungible_local_id(&self) -> (r: LocalId)
        requires
            self.ids@.len() == 1,
        ensures
            r == self.ids@[0],
    {
        self.ids[0]
    }

    /// Evidence of holding everything in the bucket.
    pub fn create_proof_of_all(&self) -> (r: NonFungibleProof)
        ensures
            r.resource == self.resource,
            r.ids@ == self.ids@,
    {
        NonFungibleProof { resource: self.resource, ids: copy_ids(&self.ids) }
    }
}

impl NonFungibleProof {
    /// Evidence of holding the given tokens.
    pub fn new(resource: ResourceRef, ids: Vec<LocalId>) -> (r: NonFungibleProof)
        ensures
            r.resource == resource,
            r.ids@ == ids@,
    {
        NonFungibleProof { resource, ids }
    }

    /// Evidence of holding one token.
    pub fn single(resource: ResourceRef, id: LocalId) -> (r: NonFungibleProof)
        ensures
            r.resource == resource,
            r.ids@ == seq![id],
    {
        let mut ids: Vec<LocalId> = Vec::new();
        ids.push(id);
        NonFungibleProof { resource, ids }
    }

    /// How many tokens the proof covers.
    pub fn amount(&self) -> (r: usize)
        ensures
            r == self.ids@.len(),
    {
        self.ids.len()
    }

    /// The resource type of the tokens.
    pub fn resource_address(&self) -> (r: ResourceRef)
        ensures
            r == self.resource,
    {
        self.resource
    }

    /// The identifier of the proof's only token.
    pub fn non_fungible_local_id(&self) -> (r: LocalId)
        requires
            self.ids@.len() == 1,
        ensures
            r == self.ids@[0],
    {
        self.ids[0]
    }
}

impl NonFungibleVault {
    /// An empty vault for tokens of `resource`.
    pub fn new(resource: ResourceRef) -> (r: NonFungibleVault)
        ensures
            r.resource == resource,
            r.ids@ == Seq::<LocalId>::empty(),
    {
        NonFungibleVault { resource, ids: Vec::new() }
    }

    /// A vault that starts with the contents of `bucket`.
    pub fn with_bucket(bucket: NonFungibleBucket) -> (r: NonFungibleVault)
        ensures
            r.resource == bucket.resource,
            r.ids@ == bucket.ids@,
    {
        NonFungibleVault { resource: bucket.resource, ids: bucket.ids }
    }

    /// How many tokens the vault holds.
    pub fn amount(&self) -> (r: usize)
        ensures
            r == self.ids@.len(),
    {
        self.ids.len()
    }

    /// The resource type the vault holds.
    pub fn resource_address(&self) -> (r: ResourceRef)
        ensures
            r == self.resource,
    {
        self.resource
    }

    /// The identifier of the vault's only token.
    pub fn non_fungible_local_id(&self) -> (r: LocalId)
        requires
            self.ids@.len() == 1,
        ensures
            r == self.ids@[0],
    {
        self.ids[0]
    }

    /// Adds the bucket's tokens behind those already held. A bucket of
    /// another resource type is refused and the vault stays as it was.
    pub fn put(&mut self, bucket: NonFungibleBucket) -> (r: Result<(), ResourceError>)
        ensures
            final(self).resource == old(self).resource,
            bucket.resource == old(self).resource ==> r.is_ok() && final(self).ids@ == old(
                self,
            ).ids@ + bucket.ids@,
            bucket.resource != old(self).resource ==> r == Err::<(), ResourceError>(
                ResourceError::ResourceMismatch,
            ) && final(self).ids@ == old(self).ids@,
    {
        if bucket.resource != self.resource {
            return Err(ResourceError::ResourceMismatch);
        }
        let mut incoming = bucket.ids;
        self.ids.append(&mut incoming);
        Ok(())
    }

    /// Empties the vault into a bucket.
    pub fn take_all(&mut self) -> (r: NonFungibleBucket)
        ensures
            final(self).resource == old(self).resource,
            final(self).ids@ == Seq::<LocalId>::empty(),
            r.resource == old(self).resource,
            r.ids@ == old(self).ids@,
    {
        let mut taken: Vec<LocalId> = Vec::new();
        taken.append(&mut self.ids);
        NonFungibleBucket { resource: self.resource, ids: taken }
    }

    /// Evidence of holding everything in the vault.
    pub fn create_proof_of_all(&self) -> (r: NonFungibleProof)
        ensures
            r.resource == self.resource,
            r.ids@ == self.ids@,
    {
        NonFungibleProof { resource: self.resource, ids: copy_ids(&self.ids) }
    }
}

impl FungibleBucket {
    /// A bucket of `amount` of `resource`.
    pub fn new(resource: ResourceRef, amount: Decimal) -> (r: FungibleBucket)
        ensures
            r == (FungibleBucket { resource, amount }),
    {
        FungibleBucket { resource, amount }
    }

    /// The amount carried.
    pub fn amount(&self) -> (r: Decimal)
        ensures
            r == self.amount,
    {
        self.amount
    }

    /// The resource type carried.
    pub fn resource_address(&self) -> (r: ResourceRef)
        ensures
            r == self.resource,
    {
        self.resource
    }

    /// What `take` answers for a request of `amount`.
    pub open spec fn take_refusal(self, amount: Decimal) -> Option<ResourceError> {
        if amount.attos() < 0 {
            Some(ResourceError::NegativeAmount)
        } else if amount.attos() > self.amount.attos() {
            Some(ResourceError::InsufficientBalance)
        } else {
            None
        }
    }

    /// Splits `amount` off into a bucket of its own. A request below zero or
    /// above what the bucket carries is refused and the bucket stays as it was.
    pub fn take(&mut self, amount: Decimal) -> (r: Result<FungibleBucket, ResourceError>)
        ensures
            final(self).resource == old(self).resource,
            match old(self).take_refusal(amount) {
                Some(e) => r == Err::<FungibleBucket, ResourceError>(e) && *final(self) == *old(
                    self,
                ),
                None => r == Ok::<FungibleBucket, ResourceError>(
                    FungibleBucket { resource: old(self).resource, amount },
                ) && final(self).amount.attos() == old(self).amount.attos() - amount.attos(),
            },
    {
        if amount.is_negative() {
            return Err(ResourceError::NegativeAmount);
        }
        if self.amount.lt(&amount) {
            return Err(ResourceError::InsufficientBalance);
        }
        let rest = self.amount.checked_sub(amount);
        match rest {
            Some(rest) => {
                self.amount = rest;
                Ok(FungibleBucket { resource: self.resource, amount })
            },
            None => {
                proof {
                    old(self).amount.lemma_attos_in_range();
                }
                Err(ResourceError::Overflow)
            },
        }
    }
}

impl FungibleVault {
    /// An empty vault for `resource`.
    pub fn new(resource: ResourceRef) -> (r: FungibleVault)
        ensures
            r.resource == resource,
            r.amount.attos() == 0,
    {
        FungibleVault { resource, amount: Decimal::zero() }
    }

    /// The amount held.
    pub fn amount(&self) -> (r: Decimal)
        ensures
            r == self.amount,
    {
        self.amount
    }

    /// The resource type held.
    pub fn resource_address(&self) -> (r: ResourceRef)
        ensures
            r == self.resource,
    {
        self.resource
    }

    /// What `put` answers when `bucket` is offered.
    pub open spec fn put_refusal(self, bucket: FungibleBucket) -> Option<ResourceError> {
        if bucket.resource != self.resource {
            Some(ResourceError::ResourceMismatch)
        } else if bucket.amount.attos() < 0 {
            Some(ResourceError::NegativeAmount)
        } else if !representable(self.amount.attos() + bucket.amount.attos()) {
            Some(ResourceError::Overflow)
        } else {
            None
        }
    }

    /// Adds the bucket's amount to the vault. A bucket of another resource
    /// type, of an amount below zero, or too large for the vault to hold is
    /// refused and the vault stays as it was.
    pub fn put(&mut self, bucket: FungibleBucket) -> (r: Result<(), ResourceError>)
        ensures
            final(self).resource == old(self).resource,
            match old(self).put_refusal(bucket) {
                Some(e) => r == Err::<(), ResourceError>(e) && *final(self) == *old(self),
                None => r.is_ok() && final(self).amount.attos() == old(self).amount.attos()
                    + bucket.amount.attos(),
            },
    {
        if bucket.resource != self.resource {
            return Err(ResourceError::ResourceMismatch);
        }
        if bucket.amount.is_negative() {
            return Err(ResourceError::NegativeAmount);
        }
        match self.amount.checked_add(bucket.amount) {
            Some(sum) => {
                self.amount = sum;
                Ok(())
            },
            None => Err(ResourceError::Overflow),
        }
    }

    /// Empties the vault into a bucket.
    pub fn take_all(&mut self) -> (r: FungibleBucket)
        ensures
            final(self).resource == old(self).resource,
            final(self).amount.attos() == 0,
            r == (FungibleBucket { resource: old(self).resource, amount: old(self).amount }),
    {
        let taken = FungibleBucket { resource: self.resource, amount: self.amount };
        self.amount = Decimal::zero();
        taken
    }
}

} // verus!

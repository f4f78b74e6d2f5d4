//! The data a link badge carries.

use crate::ledger::ComponentRef;
use crate::ledger::LocalId;
use crate::ledger::NonFungibleBucket;
use crate::ledger::NonFungibleVault;
use crate::ledger::ResourceRef;
use crate::ledger::Tokens;
use vstd::prelude::*;

verus! {

/// The authorisation of one cluster by one platform.
#[derive(Debug, Clone, Copy, PartialEq, Eq, Structural)]
pub struct Link {
    /// The platform that minted the badge.
    pub issuing_platform: ComponentRef,
    /// The cluster the badge was minted for.
    pub linked_cluster: ComponentRef,
}

impl Link {
    /// The data of a badge that `issuing_platform` mints for `linked_cluster`.
    pub fn new(issuing_platform: ComponentRef, linked_cluster: ComponentRef) -> (r: Link)
        ensures
            r == (Link { issuing_platform, linked_cluster }),
    {
        Link { issuing_platform, linked_cluster }
    }
}

/// Why a cluster refused a link badge.
#[derive(Debug, Clone, Copy, PartialEq, Eq, Structural)]
pub enum LinkError {
    /// The cluster's link service is switched off.
    ServiceDisabled,
    /// The cluster already holds a link badge.
    AlreadyLinked,
    /// The bucket does not hold exactly one badge.
    InvalidAmount,
    /// The bucket holds another resource than the cluster's link badge.
    InvalidResource,
}

/// What a cluster's side of the link looks like from outside.
pub struct LinkState {
    /// The cluster.
    pub address: ComponentRef,
    /// The resource type of the link badges the cluster accepts.
    pub link_resource: ResourceRef,
    /// Whether the cluster's link service is switched on.
    pub accepting: bool,
    /// The link badges the cluster holds.
    pub held: Seq<LocalId>,
}

impl LinkState {
    /// Why the cluster refuses a bucket of `ids` of `resource`, if it does.
    pub open spec fn refusal(self, resource: ResourceRef, ids: Seq<LocalId>) -> Option<LinkError> {
        if !self.accepting {
            Some(LinkError::ServiceDisabled)
        } else if self.held.len() != 0 {
            Some(LinkError::AlreadyLinked)
        } else if ids.len() != 1 {
            Some(LinkError::InvalidAmount)
        } else if resource != self.link_resource {
            Some(LinkError::InvalidResource)
        } else {
            None
        }
    }

    /// The state after the cluster took `ids` into custody.
    pub open spec fn after(self, ids: Seq<LocalId>) -> LinkState {
        LinkState { held: self.held + ids, ..self }
    }

    /// Whether the cluster holds at most one link badge.
    pub open spec fn at_most_one_link(self) -> bool {
        self.held.len() <= 1
    }

    /// The state after `bucket` was offered: taken into custody if it is
    /// not refused, ignored otherwise.
    pub open spec fn offered(self, bucket: Tokens) -> LinkState {
        if self.refusal(bucket.resource, bucket.ids).is_none() {
            self.after(bucket.ids)
        } else {
            self
        }
    }

    /// The state after each bucket of `offers` was offered in turn.
    pub open spec fn after_offers(self, offers: Seq<Tokens>) -> LinkState
        decreases offers.len(),
    {
        if offers.len() == 0 {
            self
        } else {
            self.after_offers(offers.drop_last()).offered(offers.last())
        }
    }

    /// A cluster that holds at most one link badge still holds at most one
    /// after any bucket was offered to it, accepted or not; and a cluster
    /// that holds one accepts no other.
    pub proof fn lemma_single_link(self, resource: ResourceRef, ids: Seq<LocalId>)
        requires
            self.at_most_one_link(),
        ensures
            self.refusal(resource, ids).is_none() ==> self.after(ids).held.len() == 1,
            self.held.len() == 1 ==> self.refusal(resource, ids).is_some(),
            self.offered(Tokens { resource, ids }).at_most_one_link(),
    {
    }

    /// Whatever buckets are offered to a cluster and in whatever order, a
    /// cluster that started with at most one link badge never holds two.
    pub proof fn lemma_never_two_links(self, offers: Seq<Tokens>)
        requires
            self.at_most_one_link(),
        ensures
            self.after_offers(offers).at_most_one_link(),
        decreases offers.len(),
    {
        if offers.len() > 0 {
            self.lemma_never_two_links(offers.drop_last());
            self.after_offers(offers.drop_last()).lemma_single_link(
                offers.last().resource,
                offers.last().ids,
            );
        }
    }
}

/// A component that a platform can link: it takes the link badge that the
/// platform mints for it into custody.
pub trait LinkReceiver: Sized {
    /// The component's side of the link.
    spec fn link_state(&self) -> LinkState;

    /// Whether the component is as it was in `before`, but for the link
    /// badges it holds.
    spec fn differs_only_in_link(&self, before: &Self) -> bool;

    /// The component's own address.
    fn component_address(&self) -> (r: ComponentRef)
        ensures
            r == self.link_state().address,
    ;

    /// Takes the platform's link badge into custody. Refused, with the
    /// component unchanged, when the link service is off, a badge is
    /// already held, or the bucket is not one badge of the right resource.
    fn handle_link(&mut self, bucket: NonFungibleBucket) -> (r: Result<(), LinkError>)
        ensures
            match old(self).link_state().refusal(bucket.resource, bucket.ids@) {
                Some(e) => r == Err::<(), LinkError>(e) && *final(self) == *old(self),
                None => r.is_ok() && final(self).link_state() == old(self).link_state().after(
                    bucket.ids@,
                ) && final(self).differs_only_in_link(old(self)),
            },
    ;
}

/// The link side of a cluster by itself: the vault of the link badge and the
/// switch of the link service. It stands for a cluster of which no more is
/// known.
#[derive(Debug)]
pub struct ClusterLink {
    /// The cluster.
    pub address: ComponentRef,
    /// The vault of the link badge.
    pub link: NonFungibleVault,
    /// Whether the cluster's link service is switched on.
    pub accepting: bool,
}

impl ClusterLink {
    /// The link side of a cluster that holds no badge and accepts one of
    /// `link_resource`.
    pub fn new(address: ComponentRef, link_resource: ResourceRef) -> (r: ClusterLink)
        ensures
            r.link_state() == (LinkState {
                address,
                link_resource,
                accepting: true,
                held: Seq::empty(),
            }),
    {
        ClusterLink { address, link: NonFungibleVault::new(link_resource), accepting: true }
    }
}

impl LinkReceiver for ClusterLink {
    open spec fn link_state(&self) -> LinkState {
        LinkState {
            address: self.address,
            link_resource: self.link.resource,
            accepting: self.accepting,
            held: self.link.ids@,
        }
    }

    open spec fn differs_only_in_link(&self, before: &Self) -> bool {
        self.address == before.address && self.accepting == before.accepting
    }

    fn component_address(&self) -> (r: ComponentRef) {
        self.address
    }

    fn handle_link(&mut self, bucket: NonFungibleBucket) -> (r: Result<(), LinkError>) {
        if !self.accepting {
            return Err(LinkError::ServiceDisabled);
        }
        if self.link.amount() != 0 {
            return Err(LinkError::AlreadyLinked);
        }
        if bucket.amount() != 1 {
            return Err(LinkError::InvalidAmount);
        }
        if self.link.resource_address() != bucket.resource_address() {
            return Err(LinkError::InvalidResource);
        }
        let put = self.link.put(bucket);
        Ok(())
    }
}

} // verus!
use crate::crypto::primitives::sign::PublicKey;
use crate::link::rendezvous::errors::{ClientError, ServeError};
use crate::net::address::Address;
use crate::net::errors::PlainConnectionError;
use crate::sync::fuse::FuseError;
use vstd::prelude::*;

verus! {

/// The number of a shard of the directory.
pub type ShardId = u32;

/// A published record: which peer claims which address in which shard.
#[derive(Clone, Copy, Debug, PartialEq, Eq)]
pub struct Card {
    pub identity: PublicKey,
    pub address: Address,
    pub shard: ShardId,
}

/// Whether the card in `slot` of `shard` is that of `identity`.
pub open spec fn is_at(shards: Seq<Seq<Card>>, identity: PublicKey, shard: int, slot: int) -> bool {
    0 <= shard < shards.len() && 0 <= slot < shards[shard].len()
        && shards[shard][slot].identity == identity
}

/// Whether some shard holds a card of `identity`.
pub open spec fn holds(shards: Seq<Seq<Card>>, identity: PublicKey) -> bool {
    exists|shard: int, slot: int| is_at(shards, identity, shard, slot)
}

/// The card of `identity`, where some shard holds one.
pub open spec fn record(shards: Seq<Seq<Card>>, identity: PublicKey) -> Card
    recommends
        holds(shards, identity),
{
    let (shard, slot) = choose|shard: int, slot: int| is_at(shards, identity, shard, slot);
    shards[shard][slot]
}

/// The cards of a shard in the order of their publication; none for a
/// number that the directory has no shard of.
pub open spec fn cards_of(shards: Seq<Seq<Card>>, shard: ShardId) -> Seq<Card> {
    if shard < shards.len() {
        shards[shard as int]
    } else {
        Seq::empty()
    }
}

/// What a directory has to satisfy: no shard holds more cards than
/// `capacity`, each card lies in the shard that it names, and no identity
/// has two cards.
pub open spec fn well_formed(shards: Seq<Seq<Card>>, capacity: nat) -> bool {
    &&& shards.len() <= u32::MAX
    &&& forall|shard: int| 0 <= shard < shards.len() ==> (#[trigger] shards[shard]).len() <= capacity
    &&& forall|shard: int, slot: int|
        0 <= shard < shards.len() && 0 <= slot < shards[shard].len() ==> (
        #[trigger] shards[shard][slot]).shard == shard
    &&& forall|shard: int, slot: int, other_shard: int, other_slot: int|
        is_at(shards, #[trigger] shards[shard][slot].identity, shard, slot) && is_at(
            shards,
            #[trigger] shards[other_shard][other_slot].identity,
            other_shard,
            other_slot,
        ) && shards[shard][slot].identity == shards[other_shard][other_slot].identity ==> shard
            == other_shard && slot == other_slot
}

/// What publishing `card` comes to. An identity that has a card already is
/// turned away first, then a shard that does not exist, then a full one.
pub open spec fn publish_outcome(shards: Seq<Seq<Card>>, capacity: nat, card: Card) -> Result<
    (),
    ClientError,
> {
    if holds(shards, card.identity) {
        Err(ClientError::AlreadyPublished { shard: Some(record(shards, card.identity).shard) })
    } else if card.shard >= shards.len() {
        Err(ClientError::ShardIdInvalid)
    } else if shards[card.shard as int].len() >= capacity {
        Err(ClientError::ShardFull)
    } else {
        Ok(())
    }
}

/// The shards after `card` was offered for publication: the card stands last
/// in its shard where it was taken, and nothing has changed where it was not.
pub open spec fn after_publish(shards: Seq<Seq<Card>>, capacity: nat, card: Card) -> Seq<
    Seq<Card>,
> {
    if publish_outcome(shards, capacity, card) is Ok {
        shards.update(card.shard as int, shards[card.shard as int].push(card))
    } else {
        shards
    }
}

/// What resolving `shard` comes to: its cards once they are at least
/// `quorum`, and before that the answer that it is incomplete.
pub open spec fn resolve_outcome(shards: Seq<Seq<Card>>, quorum: nat, shard: ShardId) -> Result<
    Seq<Card>,
    ClientError,
> {
    if cards_of(shards, shard).len() < quorum {
        Err(ClientError::ShardIncomplete)
    } else {
        Ok(cards_of(shards, shard))
    }
}

/// What looking up the card of `identity` comes to.
pub open spec fn lookup_outcome(shards: Seq<Seq<Card>>, identity: PublicKey) -> Result<
    Card,
    ClientError,
> {
    if holds(shards, identity) {
        Ok(record(shards, identity))
    } else {
        Err(ClientError::CardUnknown)
    }
}

/// What looking up the address of `identity` comes to.
pub open spec fn address_outcome(shards: Seq<Seq<Card>>, identity: PublicKey) -> Result<
    Address,
    ClientError,
> {
    if holds(shards, identity) {
        Ok(record(shards, identity).address)
    } else {
        Err(ClientError::AddressUnknown)
    }
}

/// In a well-formed directory the card of an identity is the one found at
/// any place where a card of that identity lies.
pub proof fn lemma_record_is_unique(
    shards: Seq<Seq<Card>>,
    capacity: nat,
    identity: PublicKey,
    shard: int,
    slot: int,
)
    requires
        well_formed(shards, capacity),
        is_at(shards, identity, shard, slot),
    ensures
        holds(shards, identity),
        record(shards, identity) == shards[shard][slot],
        record(shards, identity).shard == shard,
{
    let (chosen_shard, chosen_slot) = choose|s: int, i: int| is_at(shards, identity, s, i);
    assert(is_at(shards, identity, chosen_shard, chosen_slot));
    assert(shards[chosen_shard][chosen_slot].identity == shards[shard][slot].identity);
}

/// Publishing keeps a directory well-formed, whatever the card and whatever
/// the outcome: no shard comes to exceed its capacity, and no identity comes
/// to have two cards.
pub proof fn lemma_publish_keeps_well_formed(shards: Seq<Seq<Card>>, capacity: nat, card: Card)
    requires
        well_formed(shards, capacity),
    ensures
        well_formed(after_publish(shards, capacity, card), capacity),
        after_publish(shards, capacity, card).len() == shards.len(),
{
    let after = after_publish(shards, capacity, card);
    if publish_outcome(shards, capacity, card) is Ok {
        let target = card.shard as int;
        assert forall|shard: int, slot: int| is_at(after, after[shard][slot].identity, shard, slot)
            && !(shard == target && slot == shards[target].len()) implies is_at(
            shards,
            after[shard][slot].identity,
            shard,
            slot,
        ) && shards[shard][slot] == after[shard][slot] by {}
        assert forall|shard: int, slot: int, other_shard: int, other_slot: int|
            is_at(after, #[trigger] after[shard][slot].identity, shard, slot) && is_at(
                after,
                #[trigger] after[other_shard][other_slot].identity,
                other_shard,
                other_slot,
            ) && after[shard][slot].identity
                == after[other_shard][other_slot].identity implies shard == other_shard && slot
            == other_slot by {
            let fresh = shards[target].len() as int;
            if shard == target && slot == fresh {
                if !(other_shard == target && other_slot == fresh) {
                    assert(is_at(shards, card.identity, other_shard, other_slot));
                }
            } else if other_shard == target && other_slot == fresh {
                assert(is_at(shards, card.identity, shard, slot));
            } else {
                assert(is_at(shards, shards[shard][slot].identity, shard, slot));
                assert(is_at(
                    shards,
                    shards[other_shard][other_slot].identity,
                    other_shard,
                    other_slot,
                ));
            }
        }
    }
}

/// A card is published once: after a publication that was granted, every
/// further card of the same identity is turned away as already published,
/// with the shard that holds the first.
pub proof fn lemma_second_publish_is_refused(
    shards: Seq<Seq<Card>>,
    capacity: nat,
    first: Card,
    second: Card,
)
    requires
        well_formed(shards, capacity),
        publish_outcome(shards, capacity, first) is Ok,
        second.identity == first.identity,
    ensures
        publish_outcome(after_publish(shards, capacity, first), capacity, second) == Err::<
            (),
            ClientError,
        >(ClientError::AlreadyPublished { shard: Some(first.shard) }),
        after_publish(after_publish(shards, capacity, first), capacity, second) == after_publish(
            shards,
            capacity,
            first,
        ),
{
    let after = after_publish(shards, capacity, first);
    lemma_publish_keeps_well_formed(shards, capacity, first);
    let target = first.shard as int;
    let fresh = shards[target].len() as int;
    assert(is_at(after, first.identity, target, fresh));
    lemma_record_is_unique(after, capacity, first.identity, target, fresh);
}

/// A publication that was granted shows in the directory at once: the card
/// can be looked up, it stands last among the cards of its shard, and the
/// other shards hold what they held.
pub proof fn lemma_published_card_is_held(shards: Seq<Seq<Card>>, capacity: nat, card: Card)
    requires
        well_formed(shards, capacity),
        publish_outcome(shards, capacity, card) is Ok,
    ensures
        lookup_outcome(after_publish(shards, capacity, card), card.identity) == Ok::<
            Card,
            ClientError,
        >(card),
        address_outcome(after_publish(shards, capacity, card), card.identity) == Ok::<
            Address,
            ClientError,
        >(card.address),
        cards_of(after_publish(shards, capacity, card), card.shard) == cards_of(
            shards,
            card.shard,
        ).push(card),
        forall|shard: ShardId|
            shard != card.shard ==> cards_of(after_publish(shards, capacity, card), shard)
                == cards_of(shards, shard),
{
    let after = after_publish(shards, capacity, card);
    lemma_publish_keeps_well_formed(shards, capacity, card);
    let target = card.shard as int;
    let fresh = shards[target].len() as int;
    assert(is_at(after, card.identity, target, fresh));
    lemma_record_is_unique(after, capacity, card.identity, target, fresh);
}

/// A shard is resolved exactly from its quorum on: with fewer cards the
/// answer is that it is incomplete, and from then on the answer is the cards
/// that were published into it, in the order of their publication.
pub proof fn lemma_resolve_from_quorum(shards: Seq<Seq<Card>>, quorum: nat, shard: ShardId)
    ensures
        cards_of(shards, shard).len() < quorum ==> resolve_outcome(shards, quorum, shard) == Err::<
            Seq<Card>,
            ClientError,
        >(ClientError::ShardIncomplete),
        cards_of(shards, shard).len() >= quorum ==> resolve_outcome(shards, quorum, shard) == Ok::<
            Seq<Card>,
            ClientError,
        >(cards_of(shards, shard)),
{
}

/// The shard directory of a rendezvous server. It is owned by the server
/// alone, so that each request is checked and applied in one step.
pub struct Directory {
    shards: Vec<Vec<Card>>,
    capacity: usize,
    quorum: usize,
}

/// What a client asks of the directory.
#[derive(Clone, Copy, Debug, PartialEq, Eq)]
pub enum Request {
    /// Publish this card.
    Publish(Card),
    /// Give the cards of this shard.
    Resolve(ShardId),
    /// Give the address of this identity.
    Lookup(PublicKey),
}

/// What the directory answers.
#[derive(Clone, Debug, PartialEq, Eq)]
pub enum Response {
    /// The card was published.
    Published,
    /// The cards of the shard asked for.
    Shard(Vec<Card>),
    /// The address of the identity asked for.
    Address(Address),
    /// The request was not granted.
    Refused(ClientError),
}

/// Whether `response` answers `request` on a directory that held `shards`,
/// and `after` is what the directory holds then. Only a publication that is
/// granted changes what the directory holds.
pub open spec fn served(
    shards: Seq<Seq<Card>>,
    capacity: nat,
    quorum: nat,
    request: Request,
    response: Response,
    after: Seq<Seq<Card>>,
) -> bool {
    match request {
        Request::Publish(card) => {
            &&& after == after_publish(shards, capacity, card)
            &&& match publish_outcome(shards, capacity, card) {
                Ok(_) => response == Response::Published,
                Err(error) => response == Response::Refused(error),
            }
        },
        Request::Resolve(shard) => {
            &&& after == shards
            &&& match resolve_outcome(shards, quorum, shard) {
                Ok(cards) => response matches Response::Shard(found) && found@ == cards,
                Err(error) => response == Response::Refused(error),
            }
        },
        Request::Lookup(identity) => {
            &&& after == shards
            &&& match address_outcome(shards, identity) {
                Ok(address) => response == Response::Address(address),
                Err(error) => response == Response::Refused(error),
            }
        },
    }
}

impl Directory {
    /// The cards of each shard, in the order of their publication.
    pub closed spec fn shards(&self) -> Seq<Seq<Card>> {
        Seq::new(self.shards@.len(), |shard: int| self.shards@[shard]@)
    }

    /// The number of cards that a shard may hold.
    pub closed spec fn capacity(&self) -> nat {
        self.capacity as nat
    }

    /// The number of cards from which a shard is resolvable.
    pub closed spec fn quorum(&self) -> nat {
        self.quorum as nat
    }

    /// The invariant of the directory.
    pub open spec fn wf(&self) -> bool {
        well_formed(self.shards(), self.capacity())
    }

    /// A directory of `shards` empty shards.
    pub fn new(shards: u32, capacity: usize, quorum: usize) -> (directory: Self)
        ensures
            directory.wf(),
            directory.shards().len() == shards,
            forall|shard: int|
                0 <= shard < shards ==> (#[trigger] directory.shards()[shard]).len() == 0,
            directory.capacity() == capacity,
            directory.quorum() == quorum,
    {
        let mut all: Vec<Vec<Card>> = Vec::new();
        let mut count: u32 = 0;
        while count < shards
            invariant
                count <= shards,
                all@.len() == count,
                forall|shard: int| 0 <= shard < count ==> (#[trigger] all@[shard])@.len() == 0,
            decreases shards - count,
        {
            all.push(Vec::new());
            count += 1;
        }
        Directory { shards: all, capacity, quorum }
    }

    /// The number of shards.
    pub fn shard_count(&self) -> (count: usize)
        ensures
            count == self.shards().len(),
    {
        self.shards.len()
    }

    /// Where the card of `identity` lies, if the directory holds one.
    fn find(&self, identity: &PublicKey) -> (place: Option<(usize, usize)>)
        ensures
            match place {
                Some((shard, slot)) => is_at(self.shards(), *identity, shard as int, slot as int),
                None => !holds(self.shards(), *identity),
            },
    {
        let mut shard: usize = 0;
        while shard < self.shards.len()
            invariant
                shard <= self.shards@.len(),
                forall|s: int, i: int| 0 <= s < shard ==> !is_at(self.shards(), *identity, s, i),
            decreases self.shards@.len() - shard,
        {
            let mut slot: usize = 0;
            while slot < self.shards[shard].len()
                invariant
                    shard < self.shards@.len(),
                    slot <= self.shards@[shard as int]@.len(),
                    forall|s: int, i: int|
                        0 <= s < shard ==> !is_at(self.shards(), *identity, s, i),
                    forall|i: int| 0 <= i < slot ==> !is_at(self.shards(), *identity, shard as int, i),
                decreases self.shards@[shard as int]@.len() - slot,
            {
                if self.shards[shard][slot].identity == *identity {
                    return Some((shard, slot));
                }
                slot += 1;
            }
            shard += 1;
        }
        None
    }

    /// Publishes `card`, or says why not. Check and insertion are one step:
    /// a card that is turned away leaves the directory as it was.
    pub fn publish(&mut self, card: Card) -> (outcome: Result<(), ClientError>)
        requires
            old(self).wf(),
        ensures
            final(self).wf(),
            final(self).capacity() == old(self).capacity(),
            final(self).quorum() == old(self).quorum(),
            outcome == publish_outcome(old(self).shards(), old(self).capacity(), card),
            final(self).shards() == after_publish(old(self).shards(), old(self).capacity(), card),
    {
        proof {
            lemma_publish_keeps_well_formed(self.shards(), self.capacity(), card);
        }
        match self.find(&card.identity) {
            Some((shard, slot)) => {
                proof {
                    lemma_record_is_unique(
                        self.shards(),
                        self.capacity(),
                        card.identity,
                        shard as int,
                        slot as int,
                    );
                }
                Err(ClientError::AlreadyPublished { shard: Some(self.shards[shard][slot].shard) })
            },
            None => {
                let target = card.shard as usize;
                if target >= self.shards.len() {
                    Err(ClientError::ShardIdInvalid)
                } else if self.shards[target].len() >= self.capacity {
                    Err(ClientError::ShardFull)
                } else {
                    self.shards[target].push(card);
                    assert(self.shards() =~= after_publish(
                        old(self).shards(),
                        old(self).capacity(),
                        card,
                    ));
                    Ok(())
                }
            },
        }
    }

    /// The cards of `shard`, once there are enough of them.
    pub fn resolve(&self, shard: ShardId) -> (outcome: Result<Vec<Card>, ClientError>)
        ensures
            match resolve_outcome(self.shards(), self.quorum(), shard) {
                Ok(cards) => outcome is Ok && outcome->Ok_0@ == cards,
                Err(error) => outcome == Err::<Vec<Card>, ClientError>(error),
            },
    {
        let index = shard as usize;
        if index >= self.shards.len() {
            if 0 < self.quorum {
                Err(ClientError::ShardIncomplete)
            } else {
                Ok(Vec::new())
            }
        } else if self.shards[index].len() < self.quorum {
            Err(ClientError::ShardIncomplete)
        } else {
            let mut cards: Vec<Card> = Vec::new();
            let mut slot: usize = 0;
            while slot < self.shards[index].len()
                invariant
                    index < self.shards@.len(),
                    slot <= self.shards@[index as int]@.len(),
                    cards@ == self.shards@[index as int]@.subrange(0, slot as int),
                decreases self.shards@[index as int]@.len() - slot,
            {
                cards.push(self.shards[index][slot]);
                slot += 1;
                assert(cards@ =~= self.shards@[index as int]@.subrange(0, slot as int));
            }
            assert(cards@ =~= self.shards@[index as int]@);
            Ok(cards)
        }
    }

    /// The card of `identity`.
    pub fn lookup(&self, identity: &PublicKey) -> (outcome: Result<Card, ClientError>)
        requires
            self.wf(),
        ensures
            outcome == lookup_outcome(self.shards(), *identity),
    {
        match self.find(identity) {
            Some((shard, slot)) => {
                proof {
                    lemma_record_is_unique(
                        self.shards(),
                        self.capacity(),
                        *identity,
                        shard as int,
                        slot as int,
                    );
                }
                Ok(self.shards[shard][slot])
            },
            None => Err(ClientError::CardUnknown),
        }
    }

    /// The address of `identity`.
    pub fn address(&self, identity: &PublicKey) -> (outcome: Result<Address, ClientError>)
        requires
            self.wf(),
        ensures
            outcome == address_outcome(self.shards(), *identity),
    {
        match self.lookup(identity) {
            Ok(card) => Ok(card.address),
            Err(_) => Err(ClientError::AddressUnknown),
        }
    }

    /// Serves one request of a session. A request that is not granted is
    /// answered, not failed: the session goes on.
    pub fn serve(&mut self, request: Request) -> (response: Response)
        requires
            old(self).wf(),
        ensures
            final(self).wf(),
            final(self).capacity() == old(self).capacity(),
            final(self).quorum() == old(self).quorum(),
            served(
                old(self).shards(),
                old(self).capacity(),
                old(self).quorum(),
                request,
                response,
                final(self).shards(),
            ),
    {
        match request {
            Request::Publish(card) => match self.publish(card) {
                Ok(()) => Response::Published,
                Err(error) => Response::Refused(error),
            },
            Request::Resolve(shard) => match self.resolve(shard) {
                Ok(cards) => Response::Shard(cards),
                Err(error) => Response::Refused(error),
            },
            Request::Lookup(identity) => match self.address(&identity) {
                Ok(address) => Response::Address(address),
                Err(error) => Response::Refused(error),
            },
        }
    }

    /// One turn of a session: what the server does with what came of waiting
    /// for the client's next request. Where the fuse was burned meanwhile,
    /// the session ends as interrupted and the request, if one came, is not
    /// begun; where the connection failed, the session ends with that
    /// failure; otherwise the request is served, whole, and the session goes
    /// on with the response.
    pub fn session(
        &mut self,
        burned: bool,
        received: Result<Request, PlainConnectionError>,
    ) -> (outcome: Result<Response, ServeError>)
        requires
            old(self).wf(),
        ensures
            final(self).wf(),
            final(self).capacity() == old(self).capacity(),
            final(self).quorum() == old(self).quorum(),
            burned ==> outcome == Err::<Response, ServeError>(
                ServeError::ServeInterrupted { source: FuseError::FuseBurned },
            ) && final(self).shards() == old(self).shards(),
            !burned ==> match received {
                Err(source) => outcome == Err::<Response, ServeError>(
                    ServeError::ConnectionError { source },
                ) && final(self).shards() == old(self).shards(),
                Ok(request) => outcome is Ok && served(
                    old(self).shards(),
                    old(self).capacity(),
                    old(self).quorum(),
                    request,
                    outcome->Ok_0,
                    final(self).shards(),
                ),
            },
    {
        if burned {
            Err(ServeError::ServeInterrupted { source: FuseError::FuseBurned })
        } else {
            match received {
                Err(source) => Err(ServeError::ConnectionError { source }),
                Ok(request) => Ok(self.serve(request)),
            }
        }
    }
}

} // verus!

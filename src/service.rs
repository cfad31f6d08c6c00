//! Profile management around the gateways: signers by profile, gateways
//! made from them, and the settings that list profiles and join homes.
use vstd::prelude::*;
use crate::dapp::DAppConnect;
use crate::gateway::{home_reachable, hosting_offer, DummyConnector, ProfileGateway};
use crate::home::register_outcome;
use crate::idmap::IdMap;
use crate::identity::{
    copy_proofs, proofs_view, ApplicationId, FacetView, HomeError, OwnProfile, OwnProfileView, ProfileFacet,
    ProfileId, RelationProof, RelationProofView,
};
use crate::signer::Signo;

verus! {

/// An action a distributed application asks the user to confirm.
#[derive(Debug, Clone, PartialEq, Eq, Hash)]
pub struct DAppAction(pub Vec<u8>);

/// A device's authorization to act for a user.
#[derive(Debug, Clone, PartialEq, Eq, Hash)]
pub struct DeviceAuthorization(pub Vec<u8>);

/// A permission granted to a distributed application.
#[derive(Debug, Clone, PartialEq, Eq, Hash)]
pub struct DAppPermission(pub Vec<u8>);

/// A path in a hierarchical deterministic key tree.
#[derive(Debug, Clone, PartialEq, Eq, Hash)]
pub struct Bip32Path(pub String);

/// The signers of the local profiles, by profile id.
pub struct SignerFactory {
    signers: IdMap<Signo>,
}

impl SignerFactory {
    pub closed spec fn wf(&self) -> bool {
        &&& self.signers.wf()
        &&& forall|k: Seq<u8>| #[trigger] self.signers.view().contains_key(k) ==> self.signers.view()[k].spec_profile_id() == k
    }

    /// Ids of the profiles a signer is known for.
    pub closed spec fn known(&self) -> Set<Seq<u8>> {
        self.signers.view().dom()
    }

    /// Public key of the signer of profile `id`.
    pub closed spec fn key_of(&self, id: Seq<u8>) -> Seq<u8> {
        self.signers.view()[id].spec_public_key()
    }

    pub fn new() -> (r: SignerFactory)
        ensures
            r.wf(),
            r.known() == Set::<Seq<u8>>::empty(),
    {
        SignerFactory { signers: IdMap::new() }
    }

    /// Keeps `signer` for its profile, replacing an earlier one.
    pub fn add(&mut self, signer: Signo)
        requires
            old(self).wf(),
        ensures
            final(self).wf(),
            final(self).known() == old(self).known().insert(signer.spec_profile_id()),
            final(self).key_of(signer.spec_profile_id()) == signer.spec_public_key(),
            forall|k: Seq<u8>| k != signer.spec_profile_id() && #[trigger] old(self).known().contains(k) ==> final(self).key_of(k) == old(self).key_of(k),
    {
        let id = signer.prof_id().copy();
        self.signers.insert(id, signer);
    }

    /// A copy of the signer of `profile_id`, if one is known.
    pub fn signer(&self, profile_id: &ProfileId) -> (r: Option<Signo>)
        requires
            self.wf(),
        ensures
            r is Some <==> self.known().contains(profile_id@),
            r matches Some(s) ==> s.spec_profile_id() == profile_id@ && s.spec_public_key() == self.key_of(profile_id@),
    {
        match self.signers.get(profile_id) {
            Some(s) => Some(s.copy()),
            None => None,
        }
    }
}

/// Makes a gateway for each local profile that has a signer.
pub struct ProfileGatewayFactory {
    pub signer_factory: SignerFactory,
}

impl ProfileGatewayFactory {
    /// A fresh gateway for `profile_id`; `None` when it has no signer.
    pub fn gateway(&self, profile_id: &ProfileId) -> (r: Option<ProfileGateway>)
        requires
            self.signer_factory.wf(),
        ensures
            r is Some <==> self.signer_factory.known().contains(profile_id@),
            r matches Some(g) ==> {
                &&& g.wf()
                &&& g.signer_id() == profile_id@
                &&& g.signer_key() == self.signer_factory.key_of(profile_id@)
                &&& g.cached_session() is None
            },
    {
        match self.signer_factory.signer(profile_id) {
            Some(signer) => Some(ProfileGateway::new(signer)),
            None => None,
        }
    }
}

/// Hands out application endpoints; the user interface picks the profile
/// an application acts as.
pub struct ServiceImpl {
    pub gateways: ProfileGatewayFactory,
}

impl ServiceImpl {
    /// The endpoint of `app` acting as `selected`, the profile the user
    /// picked; `NotFound` when that profile has no signer.
    pub fn dapp_endpoint(&self, selected: &ProfileId, app: &ApplicationId) -> (r: Result<DAppConnect, HomeError>)
        requires
            self.gateways.signer_factory.wf(),
        ensures
            r is Ok <==> self.gateways.signer_factory.known().contains(selected@),
            r matches Ok(d) ==> d.wf() && d.me() == selected@ && d.app_id() == app@,
            r matches Err(e) ==> e == HomeError::NotFound,
    {
        match self.gateways.gateway(selected) {
            Some(g) => Ok(DAppConnect::new(g, app)),
            None => Err(HomeError::NotFound),
        }
    }
}

/// The homes of a persona profile, or `None` for a home profile.
pub open spec fn persona_homes(own: OwnProfileView) -> Option<Seq<RelationProofView>> {
    match own.profile.facet {
        FacetView::Persona { homes, .. } => Some(homes),
        FacetView::Home { .. } => None,
    }
}

/// Settings of the local profiles: which exist, their own profiles, and the
/// homes they join.
pub struct SettingsImpl {
    my_profiles: Vec<ProfileId>,
    profile_store: IdMap<OwnProfile>,
    gateways: ProfileGatewayFactory,
}

impl SettingsImpl {
    pub closed spec fn wf(&self) -> bool {
        self.profile_store.wf() && self.gateways.signer_factory.wf()
    }

    pub closed spec fn profile_ids(&self) -> Seq<Seq<u8>> {
        self.my_profiles@.map_values(|p: ProfileId| p@)
    }

    pub closed spec fn stored(&self) -> Map<Seq<u8>, OwnProfile> {
        self.profile_store.view()
    }

    pub closed spec fn factory(&self) -> ProfileGatewayFactory {
        self.gateways
    }

    pub fn new(gateways: ProfileGatewayFactory) -> (r: SettingsImpl)
        requires
            gateways.signer_factory.wf(),
        ensures
            r.wf(),
            r.profile_ids() == Seq::<Seq<u8>>::empty(),
            r.stored() == Map::<Seq<u8>, OwnProfile>::empty(),
            r.factory() == gateways,
    {
        let r = SettingsImpl { my_profiles: Vec::new(), profile_store: IdMap::new(), gateways };
        assert(r.profile_ids() =~= Seq::<Seq<u8>>::empty());
        r
    }

    /// Adds a local profile, stored under its id.
    pub fn add_profile(&mut self, own: OwnProfile)
        requires
            old(self).wf(),
        ensures
            final(self).wf(),
            final(self).profile_ids() == old(self).profile_ids().push(own@.profile.id),
            final(self).stored() == old(self).stored().insert(own@.profile.id, own),
            final(self).factory() == old(self).factory(),
    {
        let ghost v = own@.profile.id;
        self.my_profiles.push(own.profile.id.copy());
        self.profile_store.insert(own.profile.id.copy(), own);
        assert(self.profile_ids() =~= old(self).profile_ids().push(v));
    }

    /// The own profiles of all local profiles, in order; `NotFound` when one
    /// of them is not stored.
    pub fn profiles(&self) -> (r: Result<Vec<OwnProfile>, HomeError>)
        requires
            self.wf(),
        ensures
            r is Ok <==> forall|i: int| 0 <= i < self.profile_ids().len() ==> #[trigger] self.stored().contains_key(self.profile_ids()[i]),
            r matches Ok(v) ==> v@.len() == self.profile_ids().len() && forall|i: int|
                0 <= i < v@.len() ==> #[trigger] v@[i]@ == self.stored()[self.profile_ids()[i]]@,
            r matches Err(e) ==> e == HomeError::NotFound,
    {
        let mut out: Vec<OwnProfile> = Vec::new();
        let mut i: usize = 0;
        while i < self.my_profiles.len()
            invariant
                self.wf(),
                0 <= i <= self.my_profiles@.len(),
                out@.len() == i,
                forall|j: int| 0 <= j < i ==> #[trigger] self.stored().contains_key(self.profile_ids()[j]),
                forall|j: int| 0 <= j < i ==> #[trigger] out@[j]@ == self.stored()[self.profile_ids()[j]]@,
            decreases self.my_profiles@.len() - i,
        {
            assert(self.profile_ids()[i as int] == self.my_profiles@[i as int]@);
            match self.profile_store.get(&self.my_profiles[i]) {
                Some(p) => out.push(p.copy()),
                None => {
                    assert(!self.stored().contains_key(self.profile_ids()[i as int]));
                    return Err(HomeError::NotFound);
                },
            }
            i = i + 1;
        }
        Ok(out)
    }

    /// The home proofs of the stored persona profile `profile_id`;
    /// `NotFound` when it is not stored or is not a persona.
    pub fn homes(&self, profile_id: &ProfileId) -> (r: Result<Vec<RelationProof>, HomeError>)
        requires
            self.wf(),
        ensures
            r is Ok <==> self.stored().contains_key(profile_id@) && persona_homes(self.stored()[profile_id@]@) is Some,
            r matches Ok(v) ==> Some(proofs_view(v@)) == persona_homes(self.stored()[profile_id@]@),
            r matches Err(e) ==> e == HomeError::NotFound,
    {
        match self.profile_store.get(profile_id) {
            None => Err(HomeError::NotFound),
            Some(own) => match &own.profile.facet {
                ProfileFacet::Persona(persona) => Ok(copy_proofs(&persona.homes)),
                ProfileFacet::Home(_) => Err(HomeError::NotFound),
            },
        }
    }

    /// Registers the stored profile `profile_id` on `home_id` through a
    /// gateway of its own, and stores the registered profile.
    pub fn join_home(&mut self, connector: &mut DummyConnector, profile_id: &ProfileId, home_id: &ProfileId) -> (r: Result<(), HomeError>)
        requires
            old(self).wf(),
            old(connector).home.wf(),
        ensures
            final(self).wf(),
            final(connector).home.wf(),
            !old(self).stored().contains_key(profile_id@) ==> r == Err::<(), HomeError>(HomeError::NotFound),
            r is Ok <==> {
                let own = old(self).stored()[profile_id@];
                let key = old(self).factory().signer_factory.key_of(profile_id@);
                &&& old(self).stored().contains_key(profile_id@)
                &&& old(self).factory().signer_factory.known().contains(profile_id@)
                &&& home_reachable(old(connector).home, home_id@)
                &&& register_outcome(
                    old(connector).home.profiles().dom(),
                    old(connector).home.home_id(),
                    old(connector).home.home_key(),
                    own@,
                    hosting_offer(profile_id@, key, home_id@),
                ) is Ok
            },
            r is Ok ==> {
                let own = old(self).stored()[profile_id@];
                let key = old(self).factory().signer_factory.key_of(profile_id@);
                &&& old(self).factory().signer_factory.known().contains(profile_id@)
                &&& home_reachable(old(connector).home, home_id@)
                &&& register_outcome(
                    old(connector).home.profiles().dom(),
                    old(connector).home.home_id(),
                    old(connector).home.home_key(),
                    own@,
                    hosting_offer(profile_id@, key, home_id@),
                ) is Ok
                &&& final(self).stored().dom() == old(self).stored().dom()
                &&& Ok::<OwnProfileView, HomeError>(final(self).stored()[profile_id@]@) == register_outcome(
                    old(connector).home.profiles().dom(),
                    old(connector).home.home_id(),
                    old(connector).home.home_key(),
                    own@,
                    hosting_offer(profile_id@, key, home_id@),
                )
            },
            r is Ok ==> {
                let home = old(connector).home;
                &&& final(connector).home.profiles() == home.profiles().insert(
                    profile_id@,
                    final(connector).home.profiles()[profile_id@],
                )
                &&& final(connector).home.profiles()[profile_id@]@ == final(self).stored()[profile_id@]@.profile
                &&& final(connector).home.private_data() == home.private_data().insert(
                    profile_id@,
                    final(connector).home.private_data()[profile_id@],
                )
                &&& final(connector).home.private_data()[profile_id@]@ == final(self).stored()[profile_id@]@.private_data
                &&& final(connector).home.same_traffic(&home)
            },
            r is Err ==> final(self).stored() == old(self).stored() && *final(connector) == *old(connector),
            final(self).profile_ids() == old(self).profile_ids(),
            final(self).factory() == old(self).factory(),
    {
        let own = match self.profile_store.get(profile_id) {
            None => {
                return Err(HomeError::NotFound);
            },
            Some(p) => p.copy(),
        };
        let mut gateway = match self.gateways.gateway(profile_id) {
            None => {
                return Err(HomeError::NotFound);
            },
            Some(g) => g,
        };
        match gateway.register(connector, home_id, own, None) {
            Err((_own, e)) => Err(e),
            Ok(registered) => {
                self.profile_store.insert(profile_id.copy(), registered);
                assert(self.stored().dom() =~= old(self).stored().dom());
                Ok(())
            },
        }
    }
}

} // verus!

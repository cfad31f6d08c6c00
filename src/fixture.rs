//! A ready-made home and user for exercising the protocol: a home reachable
//! at a local address, and a persona with its own gateway.
use vstd::prelude::*;
use crate::codec::multiaddr_bytes;
use crate::gateway::{home_reachable, DummyConnector, ProfileGateway};
use crate::home::MyDummyHome;
use crate::identity::{FacetView, OwnProfile, Profile, ProfileId};
use crate::signer::{create_ownprofile, make_home_profile, make_own_persona_profile, Signo};
use crate::store::ProfileStore;

verus! {

pub struct TestSetup {
    pub homeprofile: Profile,
    pub homeprofileid: ProfileId,
    pub homesigner: Signo,
    pub homeaddr: String,
    pub connector: DummyConnector,
    pub user: Profile,
    pub userid: ProfileId,
    pub usersigner: Signo,
    pub userownprofile: OwnProfile,
    pub profilegate: ProfileGateway,
}

impl TestSetup {
    /// The home of signer `homesigner` at `/ip4/127.0.0.1/udp/9876`, storing
    /// its own profile, and the persona of signer `Deusz`, not yet
    /// registered; `None` when the address does not parse.
    pub fn setup() -> (r: Option<TestSetup>)
        ensures
            r is Some <==> multiaddr_bytes("/ip4/127.0.0.1/udp/9876"@) is Some,
            r matches Some(t) ==> {
                &&& t.connector.home.wf()
                &&& t.connector.home.own_profile()@ == t.homeprofile@
                &&& t.homeprofile@.id == t.homeprofileid@
                &&& t.homeprofile@.public_key == t.homesigner.spec_public_key()
                &&& t.homeaddr@ == "/ip4/127.0.0.1/udp/9876"@
                &&& t.homeprofile@.facet == (FacetView::Home {
                    addrs: seq![multiaddr_bytes("/ip4/127.0.0.1/udp/9876"@)->Some_0],
                    data: Seq::empty(),
                })
                &&& t.connector.home.profiles()[t.homeprofileid@]@ == t.homeprofile@
                &&& t.homeprofileid@ == t.homesigner.spec_profile_id()
                &&& t.connector.home.profiles().dom() == set![t.homeprofileid@]
                &&& home_reachable(t.connector.home, t.homeprofileid@)
                &&& t.user@ == t.userownprofile@.profile
                &&& t.userownprofile@.private_data == Seq::<u8>::empty()
                &&& t.user@.facet == (FacetView::Persona { homes: Seq::empty(), data: Seq::empty() })
                &&& t.user@.id == t.userid@
                &&& t.userid@ == t.usersigner.spec_profile_id()
                &&& t.user@.public_key == t.usersigner.spec_public_key()
                &&& t.profilegate.wf()
                &&& t.profilegate.signer_id() == t.userid@
                &&& t.profilegate.signer_key() == t.usersigner.spec_public_key()
                &&& t.profilegate.cached_session() is None
            },
    {
        let homesigner = Signo::new("homesigner");
        let homeaddr = "/ip4/127.0.0.1/udp/9876".to_owned();
        let homeprof = match make_home_profile(homeaddr.as_str(), homesigner.pub_key()) {
            Some(p) => p,
            None => {
                return None;
            },
        };
        let homeprofileid = homeprof.id.copy();
        let usersigner = Signo::new("Deusz");
        let user = make_own_persona_profile(usersigner.pub_key());
        let userid = user.id.copy();
        let userownprofile = create_ownprofile(user.copy());
        let mut dht = ProfileStore::new();
        dht.insert(homeprofileid.copy(), homeprof.copy());
        assert(dht.view().dom() =~= set![homeprofileid@]);
        let home = match MyDummyHome::new(homeprof.copy(), homesigner.copy(), dht) {
            Some(h) => h,
            None => {
                return None;
            },
        };
        let profilegate = ProfileGateway::new(usersigner.copy());
        let connector = DummyConnector::new_with_home(home);
        Some(
            TestSetup {
                homeprofile: homeprof,
                homeprofileid,
                homesigner,
                homeaddr,
                connector,
                user,
                userid,
                usersigner,
                userownprofile,
                profilegate,
            },
        )
    }
}

} // verus!

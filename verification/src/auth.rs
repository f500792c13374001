//! The credential store that a session consults during method negotiation.

use crate::text::{fields, split, texts};
use vstd::hash_map::StringHashMap;
use vstd::prelude::*;

verus! {

/// How clients have to authenticate.
#[derive(Clone, Copy, PartialEq, Eq, Structural, Debug)]
pub enum AuthMode {
    /// Every client is accepted.
    NoAuth,
    /// A client has to present a login and its password.
    LoginPassword,
}

/// The credential store: an operating mode and, for `LoginPassword`, the
/// password of each known login. It is built once and only read afterwards.
pub struct Auth {
    /// Whether clients have to authenticate.
    pub mode: AuthMode,
    /// The password of each known login.
    pub credentials: StringHashMap<String>,
}

/// What an [`Auth`] stands for: its mode and the map from login to password.
pub struct AuthModel {
    /// Whether clients have to authenticate.
    pub mode: AuthMode,
    /// The password of each known login.
    pub credentials: Map<Seq<char>, Seq<char>>,
}

impl AuthModel {
    /// Whether the store lets `login` in with `password`.
    pub open spec fn authorizes(self, login: Seq<char>, password: Seq<char>) -> bool {
        self.mode == AuthMode::NoAuth || (self.credentials.contains_key(login)
            && self.credentials[login] == password)
    }
}

impl View for Auth {
    type V = AuthModel;

    open spec fn view(&self) -> AuthModel {
        AuthModel {
            mode: self.mode,
            credentials: self.credentials@.map_values(|password: String| password@),
        }
    }
}

/// The passwords by login that a list of entries gives. Each entry is
/// `login:password`; what follows a second colon is not read. A later entry
/// for a login replaces an earlier one. An entry without a colon spoils the
/// list.
pub open spec fn credentials_of(entries: Seq<Seq<char>>) -> Option<Map<Seq<char>, Seq<char>>>
    decreases entries.len(),
{
    if entries.len() == 0 {
        Some(Map::empty())
    } else {
        let entry = fields(entries.last(), ':');
        match credentials_of(entries.drop_last()) {
            Some(known) if entry.len() >= 2 => Some(known.insert(entry[0], entry[1])),
            _ => None,
        }
    }
}

/// The store that a credential configuration describes, if it describes one.
/// The empty configuration asks for no authentication. Any other is a list
/// `login1:password1;login2:password2;...` and asks for one of its pairs.
pub open spec fn store_of(configuration: Seq<char>) -> Option<AuthModel> {
    if configuration.len() == 0 {
        Some(AuthModel { mode: AuthMode::NoAuth, credentials: Map::empty() })
    } else {
        match credentials_of(fields(configuration, ';')) {
            Some(credentials) => Some(AuthModel { mode: AuthMode::LoginPassword, credentials }),
            None => None,
        }
    }
}

/// Builds the credential store from its configuration, or returns `None`
/// where an entry of the configuration lacks its colon.
pub fn init(credentials: &str) -> (auth: Option<Auth>)
    ensures
        match store_of(credentials@) {
            Some(store) => auth matches Some(built) && built@.mode == store.mode
                && built@.credentials =~= store.credentials,
            None => auth is None,
        },
{
    let mut parsed = StringHashMap::<String>::new();
    if credentials.is_empty() {
        return Some(Auth { mode: AuthMode::NoAuth, credentials: parsed });
    }
    let entries = split(credentials, ';');
    let mut i: usize = 0;
    while i < entries.len()
        invariant
            i <= entries@.len(),
            credentials@.len() != 0,
            texts(entries@) == fields(credentials@, ';'),
            credentials_of(texts(entries@).take(i as int)) == Some(
                parsed@.map_values(|password: String| password@),
            ),
        decreases entries@.len() - i,
    {
        let entry = split(entries[i].as_str(), ':');
        proof {
            let read = texts(entries@).take(i + 1);
            assert(read.drop_last() =~= texts(entries@).take(i as int));
        }
        if entry.len() < 2 {
            proof {
                lemma_spoiled(texts(entries@), i + 1);
            }
            return None;
        }
        let ghost before = parsed@;
        parsed.insert(entry[0].clone(), entry[1].clone());
        proof {
            assert(parsed@.map_values(|password: String| password@) =~= before.map_values(
                |password: String| password@,
            ).insert(entry@[0]@, entry@[1]@));
        }
        i += 1;
    }
    proof {
        assert(texts(entries@).take(entries@.len() as int) =~= texts(entries@));
    }
    Some(Auth { mode: AuthMode::LoginPassword, credentials: parsed })
}

/// A list that is spoiled after its first `upto` entries is spoiled as a
/// whole.
proof fn lemma_spoiled(entries: Seq<Seq<char>>, upto: int)
    requires
        0 <= upto <= entries.len(),
        credentials_of(entries.take(upto)) is None,
    ensures
        credentials_of(entries) is None,
    decreases entries.len() - upto,
{
    if upto < entries.len() {
        assert(entries.take(upto + 1).drop_last() =~= entries.take(upto));
        lemma_spoiled(entries, upto + 1);
    } else {
        assert(entries.take(upto) =~= entries);
    }
}

impl Auth {
    /// Checks a login and password against the store. Without authentication
    /// every pair passes; otherwise the login has to be known and its stored
    /// password has to equal `password` exactly.
    pub fn check_auth(&self, login: String, password: String) -> (granted: bool)
        ensures
            granted == self@.authorizes(login@, password@),
    {
        if self.mode == AuthMode::NoAuth {
            return true;
        }
        match self.credentials.get(login.as_str()) {
            Some(stored) => *stored == password,
            None => false,
        }
    }
}

} // verus!

//! The account service's session snapshot and the launch configuration built
//! from it.
use vstd::prelude::*;

use crate::endpoint::{find_written_port, written_port};
use crate::error::Error;
use crate::kinds::{stall_from_name, stall_named, CliFlags, MezFesStall, MhfVersion};

verus! {

/// Port of the sign server, used when the endpoint names none.
pub const DEFAULT_SIGN_PORT: u32 = 53312;

/// A message shown by the launcher.
#[derive(Debug)]
pub struct Notice {
    pub flags: u16,
    pub data: String,
}

/// The session part of a login answer.
#[derive(Debug)]
pub struct User {
    pub token_id: u32,
    pub token: String,
    pub rights: u32,
}

/// A playable character of an account.
#[derive(Debug)]
pub struct Character {
    pub id: u32,
    pub name: String,
    pub is_female: bool,
    pub weapon: u32,
    pub hr: u32,
    pub gr: u32,
    /// Last login time; zero or less when the character never logged in.
    pub last_login: i32,
}

impl Character {
    /// A field-by-field copy.
    pub fn copied(&self) -> (r: Character)
        ensures
            r == *self,
    {
        Character {
            id: self.id,
            name: self.name.clone(),
            is_female: self.is_female,
            weapon: self.weapon,
            hr: self.hr,
            gr: self.gr,
            last_login: self.last_login,
        }
    }
}

/// The festival event window of a login answer.
#[derive(Debug)]
pub struct MezFes {
    pub id: u32,
    pub start: u32,
    pub end: u32,
    pub solo_tickets: u32,
    pub group_tickets: u32,
    /// Stall kinds by server name, in the server's order.
    pub stalls: Vec<String>,
}

/// What the account service answers to a login or a registration: the
/// session snapshot.
#[derive(Debug)]
pub struct LoginResponse {
    pub current_ts: u32,
    pub expiry_ts: u32,
    pub entrance_count: u32,
    pub notices: Vec<Notice>,
    pub user: User,
    pub characters: Vec<Character>,
    pub mez_fes: MezFes,
    pub patch_server: String,
}

/// The launch configuration read by the launcher.
#[derive(Debug, Default)]
pub struct MhfConfig {
    pub char_id: u32,
    pub char_name: String,
    pub char_gr: u32,
    pub char_hr: u32,
    pub char_ids: Vec<u32>,
    pub char_new: bool,
    pub user_token_id: u32,
    pub user_token: String,
    pub user_name: String,
    pub user_password: String,
    pub user_rights: u32,
    pub server_host: String,
    pub server_port: u32,
    pub entrance_count: u32,
    pub current_ts: u32,
    pub expiry_ts: u32,
    pub notices: Vec<Notice>,
    pub mez_event_id: u32,
    pub mez_start: u32,
    pub mez_end: u32,
    pub mez_solo_tickets: u32,
    pub mez_group_tickets: u32,
    pub mez_stalls: Vec<MezFesStall>,
    pub version: MhfVersion,
    /// Install folder; set by the launcher only.
    pub mhf_folder: Option<String>,
    /// Extra client switches; set by the launcher only.
    pub mhf_flags: Option<Vec<CliFlags>>,
}

/// The texts held by a sequence of strings.
pub open spec fn texts(v: Seq<String>) -> Seq<Seq<char>> {
    v.map_values(|s: String| s@)
}

/// The recognised stalls among `names`, in their order; unknown names are
/// left out.
pub open spec fn known_stalls(names: Seq<Seq<char>>) -> Seq<MezFesStall>
    decreases names.len(),
{
    if names.len() == 0 {
        Seq::empty()
    } else {
        let front = known_stalls(names.drop_last());
        match stall_named(names.last()) {
            Some(s) => front.push(s),
            None => front,
        }
    }
}

/// Mapping stall names commutes with concatenation: the recognised stalls of
/// two lists in a row are those of the first followed by those of the second,
/// so the order of the server's list is kept.
pub proof fn lemma_known_stalls_append(a: Seq<Seq<char>>, b: Seq<Seq<char>>)
    ensures
        known_stalls(a + b) == known_stalls(a) + known_stalls(b),
    decreases b.len(),
{
    if b.len() == 0 {
        assert(a + b =~= a);
        assert(known_stalls(a) + known_stalls(b) =~= known_stalls(a));
    } else {
        lemma_known_stalls_append(a, b.drop_last());
        assert((a + b).drop_last() =~= a + b.drop_last());
        assert((a + b).last() == b.last());
        match stall_named(b.last()) {
            Some(st) => {
                assert(known_stalls(a) + known_stalls(b.drop_last()).push(st) =~= (known_stalls(a)
                    + known_stalls(b.drop_last())).push(st));
            },
            None => {},
        }
    }
}

/// A stall name outside the closed enumeration leaves no trace: removing it
/// from the server's list leaves the mapped list unchanged.
pub proof fn lemma_unknown_stall_dropped(a: Seq<Seq<char>>, name: Seq<char>, b: Seq<Seq<char>>)
    requires
        stall_named(name) is None,
    ensures
        known_stalls(a + seq![name] + b) == known_stalls(a + b),
{
    lemma_known_stalls_append(a + seq![name], b);
    lemma_known_stalls_append(a, seq![name]);
    lemma_known_stalls_append(a, b);
    assert(seq![name].drop_last() =~= Seq::<Seq<char>>::empty());
    assert(seq![name].last() == name);
    assert(known_stalls(Seq::<Seq<char>>::empty()) =~= Seq::<MezFesStall>::empty());
    assert(known_stalls(seq![name]) =~= Seq::<MezFesStall>::empty());
    assert(known_stalls(a) + known_stalls(seq![name]) =~= known_stalls(a));
}

/// Every mapped stall comes from a name in the list that the server sent.
pub proof fn lemma_known_stall_has_name(names: Seq<Seq<char>>, i: int)
    requires
        0 <= i < known_stalls(names).len(),
    ensures
        exists|j: int| 0 <= j < names.len() && stall_named(names[j]) == Some(known_stalls(names)[i]),
    decreases names.len(),
{
    let front = known_stalls(names.drop_last());
    if i < front.len() {
        lemma_known_stall_has_name(names.drop_last(), i);
        let j = choose|j: int|
            0 <= j < names.drop_last().len() && stall_named(names.drop_last()[j]) == Some(front[i]);
        assert(names[j] == names.drop_last()[j]);
    } else {
        assert(stall_named(names[names.len() - 1]) == Some(known_stalls(names)[i]));
    }
}

/// The ids of `chars`, in order.
pub open spec fn ids_of(chars: Seq<Character>) -> Seq<u32> {
    chars.map_values(|c: Character| c.id)
}

/// The sign-server port: the endpoint's explicit port, else the default.
pub open spec fn port_or_default(port: Option<u16>) -> u32 {
    match port {
        Some(p) => p as u32,
        None => DEFAULT_SIGN_PORT,
    }
}

/// `cfg` is the configuration for the session `login`, the character `ch`
/// selected under id `char_id`, and the sign server at `host` and `port`.
pub open spec fn describes(
    cfg: MhfConfig,
    host: Seq<char>,
    port: Option<u16>,
    login: LoginResponse,
    char_id: u32,
    ch: Character,
) -> bool {
    &&& cfg.char_id == char_id
    &&& cfg.char_name@ == ch.name@
    &&& cfg.char_gr == ch.gr
    &&& cfg.char_hr == ch.hr
    &&& cfg.char_ids@ == ids_of(login.characters@)
    &&& !cfg.char_new
    &&& cfg.user_token_id == login.user.token_id
    &&& cfg.user_token@ == login.user.token@
    &&& cfg.user_name@.len() == 0
    &&& cfg.user_password@.len() == 0
    &&& cfg.user_rights == login.user.rights
    &&& cfg.server_host@ == host
    &&& cfg.server_port == port_or_default(port)
    &&& cfg.entrance_count == login.entrance_count
    &&& cfg.current_ts == login.current_ts
    &&& cfg.expiry_ts == login.expiry_ts
    &&& cfg.notices == login.notices
    &&& cfg.mez_event_id == login.mez_fes.id
    &&& cfg.mez_start == login.mez_fes.start
    &&& cfg.mez_end == login.mez_fes.end
    &&& cfg.mez_solo_tickets == login.mez_fes.solo_tickets
    &&& cfg.mez_group_tickets == login.mez_fes.group_tickets
    &&& cfg.mez_stalls@ == known_stalls(texts(login.mez_fes.stalls@))
    &&& cfg.version == MhfVersion::ZZ
    &&& cfg.mhf_folder is None
    &&& cfg.mhf_flags is None
}

/// Maps server stall names to stall kinds, dropping names outside the closed
/// enumeration and keeping the order of the others.
pub fn map_stalls(names: &Vec<String>) -> (r: Vec<MezFesStall>)
    ensures
        r@ == known_stalls(texts(names@)),
{
    let ghost all = texts(names@);
    let mut out: Vec<MezFesStall> = Vec::new();
    let mut i: usize = 0;
    while i < names.len()
        invariant
            i <= names@.len(),
            all == texts(names@),
            out@ == known_stalls(all.take(i as int)),
        decreases names@.len() - i,
    {
        assert(all.take(i + 1).drop_last() =~= all.take(i as int));
        assert(all.take(i + 1).last() == names@[i as int]@);
        match stall_from_name(names[i].as_str()) {
            Some(s) => out.push(s),
            None => {},
        }
        i += 1;
    }
    assert(all.take(i as int) =~= all);
    out
}

/// The ids of the characters of a session snapshot, in order.
pub fn char_ids(chars: &Vec<Character>) -> (r: Vec<u32>)
    ensures
        r@ == ids_of(chars@),
{
    let mut out: Vec<u32> = Vec::new();
    let mut i: usize = 0;
    while i < chars.len()
        invariant
            i <= chars@.len(),
            out@ =~= ids_of(chars@.take(i as int)),
        decreases chars@.len() - i,
    {
        out.push(chars[i].id);
        i += 1;
        assert(ids_of(chars@.take(i as int)) =~= ids_of(chars@.take(i - 1)).push(chars@[i - 1].id));
    }
    assert(chars@.take(i as int) =~= chars@);
    out
}

/// The launch configuration for a sign server already resolved to `host` and
/// an optional explicit `port`.
pub fn build_from_parts(
    host: String,
    port: Option<u16>,
    login: LoginResponse,
    char_id: u32,
    ch: &Character,
) -> (r: MhfConfig)
    ensures
        describes(r, host@, port, login, char_id, *ch),
{
    let server_port: u32 = match port {
        Some(p) => p as u32,
        None => DEFAULT_SIGN_PORT,
    };
    let ids = char_ids(&login.characters);
    let stalls = map_stalls(&login.mez_fes.stalls);
    MhfConfig {
        char_id,
        char_name: ch.name.clone(),
        char_gr: ch.gr,
        char_hr: ch.hr,
        char_ids: ids,
        char_new: false,
        user_token_id: login.user.token_id,
        user_token: login.user.token,
        user_name: String::new(),
        user_password: String::new(),
        user_rights: login.user.rights,
        server_host: host,
        server_port,
        entrance_count: login.entrance_count,
        current_ts: login.current_ts,
        expiry_ts: login.expiry_ts,
        notices: login.notices,
        mez_event_id: login.mez_fes.id,
        mez_start: login.mez_fes.start,
        mez_end: login.mez_fes.end,
        mez_solo_tickets: login.mez_fes.solo_tickets,
        mez_group_tickets: login.mez_fes.group_tickets,
        mez_stalls: stalls,
        version: MhfVersion::ZZ,
        mhf_folder: None,
        mhf_flags: None,
    }
}

/// Whether the URL parser accepts `s`.
pub uninterp spec fn url_parses(s: Seq<char>) -> bool;

/// The host of the URL `s`, if it has one.
pub uninterp spec fn url_host(s: Seq<char>) -> Option<Seq<char>>;

/// The explicit port of the URL `s`, if it names one other than its scheme's
/// default.
pub uninterp spec fn url_port(s: Seq<char>) -> Option<u16>;

/// The sign-server port that the endpoint `s` names: the parser's explicit
/// port, else the port written in its text (which the parser leaves out when
/// it is the scheme's default).
pub open spec fn endpoint_port(s: Seq<char>) -> Option<u16> {
    match url_port(s) {
        Some(p) => Some(p),
        None => written_port(s),
    }
}

/// The text of an optional string.
pub open spec fn opt_text(o: Option<String>) -> Option<Seq<char>> {
    match o {
        Some(s) => Some(s@),
        None => None,
    }
}

/// Relies on reqwest::Url, the url crate's `Url`: `Url::parse` accepts or
/// refuses the endpoint, `Url::host_str` gives its host and `Url::port` its
/// explicit port.
#[verifier::external_body]
fn endpoint_parts(server: &str) -> (r: Option<(Option<String>, Option<u16>)>)
    ensures
        r is Some <==> url_parses(server@),
        r matches Some(parts) ==> opt_text(parts.0) == url_host(server@),
        r matches Some(parts) ==> parts.1 == url_port(server@),
{
    match reqwest::Url::parse(server) {
        Ok(u) => Some((u.host_str().map(String::from), u.port())),
        Err(_) => None,
    }
}

/// The launch configuration for the session `login` and the character `ch`
/// selected under `char_id`, with the sign server taken from the endpoint
/// `server`. An endpoint that does not parse, or names no host, is refused.
pub fn build_config(server: &str, login: LoginResponse, char_id: u32, ch: &Character) -> (r: Result<
    MhfConfig,
    Error,
>)
    ensures
        !url_parses(server@) || url_host(server@) is None ==> r matches Err(Error::InvalidServerUrl),
        url_parses(server@) ==> match url_host(server@) {
            Some(host) => (r matches Ok(cfg) && describes(
                cfg,
                host,
                endpoint_port(server@),
                login,
                char_id,
                *ch,
            )),
            None => true,
        },
        url_parses(server@) && url_host(server@) is Some && endpoint_port(server@) is None ==> (r matches Ok(
            cfg,
        ) && cfg.server_port == DEFAULT_SIGN_PORT),
{
    match endpoint_parts(server) {
        None => Err(Error::InvalidServerUrl),
        Some((None, _)) => Err(Error::InvalidServerUrl),
        Some((Some(host), port)) => {
            let port = match port {
                Some(p) => Some(p),
                None => find_written_port(server),
            };
            Ok(build_from_parts(host, port, login, char_id, ch))
        },
    }
}

} // verus!

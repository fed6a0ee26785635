//! The bootstrap as a state machine: the caller performs each action (a
//! request, a menu, a write) and hands the outcome back as an event.
use vstd::prelude::*;

use crate::account::{
    auth_request, create_character_request, credentials_json, token_json, url_of, AuthMode,
    Request,
};
use crate::config::{
    build_config, describes, endpoint_port, ids_of, url_host, url_parses, Character, LoginResponse, MhfConfig,
};
use crate::error::{Error, RequestKind};
use crate::{launchable, run, token_launchable};

verus! {

/// Where a bootstrap stands.
#[derive(Debug)]
pub enum Bootstrap {
    /// Waiting for the answer to the login or registration request.
    Authenticating { server: String },
    /// Waiting for the user's choice among the menu of characters.
    Choosing { server: String, login: LoginResponse },
    /// Waiting for the answer to the character-creation request.
    Creating { server: String, login: LoginResponse },
    /// Waiting for the configuration to be written.
    Saving,
    /// The configuration is written.
    Done,
    /// The bootstrap stopped on an error.
    Failed,
}

/// What the caller is to do next.
#[derive(Debug)]
pub enum Action {
    /// Send the request and report its decoded answer.
    Send(Request),
    /// Show the characters, followed by one more entry that creates a new
    /// character, and report the index of the chosen entry.
    ChooseCharacter(Vec<Character>),
    /// Write the configuration and report when it is written.
    Save(MhfConfig),
    /// Nothing is left to do.
    Finish,
    /// Stop with the error.
    Abort(Error),
}

/// The outcome of an action.
#[derive(Debug)]
pub enum Event {
    /// The login or registration answer, decoded.
    LoggedIn(LoginResponse),
    /// The index of the chosen menu entry.
    Selected(usize),
    /// The character-creation answer, decoded.
    Created(Character),
    /// The configuration was written.
    Saved,
    /// The action failed.
    Failed(Error),
}

/// `action` sends a character-creation request for the session `login` to
/// the endpoint `server`.
pub open spec fn sends_creation(action: Action, server: Seq<char>, login: LoginResponse) -> bool {
    action matches Action::Send(req) && req.kind == RequestKind::CreateCharacter && req.url@
        == url_of(server, RequestKind::CreateCharacter) && req.body@ == token_json(login.user.token@)
}

/// The step that follows once the session `login` and the character `ch`,
/// selected under `char_id`, are known: refuse a session token of the wrong
/// length, then build the configuration and have it written, unless the
/// endpoint is unusable.
pub open spec fn settles(
    r: (Bootstrap, Action),
    server: Seq<char>,
    login: LoginResponse,
    char_id: u32,
    ch: Character,
) -> bool {
    if login.user.token@.len() != crate::TOKEN_LEN {
        r.0 is Failed && r.1 matches Action::Abort(Error::TokenLength)
    } else if !url_parses(server) || url_host(server) is None {
        r.0 is Failed && r.1 matches Action::Abort(Error::InvalidServerUrl)
    } else {
        r.0 is Saving && (r.1 matches Action::Save(cfg) && describes(
            cfg,
            url_host(server)->0,
            endpoint_port(server),
            login,
            char_id,
            ch,
        ))
    }
}

/// One transition of the bootstrap: from `b` on `e` to the stage and the
/// action of `r`.
pub open spec fn steps_to(b: Bootstrap, e: Event, r: (Bootstrap, Action)) -> bool {
    match e {
        Event::Failed(err) => r.0 is Failed && r.1 == Action::Abort(err),
        Event::LoggedIn(login) => match b {
            Bootstrap::Authenticating { server } => if login.characters.len() == 0 {
                r.0 == (Bootstrap::Creating { server, login }) && sends_creation(r.1, server@, login)
            } else {
                r.0 == (Bootstrap::Choosing { server, login }) && (r.1 matches Action::ChooseCharacter(
                    list,
                ) && list@ == login.characters@)
            },
            _ => r.0 is Failed && r.1 matches Action::Abort(Error::UnexpectedEvent),
        },
        Event::Selected(i) => match b {
            Bootstrap::Choosing { server, login } => if i < login.characters.len() {
                settles(r, server@, login, login.characters@[i as int].id, login.characters@[i as int])
            } else if i == login.characters.len() {
                r.0 == (Bootstrap::Creating { server, login }) && sends_creation(r.1, server@, login)
            } else {
                r.0 is Failed && (r.1 matches Action::Abort(Error::InvalidSelection(j)) && j == i)
            },
            _ => r.0 is Failed && r.1 matches Action::Abort(Error::UnexpectedEvent),
        },
        Event::Created(ch) => match b {
            Bootstrap::Creating { server, login } => settles(r, server@, login, ch.id, ch),
            _ => r.0 is Failed && r.1 matches Action::Abort(Error::UnexpectedEvent),
        },
        Event::Saved => match b {
            Bootstrap::Saving => r.0 is Done && r.1 is Finish,
            _ => r.0 is Failed && r.1 matches Action::Abort(Error::UnexpectedEvent),
        },
    }
}

/// Picking an existing character from the menu yields a configuration whose
/// selected character id is one of the session's character ids.
pub proof fn lemma_selected_id_listed(b: Bootstrap, e: Event, r: (Bootstrap, Action))
    requires
        steps_to(b, e, r),
        b matches Bootstrap::Choosing { login, .. } && (e matches Event::Selected(i) && i
            < login.characters.len()),
    ensures
        r.1 matches Action::Save(cfg) ==> cfg.char_ids@.contains(cfg.char_id),
{
    if let Bootstrap::Choosing { login, .. } = b {
        if let Event::Selected(i) = e {
            if let Action::Save(cfg) = r.1 {
                assert(ids_of(login.characters@)[i as int] == cfg.char_id);
            }
        }
    }
}

/// No bootstrap step asks for a configuration to be written unless its
/// session token has the launch length: a session whose token is of another
/// length never reaches the write.
pub proof fn lemma_saved_config_launchable(b: Bootstrap, e: Event, r: (Bootstrap, Action))
    requires
        steps_to(b, e, r),
    ensures
        r.1 matches Action::Save(cfg) ==> launchable(cfg),
{
}

/// A session whose token is not of launch length ends with `TokenLength` at
/// the step where its character becomes known, whatever the endpoint.
pub proof fn lemma_short_token_aborts(b: Bootstrap, e: Event, r: (Bootstrap, Action))
    requires
        steps_to(b, e, r),
        (b matches Bootstrap::Choosing { login, .. } && (e matches Event::Selected(i) && i
            < login.characters.len() && login.user.token@.len() != crate::TOKEN_LEN)) || (
        b matches Bootstrap::Creating { login, .. } && (e is Created && login.user.token@.len()
            != crate::TOKEN_LEN)),
    ensures
        r.0 is Failed,
        r.1 matches Action::Abort(Error::TokenLength),
{
}

/// A field-by-field copy of a list of characters.
pub fn copy_characters(chars: &Vec<Character>) -> (r: Vec<Character>)
    ensures
        r@ == chars@,
{
    let mut out: Vec<Character> = Vec::new();
    let mut i: usize = 0;
    while i < chars.len()
        invariant
            i <= chars@.len(),
            out@ =~= chars@.take(i as int),
        decreases chars@.len() - i,
    {
        out.push(chars[i].copied());
        i += 1;
    }
    assert(chars@.take(i as int) =~= chars@);
    out
}

/// Refuses a session token that cannot launch, else builds the configuration
/// for the selected character and asks for it to be written.
fn settle(server: String, login: LoginResponse, char_id: u32, ch: &Character) -> (r: (
    Bootstrap,
    Action,
))
    ensures
        settles(r, server@, login, char_id, *ch),
{
    if !token_launchable(login.user.token.as_str()) {
        return (Bootstrap::Failed, Action::Abort(Error::TokenLength));
    }
    let ghost snapshot = login;
    match build_config(server.as_str(), login, char_id, ch) {
        Err(e) => (Bootstrap::Failed, Action::Abort(e)),
        Ok(cfg) => {
            assert(cfg.user_token@ == snapshot.user.token@);
            match run(cfg) {
                Ok(cfg) => (Bootstrap::Saving, Action::Save(cfg)),
                Err(e) => (Bootstrap::Failed, Action::Abort(e)),
            }
        },
    }
}

impl Bootstrap {
    /// Starts a bootstrap against the endpoint `server`: the first action
    /// sends the credentials to log in or to register.
    pub fn start(server: &str, mode: AuthMode, username: &str, password: &str) -> (r: (
        Bootstrap,
        Action,
    ))
        ensures
            r.0 matches Bootstrap::Authenticating { server: s } && s@ == server@,
            r.1 matches Action::Send(req) && req.kind == mode.spec_kind() && req.url@ == url_of(
                server@,
                mode.spec_kind(),
            ) && req.body@ == credentials_json(username@, password@),
    {
        let req = auth_request(server, mode, username, password);
        (Bootstrap::Authenticating { server: server.to_owned() }, Action::Send(req))
    }

    /// Moves the bootstrap on by one event. A failure reported by the caller
    /// ends it with that error; an event that the current stage does not wait
    /// for ends it too.
    pub fn step(self, event: Event) -> (r: (Bootstrap, Action))
        ensures
            steps_to(self, event, r),
    {
        match event {
            Event::Failed(err) => (Bootstrap::Failed, Action::Abort(err)),
            Event::LoggedIn(login) => match self {
                Bootstrap::Authenticating { server } => {
                    if login.characters.len() == 0 {
                        let req = create_character_request(server.as_str(), login.user.token.as_str());
                        (Bootstrap::Creating { server, login }, Action::Send(req))
                    } else {
                        let list = copy_characters(&login.characters);
                        (Bootstrap::Choosing { server, login }, Action::ChooseCharacter(list))
                    }
                },
                _ => (Bootstrap::Failed, Action::Abort(Error::UnexpectedEvent)),
            },
            Event::Selected(i) => match self {
                Bootstrap::Choosing { server, login } => {
                    if i < login.characters.len() {
                        let ch = login.characters[i].copied();
                        settle(server, login, ch.id, &ch)
                    } else if i == login.characters.len() {
                        let req = create_character_request(server.as_str(), login.user.token.as_str());
                        (Bootstrap::Creating { server, login }, Action::Send(req))
                    } else {
                        (Bootstrap::Failed, Action::Abort(Error::InvalidSelection(i)))
                    }
                },
                _ => (Bootstrap::Failed, Action::Abort(Error::UnexpectedEvent)),
            },
            Event::Created(ch) => match self {
                Bootstrap::Creating { server, login } => settle(server, login, ch.id, &ch),
                _ => (Bootstrap::Failed, Action::Abort(Error::UnexpectedEvent)),
            },
            Event::Saved => match self {
                Bootstrap::Saving => (Bootstrap::Done, Action::Finish),
                _ => (Bootstrap::Failed, Action::Abort(Error::UnexpectedEvent)),
            },
        }
    }
}

} // verus!

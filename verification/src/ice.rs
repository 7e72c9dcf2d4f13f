//! How browsers of the mirrored phone find their way to it.

use vstd::prelude::*;

use crate::reply::{
    array_of, array_text, json_reply, json_string_text, object_text, opt_text, plain_reply,
    string_array, string_items, texts, ObjectText, Reply,
};
use crate::scan::{split, split_on};
use crate::text::{trim, trimmed};

verus! {

/// A server that helps two sides to find each other.
#[derive(Debug)]
pub struct IceServer {
    pub urls: Vec<String>,
    pub username: String,
    pub credential: String,
}

/// The content of an [`IceServer`].
pub struct IceView {
    pub urls: Seq<Seq<char>>,
    pub username: Seq<char>,
    pub credential: Seq<char>,
}

impl View for IceServer {
    type V = IceView;

    open spec fn view(&self) -> IceView {
        IceView {
            urls: texts(self.urls@),
            username: self.username@,
            credential: self.credential@,
        }
    }
}

pub open spec fn ice_views(servers: Seq<IceServer>) -> Seq<IceView> {
    servers.map_values(|server: IceServer| server@)
}

/// The pieces that are not blank, without blanks around them.
pub open spec fn trimmed_pieces(pieces: Seq<Seq<char>>) -> Seq<Seq<char>>
    decreases pieces.len(),
{
    if pieces.len() == 0 {
        Seq::empty()
    } else {
        let before = trimmed_pieces(pieces.drop_last());
        if trimmed(pieces.last()).len() > 0 {
            before.push(trimmed(pieces.last()))
        } else {
            before
        }
    }
}

/// The addresses in a setting, which separates them by commas.
pub open spec fn urls_in(setting: Option<Seq<char>>) -> Seq<Seq<char>> {
    match setting {
        Some(text) => if trimmed(text).len() > 0 {
            trimmed_pieces(split_on(text, ','))
        } else {
            Seq::empty()
        },
        None => Seq::empty(),
    }
}

pub open spec fn or_empty(text: Option<Seq<char>>) -> Seq<char> {
    match text {
        Some(text) => text,
        None => Seq::empty(),
    }
}

pub open spec fn stun_server() -> IceView {
    IceView {
        urls: seq!["stun:stun.l.google.com:19302"@],
        username: Seq::empty(),
        credential: Seq::empty(),
    }
}

/// The servers: a public one always, and one that is set up where it has an
/// address.
pub open spec fn ice_servers(
    urls: Option<Seq<char>>,
    user: Option<Seq<char>>,
    credential: Option<Seq<char>>,
) -> Seq<IceView> {
    if urls_in(urls).len() == 0 {
        seq![stun_server()]
    } else {
        seq![
            stun_server(),
            IceView {
                urls: urls_in(urls),
                username: or_empty(user),
                credential: or_empty(credential),
            },
        ]
    }
}

fn read_urls(text: &str) -> (urls: Vec<String>)
    ensures
        texts(urls@) == trimmed_pieces(split_on(text@, ',')),
{
    let pieces = split(text, ',');
    let ghost all = texts(pieces@);
    let mut urls: Vec<String> = Vec::new();
    let mut i: usize = 0;
    assert(texts(urls@) =~= trimmed_pieces(all.take(0)));
    while i < pieces.len()
        invariant
            i <= pieces@.len(),
            all == texts(pieces@),
            texts(urls@) == trimmed_pieces(all.take(i as int)),
        decreases pieces@.len() - i,
    {
        assert(all.take(i + 1).drop_last() =~= all.take(i as int));
        assert(all[i as int] == pieces@[i as int]@);
        let url = trim(pieces[i].as_str());
        if !url.is_empty() {
            let ghost before = texts(urls@);
            urls.push(url.to_string());
            assert(texts(urls@) =~= before.push(url@));
        }
        i += 1;
    }
    assert(all.take(i as int) =~= all);
    urls
}

fn text_or_empty(text: Option<String>) -> (out: String)
    ensures
        out@ == or_empty(opt_text(text)),
{
    match text {
        Some(text) => text,
        None => {
            let none = String::new();
            assert(none@ =~= Seq::<char>::empty());
            none
        },
    }
}

/// The servers, by the settings.
pub fn build_ice_servers(
    turn_urls: Option<String>,
    turn_user: Option<String>,
    turn_cred: Option<String>,
) -> (servers: Vec<IceServer>)
    ensures
        ice_views(servers@) == ice_servers(
            opt_text(turn_urls),
            opt_text(turn_user),
            opt_text(turn_cred),
        ),
{
    let mut first: Vec<String> = Vec::new();
    first.push("stun:stun.l.google.com:19302".to_string());
    let stun = IceServer { urls: first, username: String::new(), credential: String::new() };
    assert(stun.urls@.len() == 1);
    assert(texts(stun.urls@) =~= seq!["stun:stun.l.google.com:19302"@]);
    assert(stun.username@ =~= Seq::<char>::empty());
    assert(stun.credential@ =~= Seq::<char>::empty());
    assert(stun@ == stun_server());
    let mut servers: Vec<IceServer> = Vec::new();
    servers.push(stun);
    assert(ice_views(servers@) =~= seq![stun_server()]);
    if let Some(text) = turn_urls {
        if !trim(text.as_str()).is_empty() {
            let urls = read_urls(text.as_str());
            if urls.len() > 0 {
                let turn = IceServer {
                    urls,
                    username: text_or_empty(turn_user),
                    credential: text_or_empty(turn_cred),
                };
                servers.push(turn);
                assert(ice_views(servers@) =~= seq![stun_server(), turn@]);
            }
        }
    }
    servers
}

pub open spec fn opt_word(name: Seq<char>, word: Seq<char>) -> Seq<(Seq<char>, Seq<char>)> {
    if word.len() > 0 {
        seq![(name, json_string_text(word))]
    } else {
        Seq::empty()
    }
}

pub open spec fn ice_fields(server: IceView) -> Seq<(Seq<char>, Seq<char>)> {
    opt_word("credential"@, server.credential) + seq![
        ("urls"@, array_text(string_items(server.urls))),
    ] + opt_word("username"@, server.username)
}

pub open spec fn ice_texts(servers: Seq<IceView>) -> Seq<Seq<char>> {
    servers.map_values(|server: IceView| object_text(ice_fields(server)))
}

/// The servers as a browser reads them.
pub open spec fn ice_text(servers: Seq<IceView>) -> Seq<char> {
    object_text(seq![("iceServers"@, array_text(ice_texts(servers)))])
}

fn server_text(server: &IceServer) -> (text: String)
    ensures
        text@ == object_text(ice_fields(server@)),
{
    let body = ObjectText::new();
    let body = if server.credential.as_str().is_empty() {
        body
    } else {
        body.text("credential", server.credential.as_str())
    };
    let urls = string_array(&server.urls);
    let body = body.raw("urls", urls.as_str());
    let body = if server.username.as_str().is_empty() {
        body
    } else {
        body.text("username", server.username.as_str())
    };
    assert(body.fields() =~= ice_fields(server@));
    body.finish()
}

/// The servers as a browser reads them. A name or a secret that is not set is
/// left out.
pub fn ice_servers_json(servers: &Vec<IceServer>) -> (text: String)
    ensures
        text@ == ice_text(ice_views(servers@)),
{
    let ghost all = ice_texts(ice_views(servers@));
    let mut out: Vec<String> = Vec::new();
    let mut i: usize = 0;
    while i < servers.len()
        invariant
            i <= servers@.len(),
            all == ice_texts(ice_views(servers@)),
            texts(out@) == all.take(i as int),
        decreases servers@.len() - i,
    {
        let one = server_text(&servers[i]);
        let ghost before = texts(out@);
        out.push(one);
        assert(texts(out@) =~= before.push(one@));
        assert(all.take(i + 1) =~= all.take(i as int).push(all[i as int]));
        i += 1;
    }
    assert(all.take(i as int) =~= all);
    let list = array_of(&out);
    let body = ObjectText::new().raw("iceServers", list.as_str());
    assert(body.fields() =~= seq![("iceServers"@, array_text(all))]);
    body.finish()
}

/// The servers and their text, which always belong together.
#[derive(Debug)]
pub struct IceState {
    servers: Vec<IceServer>,
    json: String,
}

impl IceState {
    pub closed spec fn list(&self) -> Seq<IceView> {
        ice_views(self.servers@)
    }

    #[verifier::type_invariant]
    spec fn inv(&self) -> bool {
        self.json@ == ice_text(ice_views(self.servers@))
    }

    pub fn new(servers: Vec<IceServer>) -> (state: IceState)
        ensures
            state.list() == ice_views(servers@),
    {
        let json = ice_servers_json(&servers);
        IceState { servers, json }
    }

    pub fn servers(&self) -> (servers: &Vec<IceServer>)
        ensures
            ice_views(servers@) == self.list(),
    {
        &self.servers
    }

    pub fn json(&self) -> (text: &str)
        ensures
            text@ == ice_text(self.list()),
    {
        proof {
            use_type_invariant(self);
        }
        self.json.as_str()
    }
}

/// Answers a browser's question for the servers.
pub fn turn_creds(authed: bool, state: &IceState) -> (reply: Reply)
    ensures
        reply@ == (if authed {
            json_reply(200, ice_text(state.list()))
        } else {
            plain_reply(401, "unauthorized"@)
        }),
{
    if authed {
        Reply::fixed(200, state.json())
    } else {
        Reply::plain(401, "unauthorized")
    }
}

/// A public server is always among them, first.
pub proof fn law_a_public_server_comes_first(
    urls: Option<Seq<char>>,
    user: Option<Seq<char>>,
    credential: Option<Seq<char>>,
)
    ensures
        ice_servers(urls, user, credential).len() >= 1,
        ice_servers(urls, user, credential)[0] == stun_server(),
{
}

proof fn lemma_pieces_trimmed(pieces: Seq<Seq<char>>)
    ensures
        forall|i: int|
            0 <= i < trimmed_pieces(pieces).len() ==> (#[trigger] trimmed_pieces(pieces)[i]).len()
                > 0,
        forall|j: int|
            0 <= j < pieces.len() && trimmed(#[trigger] pieces[j]).len() > 0 ==> trimmed_pieces(
                pieces,
            ).contains(trimmed(pieces[j])),
    decreases pieces.len(),
{
    if pieces.len() > 0 {
        let front = pieces.drop_last();
        lemma_pieces_trimmed(front);
        let before = trimmed_pieces(front);
        let all = trimmed_pieces(pieces);
        assert forall|i: int| 0 <= i < all.len() implies (#[trigger] all[i]).len() > 0 by {
            if i < before.len() {
                assert(all[i] == before[i]);
            }
        }
        assert forall|j: int|
            0 <= j < pieces.len() && trimmed(#[trigger] pieces[j]).len() > 0 implies all.contains(
            trimmed(pieces[j]),
        ) by {
            if j < front.len() {
                assert(front[j] == pieces[j]);
                let k = choose|k: int| 0 <= k < before.len() && before[k] == trimmed(pieces[j]);
                assert(all[k] == before[k]);
            } else {
                assert(all[all.len() - 1] == trimmed(pieces[j]));
            }
        }
    }
}

/// The own server that is configured is offered with every address that its
/// setting has, cut at commas, and with its user and its secret.
pub proof fn law_an_own_server_is_offered_as_configured(
    urls: Seq<char>,
    user: Option<Seq<char>>,
    credential: Option<Seq<char>>,
    j: int,
)
    requires
        trimmed(urls).len() > 0,
        0 <= j < split_on(urls, ',').len(),
        trimmed(split_on(urls, ',')[j]).len() > 0,
    ensures
        ({
            let servers = ice_servers(Some(urls), user, credential);
            &&& servers.len() == 2
            &&& servers[1].urls.contains(trimmed(split_on(urls, ',')[j]))
            &&& forall|i: int|
                0 <= i < servers[1].urls.len() ==> (#[trigger] servers[1].urls[i]).len() > 0
            &&& user matches Some(u) ==> servers[1].username == u
            &&& user is None ==> servers[1].username.len() == 0
            &&& credential matches Some(c) ==> servers[1].credential == c
            &&& credential is None ==> servers[1].credential.len() == 0
        }),
{
    lemma_pieces_trimmed(split_on(urls, ','));
}

/// Each server is told with its addresses, and with its user and its secret where
/// it has them.
pub proof fn law_a_server_is_told_as_it_is(server: IceView, servers: Seq<IceView>, i: int)
    ensures
        ice_fields(server).contains(("urls"@, array_text(string_items(server.urls)))),
        server.username.len() > 0 ==> ice_fields(server).contains(
            ("username"@, json_string_text(server.username)),
        ),
        server.credential.len() > 0 ==> ice_fields(server).contains(
            ("credential"@, json_string_text(server.credential)),
        ),
        server.username.len() == 0 && server.credential.len() == 0 ==> ice_fields(server).len()
            == 1,
        ice_text(servers) == object_text(seq![("iceServers"@, array_text(ice_texts(servers)))]),
        0 <= i < servers.len() ==> ice_texts(servers)[i] == object_text(ice_fields(servers[i])),
        ice_texts(servers).len() == servers.len(),
{
    let f = ice_fields(server);
    let c: int = if server.credential.len() > 0 {
        1
    } else {
        0
    };
    if c == 1 {
        assert(f[0] == ("credential"@, json_string_text(server.credential)));
    }
    assert(f[c] == ("urls"@, array_text(string_items(server.urls))));
    if server.username.len() > 0 {
        assert(f[c + 1] == ("username"@, json_string_text(server.username)));
    }
}

/// The addresses of the servers are for sessions that are let in.
pub proof fn law_addresses_are_for_sessions(state: &IceState, reply: Reply)
    ensures
        call_ensures(turn_creds, (true, state), reply) ==> reply@ == json_reply(
            200,
            ice_text(state.list()),
        ),
        call_ensures(turn_creds, (false, state), reply) ==> reply@ == plain_reply(
            401,
            "unauthorized"@,
        ),
{
}

} // verus!

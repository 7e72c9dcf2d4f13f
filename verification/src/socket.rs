//! Opening the channel between a browser and the mirrored phone.

use vstd::prelude::*;

use crate::reply::{opt_str, opt_text, plain_reply, Reply, ReplyView};
use crate::text::{decimal, decimal_text, join2, join3, lowered, same_text, to_lower};

verus! {

/// The two parts of an address that tell where a page came from.
#[derive(Debug)]
pub struct Origin {
    pub scheme: Option<String>,
    pub authority: Option<String>,
}

/// The content of an [`Origin`].
pub struct OriginView {
    pub scheme: Option<Seq<char>>,
    pub authority: Option<Seq<char>>,
}

impl View for Origin {
    type V = OriginView;

    open spec fn view(&self) -> OriginView {
        OriginView { scheme: opt_text(self.scheme), authority: opt_text(self.authority) }
    }
}

/// What `axum::http::Uri` reads a text as: `None` where it is no address.
pub uninterp spec fn uri_read(text: Seq<char>) -> Option<OriginView>;

/// `axum::http::Uri`'s `FromStr`, and its scheme and authority. What it reads
/// depends on the text alone and is named [`uri_read`].
#[verifier::external_body]
fn read_uri(text: &str) -> (origin: Option<Origin>)
    ensures
        match origin {
            Some(origin) => uri_read(text@) == Some(origin@),
            None => uri_read(text@) is None,
        },
{
    let uri = text.parse::<axum::http::Uri>().ok()?;
    Some(
        Origin {
            scheme: uri.scheme_str().map(|scheme| scheme.to_string()),
            authority: uri.authority().map(|authority| authority.as_str().to_string()),
        },
    )
}

/// Whether a page came from this server: by the web, and from the very host that
/// it now talks to.
pub open spec fn same_origin(origin: Option<OriginView>, host: Option<Seq<char>>) -> bool {
    &&& origin matches Some(origin)
    &&& (origin.scheme == Some("http"@) || origin.scheme == Some("https"@))
    &&& origin.authority matches Some(authority)
    &&& host matches Some(host)
    &&& lowered(authority) == lowered(host)
}

pub open spec fn origin_view(origin: Option<Origin>) -> Option<OriginView> {
    match origin {
        Some(origin) => Some(origin@),
        None => None,
    }
}

/// Whether a page came from this server.
pub fn is_same_origin(origin: &Option<Origin>, host: Option<&str>) -> (same: bool)
    ensures
        same == same_origin(origin_view(*origin), opt_str(host)),
{
    let origin = match origin {
        Some(origin) => origin,
        None => {
            return false;
        },
    };
    let web = match &origin.scheme {
        Some(scheme) => same_text(scheme.as_str(), "http") || same_text(scheme.as_str(), "https"),
        None => false,
    };
    if !web {
        return false;
    }
    match (&origin.authority, host) {
        (Some(authority), Some(host)) => {
            let a = to_lower(authority.as_str());
            let b = to_lower(host);
            same_text(a.as_str(), b.as_str())
        },
        _ => false,
    }
}

/// The refusal of a channel, if there is one.
pub open spec fn channel_refusal(
    direct: bool,
    header: Option<Seq<char>>,
    host: Option<Seq<char>>,
    authed: bool,
) -> Option<ReplyView> {
    if direct {
        Some(
            plain_reply(409, "WebRTC signaling is disabled for the direct device backend"@),
        )
    } else if header matches Some(text) && !same_origin(uri_read(text), host) {
        Some(plain_reply(403, "cross-origin WebSocket denied"@))
    } else if !authed {
        Some(plain_reply(401, "unauthorized"@))
    } else {
        None
    }
}

/// Refuses a channel that is not for this backend, that a foreign page asks for,
/// or for which nobody has logged in. A sender that is no page need not say
/// where it came from.
pub fn ws_upgrade(
    direct: bool,
    header: Option<&str>,
    host: Option<&str>,
    authed: bool,
) -> (refusal: Option<Reply>)
    ensures
        match refusal {
            Some(reply) => channel_refusal(direct, opt_str(header), opt_str(host), authed) == Some(
                reply@,
            ),
            None => channel_refusal(direct, opt_str(header), opt_str(host), authed) is None,
        },
{
    if direct {
        return Some(
            Reply::plain(409, "WebRTC signaling is disabled for the direct device backend"),
        );
    }
    if let Some(text) = header {
        let origin = read_uri(text);
        if !is_same_origin(&origin, host) {
            return Some(Reply::plain(403, "cross-origin WebSocket denied"));
        }
    }
    if !authed {
        return Some(Reply::plain(401, "unauthorized"));
    }
    None
}

/// The name of a session: when it began, and how many there were before it.
pub open spec fn session_name(now: u64, before: u64) -> Seq<char> {
    "viewer-"@ + decimal(now as nat) + "-"@ + decimal(before as nat)
}

/// A new name for a session; `now` is in Unix seconds.
pub fn new_session_id(counter: &mut u64, now: u64) -> (name: String)
    ensures
        name@ == session_name(now, *old(counter)),
        *final(counter) == (if *old(counter) < u64::MAX {
            (*old(counter) + 1) as u64
        } else {
            0
        }),
{
    let n: u64 = *counter;
    *counter = if n < u64::MAX {
        n + 1
    } else {
        0
    };
    let time = decimal_text(now);
    let number = decimal_text(n);
    let head = join3("viewer-", time.as_str(), "-");
    join2(head.as_str(), number.as_str())
}

/// A channel is opened only to the mirrored phone, from a page of this server
/// where the page is named at all, and for a session that is let in.
pub proof fn law_a_channel_is_opened_to_its_own_page(
    direct: bool,
    header: Option<Seq<char>>,
    host: Option<Seq<char>>,
    authed: bool,
)
    ensures
        channel_refusal(direct, header, host, authed) is None <==> !direct && authed && (header
            is None || same_origin(uri_read(header->0), host)),
        direct ==> (channel_refusal(direct, header, host, authed) matches Some(r) && r.status
            == 409),
        !direct && header is Some && !same_origin(uri_read(header->0), host) ==> channel_refusal(
            direct,
            header,
            host,
            authed,
        ) == Some(plain_reply(403, "cross-origin WebSocket denied"@)),
        !direct && header is None && !authed ==> channel_refusal(direct, header, host, authed)
            == Some(plain_reply(401, "unauthorized"@)),
{
}

/// A page is of this server where it came over the web, from the very host that
/// was asked, in letters of any size.
pub proof fn law_a_page_of_this_server_names_its_host(
    scheme: Option<Seq<char>>,
    authority: Seq<char>,
    host: Seq<char>,
)
    ensures
        !same_origin(None, Some(host)),
        !same_origin(Some(OriginView { scheme, authority: Some(authority) }), None),
        !same_origin(Some(OriginView { scheme, authority: None }), Some(host)),
        same_origin(Some(OriginView { scheme, authority: Some(authority) }), Some(host)) <==> (scheme
            == Some("http"@) || scheme == Some("https"@)) && lowered(authority) == lowered(host),
{
}

/// A session is named after its time and its number.
pub proof fn law_a_session_is_named_after_its_number(now: u64, n: u64)
    ensures
        session_name(now, n) == "viewer-"@ + decimal(now as nat) + "-"@ + decimal(n as nat),
{
}

} // verus!

//! The credential state: the one record of outbound headers that all requests
//! share.
//!
//! It holds the two fixed identification headers, the session cookie once one
//! has been set, and the anti-forgery token once the service has offered one.
//! The record is an owned value; whoever shares it between tasks puts it
//! behind a lock, and every operation here is one complete step under that
//! lock: a reader gets a full copy, a writer replaces one header.

use crate::util::headers::copy_headers;
use crate::util::headers::empty_headers;
use crate::util::headers::has_room;
use crate::util::headers::header_entries;
use crate::util::headers::insert_header;
use crate::util::headers::is_header_name;
use crate::util::headers::is_header_value;
use crate::util::headers::is_value_char;
use crate::util::headers::no_headers;
use crate::util::request::str_view;
use reqwest::header::HeaderMap;
use reqwest::header::HeaderValue;
use vstd::prelude::*;

verus! {

/// The name under which the client identifies its software.
pub open spec fn user_agent_name() -> Seq<char> {
    "user-agent"@
}

/// The name under which the client says where it comes from.
pub open spec fn referer_name() -> Seq<char> {
    "referer"@
}

/// The name under which the session cookie travels.
pub open spec fn cookie_name() -> Seq<char> {
    "cookie"@
}

/// The name under which the anti-forgery token travels.
pub open spec fn token_name() -> Seq<char> {
    "x-csrf-token"@
}

/// The cookie header that presents the session credential `roblosecurity`.
pub open spec fn cookie_header(roblosecurity: Seq<char>) -> Seq<char> {
    ".ROBLOSECURITY="@ + roblosecurity + ";"@
}

/// The headers of a state that nobody has touched yet.
pub open spec fn default_headers() -> Map<Seq<char>, Seq<char>> {
    no_headers().insert(user_agent_name(), "Roblox/WinInet"@).insert(
        referer_name(),
        "www.roblox.com"@,
    )
}

/// Headers that say who is asking: both identification headers are there,
/// with their fixed values.
pub open spec fn is_identified(entries: Map<Seq<char>, Seq<char>>) -> bool {
    &&& entries.contains_pair(user_agent_name(), "Roblox/WinInet"@)
    &&& entries.contains_pair(referer_name(), "www.roblox.com"@)
}

/// The only names a credential state ever holds.
pub open spec fn known_names() -> Set<Seq<char>> {
    set![user_agent_name(), referer_name(), cookie_name(), token_name()]
}

/// The headers of one call: the shared ones, with the cookie replaced by the
/// call's own credential where it brings one.
pub open spec fn merged_headers(
    shared: Map<Seq<char>, Seq<char>>,
    roblosecurity: Option<Seq<char>>,
) -> Map<Seq<char>, Seq<char>> {
    match roblosecurity {
        Some(value) => shared.insert(cookie_name(), cookie_header(value)),
        None => shared,
    }
}

/// A credential that can be presented: its text can stand in a header.
pub open spec fn is_presentable(roblosecurity: Option<Seq<char>>) -> bool {
    roblosecurity matches Some(value) ==> is_header_value(value)
}

/// The four header names are well-formed and distinct, and the two
/// identification values can be sent.
pub proof fn lemma_names()
    ensures
        is_header_name(user_agent_name()),
        is_header_name(referer_name()),
        is_header_name(cookie_name()),
        is_header_name(token_name()),
        user_agent_name() != referer_name(),
        user_agent_name() != cookie_name(),
        user_agent_name() != token_name(),
        referer_name() != cookie_name(),
        referer_name() != token_name(),
        cookie_name() != token_name(),
        is_header_value("Roblox/WinInet"@),
        is_header_value("www.roblox.com"@),
{
    reveal_strlit("user-agent");
    reveal_strlit("referer");
    reveal_strlit("cookie");
    reveal_strlit("x-csrf-token");
    reveal_strlit("Roblox/WinInet");
    reveal_strlit("www.roblox.com");
    assert(token_name().len() == 12);
}

/// A cookie header is sendable exactly when the credential inside it is.
pub proof fn lemma_cookie_header(roblosecurity: Seq<char>)
    ensures
        is_header_value(cookie_header(roblosecurity)) == is_header_value(roblosecurity),
{
    reveal_strlit(".ROBLOSECURITY=");
    reveal_strlit(";");
    let whole = cookie_header(roblosecurity);
    if is_header_value(roblosecurity) {
        assert forall|i: int| 0 <= i < whole.len() implies is_value_char(#[trigger] whole[i]) by {
            if 15 <= i < 15 + roblosecurity.len() {
                assert(whole[i] == roblosecurity[i - 15]);
            }
        }
    }
    if is_header_value(whole) {
        assert forall|i: int| 0 <= i < roblosecurity.len() implies is_value_char(
            #[trigger] roblosecurity[i],
        ) by {
            assert(whole[i + 15] == roblosecurity[i]);
        }
    }
}

proof fn lemma_known_has_room(entries: Map<Seq<char>, Seq<char>>)
    requires
        entries.dom().subset_of(known_names()),
    ensures
        has_room(entries),
{
    vstd::set_lib::lemma_len_subset(entries.dom(), known_names());
}

/// The shared record of outbound headers.
pub struct CredentialState {
    headers: HeaderMap<HeaderValue>,
}

impl View for CredentialState {
    type V = Map<Seq<char>, Seq<char>>;

    /// The headers a request sent now would carry, by name.
    closed spec fn view(&self) -> Map<Seq<char>, Seq<char>> {
        header_entries(self.headers)
    }
}

impl CredentialState {
    #[verifier::type_invariant]
    spec fn complete(self) -> bool {
        &&& header_entries(self.headers).dom().subset_of(known_names())
        &&& is_identified(header_entries(self.headers))
    }

    /// The state at first use: the two identification headers and nothing else.
    pub fn new() -> (out: CredentialState)
        ensures
            out@ == default_headers(),
    {
        proof {
            lemma_names();
            lemma_known_has_room(no_headers());
        }
        let mut headers = empty_headers();
        insert_header(&mut headers, "user-agent", "Roblox/WinInet");
        proof {
            lemma_known_has_room(header_entries(headers));
        }
        insert_header(&mut headers, "referer", "www.roblox.com");
        CredentialState { headers }
    }

    /// Replaces the session cookie for all later requests that bring no
    /// credential of their own.
    pub fn set_roblosecurity(&mut self, roblosecurity: &str)
        requires
            is_header_value(roblosecurity@),
        ensures
            final(self)@ == old(self)@.insert(cookie_name(), cookie_header(roblosecurity@)),
    {
        proof {
            use_type_invariant(&*self);
            lemma_names();
            lemma_cookie_header(roblosecurity@);
            lemma_known_has_room(header_entries(self.headers));
        }
        let cookie = cookie_text(roblosecurity);
        insert_header(&mut self.headers, "cookie", cookie.as_str());
    }

    /// Records the anti-forgery token that the service offered. Only the
    /// executor's refresh path does so.
    pub(crate) fn set_token(&mut self, token: &str)
        requires
            is_header_value(token@),
        ensures
            final(self)@ == old(self)@.insert(token_name(), token@),
    {
        proof {
            use_type_invariant(&*self);
            lemma_names();
            lemma_known_has_room(header_entries(self.headers));
        }
        insert_header(&mut self.headers, "x-csrf-token", token);
    }

    /// A full copy of the current headers. It is never a partial set: the
    /// identification headers are always among them.
    pub fn snapshot(&self) -> (out: HeaderMap<HeaderValue>)
        ensures
            header_entries(out) == self@,
            is_identified(header_entries(out)),
    {
        proof {
            use_type_invariant(self);
        }
        copy_headers(&self.headers)
    }

    /// The headers for one call: a copy of the current ones, with the cookie
    /// replaced by the call's own credential where it brings one. The shared
    /// state stays as it is.
    pub fn headers_for(&self, roblosecurity: Option<&str>) -> (out: HeaderMap<HeaderValue>)
        requires
            is_presentable(str_view(roblosecurity)),
        ensures
            header_entries(out) == merged_headers(self@, str_view(roblosecurity)),
            is_identified(header_entries(out)),
    {
        proof {
            use_type_invariant(self);
            lemma_names();
        }
        let mut headers = copy_headers(&self.headers);
        match roblosecurity {
            Some(value) => {
                proof {
                    lemma_cookie_header(value@);
                    lemma_known_has_room(header_entries(headers));
                }
                let cookie = cookie_text(value);
                insert_header(&mut headers, "cookie", cookie.as_str());
            },
            None => {},
        }
        headers
    }
}

/// Writes the cookie header for a session credential.
pub fn cookie_text(roblosecurity: &str) -> (out: String)
    ensures
        out@ == cookie_header(roblosecurity@),
{
    let mut out = String::from_str(".ROBLOSECURITY=");
    out.append(roblosecurity);
    out.append(";");
    out
}

} // verus!

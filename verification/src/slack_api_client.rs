//! The client that profile calls go through, as plain data: the headers that
//! each of its requests carries.

use vstd::prelude::*;
use vstd::string::*;
use crate::text::borrowed_text;

verus! {

/// One header of a request.
#[derive(Debug, Clone, PartialEq, Eq)]
pub struct Header {
    pub name: String,
    pub value: String,
}

impl View for Header {
    type V = (Seq<char>, Seq<char>);

    open spec fn view(&self) -> (Seq<char>, Seq<char>) {
        (self.name@, self.value@)
    }
}

/// A client, described by the headers it adds to every request.
#[derive(Debug, Clone, PartialEq, Eq)]
pub struct Client {
    pub default_headers: Vec<Header>,
}

impl View for Client {
    type V = Seq<(Seq<char>, Seq<char>)>;

    open spec fn view(&self) -> Seq<(Seq<char>, Seq<char>)> {
        self.default_headers@.map_values(|header: Header| header@)
    }
}

/// The headers that go with a session cookie: one `Cookie` header that sends
/// it as the cookie `d`, and none where there is no cookie.
pub open spec fn cookie_headers(d_cookie: Option<Seq<char>>) -> Seq<(Seq<char>, Seq<char>)> {
    match d_cookie {
        Some(value) => seq![("Cookie"@, "d="@ + value)],
        None => Seq::empty(),
    }
}

/// Describes the client for a resolved credential. A token that was lifted
/// from a browser is only accepted together with the session cookie, so the
/// client sends that cookie along with every request.
pub fn build_client(d_cookie: Option<&str>) -> (client: Client)
    ensures
        client@ == cookie_headers(borrowed_text(d_cookie)),
{
    let mut default_headers: Vec<Header> = Vec::new();
    if let Some(cookie_val) = d_cookie {
        let value = String::from_str("d=").concat(cookie_val);
        default_headers.push(Header { name: String::from_str("Cookie"), value });
    }
    let client = Client { default_headers };
    assert(client@ =~= cookie_headers(borrowed_text(d_cookie)));
    client
}

} // verus!

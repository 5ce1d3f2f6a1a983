use crate::open::{split_url, url_parts, UrlParts};
use crate::text::{owned, text_of};
use vstd::prelude::*;

verus! {

/// One header of a request, by name and value.
pub struct Header {
    pub name: String,
    pub value: String,
}

impl View for Header {
    type V = (Seq<char>, Seq<char>);

    open spec fn view(&self) -> (Seq<char>, Seq<char>) {
        (self.name@, self.value@)
    }
}

/// The origin under which an event is tracked at a URL: `https` and the
/// URL's host. The error where the text is no URL or the URL has no host.
pub open spec fn origin_of(
    parts: Result<(Seq<char>, Option<Seq<char>>, Option<Seq<char>>), Seq<char>>,
) -> Result<Seq<char>, Seq<char>> {
    match parts {
        Ok((_, Some(host), _)) => Ok("https://"@ + host),
        Ok((_, None, _)) => Err("URL has no host"@),
        Err(reason) => Err("Failed to parse URL: "@ + reason),
    }
}

/// Works the origin out from the parts that were found in the URL.
pub fn origin_from(parts: &Result<UrlParts, String>) -> (origin: Result<String, String>)
    ensures
        match origin {
            Ok(o) => origin_of(
                match *parts {
                    Ok(p) => Ok(p@),
                    Err(e) => Err(e@),
                },
            ) == Ok::<_, Seq<char>>(o@),
            Err(m) => origin_of(
                match *parts {
                    Ok(p) => Ok(p@),
                    Err(e) => Err(e@),
                },
            ) == Err::<Seq<char>, _>(m@),
        },
{
    match parts {
        Ok(p) => match &p.host {
            Some(host) => {
                let mut origin = owned("https://");
                origin.append(host.as_str());
                Ok(origin)
            },
            None => Err(owned("URL has no host")),
        },
        Err(reason) => {
            let mut message = owned("Failed to parse URL: ");
            message.append(reason.as_str());
            Err(message)
        },
    }
}

/// The origin under which an event is tracked at a URL.
pub fn tracking_origin(url: &str) -> (origin: Result<String, String>)
    ensures
        match origin {
            Ok(o) => origin_of(url_parts(url@)) == Ok::<_, Seq<char>>(o@),
            Err(m) => origin_of(url_parts(url@)) == Err::<Seq<char>, _>(m@),
        },
{
    let parts = split_url(url);
    origin_from(&parts)
}

/// The headers of a tracking request, in the order they are set.
pub open spec fn headers_of(
    origin: Seq<char>,
    cookie: Seq<char>,
    user_agent: Seq<char>,
    preview: Option<Seq<char>>,
) -> Seq<(Seq<char>, Seq<char>)> {
    let fixed = seq![
        ("origin"@, origin),
        ("cookie"@, cookie),
        ("user-agent"@, user_agent),
        ("referer"@, origin),
        ("sec-fetch-mode"@, "cors"@),
        ("sec-fetch-site"@, "same-origin"@),
        ("content-type"@, "text/plain;charset=UTF-8"@),
        ("content-length"@, "0"@),
    ];
    match preview {
        Some(p) => fixed.push(("x-gtm-server-preview"@, p)),
        None => fixed,
    }
}

/// The pairs that a list of headers holds.
pub open spec fn header_pairs(headers: Seq<Header>) -> Seq<(Seq<char>, Seq<char>)> {
    headers.map_values(|h: Header| h@)
}

fn header(name: &str, value: &str) -> (h: Header)
    ensures
        h@ == (name@, value@),
{
    Header { name: owned(name), value: owned(value) }
}

/// Builds the headers of a tracking request.
pub fn tracking_headers(
    origin: &str,
    cookie: &str,
    user_agent: &str,
    preview_header: &Option<String>,
) -> (headers: Vec<Header>)
    ensures
        header_pairs(headers@) == headers_of(
            origin@,
            cookie@,
            user_agent@,
            text_of(*preview_header),
        ),
{
    let mut headers: Vec<Header> = Vec::new();
    headers.push(header("origin", origin));
    headers.push(header("cookie", cookie));
    headers.push(header("user-agent", user_agent));
    headers.push(header("referer", origin));
    headers.push(header("sec-fetch-mode", "cors"));
    headers.push(header("sec-fetch-site", "same-origin"));
    headers.push(header("content-type", "text/plain;charset=UTF-8"));
    headers.push(header("content-length", "0"));
    match preview_header {
        Some(p) => {
            headers.push(header("x-gtm-server-preview", p.as_str()));
        },
        None => {},
    }
    assert(header_pairs(headers@) =~= headers_of(
        origin@,
        cookie@,
        user_agent@,
        text_of(*preview_header),
    ));
    headers
}

} // verus!

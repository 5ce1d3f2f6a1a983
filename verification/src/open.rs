use crate::text::{contains_text, or_empty, owned, same_text, text_of, text_or_empty, texts};
use vstd::prelude::*;

verus! {

/// A file that is larger than this, in bytes, is not opened.
pub const MAX_FILE_SIZE: u64 = 5242880;

/// A file that was asked to be opened.
pub struct FileResource {
    pub success: bool,
    pub name: String,
    pub path: String,
}

/// A link into the application that was asked to be opened.
pub struct LinkResource {
    pub host: String,
    pub params: String,
}

/// What a request to open something names.
pub enum OpenedResource {
    File(FileResource),
    Link(LinkResource),
    Unknown,
}

/// A query file by its name and path.
pub struct QueryFile {
    pub name: String,
    pub path: String,
}

/// The parts of a URL that decide how it is opened.
pub struct UrlParts {
    pub scheme: String,
    pub host: Option<String>,
    pub query: Option<String>,
}

impl View for UrlParts {
    type V = (Seq<char>, Option<Seq<char>>, Option<Seq<char>>);

    open spec fn view(&self) -> (Seq<char>, Option<Seq<char>>, Option<Seq<char>>) {
        (self.scheme@, text_of(self.host), text_of(self.query))
    }
}

/// The scheme, host and query that the url crate finds in a text, or the
/// description of its error where the text is no URL.
pub uninterp spec fn url_parts(text: Seq<char>) -> Result<
    (Seq<char>, Option<Seq<char>>, Option<Seq<char>>),
    Seq<char>,
>;

/// Calls `Url::parse` of the url crate and copies out what `scheme`,
/// `host_str` and `query` give, or the error's text. The contract only gives
/// these their name.
#[verifier::external_body]
pub(crate) fn split_url(text: &str) -> (parts: Result<UrlParts, String>)
    ensures
        match parts {
            Ok(p) => url_parts(text@) == Ok::<_, Seq<char>>(p@),
            Err(e) => url_parts(text@) == Err::<(Seq<char>, Option<Seq<char>>, Option<Seq<char>>), _>(
                e@,
            ),
        },
{
    match url::Url::parse(text) {
        Ok(parsed) => Ok(
            UrlParts {
                scheme: parsed.scheme().to_owned(),
                host: parsed.host_str().map(str::to_owned),
                query: parsed.query().map(str::to_owned),
            },
        ),
        Err(error) => Err(error.to_string()),
    }
}

/// What is to be done about a URL that was asked to be opened.
pub enum ResourceRequest {
    /// It names a file: look the file up and report it.
    File,
    /// It is a link into the application.
    Link(LinkResource),
    /// It is neither, or no URL at all.
    Unknown,
}

/// What a request stands for.
pub enum RequestModel {
    File,
    Link { host: Seq<char>, params: Seq<char> },
    Unknown,
}

impl View for ResourceRequest {
    type V = RequestModel;

    open spec fn view(&self) -> RequestModel {
        match self {
            ResourceRequest::File => RequestModel::File,
            ResourceRequest::Link(link) => RequestModel::Link {
                host: link.host@,
                params: link.params@,
            },
            ResourceRequest::Unknown => RequestModel::Unknown,
        }
    }
}

/// How a URL is opened, by its parts: the scheme `file` names a file, the
/// scheme `surrealist` a link with the URL's host and query.
pub open spec fn request_of(
    parts: Result<(Seq<char>, Option<Seq<char>>, Option<Seq<char>>), Seq<char>>,
) -> RequestModel {
    match parts {
        Ok((scheme, host, query)) => if scheme == "file"@ {
            RequestModel::File
        } else if scheme == "surrealist"@ {
            RequestModel::Link { host: or_empty(host), params: or_empty(query) }
        } else {
            RequestModel::Unknown
        },
        Err(_) => RequestModel::Unknown,
    }
}

/// Decides how a URL is opened from the parts that were found in it.
pub fn classify_resource(parts: &Result<UrlParts, String>) -> (request: ResourceRequest)
    ensures
        request@ == request_of(
            match *parts {
                Ok(p) => Ok(p@),
                Err(e) => Err(e@),
            },
        ),
{
    match parts {
        Ok(p) => {
            if same_text(p.scheme.as_str(), "file") {
                ResourceRequest::File
            } else if same_text(p.scheme.as_str(), "surrealist") {
                ResourceRequest::Link(
                    LinkResource { host: text_or_empty(&p.host), params: text_or_empty(&p.query) },
                )
            } else {
                ResourceRequest::Unknown
            }
        },
        Err(_) => ResourceRequest::Unknown,
    }
}

/// Decides how a URL that was asked to be opened is handled.
pub fn resource_request(url: &str) -> (request: ResourceRequest)
    ensures
        request@ == request_of(url_parts(url@)),
{
    let parts = split_url(url);
    classify_resource(&parts)
}

/// Reports a file that was looked up: it can be opened where it holds fewer
/// bytes than the limit.
pub fn file_resource(size: u64, name: String, path: String) -> (file: FileResource)
    ensures
        file.success == (size < MAX_FILE_SIZE),
        file.name == name,
        file.path == path,
{
    FileResource { success: size < MAX_FILE_SIZE, name, path }
}

/// Reports what a request came to: the file that was looked up for a file
/// request, the link of a link request, and nothing known for any other
/// request or a file that could not be looked up.
pub fn opened_resource(request: ResourceRequest, file: Option<FileResource>) -> (opened:
    OpenedResource)
    ensures
        match request {
            ResourceRequest::File => match file {
                Some(f) => opened == OpenedResource::File(f),
                None => opened is Unknown,
            },
            ResourceRequest::Link(link) => opened == OpenedResource::Link(link),
            ResourceRequest::Unknown => opened is Unknown,
        },
{
    match request {
        ResourceRequest::File => match file {
            Some(f) => OpenedResource::File(f),
            None => OpenedResource::Unknown,
        },
        ResourceRequest::Link(link) => OpenedResource::Link(link),
        ResourceRequest::Unknown => OpenedResource::Unknown,
    }
}

/// The arguments of a launch that may name resources: all but the first,
/// which is the program.
pub fn resource_arguments(args: &Vec<String>) -> (rest: Vec<String>)
    ensures
        texts(rest@) == if args.len() == 0 {
            Seq::empty()
        } else {
            texts(args@).skip(1)
        },
{
    let mut rest: Vec<String> = Vec::new();
    let mut i: usize = 1;
    if args.len() == 0 {
        assert(texts(rest@) =~= Seq::<Seq<char>>::empty());
        return rest;
    }
    while i < args.len()
        invariant
            1 <= i <= args.len(),
            texts(rest@) == texts(args@).subrange(1, i as int),
        decreases args.len() - i,
    {
        let ghost before = texts(rest@);
        rest.push(owned(args[i].as_str()));
        assert(texts(rest@) =~= before.push(args@[i as int]@));
        assert(texts(args@).subrange(1, i + 1) =~= before.push(args@[i as int]@));
        i += 1;
    }
    assert(texts(args@).subrange(1, args.len() as int) =~= texts(args@).skip(1));
    rest
}

/// Keeps the resources that were asked for: a request that names any
/// replaces what was kept, one that names none changes nothing.
pub fn store_resources(kept: &mut Vec<String>, urls: Vec<String>)
    ensures
        *final(kept) == if urls.len() > 0 {
            urls
        } else {
            *old(kept)
        },
{
    if urls.len() > 0 {
        *kept = urls;
    }
}

/// What reading a query file comes to: the content where the file could be
/// read and is on the whitelist, else the reason.
pub open spec fn read_result(allowed: bool, content: Option<Seq<char>>) -> Result<
    Seq<char>,
    Seq<char>,
> {
    match content {
        Some(c) => if allowed {
            Ok(c)
        } else {
            Err("File is not allowed"@)
        },
        None => Err("Failed to read file"@),
    }
}

/// Decides what the reader of a query file gets, from the whitelist and
/// what reading the file gave.
pub fn read_query_file(whitelist: &Vec<String>, path: &str, content: Option<String>) -> (read:
    Result<String, String>)
    ensures
        match read {
            Ok(c) => read_result(texts(whitelist@).contains(path@), text_of(content)) == Ok::<
                _,
                Seq<char>,
            >(c@),
            Err(e) => read_result(texts(whitelist@).contains(path@), text_of(content)) == Err::<
                Seq<char>,
                _,
            >(e@),
        },
{
    match content {
        Some(c) => {
            if contains_text(whitelist, path) {
                Ok(c)
            } else {
                Err(owned("File is not allowed"))
            }
        },
        None => Err(owned("Failed to read file")),
    }
}

/// What writing a query file is to do.
#[derive(Clone, Copy, Debug, PartialEq, Eq, Structural)]
pub enum WriteStep {
    /// The file is on the whitelist: write it.
    Write,
    /// It is not: refuse.
    Refuse,
}

/// Decides whether a query file may be written.
pub fn write_query_file(whitelist: &Vec<String>, path: &str) -> (step: WriteStep)
    ensures
        step == if texts(whitelist@).contains(path@) {
            WriteStep::Write
        } else {
            WriteStep::Refuse
        },
{
    if contains_text(whitelist, path) {
        WriteStep::Write
    } else {
        WriteStep::Refuse
    }
}

/// What the writer of a query file is told: nothing where the file was
/// written, else the reason.
pub fn write_report(step: WriteStep, written: bool) -> (report: Result<(), String>)
    ensures
        match report {
            Ok(_) => step == WriteStep::Write && written,
            Err(e) => if step == WriteStep::Refuse {
                e@ == "File is not allowed"@
            } else {
                !written && e@ == "Failed to write file"@
            },
        },
{
    match step {
        WriteStep::Refuse => Err(owned("File is not allowed")),
        WriteStep::Write => if written {
            Ok(())
        } else {
            Err(owned("Failed to write file"))
        },
    }
}

} // verus!

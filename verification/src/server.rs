//! Static asset server: from a request target to the file that answers it,
//! and from what the file system said of that file to the reply.

use crate::decimal::{decimal, to_decimal};
use crate::manifest::AssetManifest;
use crate::paths::{
    contains_parent_marker, extension, extension_of, has_parent_marker, join, joined,
    lemma_joined_stays_under_base, strip_leading_slash, to_chars, without_leading_slash,
};
use vstd::prelude::*;

verus! {

/// Status of a reply that carries a file.
pub const STATUS_OK: u16 = 200;

/// Status of a reply to a request that names no file, or that tries to
/// leave the served directory.
pub const STATUS_NOT_FOUND: u16 = 404;

/// Status of a reply for a file that could not be read.
pub const STATUS_SERVER_ERROR: u16 = 500;

/// The `Content-Type` of a served file.
#[derive(Debug, Clone, Copy, PartialEq, Eq, Structural)]
pub enum ContentType {
    /// `text/html`
    Html,
    /// `text/javascript`
    JavaScript,
    /// `text/css`
    Css,
    /// `application/wasm`
    Wasm,
    /// `text/plain`
    Plain,
}

impl ContentType {
    /// The content type that goes with a file extension.
    pub open spec fn of_extension(ext: Option<Seq<char>>) -> ContentType {
        if ext == Some("html"@) {
            ContentType::Html
        } else if ext == Some("js"@) {
            ContentType::JavaScript
        } else if ext == Some("css"@) {
            ContentType::Css
        } else if ext == Some("wasm"@) {
            ContentType::Wasm
        } else {
            ContentType::Plain
        }
    }

    /// The text of the header's value.
    pub open spec fn mime_text(self) -> Seq<char> {
        match self {
            ContentType::Html => "text/html"@,
            ContentType::JavaScript => "text/javascript"@,
            ContentType::Css => "text/css"@,
            ContentType::Wasm => "application/wasm"@,
            ContentType::Plain => "text/plain"@,
        }
    }

    /// Looks an extension up in the table of content types.
    pub fn from_extension(ext: Option<&str>) -> (content_type: ContentType)
        ensures
            content_type == Self::of_extension(
                match ext {
                    Some(e) => Some(e@),
                    None => None,
                },
            ),
    {
        match ext {
            None => ContentType::Plain,
            Some(e) => {
                let chars = to_chars(e);
                if text_is(&chars, "html") {
                    ContentType::Html
                } else if text_is(&chars, "js") {
                    ContentType::JavaScript
                } else if text_is(&chars, "css") {
                    ContentType::Css
                } else if text_is(&chars, "wasm") {
                    ContentType::Wasm
                } else {
                    ContentType::Plain
                }
            },
        }
    }

    /// Infers the content type of the file at `path` from its extension.
    pub fn for_path(path: &str) -> (content_type: ContentType)
        ensures
            content_type == Self::of_extension(extension_of(path@)),
    {
        match extension(path) {
            Some(ext) => Self::from_extension(Some(ext.as_str())),
            None => Self::from_extension(None),
        }
    }

    /// The value of the `Content-Type` header.
    pub fn mime(&self) -> (text: &'static str)
        ensures
            text@ == self.mime_text(),
    {
        match self {
            ContentType::Html => "text/html",
            ContentType::JavaScript => "text/javascript",
            ContentType::Css => "text/css",
            ContentType::Wasm => "application/wasm",
            ContentType::Plain => "text/plain",
        }
    }
}

/// The table of content types: four extensions have one of their own, and
/// every other extension, and a path without one, is plain text.
pub proof fn lemma_content_type_table(ext: Option<Seq<char>>)
    ensures
        ContentType::of_extension(Some("html"@)) == ContentType::Html,
        ContentType::of_extension(Some("js"@)) == ContentType::JavaScript,
        ContentType::of_extension(Some("css"@)) == ContentType::Css,
        ContentType::of_extension(Some("wasm"@)) == ContentType::Wasm,
        ContentType::of_extension(None) == ContentType::Plain,
        ContentType::of_extension(ext) == ContentType::Plain <==> ext != Some("html"@) && ext
            != Some("js"@) && ext != Some("css"@) && ext != Some("wasm"@),
{
    reveal_strlit("html");
    reveal_strlit("js");
    reveal_strlit("css");
    reveal_strlit("wasm");
    assert("html"@.len() == 4 && "js"@.len() == 2 && "css"@.len() == 3 && "wasm"@.len() == 4);
    assert("html"@[0] == 'h' && "wasm"@[0] == 'w');
}

/// What a reply carries.
#[derive(Debug, Clone, PartialEq, Eq)]
pub enum Body {
    /// The bytes of a file.
    Data(Vec<u8>),
    /// A message, sent as plain text.
    Text(String),
}

/// The answer to one request.
#[derive(Debug, Clone, PartialEq, Eq)]
pub struct Reply {
    /// HTTP status code.
    pub status: u16,
    /// The `Content-Type` header to add; `None` leaves the default of the
    /// body's kind.
    pub content_type: Option<ContentType>,
    /// What is sent.
    pub body: Body,
}

/// What the file system said of the file that a request resolved to.
#[derive(Debug, Clone, PartialEq, Eq)]
pub enum FileProbe {
    /// Nothing is there, or what is there is no regular file.
    Missing,
    /// A regular file, read in full.
    Contents(Vec<u8>),
    /// A regular file that could not be read; the text says why.
    Unreadable(String),
}

/// Body of the reply to a request that tries to leave the served
/// directory.
pub open spec fn traversal_text() -> Seq<char> {
    "PATH TRAVERSAL DETECTED"@
}

/// Body of the reply to a request that names no file.
pub open spec fn not_found_text() -> Seq<char> {
    "\u{1F6AB} 404 Not Found!"@
}

/// Body of the reply for a file that could not be read for the reason
/// `error`.
pub open spec fn unreadable_text(error: Seq<char>) -> Seq<char> {
    "\u{1F622} Error reading file: "@ + error
}

/// What a reply carries, as a value.
pub enum BodyView {
    /// The bytes of a file.
    Data(Seq<u8>),
    /// The characters of a message.
    Text(Seq<char>),
}

/// A reply as a value.
pub struct ReplyView {
    pub status: u16,
    pub content_type: Option<ContentType>,
    pub body: BodyView,
}

impl View for Body {
    type V = BodyView;

    open spec fn view(&self) -> BodyView {
        match self {
            Body::Data(bytes) => BodyView::Data(bytes@),
            Body::Text(message) => BodyView::Text(message@),
        }
    }
}

impl View for Reply {
    type V = ReplyView;

    open spec fn view(&self) -> ReplyView {
        ReplyView { status: self.status, content_type: self.content_type, body: self.body@ }
    }
}

/// A reply that carries a message as plain text.
pub open spec fn text_reply(status: u16, message: Seq<char>) -> ReplyView {
    ReplyView { status, content_type: None, body: BodyView::Text(message) }
}

/// The reply for the file at `path`, given what the file system said of
/// it.
pub open spec fn file_reply(path: Seq<char>, probe: FileProbe) -> ReplyView {
    match probe {
        FileProbe::Contents(bytes) => ReplyView {
            status: STATUS_OK,
            content_type: Some(ContentType::of_extension(extension_of(path))),
            body: BodyView::Data(bytes@),
        },
        FileProbe::Unreadable(error) => text_reply(STATUS_SERVER_ERROR, unreadable_text(error@)),
        FileProbe::Missing => text_reply(STATUS_NOT_FOUND, not_found_text()),
    }
}

/// The file that answers the request target `target` when `dist` is the
/// served directory and `manifest` the current manifest; `None` where the
/// request tries to leave the served directory. A target that is not
/// mapped is taken as a path relative to `dist`, however many separators
/// it begins with.
pub open spec fn resolved(
    target: Seq<char>,
    dist: Seq<char>,
    manifest: Map<Seq<char>, Seq<char>>,
) -> Option<Seq<char>> {
    let url = without_leading_slash(target);
    if url.len() == 0 {
        Some(joined(dist, "index.html"@))
    } else if manifest.contains_key(url) {
        Some(manifest[url])
    } else if has_parent_marker(url) {
        None
    } else {
        Some(joined(dist, url))
    }
}

/// The path that `target` resolved to lies in the served directory `dist`,
/// unless the manifest named it.
pub open spec fn contained(
    target: Seq<char>,
    dist: Seq<char>,
    manifest: Map<Seq<char>, Seq<char>>,
    path: Seq<char>,
) -> bool {
    let url = without_leading_slash(target);
    url.len() == 0 || !manifest.contains_key(url) ==> dist.is_prefix_of(path)
}

/// A request that the manifest does not answer never resolves to a file
/// outside the served directory: the path begins with the directory, and
/// the request's own part of it holds no `..`.
pub proof fn lemma_unmapped_stays_in_dist(
    target: Seq<char>,
    dist: Seq<char>,
    manifest: Map<Seq<char>, Seq<char>>,
)
    ensures
        match resolved(target, dist, manifest) {
            Some(path) => {
                &&& contained(target, dist, manifest, path)
                &&& !manifest.contains_key(without_leading_slash(target)) ==> !has_parent_marker(
                    without_leading_slash(target),
                )
            },
            None => has_parent_marker(without_leading_slash(target)),
        },
{
    let url = without_leading_slash(target);
    lemma_joined_stays_under_base(dist, "index.html"@);
    lemma_joined_stays_under_base(dist, url);
    if url.len() == 0 {
        assert(!has_parent_marker(url));
    }
}

/// Resolves a request target to the path of the file that answers it.
/// `None` means that the request tries to leave the served directory.
pub fn resolve(target: &str, dist: &str, manifest: &AssetManifest) -> (path: Option<String>)
    ensures
        match path {
            Some(p) => resolved(target@, dist@, manifest@) == Some(p@) && contained(
                target@,
                dist@,
                manifest@,
                p@,
            ),
            None => resolved(target@, dist@, manifest@) is None,
        },
{
    proof {
        lemma_unmapped_stays_in_dist(target@, dist@, manifest@);
    }
    let url = strip_leading_slash(target);
    if url.is_empty() {
        return Some(join(dist, "index.html"));
    }
    match manifest.get(url) {
        Some(mapped) => Some(mapped.clone()),
        None => {
            if contains_parent_marker(url) {
                None
            } else {
                Some(join(dist, url))
            }
        },
    }
}

/// Builds the reply for the file at `path` from what the file system said
/// of it.
pub fn reply_for(path: &str, probe: FileProbe) -> (reply: Reply)
    ensures
        reply@ == file_reply(path@, probe),
{
    match probe {
        FileProbe::Contents(bytes) => Reply {
            status: STATUS_OK,
            content_type: Some(ContentType::for_path(path)),
            body: Body::Data(bytes),
        },
        FileProbe::Unreadable(error) => {
            let mut message = "\u{1F622} Error reading file: ".to_owned();
            message.append(error.as_str());
            Reply { status: STATUS_SERVER_ERROR, content_type: None, body: Body::Text(message) }
        },
        FileProbe::Missing => Reply {
            status: STATUS_NOT_FOUND,
            content_type: None,
            body: Body::Text("\u{1F6AB} 404 Not Found!".to_owned()),
        },
    }
}

/// The reply to a request that tries to leave the served directory.
pub fn traversal_reply() -> (reply: Reply)
    ensures
        reply@ == text_reply(STATUS_NOT_FOUND, traversal_text()),
{
    Reply {
        status: STATUS_NOT_FOUND,
        content_type: None,
        body: Body::Text("PATH TRAVERSAL DETECTED".to_owned()),
    }
}

/// The address at which a server that listens on `port` is reached.
pub open spec fn server_url_text(port: u16) -> Seq<char> {
    "http://localhost:"@ + decimal(port as nat)
}

/// The address that is shown to the operator at startup.
pub fn server_url(port: u16) -> (url: String)
    ensures
        url@ == server_url_text(port),
{
    let mut url = "http://localhost:".to_owned();
    let digits = to_decimal(port as u128);
    url.append(digits.as_str());
    url
}

/// What the server does with one request.
#[derive(Debug, Clone, PartialEq, Eq)]
pub enum Plan {
    /// Look at the file at this path, then answer with `reply_for`.
    Probe(String),
    /// Answer with this reply and stop listening.
    Refuse(Reply),
    /// The server has stopped: the request gets no answer.
    Closed,
}

/// The static asset server: the directory it serves, and whether it has
/// shut itself down.
pub struct AssetServer {
    dist: String,
    halted: bool,
}

impl AssetServer {
    /// A running server for the directory `dist`.
    pub fn new(dist: String) -> (server: Self)
        ensures
            server.dist() == dist@,
            !server.is_halted(),
    {
        AssetServer { dist, halted: false }
    }

    /// The served directory.
    pub closed spec fn dist(&self) -> Seq<char> {
        self.dist@
    }

    /// Whether the server has shut itself down.
    pub closed spec fn is_halted(&self) -> bool {
        self.halted
    }

    /// Tells whether the server has shut itself down.
    pub fn halted(&self) -> (halted: bool)
        ensures
            halted == self.is_halted(),
    {
        self.halted
    }

    /// Takes one request in. A running server resolves the target against
    /// one manifest; a request that tries to leave the served directory is
    /// refused and shuts the server down for good.
    pub fn begin(&mut self, target: &str, manifest: &AssetManifest) -> (plan: Plan)
        ensures
            final(self).dist() == old(self).dist(),
            old(self).is_halted() ==> plan is Closed && final(self).is_halted(),
            !old(self).is_halted() ==> match resolved(target@, old(self).dist(), manifest@) {
                Some(path) => plan matches Plan::Probe(p) && p@ == path && contained(
                    target@,
                    old(self).dist(),
                    manifest@,
                    p@,
                ) && !final(self).is_halted(),
                None => plan matches Plan::Refuse(reply) && reply@ == text_reply(
                    STATUS_NOT_FOUND,
                    traversal_text(),
                ) && final(self).is_halted(),
            },
    {
        if self.halted {
            return Plan::Closed;
        }
        match resolve(target, self.dist.as_str(), manifest) {
            Some(path) => Plan::Probe(path),
            None => {
                self.halted = true;
                Plan::Refuse(traversal_reply())
            },
        }
    }
}

/// Tells whether `chars` spell `literal`.
fn text_is(chars: &Vec<char>, literal: &str) -> (same: bool)
    ensures
        same == (chars@ == literal@),
{
    let wanted = to_chars(literal);
    if chars.len() != wanted.len() {
        return false;
    }
    let n = chars.len();
    let mut i: usize = 0;
    while i < n
        invariant
            i <= n,
            n == chars@.len(),
            n == wanted@.len(),
            wanted@ == literal@,
            forall|j: int| 0 <= j < i ==> chars@[j] == wanted@[j],
        decreases n - i,
    {
        if chars[i] != wanted[i] {
            assert(chars@[i as int] != wanted@[i as int]);
            return false;
        }
        i += 1;
    }
    assert(chars@ =~= wanted@);
    true
}

} // verus!

//! What the asset server decides: the address it listens on, the file that a
//! request names, and the reply for what was found there.
//!
//! The mapping from request to file is literal. Leading separators are
//! dropped, an empty path stands for `index.html`, and the rest is appended
//! to the root as it came: `..` segments and query strings are not treated
//! specially, so a request can name a file outside the root. Callers that
//! serve untrusted clients have to bound the path themselves. Under the empty
//! root a file is named by its path alone, that is, relative to the working
//! directory.

use vstd::prelude::*;
use crate::decimal::{decimal_string, decimal_text};
use crate::text::chars_of;

verus! {

/// Status of a reply that carries a file.
pub const STATUS_OK: u16 = 200;

/// Status of the reply for a file that does not exist.
pub const STATUS_NOT_FOUND: u16 = 404;

/// Status of the reply for a file that exists and could not be read.
pub const STATUS_READ_FAILED: u16 = 500;

/// How many separators `s` begins with.
pub open spec fn leading_separators(s: Seq<char>) -> nat
    decreases s.len(),
{
    if s.len() > 0 && s[0] == '/' {
        1 + leading_separators(s.drop_first())
    } else {
        0
    }
}

/// The path of a request: its URL without the leading separators.
pub open spec fn request_path(url: Seq<char>) -> Seq<char> {
    url.skip(leading_separators(url) as int)
}

/// The file that a request path names below the root: the path itself, or
/// `index.html` for the empty path.
pub open spec fn relative_file(path: Seq<char>) -> Seq<char> {
    if path.len() == 0 {
        "index.html"@
    } else {
        path
    }
}

/// `tail` below `base`: `base`, a separator and `tail`, or `tail` alone
/// where `base` is empty. A separator at the end of `base` is not merged.
pub open spec fn joined(base: Seq<char>, tail: Seq<char>) -> Seq<char> {
    if base.len() == 0 {
        tail
    } else {
        base + seq!['/'] + tail
    }
}

/// The file that the URL `url` names under `root`.
pub open spec fn asset_file(root: Seq<char>, url: Seq<char>) -> Seq<char> {
    joined(root, relative_file(request_path(url)))
}

/// The address on which a server for `port` listens: every interface.
pub open spec fn listen_address(port: u16) -> Seq<char> {
    "0.0.0.0:"@ + decimal_text(port as nat)
}

/// `k` separators followed by something else, or by nothing, are `k` leading
/// separators.
pub proof fn lemma_leading_separators(s: Seq<char>, k: int)
    requires
        0 <= k <= s.len(),
        forall|j: int| 0 <= j < k ==> s[j] == '/',
        k < s.len() ==> s[k] != '/',
    ensures
        leading_separators(s) == k,
    decreases k,
{
    if k > 0 {
        let rest = s.drop_first();
        assert forall|j: int| 0 <= j < k - 1 implies rest[j] == '/' by {
            assert(rest[j] == s[j + 1]);
        }
        if k - 1 < rest.len() {
            assert(rest[k - 1] == s[k]);
        }
        lemma_leading_separators(rest, k - 1);
    }
}

/// A URL is its leading separators followed by its request path, and the
/// request path begins with no separator.
pub proof fn lemma_request_path(url: Seq<char>)
    ensures
        leading_separators(url) <= url.len(),
        url == Seq::new(leading_separators(url), |i: int| '/') + request_path(url),
        request_path(url).len() > 0 ==> request_path(url)[0] != '/',
    decreases url.len(),
{
    if url.len() > 0 && url[0] == '/' {
        let rest = url.drop_first();
        lemma_request_path(rest);
        assert(request_path(url) == request_path(rest));
        let k = leading_separators(rest);
        let whole = Seq::new(leading_separators(url), |i: int| '/') + request_path(url);
        assert(whole.len() == url.len());
        assert forall|j: int| 0 <= j < url.len() implies whole[j] == url[j] by {
            if j > 0 {
                assert(url[j] == rest[j - 1]);
                assert(rest[j - 1] == (Seq::new(k, |i: int| '/') + request_path(rest))[j - 1]);
            }
        }
        assert(whole =~= url);
    } else {
        assert(request_path(url) == url);
        assert(Seq::new(0nat, |i: int| '/') + url =~= url);
    }
}

/// Under a root that is not empty, a request is mapped to the root, a
/// separator and its path, and to `index.html` under the root where the path
/// is empty. Under the empty root it is mapped to the path alone, and to
/// `index.html` where the path is empty.
pub proof fn lemma_asset_file(root: Seq<char>, url: Seq<char>)
    ensures
        root.len() > 0 && request_path(url).len() > 0 ==> asset_file(root, url) == root + "/"@
            + request_path(url),
        root.len() > 0 && request_path(url).len() == 0 ==> asset_file(root, url) == root
            + "/index.html"@,
        root.len() == 0 && request_path(url).len() > 0 ==> asset_file(root, url) == request_path(
            url,
        ),
        root.len() == 0 && request_path(url).len() == 0 ==> asset_file(root, url)
            == "index.html"@,
{
    reveal_strlit("/");
    reveal_strlit("index.html");
    reveal_strlit("/index.html");
    assert("/"@ =~= seq!['/']);
    assert(seq!['/'] + "index.html"@ =~= "/index.html"@);
    assert(root + seq!['/'] + "index.html"@ =~= root + (seq!['/'] + "index.html"@));
}

/// `tail` below `base`.
pub fn join(base: &str, tail: &str) -> (out: String)
    ensures
        out@ == joined(base@, tail@),
{
    if base.is_empty() {
        return String::from_str(tail);
    }
    proof {
        reveal_strlit("/");
    }
    let mut out = String::from_str(base);
    out.append("/");
    out.append(tail);
    assert("/"@ == seq!['/']);
    out
}

/// The file that a request for `url` names below the root.
pub fn relative_path(url: &str) -> (out: String)
    ensures
        out@ == relative_file(request_path(url@)),
{
    let cs = chars_of(url);
    let n = cs.len();
    let mut k: usize = 0;
    while k < n && cs[k] == '/'
        invariant
            k <= n,
            n == cs@.len(),
            forall|j: int| 0 <= j < k ==> cs@[j] == '/',
        decreases n - k,
    {
        k = k + 1;
    }
    proof {
        lemma_leading_separators(cs@, k as int);
    }
    if k == n {
        String::from_str("index.html")
    } else {
        let rest = url.substring_char(k, n);
        assert(rest@ == url@.skip(k as int));
        String::from_str(rest)
    }
}

/// What the server is bound to for as long as it lives: the directory it
/// serves and the port it listens on.
#[derive(Debug, Clone)]
pub struct ServerBinding {
    /// Directory whose files are served.
    pub root: String,
    /// Port listened on.
    pub port: u16,
}

impl ServerBinding {
    /// A binding of `root` to `port`.
    pub fn new(root: String, port: u16) -> (out: ServerBinding)
        ensures
            out.root@ == root@,
            out.port == port,
    {
        ServerBinding { root, port }
    }

    /// The address to listen on.
    pub fn address(&self) -> (out: String)
        ensures
            out@ == listen_address(self.port),
    {
        let mut out = String::from_str("0.0.0.0:");
        let digits = decimal_string(self.port as u32);
        out.append(digits.as_str());
        out
    }

    /// The file that a request for `url` names.
    pub fn locate(&self, url: &str) -> (out: String)
        ensures
            out@ == asset_file(self.root@, url@),
    {
        let file = relative_path(url);
        join(self.root.as_str(), file.as_str())
    }
}

/// What was found at the place that a request names.
#[derive(Debug, Clone)]
pub enum Lookup {
    /// A file, with its bytes.
    Found(Vec<u8>),
    /// Nothing.
    Missing,
    /// A file that could not be read.
    Unreadable,
}

/// What the server answers: a status and a body.
#[derive(Debug, Clone)]
pub struct Reply {
    /// HTTP status code.
    pub status: u16,
    /// Bytes of the body.
    pub body: Vec<u8>,
}

/// The status answered for `found`.
pub open spec fn reply_status(found: Lookup) -> u16 {
    match found {
        Lookup::Found(_) => 200,
        Lookup::Missing => 404,
        Lookup::Unreadable => 500,
    }
}

/// The body answered for `found`: the file's bytes, or nothing.
pub open spec fn reply_body(found: Lookup) -> Seq<u8> {
    match found {
        Lookup::Found(bytes) => bytes@,
        Lookup::Missing => Seq::empty(),
        Lookup::Unreadable => Seq::empty(),
    }
}

/// The reply for what was found. A file is answered with its bytes, unchanged
/// and whole; a missing or unreadable file with an empty body.
pub fn respond(found: Lookup) -> (out: Reply)
    ensures
        out.status == reply_status(found),
        out.body@ == reply_body(found),
{
    match found {
        Lookup::Found(bytes) => Reply { status: STATUS_OK, body: bytes },
        Lookup::Missing => Reply { status: STATUS_NOT_FOUND, body: Vec::new() },
        Lookup::Unreadable => Reply { status: STATUS_READ_FAILED, body: Vec::new() },
    }
}

} // verus!

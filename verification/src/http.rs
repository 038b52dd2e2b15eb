//! Request-line parsing and response formatting for the jobs the pool runs.

use vstd::prelude::*;
use vstd::string::StringExecFns;

verus! {

/// The decimal digits of `n`, most significant first.
pub open spec fn spec_decimal(n: nat) -> Seq<char>
    decreases n,
{
    if n < 10 {
        seq![spec_digit_char(n)]
    } else {
        spec_decimal(n / 10).push(spec_digit_char(n % 10))
    }
}

/// The character for a single decimal digit.
pub open spec fn spec_digit_char(d: nat) -> char {
    if d == 0 { '0' }
    else if d == 1 { '1' }
    else if d == 2 { '2' }
    else if d == 3 { '3' }
    else if d == 4 { '4' }
    else if d == 5 { '5' }
    else if d == 6 { '6' }
    else if d == 7 { '7' }
    else if d == 8 { '8' }
    else { '9' }
}

fn digit_str(d: u64) -> (r: &'static str)
    requires
        d < 10,
    ensures
        r@ =~= seq![spec_digit_char(d as nat)],
{
    proof {
        reveal_strlit("0");
        reveal_strlit("1");
        reveal_strlit("2");
        reveal_strlit("3");
        reveal_strlit("4");
        reveal_strlit("5");
        reveal_strlit("6");
        reveal_strlit("7");
        reveal_strlit("8");
        reveal_strlit("9");
    }
    match d {
        0 => "0",
        1 => "1",
        2 => "2",
        3 => "3",
        4 => "4",
        5 => "5",
        6 => "6",
        7 => "7",
        8 => "8",
        _ => "9",
    }
}

/// Render `n` in decimal.
pub fn u64_to_string(n: u64) -> (r: String)
    ensures
        r@ == spec_decimal(n as nat),
    decreases n,
{
    if n < 10 {
        digit_str(n).to_owned()
    } else {
        let prefix = u64_to_string(n / 10);
        prefix.concat(digit_str(n % 10))
    }
}

/// The full response text: status line, a `Content-Length` header carrying
/// `length` in decimal, a blank line, then the body.
pub open spec fn spec_response(status: Seq<char>, length: nat, contents: Seq<char>) -> Seq<char> {
    status + "\r\nContent-Length: "@ + spec_decimal(length) + "\r\n\r\n"@ + contents
}

/// Format an HTTP response from a status line, a body length and the body.
pub fn build_response(status: &str, length: usize, contents: &str) -> (r: String)
    ensures
        r@ == spec_response(status@, length as nat, contents@),
{
    let mut r = status.to_owned();
    r.append("\r\nContent-Length: ");
    let len_text = u64_to_string(length as u64);
    r.append(len_text.as_str());
    r.append("\r\n\r\n");
    r.append(contents);
    r
}

/// Whether two string slices hold the same characters.
pub fn str_eq(a: &str, b: &str) -> (r: bool)
    ensures
        r == (a@ == b@),
{
    let a_owned = a.to_owned();
    let b_owned = b.to_owned();
    a_owned == b_owned
}

/// Why a file could not be served.
#[derive(PartialEq, Eq, Structural, Clone, Copy, Debug)]
pub enum FileError {
    /// The name is neither an embedded asset nor was content found for it
    /// elsewhere.
    NotFound,
}

/// The content stored under `name`, scanning from the front.
pub open spec fn asset_lookup(entries: Seq<(String, String)>, name: Seq<char>) -> Option<
    Seq<char>,
>
    decreases entries.len(),
{
    if entries.len() == 0 {
        None
    } else if entries[0].0@ == name {
        Some(entries[0].1@)
    } else {
        asset_lookup(entries.drop_first(), name)
    }
}

/// The embedded assets: file contents the server carries with it, keyed by
/// file name.
pub struct AssetStore {
    entries: Vec<(String, String)>,
}

impl AssetStore {
    /// The content stored under `name`, if any.
    pub closed spec fn spec_get(&self, name: Seq<char>) -> Option<Seq<char>> {
        asset_lookup(self.entries@, name)
    }

    /// An empty store.
    pub fn new() -> (r: AssetStore)
        ensures
            forall|name: Seq<char>| #[trigger] r.spec_get(name) is None,
    {
        AssetStore { entries: Vec::new() }
    }

    /// Add an asset under a name not stored yet.
    pub fn insert(&mut self, name: String, content: String)
        requires
            old(self).spec_get(name@) is None,
        ensures
            final(self).spec_get(name@) == Some(content@),
            forall|other: Seq<char>| other != name@
                ==> #[trigger] final(self).spec_get(other) == old(self).spec_get(other),
    {
        let ghost nm = name@;
        let ghost ct = content@;
        self.entries.insert(0, (name, content));
        proof {
            assert(self.entries@.drop_first() =~= old(self).entries@);
            assert forall|other: Seq<char>| other != nm
                implies #[trigger] self.spec_get(other) == old(self).spec_get(other) by {
                assert(asset_lookup(self.entries@, other) == asset_lookup(
                    old(self).entries@,
                    other,
                ));
            }
        }
    }

    /// Look an asset up by name.
    pub fn get(&self, name: &str) -> (r: Option<String>)
        ensures
            match r {
                Some(c) => self.spec_get(name@) == Some(c@),
                None => self.spec_get(name@) is None,
            },
    {
        let n = self.entries.len();
        let mut i: usize = 0;
        proof {
            assert(self.entries@.skip(0) =~= self.entries@);
        }
        while i < n
            invariant
                n == self.entries@.len(),
                i <= n,
                asset_lookup(self.entries@, name@) == asset_lookup(
                    self.entries@.skip(i as int),
                    name@,
                ),
            decreases n - i,
        {
            if str_eq(self.entries[i].0.as_str(), name) {
                return Some(self.entries[i].1.clone());
            }
            proof {
                assert(self.entries@.skip(i as int).drop_first() =~= self.entries@.skip(
                    i as int + 1,
                ));
            }
            i = i + 1;
        }
        None
    }
}

/// What serving `name` yields: the embedded asset under that name if there
/// is one, else whatever content was found for it elsewhere.
pub open spec fn spec_served(assets: AssetStore, name: Seq<char>, disk: Option<String>) -> Option<
    Seq<char>,
> {
    match assets.spec_get(name) {
        Some(c) => Some(c),
        None => match disk {
            Some(d) => Some(d@),
            None => None,
        },
    }
}

/// The disk locations to try for `base_filename`, in order, when it is not
/// an embedded asset.
pub fn lookup_paths(base_filename: &str) -> (r: Vec<String>)
    ensures
        r@.len() == 3,
        r@[0]@ == "./src/assets/"@ + base_filename@,
        r@[1]@ == "./"@ + base_filename@,
        r@[2]@ == "./"@ + base_filename@ + ".html"@,
{
    let first = "./src/assets/".to_owned().concat(base_filename);
    let second = "./".to_owned().concat(base_filename);
    let third = "./".to_owned().concat(base_filename).concat(".html");
    let mut r: Vec<String> = Vec::new();
    r.push(first);
    r.push(second);
    r.push(third);
    r
}

/// Serve `base_filename`: embedded assets come first, then `disk`, the
/// content the caller read from one of the `lookup_paths` locations, if any.
pub fn get_file_contents(assets: &AssetStore, base_filename: &str, disk: Option<String>) -> (r:
    Result<String, FileError>)
    ensures
        match r {
            Ok(c) => spec_served(*assets, base_filename@, disk) == Some(c@),
            Err(e) => spec_served(*assets, base_filename@, disk) is None && e
                == FileError::NotFound,
        },
{
    match assets.get(base_filename) {
        Some(c) => Ok(c),
        None => match disk {
            Some(d) => Ok(d),
            None => Err(FileError::NotFound),
        },
    }
}

/// The status line of a response that found its file.
pub open spec fn spec_ok_status(version: Seq<char>) -> Seq<char> {
    "HTTP/"@ + version + " 200 OK"@
}

/// The status line of a response that did not.
pub open spec fn spec_not_found_status(version: Seq<char>) -> Seq<char> {
    "HTTP/"@ + version + " 404 NOT FOUND"@
}

/// The status line and body for a request, resolved against the embedded
/// assets and `disk`, the content the caller read for `filename` from the
/// `lookup_paths` locations, if any.
///
/// A `GET` whose file is found is served with a success status; a `GET`
/// whose file is missing, and any other method, is served the embedded
/// not-found page — the former under a not-found status, the latter, as a
/// quirk the server's clients rely on, under the success status. The store
/// must carry the not-found page.
pub fn get_response_content(
    filename: &str,
    method: &str,
    http_version: &str,
    assets: &AssetStore,
    disk: Option<String>,
) -> (r: (String, String))
    requires
        assets.spec_get("404.html"@) is Some,
    ensures
        method@ == "GET"@ ==> (spec_served(*assets, filename@, disk) matches Some(c) ==> r.0@
            == spec_ok_status(http_version@) && r.1@ == c),
        method@ == "GET"@ && spec_served(*assets, filename@, disk) is None ==> r.0@
            == spec_not_found_status(http_version@) && assets.spec_get("404.html"@) == Some(r.1@),
        method@ != "GET"@ ==> r.0@ == spec_ok_status(http_version@) && assets.spec_get("404.html"@)
            == Some(r.1@),
{
    let mut ok_status = "HTTP/".to_owned();
    ok_status.append(http_version);
    ok_status.append(" 200 OK");
    if str_eq(method, "GET") {
        match get_file_contents(assets, filename, disk) {
            Ok(contents) => (ok_status, contents),
            Err(_) => {
                let mut not_found_status = "HTTP/".to_owned();
                not_found_status.append(http_version);
                not_found_status.append(" 404 NOT FOUND");
                match assets.get("404.html") {
                    Some(page) => (not_found_status, page),
                    None => vstd::pervasive::unreached(),
                }
            },
        }
    } else {
        match assets.get("404.html") {
            Some(page) => (ok_status, page),
            None => vstd::pervasive::unreached(),
        }
    }
}

} // verus!

use crate::response::{build_response, Response};
use crate::route::{PathPattern, ViewPathArgs};
use vstd::prelude::*;
use vstd::utf8::encode_utf8;

verus! {

/// The media type that `mime_guess` gives a path by its extension.
pub uninterp spec fn guessed_mime(path: Seq<char>) -> Seq<char>;

/// Relies on `mime_guess::from_path(..).first_or_octet_stream()`: the first
/// media type known for the path's extension, `application/octet-stream`
/// where none is.
#[verifier::external_body]
fn mime_of(path: &str) -> (r: String)
    ensures
        r@ == guessed_mime(path@),
{
    mime_guess::from_path(path).first_or_octet_stream().to_string()
}

/// A view that serves the files under a root directory, the pattern's
/// `file_path` group naming the file.
pub struct StaticFiles {
    root: String,
    re_path: PathPattern,
}

impl StaticFiles {
    pub closed spec fn root(&self) -> Seq<char> {
        self.root@
    }

    pub closed spec fn pattern(&self) -> Seq<char> {
        self.re_path.source()
    }

    pub fn new(root: String, re_path: PathPattern) -> (r: StaticFiles)
        ensures
            r.root() == root@,
            r.pattern() == re_path.source(),
    {
        StaticFiles { root, re_path }
    }

    pub fn re_path(&self) -> (r: &PathPattern)
        ensures
            r.source() == self.pattern(),
    {
        &self.re_path
    }

    /// The methods that the view serves: `GET`.
    pub fn methods(&self) -> (r: Vec<String>)
        ensures
            r@.len() == 1,
            r@[0]@ == "GET"@,
    {
        vec![String::from_str("GET")]
    }

    /// The file that a request names: `<root>/<file_path>`; an error where
    /// routing gave no parameters or no `file_path`.
    pub fn file_path(&self, view_args: Option<&ViewPathArgs>) -> (r: Result<String, String>)
        requires
            view_args matches Some(a) ==> a.wf(),
        ensures
            match view_args {
                None => (r matches Err(m) && m@ == "no view_args"@),
                Some(a) => if a@.contains_key("file_path"@) {
                    r matches Ok(p) && p@ == self.root() + seq!['/'] + a@["file_path"@]
                } else {
                    r matches Err(m) && m@ == "no file_path"@
                },
            },
    {
        let args = match view_args {
            Some(a) => a,
            None => return Err(String::from_str("no view_args")),
        };
        let name = match args.get("file_path") {
            Some(n) => n,
            None => return Err(String::from_str("no file_path")),
        };
        let mut p = self.root.clone();
        p.append("/");
        p.append(name.as_str());
        proof {
            reveal_strlit("/");
        }
        Ok(p)
    }

    /// The response for the file at `path`: 404 `Not found` where there is
    /// no such file, else its contents with the media type of its extension.
    pub fn file_response(&self, path: &str, contents: Option<Vec<u8>>) -> (r: Response)
        ensures
            match contents {
                None => r.status == 404 && r.body@ == encode_utf8("Not found"@),
                Some(c) => r.status == 200 && r.content_type@ == guessed_mime(path@) && r.body@
                    == c@ && r.headers@.len() == 0,
            },
    {
        match contents {
            None => build_response(String::from_str("Not found"), 404, "text/plain"),
            Some(body) => Response { status: 200, content_type: mime_of(path), headers: Vec::new(), body },
        }
    }
}

} // verus!

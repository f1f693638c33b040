use crate::strmap::{assoc_map_opt, opt_pairs_view, StrMap};
use vstd::prelude::*;

verus! {

#[verifier::external_type_specification]
#[verifier::external_body]
pub struct ExRegex(regex::Regex);

#[verifier::external_type_specification]
#[verifier::external_body]
pub struct ExRegexError(regex::Error);

/// The parameters that a route extracts from a path: group name to the text
/// that the group captured.
pub type ViewPathArgs = StrMap;

/// Whether `regex::Regex::new` accepts the pattern.
pub uninterp spec fn regex_compiles(pattern: Seq<char>) -> bool;

/// The names of the capture groups of a pattern, in the order of
/// `regex::Regex::capture_names`: one entry per group, the implicit whole-match
/// group first, `None` for a group without a name.
pub uninterp spec fn regex_group_names(pattern: Seq<char>) -> Seq<Option<Seq<char>>>;

/// What `regex::Regex::captures` finds of a pattern in a text: nothing where
/// the pattern does not match; else, group by group, the captured text or
/// `None` for a group that took no part in the match.
pub uninterp spec fn regex_captures(pattern: Seq<char>, text: Seq<char>) -> Option<
    Seq<Option<Seq<char>>>,
>;

/// Relies on `regex::Regex::new`: it compiles a pattern or reports why not.
#[verifier::external_body]
fn compile_regex(pattern: &str) -> (r: Result<regex::Regex, regex::Error>)
    ensures
        r is Ok <==> regex_compiles(pattern@),
{
    regex::Regex::new(pattern)
}

/// Relies on `regex::Regex::capture_names`, on the regex that `p` was
/// compiled to from its source.
#[verifier::external_body]
fn group_names(p: &PathPattern) -> (r: Vec<Option<String>>)
    ensures
        opt_strings_view(r@) == regex_group_names(p.source()),
{
    p.re.capture_names().map(|n| n.map(|n| n.to_string())).collect()
}

/// Relies on `regex::Regex::captures`, on the regex that `p` was compiled to
/// from its source.
#[verifier::external_body]
fn captures(p: &PathPattern, path: &str) -> (r: Option<Vec<Option<String>>>)
    ensures
        match r {
            Some(c) => regex_captures(p.source(), path@) == Some(opt_strings_view(c@)),
            None => regex_captures(p.source(), path@) is None,
        },
{
    p.re.captures(path).map(|c| c.iter().map(|m| m.map(|m| m.as_str().to_string())).collect())
}

pub open spec fn opt_strings_view(v: Seq<Option<String>>) -> Seq<Option<Seq<char>>> {
    v.map_values(
        |e: Option<String>|
            match e {
                Some(s) => Some(s@),
                None => None,
            },
    )
}

/// Group by group, the name and the captured text, where the group has a name
/// and took part in the match.
pub open spec fn named_pairs(names: Seq<Option<Seq<char>>>, caps: Seq<Option<Seq<char>>>) -> Seq<
    Option<(Seq<char>, Seq<char>)>,
> {
    Seq::new(
        names.len(),
        |i: int|
            if i < caps.len() && names[i] is Some && caps[i] is Some {
                Some((names[i]->0, caps[i]->0))
            } else {
                None
            },
    )
}

/// The parameters that a pattern extracts from a path, or nothing where the
/// pattern does not match.
pub open spec fn path_args(pattern: Seq<char>, path: Seq<char>) -> Option<Map<Seq<char>, Seq<char>>> {
    match regex_captures(pattern, path) {
        Some(c) => Some(assoc_map_opt(named_pairs(regex_group_names(pattern), c))),
        None => None,
    }
}

pub open spec fn matches(pattern: Seq<char>, path: Seq<char>) -> bool {
    regex_captures(pattern, path) is Some
}

/// A path pattern: a regular expression, kept with its source.
pub struct PathPattern {
    source: String,
    re: regex::Regex,
}

#[derive(Debug, Clone, Copy, PartialEq, Eq, Structural)]
pub enum RouteError {
    /// The pattern is not a regular expression.
    InvalidPattern,
}

impl PathPattern {
    pub closed spec fn source(&self) -> Seq<char> {
        self.source@
    }

    /// Compiles a pattern; fails where it is not a regular expression.
    pub fn new(pattern: &str) -> (r: Result<PathPattern, RouteError>)
        ensures
            r is Ok <==> regex_compiles(pattern@),
            r matches Ok(p) ==> p.source() == pattern@,
    {
        match compile_regex(pattern) {
            Ok(re) => Ok(PathPattern { source: pattern.to_owned(), re }),
            Err(_) => Err(RouteError::InvalidPattern),
        }
    }

    pub fn as_str(&self) -> (r: &str)
        ensures
            r@ == self.source(),
    {
        self.source.as_str()
    }
}

/// The parameters that the named groups of a match captured; where a name
/// comes twice, the later group wins.
fn caps_to_map(names: &Vec<Option<String>>, caps: &Vec<Option<String>>) -> (r: ViewPathArgs)
    ensures
        r.wf(),
        r@ == assoc_map_opt(named_pairs(opt_strings_view(names@), opt_strings_view(caps@))),
{
    let mut pairs: Vec<Option<(String, String)>> = Vec::new();
    let ghost ns = opt_strings_view(names@);
    let ghost cs = opt_strings_view(caps@);
    let mut i: usize = 0;
    while i < names.len()
        invariant
            i <= names.len(),
            ns == opt_strings_view(names@),
            cs == opt_strings_view(caps@),
            opt_pairs_view(pairs@) == named_pairs(ns, cs).take(i as int),
        decreases names.len() - i,
    {
        let mut pair: Option<(String, String)> = None;
        if i < caps.len() {
            match (&names[i], &caps[i]) {
                (Some(n), Some(c)) => {
                    pair = Some((n.clone(), c.clone()));
                },
                _ => {},
            }
        }
        proof {
            let k = i as int;
            if k < cs.len() {
                assert(cs[k] == opt_strings_view(caps@)[k]);
            }
            assert(ns[k] == opt_strings_view(names@)[k]);
            assert(opt_pairs_view(seq![pair])[0] == named_pairs(ns, cs)[k]);
        }
        let ghost before = pairs@;
        let ghost pv = opt_pairs_view(seq![pair])[0];
        pairs.push(pair);
        assert(opt_pairs_view(pairs@) =~= opt_pairs_view(before).push(pv));
        assert(opt_pairs_view(pairs@) =~= named_pairs(ns, cs).take(i as int + 1));
        i = i + 1;
    }
    assert(named_pairs(ns, cs).take(names.len() as int) =~= named_pairs(ns, cs));
    StrMap::from_pairs(pairs)
}

/// A registered view: the methods that it allows and the pattern of the paths
/// that it serves.
pub struct Route {
    pub methods: Vec<String>,
    pub pattern: PathPattern,
}

/// The first route, in the order given, whose pattern matches `path`, with
/// the parameters that it extracts; nothing where no pattern matches.
pub fn match_view(routes: &Vec<Route>, path: &str) -> (r: Option<(usize, ViewPathArgs)>)
    ensures
        r is None <==> forall|i: int|
            0 <= i < routes@.len() ==> !matches(routes@[i].pattern.source(), path@),
        r matches Some((i, args)) ==> {
            &&& i < routes@.len()
            &&& matches(routes@[i as int].pattern.source(), path@)
            &&& forall|j: int| 0 <= j < i ==> !matches(routes@[j].pattern.source(), path@)
            &&& args.wf()
            &&& path_args(routes@[i as int].pattern.source(), path@) == Some(args@)
        },
{
    let mut i: usize = 0;
    while i < routes.len()
        invariant
            i <= routes.len(),
            forall|j: int| 0 <= j < i ==> !matches(routes@[j].pattern.source(), path@),
        decreases routes.len() - i,
    {
        let p = &routes[i].pattern;
        match captures(p, path) {
            Some(caps) => {
                let names = group_names(p);
                let args = caps_to_map(&names, &caps);
                return Some((i, args));
            },
            None => {},
        }
        i = i + 1;
    }
    None
}

/// The table of registered views, in registration order.
pub struct Router {
    routes: Vec<Route>,
}

impl Router {
    pub closed spec fn routes_view(&self) -> Seq<Route> {
        self.routes@
    }

    pub fn new() -> (r: Router)
        ensures
            r.routes_view().len() == 0,
    {
        Router { routes: Vec::new() }
    }

    /// Registers a view after those already there; its index is returned.
    pub fn add_route(&mut self, pattern: PathPattern, methods: Vec<String>) -> (r: usize)
        requires
            old(self).routes_view().len() < usize::MAX,
        ensures
            r == old(self).routes_view().len(),
            final(self).routes_view() == old(self).routes_view().push(Route { methods, pattern }),
    {
        let r = self.routes.len();
        self.routes.push(Route { methods, pattern });
        r
    }

    pub fn routes(&self) -> (r: &Vec<Route>)
        ensures
            r@ == self.routes_view(),
    {
        &self.routes
    }

    /// The first registered view whose pattern matches `path`, with the
    /// parameters that it extracts.
    pub fn match_path(&self, path: &str) -> (r: Option<(usize, ViewPathArgs)>)
        ensures
            r is None <==> forall|i: int|
                0 <= i < self.routes_view().len() ==> !matches(
                    self.routes_view()[i].pattern.source(),
                    path@,
                ),
            r matches Some((i, args)) ==> {
                &&& i < self.routes_view().len()
                &&& matches(self.routes_view()[i as int].pattern.source(), path@)
                &&& forall|j: int|
                    0 <= j < i ==> !matches(self.routes_view()[j].pattern.source(), path@)
                &&& args.wf()
                &&& path_args(self.routes_view()[i as int].pattern.source(), path@) == Some(args@)
            },
    {
        match_view(&self.routes, path)
    }
}

} // verus!

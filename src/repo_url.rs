//! Repository URLs, held as the parts that the resolution logic reads.
use vstd::prelude::*;
use crate::text::concat;

verus! {

#[verifier::external_type_specification]
#[verifier::external_body]
pub struct ExUrlParseError(url::ParseError);

/// The parts of the URL that `url::Url::parse` makes of `s`, or `None` when it
/// rejects `s`: everything before the path, the host when it is a domain, the
/// path, and everything after the path.
pub uninterp spec fn url_parts(s: Seq<char>) -> Option<(Seq<char>, Option<Seq<char>>, Seq<char>, Seq<char>)>;

/// The path that a list of segments spells: each segment preceded by `/`.
pub open spec fn joined_path(segs: Seq<Seq<char>>) -> Seq<char>
    decreases segs.len(),
{
    if segs.len() == 0 {
        Seq::empty()
    } else {
        joined_path(segs.drop_last()) + seq!['/'] + segs.last()
    }
}

/// The mathematical value of a [`RepoUrl`].
pub struct UrlView {
    /// Everything before the path: scheme, credentials, host and port.
    pub head: Seq<char>,
    /// The host, when it is a domain name.
    pub domain: Option<Seq<char>>,
    pub path: Seq<char>,
    /// The `/`-separated path segments; absent when the path has no leading `/`.
    pub segments: Option<Seq<Seq<char>>>,
    /// Query and fragment.
    pub tail: Seq<char>,
}

impl UrlView {
    /// The serialised URL.
    pub open spec fn serialized(self) -> Seq<char> {
        self.head + self.path + self.tail
    }

    /// The parts that `url_parts` names.
    pub open spec fn parts(self) -> (Seq<char>, Option<Seq<char>>, Seq<char>, Seq<char>) {
        (self.head, self.domain, self.path, self.tail)
    }

    /// The segments spell the path, there is at least one, and none holds a `/`.
    pub open spec fn wf(self) -> bool {
        match self.segments {
            Some(segs) => {
                &&& segs.len() >= 1
                &&& self.path == joined_path(segs)
                &&& forall|i: int| 0 <= i < segs.len() ==> !segs[i].contains('/')
            },
            None => self.path.len() == 0 || self.path[0] != '/',
        }
    }

    /// This URL with its path cut to its first two segments.
    pub open spec fn root(self) -> UrlView {
        let two = self.segments.unwrap().subrange(0, 2);
        UrlView { path: joined_path(two), segments: Some(two), ..self }
    }
}

/// The view of an optional string.
pub open spec fn opt_view(s: Option<String>) -> Option<Seq<char>> {
    match s {
        Some(x) => Some(x@),
        None => None,
    }
}

/// A parsed repository URL.
#[derive(Debug)]
pub struct RepoUrl {
    head: String,
    domain: Option<String>,
    path: String,
    segments: Option<Vec<String>>,
    tail: String,
}

impl View for RepoUrl {
    type V = UrlView;

    closed spec fn view(&self) -> UrlView {
        UrlView {
            head: self.head@,
            domain: opt_view(self.domain),
            path: self.path@,
            segments: match &self.segments {
                Some(v) => Some(v@.map_values(|x: String| x@)),
                None => None,
            },
            tail: self.tail@,
        }
    }
}

/// Relies on `url::Url::parse` for the parse, and on `Url::path_segments`,
/// whose segments are the path after its leading `/`, split at each `/`, at
/// least one, and absent exactly when the path has no leading `/`.
#[verifier::external_body]
fn parse_parts(s: &str) -> (r: Result<RepoUrl, url::ParseError>)
    ensures
        r is Ok <==> url_parts(s@) is Some,
        r matches Ok(u) ==> u@.parts() == url_parts(s@).unwrap() && u@.wf(),
{
    let u = url::Url::parse(s)?;
    Ok(RepoUrl {
        head: u[..url::Position::BeforePath].to_owned(),
        domain: u.domain().map(str::to_owned),
        path: u.path().to_owned(),
        segments: u.path_segments().map(|it| it.map(str::to_owned).collect()),
        tail: u[url::Position::AfterPath..].to_owned(),
    })
}

impl RepoUrl {
    #[verifier::type_invariant]
    closed spec fn inv(&self) -> bool {
        self@.wf()
    }

    /// Parses `s` as an absolute URL.
    pub fn parse(s: &str) -> (r: Result<RepoUrl, url::ParseError>)
        ensures
            r is Ok <==> url_parts(s@) is Some,
            r matches Ok(u) ==> u@.parts() == url_parts(s@).unwrap() && u@.wf(),
    {
        parse_parts(s)
    }

    /// The serialised URL.
    pub fn as_string(&self) -> (r: String)
        ensures
            r@ == self@.serialized(),
    {
        let hp = concat(self.head.as_str(), self.path.as_str());
        concat(hp.as_str(), self.tail.as_str())
    }

    /// The host, when it is a domain name.
    pub fn domain(&self) -> (r: Option<&str>)
        ensures
            match r {
                Some(d) => self@.domain == Some(d@),
                None => self@.domain is None,
            },
    {
        match &self.domain {
            Some(d) => Some(d.as_str()),
            None => None,
        }
    }

    /// The path segments; `None` when the path is not hierarchical.
    pub fn segments(&self) -> (r: Option<&Vec<String>>)
        ensures
            match r {
                Some(v) => self@.segments == Some(v@.map_values(|x: String| x@)),
                None => self@.segments is None,
            },
    {
        match &self.segments {
            Some(v) => Some(v),
            None => None,
        }
    }

    /// Cuts the path down to its first two segments, `/owner/repo`.
    pub fn truncate_to_root(&mut self)
        requires
            old(self)@.segments matches Some(s) && s.len() >= 2,
        ensures
            final(self)@ == old(self)@.root(),
    {
        proof { use_type_invariant(&*self); }
        let ghost sq = self@.segments.unwrap();
        let (first, second) = match &self.segments {
            Some(segs) => (segs[0].clone(), segs[1].clone()),
            None => (String::new(), String::new()),
        };
        let p1 = concat("/", first.as_str());
        let p2 = concat(p1.as_str(), "/");
        let path = concat(p2.as_str(), second.as_str());
        proof {
            reveal_strlit("/");
            let two = sq.subrange(0, 2);
            assert(two.drop_last() =~= seq![sq[0]]);
            assert(seq![sq[0]].drop_last() =~= Seq::<Seq<char>>::empty());
            assert(first@ == sq[0] && second@ == sq[1]);
            assert(joined_path(Seq::<Seq<char>>::empty()) == Seq::<char>::empty());
            assert(seq![sq[0]].last() == sq[0]);
            assert(joined_path(seq![sq[0]]) =~= seq!['/'] + sq[0]);
            assert(joined_path(two) == joined_path(seq![sq[0]]) + seq!['/'] + sq[1]);
            assert(path@ =~= joined_path(two));
        }
        let domain = match &self.domain {
            Some(d) => Some(d.clone()),
            None => None,
        };
        let kept = vec![first, second];
        proof {
            let two = sq.subrange(0, 2);
            assert(kept@.map_values(|x: String| x@) =~= two);
            assert forall|i: int| 0 <= i < two.len() implies !two[i].contains('/') by {
                assert(two[i] == sq[i]);
            }
        }
        let cut = RepoUrl {
            head: self.head.clone(),
            domain,
            path,
            segments: Some(kept),
            tail: self.tail.clone(),
        };
        proof {
            assert(cut@.segments.unwrap() =~= sq.subrange(0, 2));
            assert(cut@ =~= old(self)@.root());
        }
        *self = cut;
    }

    /// A copy of this URL.
    pub fn duplicate(&self) -> (r: RepoUrl)
        ensures
            r@ == self@,
    {
        proof { use_type_invariant(self); }
        let segments = match &self.segments {
            Some(v) => {
                let mut out: Vec<String> = Vec::new();
                let mut i: usize = 0;
                while i < v.len()
                    invariant
                        i <= v@.len(),
                        out@.len() == i,
                        forall|j: int| 0 <= j < i ==> out@[j]@ == v@[j]@,
                    decreases v@.len() - i,
                {
                    out.push(v[i].clone());
                    i = i + 1;
                }
                assert(out@.map_values(|x: String| x@) =~= v@.map_values(|x: String| x@));
                Some(out)
            },
            None => None,
        };
        let domain = match &self.domain {
            Some(d) => Some(d.clone()),
            None => None,
        };
        let r = RepoUrl {
            head: self.head.clone(),
            domain,
            path: self.path.clone(),
            segments,
            tail: self.tail.clone(),
        };
        assert(r@ =~= self@);
        r
    }
}

} // verus!

//! Query-argument assembly for the list endpoints, and the trusted
//! boundary to the URI-template expander.
//!
//! [`QueryArgs`] collects `(key, value)` pairs — scalars only where
//! present, list parameters once per element, timestamps in RFC3339 with
//! whole seconds — and the collected list is expanded into a URL through
//! a `{?query*}` template.

use vstd::prelude::*;

use vstd::utf8::is_ascii_chars;

use crate::datetime::{rfc3339_utc_of, UtcTimestamp};
use crate::strutil::pairs_view;

verus! {

/// The expansion of a URI template whose one variable, `query`, is bound
/// to the given list of key/value pairs.  The RFC6570 rules are the
/// template engine's business; this crate relies on the expansion being
/// a function of template and pairs alone.
pub uninterp spec fn uri_query_expansion_of(
    template: Seq<char>,
    query: Seq<(Seq<char>, Seq<char>)>,
) -> Seq<char>;

/// Relies on `uritemplate::UriTemplate`: expands `template` with the
/// variable `query` bound to `query` as a list of key/value pairs.  The
/// template must be ASCII: the engine indexes variable specs by byte
/// position, so a template with a non-ASCII variable name makes it
/// panic.
#[verifier::external_body]
fn expand_with_query(template: &str, query: Vec<(String, String)>) -> (r: String)
    requires
        is_ascii_chars(template@),
    ensures
        r@ == uri_query_expansion_of(template@, pairs_view(query@)),
{
    uritemplate::UriTemplate::new(template).set("query", query).build()
}

/// Expands an endpoint's `{?query*}` template with the collected
/// arguments.  The template must be ASCII; see [`expand_with_query`].
pub fn expand_query_template(template: &str, args: QueryArgs) -> (r: String)
    requires
        is_ascii_chars(template@),
    ensures
        r@ == uri_query_expansion_of(template@, args@),
{
    expand_with_query(template, args.data)
}

/// An ordered list of query arguments for one request.
pub struct QueryArgs {
    data: Vec<(String, String)>,
}

impl View for QueryArgs {
    type V = Seq<(Seq<char>, Seq<char>)>;

    closed spec fn view(&self) -> Seq<(Seq<char>, Seq<char>)> {
        pairs_view(self.data@)
    }
}

impl QueryArgs {
    /// An empty argument list.
    pub fn new() -> (r: QueryArgs)
        ensures
            r@ == Seq::<(Seq<char>, Seq<char>)>::empty(),
    {
        let r = QueryArgs { data: Vec::new() };
        proof {
            assert(r@ =~= Seq::<(Seq<char>, Seq<char>)>::empty());
        }
        r
    }

    /// A copy of the collected pairs.
    pub fn get(&self) -> (r: Vec<(String, String)>)
        ensures
            pairs_view(r@) == self@,
    {
        let mut out: Vec<(String, String)> = Vec::new();
        let mut i: usize = 0;
        proof {
            assert(pairs_view(out@) =~= self@.take(0));
        }
        while i < self.data.len()
            invariant
                i <= self.data@.len(),
                pairs_view(out@) == self@.take(i as int),
            decreases self.data@.len() - i,
        {
            let ghost prev = pairs_view(out@);
            out.push((self.data[i].0.clone(), self.data[i].1.clone()));
            i += 1;
            proof {
                assert(pairs_view(out@) =~= prev.push(
                    (self.data@[i - 1].0@, self.data@[i - 1].1@),
                ));
                assert(self@.take(i as int) =~= prev.push(self@[i - 1]));
            }
        }
        proof {
            assert(self@.take(self.data@.len() as int) =~= self@);
        }
        out
    }

    /// Appends `key = value` unconditionally.
    pub fn add_mandatory_arg(self, key: &str, value: &str) -> (r: QueryArgs)
        ensures
            r@ == self@.push((key@, value@)),
    {
        let mut this = self;
        this.data.push((String::from_str(key), String::from_str(value)));
        proof {
            assert(this@ =~= self@.push((key@, value@)));
        }
        this
    }

    /// Appends `key = value` where a value is present; a `None` leaves
    /// the list unchanged.
    pub fn add_optional_scalar_arg(self, key: &str, value: &Option<String>) -> (r: QueryArgs)
        ensures
            match value {
                Some(v) => r@ == self@.push((key@, v@)),
                None => r@ == self@,
            },
    {
        match value {
            Some(v) => {
                let mut this = self;
                this.data.push((String::from_str(key), v.clone()));
                proof {
                    assert(this@ =~= self@.push((key@, v@)));
                }
                this
            },
            None => self,
        }
    }

    /// Appends `key = <rfc3339>` where a timestamp is present, rendered
    /// with whole seconds.
    pub fn add_optional_datetime_arg(self, key: &str, value: &Option<UtcTimestamp>) -> (r:
        QueryArgs)
        ensures
            match value {
                Some(t) => r@ == self@.push((key@, rfc3339_utc_of(t.secs as int))),
                None => r@ == self@,
            },
    {
        match value {
            Some(t) => {
                let rendered = t.to_rfc3339();
                let mut this = self;
                this.data.push((String::from_str(key), rendered));
                proof {
                    assert(this@ =~= self@.push((key@, rfc3339_utc_of(t.secs as int))));
                }
                this
            },
            None => self,
        }
    }

    /// Appends `key = v` once per element where a list is present.
    pub fn add_optional_vec_args(self, key: &str, values: &Option<Vec<String>>) -> (r: QueryArgs)
        ensures
            match values {
                Some(vs) => r@ == self@ + vs@.map_values(|v: String| (key@, v@)),
                None => r@ == self@,
            },
    {
        match values {
            Some(vs) => {
                let mut this = self;
                let mut i: usize = 0;
                proof {
                    assert(this@ =~= self@ + vs@.map_values(|v: String| (key@, v@)).take(0));
                }
                while i < vs.len()
                    invariant
                        i <= vs@.len(),
                        this@ == self@ + vs@.map_values(|v: String| (key@, v@)).take(i as int),
                    decreases vs@.len() - i,
                {
                    let ghost prev = this@;
                    this.data.push((String::from_str(key), vs[i].clone()));
                    i += 1;
                    proof {
                        assert(this@ =~= prev.push((key@, vs@[i - 1]@)));
                        assert(self@ + vs@.map_values(|v: String| (key@, v@)).take(i as int)
                            =~= prev.push((key@, vs@[i - 1]@)));
                    }
                }
                proof {
                    assert(vs@.map_values(|v: String| (key@, v@)).take(vs@.len() as int)
                        =~= vs@.map_values(|v: String| (key@, v@)));
                }
                this
            },
            None => self,
        }
    }
}

} // verus!

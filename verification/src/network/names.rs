//! Protocol-neutral service names, used by every discovery mechanism.
use vstd::prelude::*;

use super::grammar::{
    ident_run_end, is_ident, is_run_end, lemma_all_ident, lemma_ident_is_run, lemma_run_end_unique,
};
use crate::text::opt_view;
use super::NameParseError;

verus! {

/// The parts of a broadcast service name.
pub struct BroadcastServiceNameView {
    pub instance_name: Seq<char>,
    pub subdomain: Option<Seq<char>>,
    pub type_label: Seq<char>,
}

impl BroadcastServiceNameView {
    pub open spec fn well_formed(self) -> bool {
        &&& is_ident(self.instance_name)
        &&& is_ident(self.type_label)
        &&& (self.subdomain matches Some(x) ==> is_ident(x))
    }

    /// `<instance>.[<subdomain>.]<type>`
    pub open spec fn text(self) -> Seq<char> {
        self.instance_name + seq!['.'] + match self.subdomain {
            Some(x) => x + seq!['.'],
            None => Seq::empty(),
        } + self.type_label
    }
}

/// `s` is the broadcast service name whose parts are `v`.
pub open spec fn broadcast_service_name_matches(s: Seq<char>, v: BroadcastServiceNameView) -> bool {
    v.well_formed() && s == v.text()
}

/// The name a service is broadcast under, `<instance>.[<subdomain>.]<type>`.
#[derive(Debug, Default, PartialEq, Eq, Clone)]
pub struct BroadcastServiceName {
    instance_name: String,
    subdomain: Option<String>,
    type_label: String,
}

impl View for BroadcastServiceName {
    type V = BroadcastServiceNameView;

    closed spec fn view(&self) -> BroadcastServiceNameView {
        BroadcastServiceNameView {
            instance_name: self.instance_name@,
            subdomain: opt_view(self.subdomain),
            type_label: self.type_label@,
        }
    }
}

proof fn lemma_segments(s: Seq<char>, start: int, a: Seq<char>)
    requires
        0 <= start,
        start + a.len() <= s.len(),
        s.subrange(start, start + a.len()) == a,
        is_ident(a),
        start + a.len() == s.len() || s[start + a.len()] == '.',
    ensures
        is_run_end(s, start, start + a.len()),
{
    lemma_ident_is_run(s, start, a);
}

/// Law: a text is a broadcast service name in at most one way.
pub proof fn lemma_broadcast_service_name_unique(
    s: Seq<char>,
    v1: BroadcastServiceNameView,
    v2: BroadcastServiceNameView,
)
    requires
        broadcast_service_name_matches(s, v1),
        broadcast_service_name_matches(s, v2),
    ensures
        v1 == v2,
{
    let k1 = v1.instance_name.len() as int;
    let k2 = v2.instance_name.len() as int;
    assert(s.subrange(0, k1) =~= v1.instance_name);
    assert(s.subrange(0, k2) =~= v2.instance_name);
    lemma_segments(s, 0, v1.instance_name);
    lemma_segments(s, 0, v2.instance_name);
    lemma_run_end_unique(s, 0, k1, k2);
    let k = k1;
    match (v1.subdomain, v2.subdomain) {
        (None, None) => {
            assert(v1.type_label =~= s.subrange(k + 1, s.len() as int));
            assert(v2.type_label =~= s.subrange(k + 1, s.len() as int));
        },
        (Some(x1), Some(x2)) => {
            assert(s.subrange(k + 1, k + 1 + x1.len()) =~= x1);
            assert(s.subrange(k + 1, k + 1 + x2.len()) =~= x2);
            lemma_segments(s, k + 1, x1);
            lemma_segments(s, k + 1, x2);
            lemma_run_end_unique(s, k + 1, k + 1 + x1.len(), k + 1 + x2.len());
            assert(x1 =~= x2);
            assert(v1.type_label =~= s.subrange(k + 2 + x1.len(), s.len() as int));
            assert(v2.type_label =~= s.subrange(k + 2 + x1.len(), s.len() as int));
        },
        (Some(x1), None) => {
            lemma_name_shape(s, v1);
            lemma_name_shape(s, v2);
            lemma_run_end_unique(s, k + 1, k + 1 + x1.len(), s.len() as int);
        },
        (None, Some(x2)) => {
            lemma_name_shape(s, v1);
            lemma_name_shape(s, v2);
            lemma_run_end_unique(s, k + 1, k + 1 + x2.len(), s.len() as int);
        },
    }
}

/// Where the parts of a broadcast service name sit in its text.
proof fn lemma_name_shape(s: Seq<char>, v: BroadcastServiceNameView)
    requires
        broadcast_service_name_matches(s, v),
    ensures
        ({
            let m = v.instance_name.len() as int;
            &&& is_run_end(s, 0, m)
            &&& m < s.len()
            &&& s[m] == '.'
            &&& match v.subdomain {
                None => is_run_end(s, m + 1, s.len() as int),
                Some(x) => {
                    &&& is_run_end(s, m + 1, m + 1 + x.len())
                    &&& m + 1 + x.len() < s.len()
                    &&& s[m + 1 + x.len()] == '.'
                    &&& is_run_end(s, m + 2 + x.len(), s.len() as int)
                },
            }
        }),
{
    let m = v.instance_name.len() as int;
    assert(s.subrange(0, m) =~= v.instance_name);
    lemma_segments(s, 0, v.instance_name);
    match v.subdomain {
        None => {
            assert(s.subrange(m + 1, s.len() as int) =~= v.type_label);
            lemma_segments(s, m + 1, v.type_label);
        },
        Some(x) => {
            let e = m + 1 + x.len();
            assert(s.subrange(m + 1, e) =~= x);
            lemma_segments(s, m + 1, x);
            assert(s.subrange(e + 1, s.len() as int) =~= v.type_label);
            lemma_segments(s, e + 1, v.type_label);
        },
    }
}

impl BroadcastServiceName {
    pub fn new(instance_name: &str, type_label: &str) -> (r: Self)
        ensures
            r@ == (BroadcastServiceNameView {
                instance_name: instance_name@,
                subdomain: None,
                type_label: type_label@,
            }),
    {
        BroadcastServiceName {
            subdomain: None,
            instance_name: instance_name.to_owned(),
            type_label: type_label.to_owned(),
        }
    }

    pub fn with_subdomain(self, subdomain: &str) -> (r: Self)
        ensures
            r@ == (BroadcastServiceNameView { subdomain: Some(subdomain@), ..self@ }),
    {
        BroadcastServiceName { subdomain: Some(subdomain.to_owned()), ..self }
    }

    pub fn instance_name(&self) -> (r: &str)
        ensures
            r@ == self@.instance_name,
    {
        self.instance_name.as_str()
    }

    pub fn subdomain(&self) -> (r: Option<&str>)
        ensures
            match r {
                Some(x) => self@.subdomain == Some(x@),
                None => self@.subdomain is None,
            },
    {
        match &self.subdomain {
            Some(s) => Some(s.as_str()),
            None => None,
        }
    }

    pub fn type_label(&self) -> (r: &str)
        ensures
            r@ == self@.type_label,
    {
        self.type_label.as_str()
    }

    /// Reads a name written as `<instance>.[<subdomain>.]<type>`.
    pub fn from_str(s: &str) -> (r: Result<Self, NameParseError>)
        ensures
            match r {
                Ok(name) => broadcast_service_name_matches(s@, name@),
                Err(_) => forall|v: BroadcastServiceNameView| !#[trigger] broadcast_service_name_matches(s@, v),
            },
    {
        let n = s.unicode_len();
        let i = ident_run_end(s, 0);
        if !(i > 0 && i < n && s.get_char(i) == '.') {
            proof {
                assert forall|v: BroadcastServiceNameView| !#[trigger] broadcast_service_name_matches(s@, v) by {
                    if broadcast_service_name_matches(s@, v) {
                        lemma_name_shape(s@, v);
                        lemma_run_end_unique(s@, 0, i as int, v.instance_name.len() as int);
                    }
                }
            }
            return Err(NameParseError::PatternMismatch);
        }
        let j = ident_run_end(s, i + 1);
        if j > i + 1 && j == n {
            let name = BroadcastServiceName {
                instance_name: s.substring_char(0, i).to_owned(),
                subdomain: None,
                type_label: s.substring_char(i + 1, j).to_owned(),
            };
            proof {
                lemma_all_ident(s@, 0, i as int);
                lemma_all_ident(s@, i + 1, j as int);
                assert(s@ =~= name@.text());
            }
            return Ok(name);
        }
        if !(j > i + 1 && s.get_char(j) == '.') {
            proof {
                assert forall|v: BroadcastServiceNameView| !#[trigger] broadcast_service_name_matches(s@, v) by {
                    if broadcast_service_name_matches(s@, v) {
                        lemma_name_shape(s@, v);
                        lemma_run_end_unique(s@, 0, i as int, v.instance_name.len() as int);
                        match v.subdomain {
                            None => lemma_run_end_unique(s@, i + 1, j as int, n as int),
                            Some(x) => lemma_run_end_unique(s@, i + 1, j as int, i + 1 + x.len()),
                        }
                    }
                }
            }
            return Err(NameParseError::PatternMismatch);
        }
        let k = ident_run_end(s, j + 1);
        if k > j + 1 && k == n {
            let name = BroadcastServiceName {
                instance_name: s.substring_char(0, i).to_owned(),
                subdomain: Some(s.substring_char(i + 1, j).to_owned()),
                type_label: s.substring_char(j + 1, k).to_owned(),
            };
            proof {
                lemma_all_ident(s@, 0, i as int);
                lemma_all_ident(s@, i + 1, j as int);
                lemma_all_ident(s@, j + 1, k as int);
                assert(s@ =~= name@.text());
            }
            return Ok(name);
        }
        proof {
            assert forall|v: BroadcastServiceNameView| !#[trigger] broadcast_service_name_matches(s@, v) by {
                if broadcast_service_name_matches(s@, v) {
                    lemma_name_shape(s@, v);
                    lemma_run_end_unique(s@, 0, i as int, v.instance_name.len() as int);
                    match v.subdomain {
                        None => lemma_run_end_unique(s@, i + 1, j as int, n as int),
                        Some(x) => {
                            lemma_run_end_unique(s@, i + 1, j as int, i + 1 + x.len());
                            lemma_run_end_unique(s@, j + 1, k as int, n as int);
                        },
                    }
                }
            }
        }
        Err(NameParseError::PatternMismatch)
    }
}

/// The parts of a query service name.
pub struct QueryServiceNameView {
    pub subdomain: Option<Seq<char>>,
    pub type_label: Seq<char>,
}

/// How a query service name is read: the text must be a single run of
/// identifier characters. The subdomain part is optional and greedy, so a
/// text of two or more characters reads as a subdomain made of all but its
/// last character and a one-character type; a one-character text is the type
/// alone.
pub open spec fn query_service_name_reading(s: Seq<char>) -> Option<QueryServiceNameView> {
    if !is_ident(s) {
        None
    } else if s.len() == 1 {
        Some(QueryServiceNameView { subdomain: None, type_label: s })
    } else {
        Some(
            QueryServiceNameView {
                subdomain: Some(s.subrange(0, s.len() - 1)),
                type_label: s.subrange(s.len() - 1, s.len() as int),
            },
        )
    }
}

/// The name a query looks for, a type with an optional subdomain.
#[derive(Debug, Default, PartialEq, Eq, Clone)]
pub struct QueryServiceName {
    subdomain: Option<String>,
    type_label: String,
}

impl View for QueryServiceName {
    type V = QueryServiceNameView;

    closed spec fn view(&self) -> QueryServiceNameView {
        QueryServiceNameView { subdomain: opt_view(self.subdomain), type_label: self.type_label@ }
    }
}

impl QueryServiceName {
    pub fn new(type_label: &str) -> (r: Self)
        ensures
            r@ == (QueryServiceNameView { subdomain: None, type_label: type_label@ }),
    {
        QueryServiceName { type_label: type_label.to_owned(), subdomain: None }
    }

    pub fn with_subdomain(self, subdomain: &str) -> (r: Self)
        ensures
            r@ == (QueryServiceNameView { subdomain: Some(subdomain@), ..self@ }),
    {
        QueryServiceName { subdomain: Some(subdomain.to_owned()), ..self }
    }

    pub fn subdomain(&self) -> (r: Option<&str>)
        ensures
            match r {
                Some(x) => self@.subdomain == Some(x@),
                None => self@.subdomain is None,
            },
    {
        match &self.subdomain {
            Some(s) => Some(s.as_str()),
            None => None,
        }
    }

    pub fn type_label(&self) -> (r: &str)
        ensures
            r@ == self@.type_label,
    {
        self.type_label.as_str()
    }

    /// Reads a query service name (see `query_service_name_reading`).
    pub fn from_str(s: &str) -> (r: Result<Self, NameParseError>)
        ensures
            match r {
                Ok(name) => query_service_name_reading(s@) == Some(name@),
                Err(_) => query_service_name_reading(s@) is None,
            },
    {
        let n = s.unicode_len();
        let e = ident_run_end(s, 0);
        if n == 0 || e != n {
            proof {
                if is_ident(s@) {
                    assert(s@.subrange(0, n as int) =~= s@);
                    lemma_ident_is_run(s@, 0, s@);
                    lemma_run_end_unique(s@, 0, e as int, n as int);
                }
            }
            return Err(NameParseError::PatternMismatch);
        }
        proof {
            lemma_all_ident(s@, 0, n as int);
            assert(s@.subrange(0, n as int) =~= s@);
        }
        if n == 1 {
            Ok(QueryServiceName { subdomain: None, type_label: s.to_owned() })
        } else {
            Ok(
                QueryServiceName {
                    subdomain: Some(s.substring_char(0, n - 1).to_owned()),
                    type_label: s.substring_char(n - 1, n).to_owned(),
                },
            )
        }
    }
}

} // verus!

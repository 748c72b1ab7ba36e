//! The grammar of mDNS service types:
//! `[<subdomain>._sub.]_<type>._<tcp|udp>.local.`
use vstd::prelude::*;

use crate::text::opt_view;

use super::grammar::{
    ident_run_end, is_ident, is_ident_char, is_run_end, lemma_ident_is_run, lemma_run_end_unique,
    text_at,
};
use super::{protocol_text, ServiceProtocol};

verus! {

/// `.local.`, the domain every mDNS service type ends with.
pub open spec fn local_suffix() -> Seq<char> {
    seq!['.', 'l', 'o', 'c', 'a', 'l', '.']
}

/// `._sub`, which separates a subdomain from the service type.
pub open spec fn sub_marker() -> Seq<char> {
    seq!['.', '_', 's', 'u', 'b']
}

/// What follows the type name: `._<protocol>.local.`.
pub open spec fn protocol_tail(proto: ServiceProtocol) -> Seq<char> {
    seq!['.', '_'] + protocol_text(proto) + local_suffix()
}

/// `_<type>._<protocol>.local.`
pub open spec fn service_base_text(type_label: Seq<char>, proto: ServiceProtocol) -> Seq<char> {
    seq!['_'] + type_label + protocol_tail(proto)
}

/// The service type as it is written out: with a subdomain,
/// `<subdomain>._sub._<type>._<protocol>.local.`, otherwise
/// `_<type>._<protocol>.local.`.
pub open spec fn service_type_text(
    subdomain: Option<Seq<char>>,
    type_label: Seq<char>,
    proto: ServiceProtocol,
) -> Seq<char> {
    match subdomain {
        Some(sub) => sub + sub_marker() + seq!['.'] + service_base_text(type_label, proto),
        None => service_base_text(type_label, proto),
    }
}

/// `t` is an mDNS service type whose parts are `subdomain`, `type_label` and
/// `proto`. The character after `._sub` may be any character but a line feed.
pub open spec fn service_type_matches(
    t: Seq<char>,
    subdomain: Option<Seq<char>>,
    type_label: Seq<char>,
    proto: ServiceProtocol,
) -> bool {
    &&& is_ident(type_label)
    &&& match subdomain {
        None => t == service_base_text(type_label, proto),
        Some(sub) => {
            let base = service_base_text(type_label, proto);
            &&& is_ident(sub)
            &&& t.len() as int == sub.len() as int + 6 + base.len() as int
            &&& t.subrange(0, sub.len() as int + 5) == sub + sub_marker()
            &&& t[sub.len() as int + 5] != '\n'
            &&& t.subrange(sub.len() as int + 6, t.len() as int) == base
        },
    }
}

proof fn lemma_protocol_text_differs(p1: ServiceProtocol, p2: ServiceProtocol)
    requires
        protocol_text(p1)[0] == protocol_text(p2)[0],
    ensures
        p1 == p2,
{
}

/// What a service base fixes about the text it sits in.
proof fn lemma_base_shape(s: Seq<char>, p: int, ty: Seq<char>, pr: ServiceProtocol)
    requires
        0 <= p <= s.len() as int,
        s.subrange(p, s.len() as int) == service_base_text(ty, pr),
        is_ident(ty),
    ensures
        s.len() as int == p + ty.len() as int + 13,
        s[p] == '_',
        s.subrange(p + 1, p + 1 + ty.len() as int) == ty,
        is_run_end(s, p + 1, p + 1 + ty.len() as int),
        s.subrange(p + 1 + ty.len() as int, s.len() as int) == protocol_tail(pr),
{
    let t = s.subrange(p, s.len() as int);
    assert(protocol_text(pr).len() == 3);
    assert(service_base_text(ty, pr).len() == ty.len() as int + 13);
    assert(t[0] == s[p]);
    assert(s.subrange(p + 1, p + 1 + ty.len() as int) =~= t.subrange(1, 1 + ty.len() as int));
    assert(t.subrange(1, 1 + ty.len() as int) =~= ty);
    assert(s.subrange(p + 1 + ty.len() as int, s.len() as int) =~= t.subrange(1 + ty.len() as int, t.len() as int));
    assert(t.subrange(1 + ty.len() as int, t.len() as int) =~= protocol_tail(pr));
    assert(s[p + 1 + ty.len() as int] == t[1 + ty.len() as int]);
    lemma_ident_is_run(s, p + 1, ty);
}

/// Distinct parts give distinct service bases.
pub proof fn lemma_base_unique(
    t: Seq<char>,
    ty1: Seq<char>,
    p1: ServiceProtocol,
    ty2: Seq<char>,
    p2: ServiceProtocol,
)
    requires
        is_ident(ty1),
        is_ident(ty2),
        t == service_base_text(ty1, p1),
        t == service_base_text(ty2, p2),
    ensures
        ty1 == ty2,
        p1 == p2,
{
    assert(t.subrange(0, t.len() as int) =~= t);
    lemma_base_shape(t, 0, ty1, p1);
    lemma_base_shape(t, 0, ty2, p2);
    lemma_run_end_unique(t, 1, 1 + ty1.len() as int, 1 + ty2.len() as int);
    assert(t.subrange(0, t.len() as int) =~= t);
    let tail = t.subrange(1 + ty1.len() as int, t.len() as int);
    assert(tail[2] == protocol_text(p1)[0]);
    assert(tail[2] == protocol_text(p2)[0]);
    lemma_protocol_text_differs(p1, p2);
}

/// A text is an mDNS service type in at most one way.
pub proof fn lemma_service_type_unique(
    t: Seq<char>,
    sub1: Option<Seq<char>>,
    ty1: Seq<char>,
    p1: ServiceProtocol,
    sub2: Option<Seq<char>>,
    ty2: Seq<char>,
    p2: ServiceProtocol,
)
    requires
        service_type_matches(t, sub1, ty1, p1),
        service_type_matches(t, sub2, ty2, p2),
    ensures
        sub1 == sub2,
        ty1 == ty2,
        p1 == p2,
{
    match (sub1, sub2) {
        (None, None) => {
            lemma_base_unique(t, ty1, p1, ty2, p2);
        },
        (Some(x1), Some(x2)) => {
            lemma_sub_run(t, x1);
            lemma_sub_run(t, x2);
            lemma_run_end_unique(t, 0, x1.len() as int, x2.len() as int);
            assert(x1 =~= t.subrange(0, x1.len() as int));
            assert(x2 =~= t.subrange(0, x2.len() as int));
            lemma_base_unique(t.subrange(x1.len() as int + 6, t.len() as int), ty1, p1, ty2, p2);
        },
        (Some(x1), None) => {
            lemma_sub_not_base(t, x1, ty2, p2);
        },
        (None, Some(x2)) => {
            lemma_sub_not_base(t, x2, ty1, p1);
        },
    }
}

proof fn lemma_sub_run(t: Seq<char>, x: Seq<char>)
    requires
        is_ident(x),
        t.len() as int >= x.len() as int + 5,
        t.subrange(0, x.len() as int + 5) == x + sub_marker(),
    ensures
        is_run_end(t, 0, x.len() as int),
        t.subrange(0, x.len() as int) == x,
        t[x.len() as int + 2] == 's',
{
    assert(t.subrange(0, x.len() as int) =~= (x + sub_marker()).subrange(0, x.len() as int));
    assert((x + sub_marker()).subrange(0, x.len() as int) =~= x);
    assert(t[x.len() as int] == (x + sub_marker())[x.len() as int]);
    assert(t[x.len() as int + 2] == (x + sub_marker())[x.len() as int + 2]);
    lemma_ident_is_run(t, 0, x);
}

proof fn lemma_sub_not_base(t: Seq<char>, x: Seq<char>, ty: Seq<char>, pr: ServiceProtocol)
    requires
        is_ident(x),
        is_ident(ty),
        t.len() as int >= x.len() as int + 5,
        t.subrange(0, x.len() as int + 5) == x + sub_marker(),
    ensures
        t != service_base_text(ty, pr),
{
    if t == service_base_text(ty, pr) {
    lemma_sub_run(t, x);
    assert(t.subrange(0, t.len() as int) =~= t);
    lemma_base_shape(t, 0, ty, pr);
    // The run that starts at 0 covers `_<type>`, so it ends where `x` ends.
    assert(is_run_end(t, 0, 1 + ty.len() as int)) by {
        assert forall|k: int| 0 <= k < 1 + ty.len() as int implies is_ident_char(#[trigger] t[k]) by {
            if k > 0 {
                assert(t[k] == t.subrange(1, 1 + ty.len() as int)[k - 1]);
            }
        }
    }
    lemma_run_end_unique(t, 0, x.len() as int, 1 + ty.len() as int);
    let tail = t.subrange(1 + ty.len() as int, t.len() as int);
    assert(t[x.len() as int + 2] == tail[2]);
    assert(tail[2] == protocol_text(pr)[0]);
    }
}

proof fn lemma_tail_literals()
    ensures
        "._tcp.local."@ == protocol_tail(ServiceProtocol::Tcp),
        "._udp.local."@ == protocol_tail(ServiceProtocol::Udp),
        "._sub"@ == sub_marker(),
{
    reveal_strlit("._tcp.local.");
    reveal_strlit("._udp.local.");
    reveal_strlit("._sub");
    assert("._tcp.local."@ =~= protocol_tail(ServiceProtocol::Tcp));
    assert("._udp.local."@ =~= protocol_tail(ServiceProtocol::Udp));
    assert("._sub"@ =~= sub_marker());
}

/// Reads `_<type>._<protocol>.local.` from position `p` to the end of `s`.
/// On success gives the end of the type label and the protocol; the label
/// runs from `p + 1` to that end.
pub fn parse_service_base(s: &str, p: usize) -> (r: Option<(usize, ServiceProtocol)>)
    requires
        p <= s@.len() as int,
    ensures
        r matches Some((e, pr)) ==> {
            &&& p + 1 < e <= s@.len() as int
            &&& is_ident(s@.subrange(p + 1, e as int))
            &&& s@.subrange(p as int, s@.len() as int) == service_base_text(
                s@.subrange(p + 1, e as int),
                pr,
            )
        },
        r is None ==> forall|ty: Seq<char>, pr: ServiceProtocol|
            is_ident(ty) ==> s@.subrange(p as int, s@.len() as int) != #[trigger] service_base_text(
                ty,
                pr,
            ),
{
    let n = s.unicode_len();
    proof {
        lemma_tail_literals();
    }
    if p >= n || s.get_char(p) != '_' {
        proof {
            assert forall|ty: Seq<char>, pr: ServiceProtocol| is_ident(ty) implies s@.subrange(
                p as int,
                s@.len() as int,
            ) != #[trigger] service_base_text(ty, pr) by {
                if s@.subrange(p as int, s@.len() as int) == service_base_text(ty, pr) {
                    lemma_base_shape(s@, p as int, ty, pr);
                }
            }
        }
        return None;
    }
    let e = ident_run_end(s, p + 1);
    let tcp = e > p + 1 && text_at(s, e, "._tcp.local.") && e + 12 == n;
    let udp = e > p + 1 && text_at(s, e, "._udp.local.") && e + 12 == n;
    if tcp || udp {
        let pr = if tcp {
            ServiceProtocol::Tcp
        } else {
            ServiceProtocol::Udp
        };
        proof {
            let ty = s@.subrange(p + 1, e as int);
            assert forall|i: int| 0 <= i < ty.len() as int implies is_ident_char(#[trigger] ty[i]) by {
                assert(ty[i] == s@[p + 1 + i]);
            }
            assert(s@.subrange(e as int, n as int) == protocol_tail(pr));
            assert(s@.subrange(p as int, n as int) =~= seq![s@[p as int]] + ty + s@.subrange(
                e as int,
                n as int,
            ));
        }
        return Some((e, pr));
    }
    proof {
        assert forall|ty: Seq<char>, pr: ServiceProtocol| is_ident(ty) implies s@.subrange(
            p as int,
            s@.len() as int,
        ) != #[trigger] service_base_text(ty, pr) by {
            if s@.subrange(p as int, s@.len() as int) == service_base_text(ty, pr) {
                lemma_base_shape(s@, p as int, ty, pr);
                lemma_run_end_unique(s@, p + 1, e as int, p + 1 + ty.len() as int);
                match pr {
                    ServiceProtocol::Tcp => {},
                    ServiceProtocol::Udp => {},
                }
            }
        }
    }
    None
}

spec fn text_at_spec_holds(s: Seq<char>, x: int) -> bool {
    x + 5 <= s.len() && s.subrange(x, x + 5) == "._sub"@
}

/// Reads an mDNS service type from position `p` to the end of `s`. On success
/// gives the subdomain range, if any, the type label range and the protocol.
pub fn parse_service_type(s: &str, p: usize) -> (r: Option<
    (Option<(usize, usize)>, (usize, usize), ServiceProtocol),
>)
    requires
        p <= s@.len() as int,
    ensures
        r matches Some((sub, ty, pr)) ==> {
            &&& ty.0 <= ty.1 <= s@.len() as int
            &&& (sub matches Some(sr) ==> sr.0 <= sr.1 <= s@.len() as int)
            &&& service_type_matches(
                s@.subrange(p as int, s@.len() as int),
                match sub {
                    Some(sr) => Some(s@.subrange(sr.0 as int, sr.1 as int)),
                    None => None,
                },
                s@.subrange(ty.0 as int, ty.1 as int),
                pr,
            )
        },
        r is None ==> forall|sub: Option<Seq<char>>, ty: Seq<char>, pr: ServiceProtocol|
            !#[trigger] service_type_matches(s@.subrange(p as int, s@.len() as int), sub, ty, pr),
{
    let n = s.unicode_len();
    proof {
        lemma_tail_literals();
    }
    let ghost t = s@.subrange(p as int, n as int);
    let x = ident_run_end(s, p);
    let sub_ok = x > p && text_at(s, x, "._sub") && x + 5 < n && s.get_char(x + 5) != '\n';
    let mut sub_base: Option<(usize, ServiceProtocol)> = None;
    if sub_ok {
        sub_base = parse_service_base(s, x + 6);
    }
    if let Some((e, pr)) = sub_base {
        proof {
            let sub = s@.subrange(p as int, x as int);
            let ty = s@.subrange(x + 7, e as int);
            let base = service_base_text(ty, pr);
            assert forall|i: int| 0 <= i < sub.len() as int implies is_ident_char(#[trigger] sub[i]) by {
                assert(sub[i] == s@[p + i]);
            }
            assert(t.subrange(0, sub.len() as int + 5) =~= sub + sub_marker()) by {
                assert(s@.subrange(x as int, x + 5) == sub_marker());
                assert forall|i: int| 0 <= i < sub.len() as int + 5 implies t.subrange(
                    0,
                    sub.len() as int + 5,
                )[i] == (sub + sub_marker())[i] by {
                    if i >= sub.len() as int {
                        assert(s@.subrange(x as int, x + 5)[i - sub.len() as int] == s@[x + i - sub.len() as int]);
                    }
                }
            }
            assert(t[sub.len() as int + 5] == s@[x + 5]);
            assert(t.subrange(sub.len() as int + 6, t.len() as int) =~= s@.subrange(x + 6, n as int));
        }
        return Some((Some((p, x)), (x + 7, e), pr));
    }
    if let Some((e, pr)) = parse_service_base(s, p) {
        return Some((None, (p + 1, e), pr));
    }
    proof {
        assert forall|sub: Option<Seq<char>>, ty: Seq<char>, pr: ServiceProtocol|
            !#[trigger] service_type_matches(t, sub, ty, pr) by {
            if service_type_matches(t, sub, ty, pr) {
                match sub {
                    None => {},
                    Some(xs) => {
                        lemma_sub_run(t, xs);
                        assert(is_run_end(s@, p as int, p + xs.len() as int)) by {
                            assert forall|k: int| p <= k < p + xs.len() as int implies is_ident_char(
                                #[trigger] s@[k],
                            ) by {
                                assert(s@[k] == t[k - p]);
                            }
                            assert(s@[p + xs.len() as int] == t[xs.len() as int]);
                        }
                        lemma_run_end_unique(s@, p as int, x as int, p + xs.len() as int);
                        assert(s@.subrange(x as int, x + 5) =~= t.subrange(
                            xs.len() as int,
                            xs.len() as int + 5,
                        ));
                        assert(t.subrange(xs.len() as int, xs.len() as int + 5) =~= (xs + sub_marker()).subrange(
                            xs.len() as int,
                            xs.len() as int + 5,
                        ));
                        assert(s@[x + 5] == t[xs.len() as int + 5]);
                        assert((xs + sub_marker()).subrange(xs.len() as int, xs.len() as int + 5) =~= sub_marker());
                        assert(text_at_spec_holds(s@, x as int));
                        assert(sub_ok);
                        assert(s@.subrange(x + 6, n as int) =~= t.subrange(
                            xs.len() as int + 6,
                            t.len() as int,
                        ));
                    },
                }
            }
        }
    }
    None
}

/// Writes out a service type from its parts.
pub fn service_type_string(subdomain: &Option<String>, type_label: &String, proto: ServiceProtocol) -> (r: String)
    ensures
        r@ == service_type_text(opt_view(*subdomain), type_label@, proto),
{
    let mut r = String::new();
    proof {
        reveal_strlit("._sub.");
        reveal_strlit("_");
        reveal_strlit("._");
        reveal_strlit(".local.");
    }
    match subdomain {
        Some(sub) => {
            r.append(sub.as_str());
            r.append("._sub.");
        },
        None => {},
    }
    let ghost prefix = r@;
    r.append("_");
    r.append(type_label.as_str());
    r.append("._");
    let p = proto.to_string();
    r.append(p.as_str());
    r.append(".local.");
    proof {
        assert(r@ =~= prefix + service_base_text(type_label@, proto));
        match subdomain {
            Some(sub) => {
                assert(prefix =~= sub@ + sub_marker() + seq!['.']);
            },
            None => {
                assert(prefix =~= Seq::<char>::empty());
            },
        }
    }
    r
}

/// Written-out service types read back as the parts they were written from.
pub proof fn lemma_service_type_text_matches(
    subdomain: Option<Seq<char>>,
    type_label: Seq<char>,
    proto: ServiceProtocol,
)
    requires
        is_ident(type_label),
        subdomain matches Some(x) ==> is_ident(x),
    ensures
        service_type_matches(service_type_text(subdomain, type_label, proto), subdomain, type_label, proto),
{
    match subdomain {
        None => {},
        Some(x) => {
            let t = service_type_text(subdomain, type_label, proto);
            let base = service_base_text(type_label, proto);
            assert(t.subrange(0, x.len() as int + 5) =~= x + sub_marker());
            assert(t[x.len() as int + 5] == '.');
            assert(t.subrange(x.len() as int + 6, t.len() as int) =~= base);
        },
    }
}

} // verus!

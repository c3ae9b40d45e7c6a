use vstd::prelude::*;

verus! {

/// Adds the security headers to every response.
#[derive(Debug, Clone, Copy)]
pub struct SecurityHeaders;

/// The security headers, names and values, in the order they are set.
pub open spec fn security_header_list() -> Seq<(Seq<char>, Seq<char>)> {
    seq![
        ("x-content-type-options"@, "nosniff"@),
        ("x-frame-options"@, "DENY"@),
        ("x-xss-protection"@, "1; mode=block"@),
        ("strict-transport-security"@, "max-age=31536000; includeSubDomains"@),
        ("referrer-policy"@, "no-referrer"@),
        ("permissions-policy"@, "geolocation=(), microphone=()"@),
        ("content-security-policy"@, "default-src 'self'"@),
    ]
}

pub open spec fn pairs_view(v: Seq<(&'static str, &'static str)>) -> Seq<(Seq<char>, Seq<char>)> {
    v.map_values(|p: (&'static str, &'static str)| (p.0@, p.1@))
}

impl SecurityHeaders {
    /// The headers that each response gets, as (name, value) pairs.
    pub fn headers(&self) -> (r: Vec<(&'static str, &'static str)>)
        ensures
            pairs_view(r@) == security_header_list(),
    {
        let mut r: Vec<(&'static str, &'static str)> = Vec::new();
        r.push(("x-content-type-options", "nosniff"));
        r.push(("x-frame-options", "DENY"));
        r.push(("x-xss-protection", "1; mode=block"));
        r.push(("strict-transport-security", "max-age=31536000; includeSubDomains"));
        r.push(("referrer-policy", "no-referrer"));
        r.push(("permissions-policy", "geolocation=(), microphone=()"));
        r.push(("content-security-policy", "default-src 'self'"));
        proof {
            assert(pairs_view(r@) =~= security_header_list());
        }
        r
    }
}

/// No security header is set twice: the header names are pairwise distinct.
pub proof fn lemma_security_header_names_distinct()
    ensures
        forall|i: int, j: int|
            0 <= i < j < security_header_list().len() ==> #[trigger] security_header_list()[i].0
                != #[trigger] security_header_list()[j].0,
{
    reveal_strlit("x-content-type-options");
    reveal_strlit("x-frame-options");
    reveal_strlit("x-xss-protection");
    reveal_strlit("strict-transport-security");
    reveal_strlit("referrer-policy");
    reveal_strlit("permissions-policy");
    reveal_strlit("content-security-policy");
    let l = security_header_list();
    assert forall|i: int, j: int| 0 <= i < j < l.len() implies #[trigger] l[i].0 != #[trigger] l[j].0 by {
        if l[i].0.len() == l[j].0.len() {
            assert(l[i].0[0] != l[j].0[0]);
        }
    }
}

} // verus!

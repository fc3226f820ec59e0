//! The key under which a request is counted by the rate limiter.

use vstd::prelude::*;
use crate::text::{
    chars_of, has_prefix, join2, matches_at, string_of, trim, trimmed,
};

verus! {

/// Requests allowed to one client in one window.
pub const BURST_SIZE: u32 = 100;

/// Length of the window, in seconds.
pub const WINDOW_SECONDS: u64 = 60;

/// Tells the clients of the API apart: by API key, or else by address.
#[derive(Debug, Clone, Copy, PartialEq, Eq, Structural)]
pub struct RateLimitKey;

/// The part of a forwarding header that names the client: what stands
/// before the first comma.
pub open spec fn before_comma(s: Seq<char>) -> Seq<char>
    decreases s.len(),
{
    if s.len() == 0 || s[0] == ',' {
        Seq::empty()
    } else {
        seq![s[0]] + before_comma(s.drop_first())
    }
}

/// The key of a request with these headers: `api:` and the first eight
/// characters of the API key, where one is presented; else `ip:` and the
/// first address of `X-Forwarded-For`; else `ip:` and `X-Real-IP`; else
/// `unknown`.
pub open spec fn key_text(
    authorization: Option<Seq<char>>,
    forwarded_for: Option<Seq<char>>,
    real_ip: Option<Seq<char>>,
) -> Seq<char> {
    if authorization is Some && has_prefix(authorization->0, "ApiKey "@) {
        "api:"@ + authorization->0.subrange(
            7,
            if authorization->0.len() < 15 {
                authorization->0.len() as int
            } else {
                15
            },
        )
    } else if forwarded_for is Some {
        "ip:"@ + trimmed(before_comma(forwarded_for->0))
    } else if real_ip is Some {
        "ip:"@ + real_ip->0
    } else {
        "unknown"@
    }
}

/// The text before the first comma.
pub fn first_piece(s: &str) -> (piece: String)
    ensures
        piece@ == before_comma(s@),
{
    let cs = chars_of(s);
    let mut end: usize = 0;
    while end < cs.len() && cs[end] != ','
        invariant
            end <= cs.len(),
            cs@ == s@,
            forall|k: int| 0 <= k < end ==> cs@[k] != ',',
        decreases cs.len() - end,
    {
        end += 1;
    }
    proof {
        lemma_before_comma(cs@, end as int);
    }
    string_of(&cs, 0, end)
}

/// Where no comma stands before `end`, and one stands at `end` or the text
/// ends there, the text before the first comma is the text before `end`.
proof fn lemma_before_comma(s: Seq<char>, end: int)
    requires
        0 <= end <= s.len(),
        forall|k: int| 0 <= k < end ==> s[k] != ',',
        end < s.len() ==> s[end] == ',',
    ensures
        before_comma(s) == s.subrange(0, end),
    decreases s.len(),
{
    if end == 0 {
        assert(s.subrange(0, 0) =~= Seq::<char>::empty());
    } else {
        let rest = s.drop_first();
        assert forall|k: int| 0 <= k < end - 1 implies rest[k] != ',' by {
            assert(rest[k] == s[k + 1]);
        }
        lemma_before_comma(rest, end - 1);
        assert(seq![s[0]] + rest.subrange(0, end - 1) =~= s.subrange(0, end));
    }
}

impl RateLimitKey {
    /// The key of a request, from the values of its `Authorization`,
    /// `X-Forwarded-For` and `X-Real-IP` headers, each `None` where the
    /// header is missing or is not text.
    pub fn extract(
        &self,
        authorization: Option<&str>,
        forwarded_for: Option<&str>,
        real_ip: Option<&str>,
    ) -> (key: String)
        ensures
            key@ == key_text(
                match authorization {
                    Some(a) => Some(a@),
                    None => None,
                },
                match forwarded_for {
                    Some(f) => Some(f@),
                    None => None,
                },
                match real_ip {
                    Some(r) => Some(r@),
                    None => None,
                },
            ),
    {
        match authorization {
            Some(auth) => {
                let cs = chars_of(auth);
                let mark = chars_of("ApiKey ");
                proof {
                    reveal_strlit("ApiKey ");
                }
                if matches_at(&cs, &mark, 0) {
                    let end: usize = if cs.len() < 15 {
                        cs.len()
                    } else {
                        15
                    };
                    return join2("api:", string_of(&cs, 7, end).as_str());
                }
            },
            None => {},
        }
        match forwarded_for {
            Some(forwarded) => {
                let first = first_piece(forwarded);
                return join2("ip:", trim(first.as_str()).as_str());
            },
            None => {},
        }
        match real_ip {
            Some(ip) => join2("ip:", ip),
            None => String::from_str("unknown"),
        }
    }
}

} // verus!

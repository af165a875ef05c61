//! The publishing address: the host shown for it and the address the stream
//! is sent to.
use vstd::prelude::*;
use vstd::string::StringExecFns;
use vstd::string::StrSliceExecFns;
use crate::ingest::Service;
use crate::text::same_text;

verus! {

/// Shown when no host can be told from the settings.
pub const INVALID_HOST: &'static str = "Invalid host";

/// The place of the stream key in an ingest address template.
pub const KEY_PLACEHOLDER: &'static str = "{stream_key}";

/// The index of the first '/' of `s` at or after `from`, or the length of
/// `s` if there is none.
pub open spec fn next_slash(s: Seq<char>, from: int) -> int
    decreases s.len() - from,
{
    if from >= s.len() {
        s.len() as int
    } else if s[from] == '/' {
        from
    } else {
        next_slash(s, from + 1)
    }
}

/// The third '/'-separated field of `s`, when `s` has more than three.
pub open spec fn host_field(s: Seq<char>) -> Option<Seq<char>> {
    let a = next_slash(s, 0);
    let b = next_slash(s, a + 1);
    let c = next_slash(s, b + 1);
    if c < s.len() {
        Some(s.subrange(b + 1, c))
    } else {
        None
    }
}

proof fn lemma_next_slash_bounds(s: Seq<char>, from: int)
    requires
        0 <= from,
    ensures
        from <= next_slash(s, from) || from > s.len(),
        next_slash(s, from) <= s.len(),
        next_slash(s, from) < s.len() ==> s[next_slash(s, from)] == '/',
    decreases s.len() - from,
{
    if from < s.len() && s[from] != '/' {
        lemma_next_slash_bounds(s, from + 1);
    }
}

/// The index of the first '/' of `s` at or after `from`.
fn find_slash(s: &str, from: usize) -> (r: usize)
    requires
        from <= s@.len(),
    ensures
        r == next_slash(s@, from as int),
{
    let n = s.unicode_len();
    let mut i = from;
    while i < n
        invariant
            n == s@.len(),
            from <= i <= n,
            next_slash(s@, from as int) == next_slash(s@, i as int),
        decreases n - i,
    {
        if s.get_char(i) == '/' {
            return i;
        }
        i = i + 1;
    }
    i
}

/// The host the stream goes to, as shown to the user: for a custom address,
/// its third '/'-separated field (the host of `rtmp://host/app/key`); for
/// another service, its name.
pub fn rtmp_host(service: Option<Service>, custom_url: &str) -> (r: String)
    ensures
        service is None ==> r@ == INVALID_HOST@,
        service == Some(Service::Custom) ==> match host_field(custom_url@) {
            Some(h) => r@ == h,
            None => r@ == INVALID_HOST@,
        },
        service == Some(Service::YouTubeLive) ==> r@ == "YouTube Live"@,
        service == Some(Service::Twitch) ==> r@ == "Twitch"@,
{
    match service {
        None => String::from_str(INVALID_HOST),
        Some(Service::Custom) => {
            let n = custom_url.unicode_len();
            let a = find_slash(custom_url, 0);
            proof { lemma_next_slash_bounds(custom_url@, 0); }
            if a >= n {
                return String::from_str(INVALID_HOST);
            }
            let b = find_slash(custom_url, a + 1);
            proof { lemma_next_slash_bounds(custom_url@, a + 1); }
            if b >= n {
                return String::from_str(INVALID_HOST);
            }
            let c = find_slash(custom_url, b + 1);
            proof { lemma_next_slash_bounds(custom_url@, b + 1); }
            if c >= n {
                return String::from_str(INVALID_HOST);
            }
            String::from_str(custom_url.substring_char(b + 1, c))
        },
        Some(s) => String::from_str(s.name()),
    }
}

/// `s` with every occurrence of `pat`, taken from the left without
/// overlap, removed.
pub open spec fn strip(s: Seq<char>, pat: Seq<char>) -> Seq<char>
    decreases s.len(),
{
    if s.len() == 0 {
        s
    } else if 0 < pat.len() <= s.len() && s.subrange(0, pat.len() as int) == pat {
        strip(s.subrange(pat.len() as int, s.len() as int), pat)
    } else {
        seq![s[0]] + strip(s.subrange(1, s.len() as int), pat)
    }
}

/// The address the stream is sent to: the ingest template with its
/// stream-key placeholder taken out, followed by the stream key.
pub fn stream_url(server_url: &str, stream_key: &str) -> (r: String)
    ensures
        r@ == strip(server_url@, KEY_PLACEHOLDER@) + stream_key@,
{
    proof { reveal_strlit("{stream_key}"); }
    let n = server_url.unicode_len();
    let m: usize = 12;
    assert(KEY_PLACEHOLDER@.len() == 12);
    let mut out = String::new();
    let mut i: usize = 0;
    assert(server_url@.subrange(0, n as int) =~= server_url@);
    assert(out@ + server_url@ =~= server_url@);
    while i < n
        invariant
            n == server_url@.len(),
            m == KEY_PLACEHOLDER@.len(),
            m == 12,
            i <= n,
            strip(server_url@, KEY_PLACEHOLDER@) == out@ + strip(server_url@.subrange(i as int, n as int), KEY_PLACEHOLDER@),
        decreases n - i,
    {
        let ghost rest = server_url@.subrange(i as int, n as int);
        if m <= n - i && same_text(server_url.substring_char(i, i + m), KEY_PLACEHOLDER) {
            assert(rest.subrange(0, m as int) =~= server_url@.subrange(i as int, (i + m) as int));
            assert(rest.subrange(m as int, rest.len() as int) =~= server_url@.subrange((i + m) as int, n as int));
            i = i + m;
        } else {
            proof {
                if 0 < m <= rest.len() && rest.subrange(0, m as int) == KEY_PLACEHOLDER@ {
                    assert(rest.subrange(0, m as int) =~= server_url@.subrange(i as int, (i + m) as int));
                }
            }
            let ghost next = server_url@.subrange((i + 1) as int, n as int);
            assert(rest.subrange(1, rest.len() as int) =~= next);
            assert(strip(rest, KEY_PLACEHOLDER@) == seq![rest[0]] + strip(next, KEY_PLACEHOLDER@));
            let ghost o = out@;
            let piece = server_url.substring_char(i, i + 1);
            assert(piece@ =~= seq![rest[0]]);
            out.append(piece);
            assert(o + (seq![rest[0]] + strip(next, KEY_PLACEHOLDER@)) =~= out@ + strip(next, KEY_PLACEHOLDER@));
            i = i + 1;
        }
    }
    assert(server_url@.subrange(n as int, n as int) =~= Seq::<char>::empty());
    out.append(stream_key);
    out
}

} // verus!

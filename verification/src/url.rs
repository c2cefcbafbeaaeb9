//! The addresses of the backend.

use crate::error::StreamError;
use crate::text::{has_prefix, has_suffix};
use vstd::prelude::*;

verus! {

/// A text without the slashes at its end.
pub open spec fn without_end_slashes(s: Seq<char>) -> Seq<char>
    decreases s.len(),
{
    if s.len() > 0 && s.last() == '/' {
        without_end_slashes(s.drop_last())
    } else {
        s
    }
}

/// The websocket address that belongs to a configured server address: `ws` for `http`, and
/// the recognition path appended unless a websocket address ends with it already. There is
/// none for an address of another kind.
pub open spec fn websocket_address(base_url: Seq<char>) -> Option<Seq<char>> {
    let base = without_end_slashes(base_url);
    if "ws://"@.is_prefix_of(base) || "wss://"@.is_prefix_of(base) {
        if "/ws/asr"@.is_suffix_of(base) {
            Some(base)
        } else {
            Some(base + "/ws/asr"@)
        }
    } else if "http://"@.is_prefix_of(base) {
        Some("ws://"@ + base.skip(7) + "/ws/asr"@)
    } else if "https://"@.is_prefix_of(base) {
        Some("wss://"@ + base.skip(8) + "/ws/asr"@)
    } else {
        None
    }
}

/// The web address that belongs to a websocket address.
pub open spec fn web_address(ws: Seq<char>) -> Seq<char> {
    if "ws://"@.is_prefix_of(ws) {
        "http://"@ + ws.skip(5)
    } else {
        "https://"@ + ws.skip(6)
    }
}

/// The address of the health check that belongs to a configured server address: the web
/// address with the recognition path replaced.
pub open spec fn health_address(base_url: Seq<char>) -> Option<Seq<char>> {
    match websocket_address(base_url) {
        Some(ws) => {
            let web = web_address(ws);
            Some(web.take(web.len() - 7) + "/healthz"@)
        },
        None => None,
    }
}

fn trim_end_slashes(s: &str) -> (res: &str)
    ensures
        res@ == without_end_slashes(s@),
{
    let mut n: usize = s.unicode_len();
    assert(s@.take(n as int) =~= s@);
    while n > 0 && s.get_char(n - 1) == '/'
        invariant
            n <= s@.len(),
            without_end_slashes(s@.take(n as int)) == without_end_slashes(s@),
        ensures
            n <= s@.len(),
            without_end_slashes(s@.take(n as int)) == without_end_slashes(s@),
            n == 0 || s@[n - 1] != '/',
        decreases n,
    {
        assert(s@.take(n as int).drop_last() =~= s@.take(n - 1));
        n -= 1;
    }
    assert(without_end_slashes(s@.take(n as int)) == s@.take(n as int));
    s.substring_char(0, n)
}

/// Derives the websocket address from the configured server address.
pub fn websocket_url(base_url: &str) -> (res: Result<String, StreamError>)
    ensures
        res is Ok <==> websocket_address(base_url@) is Some,
        res matches Ok(url) ==> Some(url@) == websocket_address(base_url@),
        res matches Err(e) ==> {
            &&& e matches StreamError::UnsupportedUrl(url)
            &&& url@ == base_url@
        },
{
    let base: &str = trim_end_slashes(base_url);
    let n: usize = base.unicode_len();
    if has_prefix(base, "ws://") || has_prefix(base, "wss://") {
        let url: String = String::from_str(base);
        if has_suffix(base, "/ws/asr") {
            return Ok(url);
        }
        return Ok(url.concat("/ws/asr"));
    }
    proof {
        reveal_strlit("http://");
        reveal_strlit("https://");
    }
    if has_prefix(base, "http://") {
        let rest: &str = base.substring_char(7, n);
        assert(rest@ =~= base@.skip(7));
        return Ok(String::from_str("ws://").concat(rest).concat("/ws/asr"));
    }
    if has_prefix(base, "https://") {
        let rest: &str = base.substring_char(8, n);
        assert(rest@ =~= base@.skip(8));
        return Ok(String::from_str("wss://").concat(rest).concat("/ws/asr"));
    }
    Err(StreamError::UnsupportedUrl(String::from_str(base_url)))
}

/// Derives the address of the health check from the configured server address.
pub fn health_url(base_url: &str) -> (res: Result<String, StreamError>)
    ensures
        res is Ok <==> websocket_address(base_url@) is Some,
        res matches Ok(url) ==> Some(url@) == health_address(base_url@),
        res matches Err(e) ==> {
            &&& e matches StreamError::UnsupportedUrl(url)
            &&& url@ == base_url@
        },
{
    match websocket_url(base_url) {
        Err(e) => Err(e),
        Ok(ws) => {
            proof {
                law_websocket_address_shape(base_url@);
                reveal_strlit("ws://");
                reveal_strlit("wss://");
                reveal_strlit("http://");
                reveal_strlit("https://");
            }
            let n: usize = ws.as_str().unicode_len();
            let web: String = if has_prefix(ws.as_str(), "ws://") {
                let rest: &str = ws.as_str().substring_char(5, n);
                assert(rest@ =~= ws@.skip(5));
                String::from_str("http://").concat(rest)
            } else {
                let rest: &str = ws.as_str().substring_char(6, n);
                assert(rest@ =~= ws@.skip(6));
                String::from_str("https://").concat(rest)
            };
            assert(web@ == web_address(ws@));
            let m: usize = web.as_str().unicode_len();
            let root: &str = web.as_str().substring_char(0, m - 7);
            assert(root@ =~= web@.take(web@.len() - 7));
            Ok(String::from_str(root).concat("/healthz"))
        },
    }
}

/// Every websocket address starts as one and ends with the recognition path.
pub proof fn law_websocket_address_shape(base_url: Seq<char>)
    requires
        websocket_address(base_url) is Some,
    ensures
        "ws://"@.is_prefix_of(websocket_address(base_url)->0) || "wss://"@.is_prefix_of(
            websocket_address(base_url)->0,
        ),
        "/ws/asr"@.is_suffix_of(websocket_address(base_url)->0),
{
    reveal_strlit("ws://");
    reveal_strlit("wss://");
    reveal_strlit("/ws/asr");
    let base = without_end_slashes(base_url);
    let url = websocket_address(base_url)->0;
    if "ws://"@.is_prefix_of(base) {
        assert("ws://"@ =~= url.subrange(0, 5));
    } else if "wss://"@.is_prefix_of(base) {
        assert("wss://"@ =~= url.subrange(0, 6));
    } else if "http://"@.is_prefix_of(base) {
        assert("ws://"@ =~= url.subrange(0, 5));
    } else {
        assert("wss://"@ =~= url.subrange(0, 6));
    }
    if url != base {
        assert("/ws/asr"@ =~= url.subrange(url.len() - 7, url.len() as int));
    }
}

proof fn lemma_starts_as_without_end_slashes(s: Seq<char>)
    ensures
        without_end_slashes(s).is_prefix_of(s),
    decreases s.len(),
{
    if s.len() > 0 && s.last() == '/' {
        lemma_starts_as_without_end_slashes(s.drop_last());
        let base = without_end_slashes(s);
        assert(base =~= s.subrange(0, base.len() as int));
    } else {
        assert(s =~= s.subrange(0, s.len() as int));
    }
}

/// A connection is secure exactly if the configured address asks for it.
pub proof fn law_secure_exactly_if_configured(base_url: Seq<char>)
    requires
        websocket_address(base_url) is Some,
    ensures
        "wss://"@.is_prefix_of(websocket_address(base_url)->0) <==> ("https://"@.is_prefix_of(
            base_url,
        ) || "wss://"@.is_prefix_of(base_url)),
{
    reveal_strlit("ws://");
    reveal_strlit("wss://");
    reveal_strlit("http://");
    reveal_strlit("https://");
    lemma_starts_as_without_end_slashes(base_url);
    let base = without_end_slashes(base_url);
    let url = websocket_address(base_url)->0;
    assert forall|p: Seq<char>, s: Seq<char>, i: int|
        #![trigger p.is_prefix_of(s), p[i]]
        p.is_prefix_of(s) && 0 <= i < p.len() implies s[i] == p[i] by {
        assert(s.subrange(0, p.len() as int)[i] == s[i]);
    }
    if "ws://"@.is_prefix_of(base) {
        assert(base[2] == "ws://"@[2]);
        assert(base_url[2] == base[2]);
        assert(url[2] == base[2]);
        assert("wss://"@[2] != "ws://"@[2] && "https://"@[2] != "ws://"@[2]);
    } else if "wss://"@.is_prefix_of(base) {
        assert("wss://"@ =~= base_url.subrange(0, 6));
        assert("wss://"@ =~= url.subrange(0, 6));
    } else if "http://"@.is_prefix_of(base) {
        assert(base[4] == "http://"@[4] && base[0] == "http://"@[0]);
        assert(base_url[4] == base[4] && base_url[0] == base[0]);
        assert(url[2] == "ws://"@[2]);
        assert("https://"@[4] != "http://"@[4] && "wss://"@[0] != "http://"@[0]);
        assert("wss://"@[2] != url[2]);
    } else {
        assert("https://"@ =~= base_url.subrange(0, 8));
        assert("wss://"@ =~= url.subrange(0, 6));
    }
}

/// Deriving the address again changes nothing: the recognition path is not appended twice.
pub proof fn law_websocket_address_is_stable(base_url: Seq<char>)
    requires
        websocket_address(base_url) is Some,
    ensures
        websocket_address(websocket_address(base_url)->0) == websocket_address(base_url),
{
    let url = websocket_address(base_url)->0;
    law_websocket_address_shape(base_url);
    reveal_strlit("/ws/asr");
    assert("/ws/asr"@.last() == url.last());
    assert(without_end_slashes(url) == url);
}

/// A slash at the end of the configured address makes no difference.
pub proof fn law_end_slash_does_not_matter(base_url: Seq<char>)
    ensures
        websocket_address(base_url.push('/')) == websocket_address(base_url),
{
    assert(base_url.push('/').drop_last() =~= base_url);
}

/// For a web address, the health check lies directly below it.
pub proof fn law_health_check_lies_below_web_address(base_url: Seq<char>)
    requires
        "http://"@.is_prefix_of(without_end_slashes(base_url)) || "https://"@.is_prefix_of(
            without_end_slashes(base_url),
        ),
    ensures
        health_address(base_url) == Some(without_end_slashes(base_url) + "/healthz"@),
{
    reveal_strlit("ws://");
    reveal_strlit("wss://");
    reveal_strlit("http://");
    reveal_strlit("https://");
    reveal_strlit("/ws/asr");
    let base = without_end_slashes(base_url);
    let ws = websocket_address(base_url)->0;
    if "http://"@.is_prefix_of(base) {
        assert(base[0] == "http://"@[0]);
        assert("ws://"@ =~= ws.subrange(0, 5));
        let web = web_address(ws);
        assert(web.take(web.len() - 7) =~= base);
    } else {
        assert(base[0] == "https://"@[0]);
        assert(ws[2] == 's');
        assert(!"ws://"@.is_prefix_of(ws)) by {
            assert(ws.subrange(0, 5)[2] != "ws://"@[2]);
        }
        assert(base =~= "https://"@ + base.skip(8));
        let web = web_address(ws);
        assert(web.take(web.len() - 7) =~= base);
    }
}

/// Taking the end slashes away leaves the start of the text, which does not end with a slash;
/// all that is taken away is slashes.
pub proof fn law_only_end_slashes_go(s: Seq<char>, i: int)
    ensures
        without_end_slashes(s).is_prefix_of(s),
        without_end_slashes(s).len() > 0 ==> without_end_slashes(s).last() != '/',
        without_end_slashes(s).len() <= i < s.len() ==> s[i] == '/',
    decreases s.len(),
{
    lemma_starts_as_without_end_slashes(s);
    if s.len() > 0 && s.last() == '/' {
        law_only_end_slashes_go(s.drop_last(), i);
    }
}

proof fn lemma_scheme(scheme: Seq<char>, host: Seq<char>)
    requires
        host.len() > 0,
        host.last() != '/',
    ensures
        without_end_slashes(scheme + host) == scheme + host,
        scheme.is_prefix_of(scheme + host),
        (scheme + host).skip(scheme.len() as int) == host,
{
    assert(scheme =~= (scheme + host).subrange(0, scheme.len() as int));
    assert((scheme + host).skip(scheme.len() as int) =~= host);
    assert((scheme + host).last() == host.last());
}

proof fn lemma_other_scheme(scheme: Seq<char>, s: Seq<char>, i: int)
    requires
        0 <= i < scheme.len(),
        i < s.len(),
        s[i] != scheme[i],
    ensures
        !scheme.is_prefix_of(s),
{
    if scheme.is_prefix_of(s) {
        assert(s.subrange(0, scheme.len() as int)[i] == s[i]);
    }
}

/// The host, its port and its path are kept as configured. Only the scheme changes, from the web
/// to the websocket one, and the recognition path is appended; an address that is a websocket
/// address already keeps its scheme, and its path if that is the recognition path.
pub proof fn law_host_is_kept(host: Seq<char>)
    requires
        host.len() > 0,
        host.last() != '/',
    ensures
        websocket_address("http://"@ + host) == Some("ws://"@ + host + "/ws/asr"@),
        websocket_address("https://"@ + host) == Some("wss://"@ + host + "/ws/asr"@),
        websocket_address("ws://"@ + host) == Some(
            if "/ws/asr"@.is_suffix_of("ws://"@ + host) {
                "ws://"@ + host
            } else {
                "ws://"@ + host + "/ws/asr"@
            },
        ),
        websocket_address("wss://"@ + host) == Some(
            if "/ws/asr"@.is_suffix_of("wss://"@ + host) {
                "wss://"@ + host
            } else {
                "wss://"@ + host + "/ws/asr"@
            },
        ),
{
    reveal_strlit("ws://");
    reveal_strlit("wss://");
    reveal_strlit("http://");
    reveal_strlit("https://");
    lemma_scheme("ws://"@, host);
    lemma_scheme("wss://"@, host);
    lemma_scheme("http://"@, host);
    lemma_scheme("https://"@, host);
    lemma_other_scheme("ws://"@, "http://"@ + host, 0);
    lemma_other_scheme("wss://"@, "http://"@ + host, 0);
    lemma_other_scheme("ws://"@, "https://"@ + host, 0);
    lemma_other_scheme("wss://"@, "https://"@ + host, 0);
    lemma_other_scheme("http://"@, "https://"@ + host, 4);
}

/// An address is refused exactly if, without its end slashes, it has none of the four schemes.
pub proof fn law_four_schemes_are_supported(base_url: Seq<char>)
    ensures
        websocket_address(base_url) is Some <==> {
            let base = without_end_slashes(base_url);
            "ws://"@.is_prefix_of(base) || "wss://"@.is_prefix_of(base) || "http://"@.is_prefix_of(
                base,
            ) || "https://"@.is_prefix_of(base)
        },
        health_address(base_url) is Some <==> websocket_address(base_url) is Some,
{
}

proof fn lemma_health_of_websocket(scheme: Seq<char>, web: Seq<char>, host: Seq<char>)
    requires
        scheme == "ws://"@ && web == "http://"@ || scheme == "wss://"@ && web == "https://"@,
    ensures
        ({
            let address = web_address(scheme + host + "/ws/asr"@);
            address.take(address.len() - 7) == web + host
        }),
{
    reveal_strlit("ws://");
    reveal_strlit("wss://");
    reveal_strlit("http://");
    reveal_strlit("https://");
    reveal_strlit("/ws/asr");
    let ws = scheme + host + "/ws/asr"@;
    let address = web_address(ws);
    if scheme == "ws://"@ {
        assert("ws://"@ =~= ws.subrange(0, 5));
    } else {
        lemma_other_scheme("ws://"@, ws, 2);
    }
    assert(address.take(address.len() - 7) =~= web + host);
}

/// The health check lies on the configured host, over the web scheme that goes with the
/// connection, in the place of the recognition path.
pub proof fn law_health_check_lies_on_the_host(host: Seq<char>)
    requires
        host.len() > 0,
        host.last() != '/',
    ensures
        health_address("http://"@ + host) == Some("http://"@ + host + "/healthz"@),
        health_address("https://"@ + host) == Some("https://"@ + host + "/healthz"@),
        health_address("ws://"@ + host + "/ws/asr"@) == Some("http://"@ + host + "/healthz"@),
        health_address("wss://"@ + host + "/ws/asr"@) == Some("https://"@ + host + "/healthz"@),
        !"/ws/asr"@.is_suffix_of("ws://"@ + host) ==> health_address("ws://"@ + host) == Some(
            "http://"@ + host + "/healthz"@,
        ),
        !"/ws/asr"@.is_suffix_of("wss://"@ + host) ==> health_address("wss://"@ + host) == Some(
            "https://"@ + host + "/healthz"@,
        ),
{
    reveal_strlit("ws://");
    reveal_strlit("wss://");
    reveal_strlit("/ws/asr");
    law_host_is_kept(host);
    lemma_health_of_websocket("ws://"@, "http://"@, host);
    lemma_health_of_websocket("wss://"@, "https://"@, host);
    let path = "/ws/asr"@;
    let longer = host + path;
    assert(longer.last() == path.last());
    law_host_is_kept(longer);
    assert("ws://"@ + host + path =~= "ws://"@ + longer);
    assert("wss://"@ + host + path =~= "wss://"@ + longer);
    assert(path =~= ("ws://"@ + longer).subrange(
        ("ws://"@ + longer).len() - 7,
        ("ws://"@ + longer).len() as int,
    ));
    assert(path =~= ("wss://"@ + longer).subrange(
        ("wss://"@ + longer).len() - 7,
        ("wss://"@ + longer).len() as int,
    ));
}

/// For a websocket address with the recognition path, the health check takes the place of just
/// that path in the web address of the same host.
pub proof fn law_health_check_replaces_the_path(host: Seq<char>)
    requires
        host.len() > 0,
        host.last() != '/',
    ensures
        "/ws/asr"@.is_suffix_of("ws://"@ + host) ==> health_address("ws://"@ + host) == Some(
            ("http://"@ + host).take(host.len() as int) + "/healthz"@,
        ),
        "/ws/asr"@.is_suffix_of("wss://"@ + host) ==> health_address("wss://"@ + host) == Some(
            ("https://"@ + host).take(host.len() as int + 1) + "/healthz"@,
        ),
{
    reveal_strlit("ws://");
    reveal_strlit("wss://");
    reveal_strlit("http://");
    reveal_strlit("https://");
    law_host_is_kept(host);
    lemma_scheme("ws://"@, host);
    lemma_scheme("wss://"@, host);
    lemma_other_scheme("ws://"@, "wss://"@ + host, 2);
}

} // verus!

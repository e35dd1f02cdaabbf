//! Browser-faithful defaults for outgoing requests.

use vstd::prelude::*;
use crate::headers::{has_key, keys_unique, HeaderEntries, Headers};
use crate::text::{contains_text, occurs_at};

verus! {

/// The user agent sent when neither the configuration nor the request names one:
/// a current desktop Chrome, so that requests do not announce the crawler.
pub open spec fn browser_user_agent() -> Seq<char> {
    "Mozilla/5.0 (X11; Linux x86_64) AppleWebKit/537.36 (KHTML, like Gecko) Chrome/145.0.0.0 Safari/537.36"@
}

/// The request headers that a modern Chrome sends on a top-level navigation
/// (client hints and accept headers), in the order they are applied.
pub open spec fn browser_default_headers() -> HeaderEntries {
    seq![
        ("accept"@, "text/html,application/xhtml+xml,application/xml;q=0.9,image/avif,image/webp,image/apng,*/*;q=0.8,application/signed-exchange;v=b3;q=0.7"@),
        ("accept-language"@, "en-US,en;q=0.9"@),
        ("sec-ch-ua"@, "\"Chromium\";v=\"145\", \"Google Chrome\";v=\"145\", \"Not.A/Brand\";v=\"99\""@),
        ("sec-ch-ua-mobile"@, "?0"@),
        ("sec-ch-ua-platform"@, "\"Linux\""@),
        ("sec-fetch-site"@, "none"@),
        ("sec-fetch-mode"@, "navigate"@),
        ("sec-fetch-dest"@, "document"@),
        ("upgrade-insecure-requests"@, "1"@),
    ]
}

/// The names of the default headers are pairwise distinct.
proof fn lemma_default_names_distinct()
    ensures
        keys_unique(browser_default_headers()),
{
    reveal_strlit("accept");
    reveal_strlit("accept-language");
    reveal_strlit("sec-ch-ua");
    reveal_strlit("sec-ch-ua-mobile");
    reveal_strlit("sec-ch-ua-platform");
    reveal_strlit("sec-fetch-site");
    reveal_strlit("sec-fetch-mode");
    reveal_strlit("sec-fetch-dest");
    reveal_strlit("upgrade-insecure-requests");
    let e = browser_default_headers();
    assert(e[0].0.len() == 6);
    assert(e[1].0.len() == 15);
    assert(e[2].0.len() == 9);
    assert(e[3].0.len() == 16);
    assert(e[4].0.len() == 18);
    assert(e[5].0.len() == 14);
    assert(e[6].0.len() == 14);
    assert(e[7].0.len() == 14);
    assert(e[8].0.len() == 25);
    assert(e[5].0[10] == 's' && e[6].0[10] == 'm' && e[7].0[10] == 'd');
}

/// The browser user agent reads as Chrome and does not name the crawler.
pub proof fn lemma_user_agent_reads_as_a_browser()
    ensures
        contains_text(browser_user_agent(), "Chrome"@),
        !contains_text(browser_user_agent(), "crawlberg"@),
{
    let ua = browser_user_agent();
    reveal_strlit("Mozilla/5.0 (X11; Linux x86_64) AppleWebKit/537.36 (KHTML, like Gecko) Chrome/145.0.0.0 Safari/537.36");
    reveal_strlit("Chrome");
    reveal_strlit("crawlberg");
    assert(ua.subrange(71, 77) =~= "Chrome"@);
    assert(occurs_at(ua, "Chrome"@, 71));
    assert forall|i: int| !occurs_at(ua, "crawlberg"@, i) by {
        if occurs_at(ua, "crawlberg"@, i) {
            assert(ua.subrange(i, i + 9)[0] == 'c');
            assert(ua.subrange(i, i + 9)[1] == 'r');
            assert(ua[i] == 'c' && ua[i + 1] == 'r');
        }
    }
}

/// Default user-agent used when no explicit UA is configured.
pub fn default_user_agent() -> (r: &'static str)
    ensures
        r@ == browser_user_agent(),
{
    "Mozilla/5.0 (X11; Linux x86_64) AppleWebKit/537.36 (KHTML, like Gecko) Chrome/145.0.0.0 Safari/537.36"
}

/// Chrome-faithful default request headers (client hints + accept language).
pub fn default_browser_headers() -> (r: Headers)
    ensures
        r@ == browser_default_headers(),
{
    let names: [&str; 9] = [
        "accept",
        "accept-language",
        "sec-ch-ua",
        "sec-ch-ua-mobile",
        "sec-ch-ua-platform",
        "sec-fetch-site",
        "sec-fetch-mode",
        "sec-fetch-dest",
        "upgrade-insecure-requests",
    ];
    let values: [&str; 9] = [
        "text/html,application/xhtml+xml,application/xml;q=0.9,image/avif,image/webp,image/apng,*/*;q=0.8,application/signed-exchange;v=b3;q=0.7",
        "en-US,en;q=0.9",
        "\"Chromium\";v=\"145\", \"Google Chrome\";v=\"145\", \"Not.A/Brand\";v=\"99\"",
        "?0",
        "\"Linux\"",
        "none",
        "navigate",
        "document",
        "1",
    ];
    let ghost table = browser_default_headers();
    assert(names@.map_values(|n: &str| n@) =~= table.map_values(|e: (Seq<char>, Seq<char>)| e.0));
    assert(values@.map_values(|v: &str| v@) =~= table.map_values(|e: (Seq<char>, Seq<char>)| e.1));
    proof {
        lemma_default_names_distinct();
    }
    let mut h = Headers::new();
    let mut i: usize = 0;
    while i < 9
        invariant
            i <= 9,
            table == browser_default_headers(),
            keys_unique(table),
            names@.map_values(|n: &str| n@) == table.map_values(|e: (Seq<char>, Seq<char>)| e.0),
            values@.map_values(|v: &str| v@) == table.map_values(|e: (Seq<char>, Seq<char>)| e.1),
            h@ == table.take(i as int),
        decreases 9 - i,
    {
        assert(names@.map_values(|n: &str| n@)[i as int] == names@[i as int]@);
        assert(table.map_values(|e: (Seq<char>, Seq<char>)| e.0)[i as int] == table[i as int].0);
        assert(values@.map_values(|v: &str| v@)[i as int] == values@[i as int]@);
        assert(table.map_values(|e: (Seq<char>, Seq<char>)| e.1)[i as int] == table[i as int].1);
        assert(!has_key(h@, table[i as int].0)) by {
            assert forall|j: int| 0 <= j < h@.len() implies #[trigger] h@[j].0 != table[i as int].0 by {
                assert(h@[j] == table[j]);
            }
        }
        h.insert(names[i].to_owned(), values[i].to_owned());
        assert(table.take(i + 1) =~= table.take(i as int).push(table[i as int]));
        i = i + 1;
    }
    assert(table.take(9) =~= table);
    assert(h@ =~= browser_default_headers());
    h
}

} // verus!

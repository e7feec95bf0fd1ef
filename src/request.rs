//! Text of the requests: endpoint URLs, query strings and header values.
use vstd::prelude::*;

verus! {

/// User-agent header sent with every authenticated request.
pub const USER_AGENT: &'static str = "My Rusty Baby boy";

/// The character of a decimal digit.
pub open spec fn digit_char(d: nat) -> char {
    if d == 0 {
        '0'
    } else if d == 1 {
        '1'
    } else if d == 2 {
        '2'
    } else if d == 3 {
        '3'
    } else if d == 4 {
        '4'
    } else if d == 5 {
        '5'
    } else if d == 6 {
        '6'
    } else if d == 7 {
        '7'
    } else if d == 8 {
        '8'
    } else {
        '9'
    }
}

/// Decimal notation of a natural number, without sign or leading zeros.
pub open spec fn decimal(n: nat) -> Seq<char>
    decreases n,
{
    if n < 10 {
        seq![digit_char(n)]
    } else {
        decimal(n / 10).push(digit_char(n % 10))
    }
}

/// `<base>?page=<page>&per_page=<per_page>`: the photo API's listing URL.
pub open spec fn spec_page_url(base: Seq<char>, page: u32, per_page: u32) -> Seq<char> {
    base + "?page="@ + decimal(page as nat) + "&per_page="@ + decimal(per_page as nat)
}

/// Endpoint of the coordination service that reports the page cursor.
pub open spec fn spec_cursor_url(hosts: Seq<char>) -> Seq<char> {
    hosts + "/api/unsplash_page"@
}

/// Endpoint of the coordination service that advances the page cursor.
pub open spec fn spec_increment_url(hosts: Seq<char>) -> Seq<char> {
    hosts + "/api/unsplash_page/increment"@
}

/// Endpoint of the coordination service that receives scraped pages.
pub open spec fn spec_submit_url(hosts: Seq<char>) -> Seq<char> {
    hosts + "/api/unsplash_page/scrape"@
}

/// Value of the authorization header for an access key.
pub open spec fn spec_authorization(key: Seq<char>) -> Seq<char> {
    "Client-ID "@ + key
}

fn digit_str(d: u32) -> (r: &'static str)
    requires
        d < 10,
    ensures
        r@ == seq![digit_char(d as nat)],
{
    proof {
        reveal_strlit("0");
        reveal_strlit("1");
        reveal_strlit("2");
        reveal_strlit("3");
        reveal_strlit("4");
        reveal_strlit("5");
        reveal_strlit("6");
        reveal_strlit("7");
        reveal_strlit("8");
        reveal_strlit("9");
    }
    let r = if d == 0 {
        "0"
    } else if d == 1 {
        "1"
    } else if d == 2 {
        "2"
    } else if d == 3 {
        "3"
    } else if d == 4 {
        "4"
    } else if d == 5 {
        "5"
    } else if d == 6 {
        "6"
    } else if d == 7 {
        "7"
    } else if d == 8 {
        "8"
    } else {
        "9"
    };
    assert(r@ =~= seq![digit_char(d as nat)]);
    r
}

/// Writes `n` in decimal.
pub fn decimal_string(n: u32) -> (r: String)
    ensures
        r@ == decimal(n as nat),
    decreases n,
{
    if n < 10 {
        String::from_str(digit_str(n))
    } else {
        let mut s = decimal_string(n / 10);
        s.append(digit_str(n % 10));
        s
    }
}

/// The photo API's URL for one page of the listing.
pub fn page_url(base: &str, page: u32, per_page: u32) -> (r: String)
    ensures
        r@ == spec_page_url(base@, page, per_page),
{
    let mut s = String::from_str(base);
    s.append("?page=");
    let p = decimal_string(page);
    s.append(p.as_str());
    s.append("&per_page=");
    let q = decimal_string(per_page);
    s.append(q.as_str());
    s
}

/// The coordination service's cursor endpoint.
pub fn cursor_url(hosts: &str) -> (r: String)
    ensures
        r@ == spec_cursor_url(hosts@),
{
    String::from_str(hosts).concat("/api/unsplash_page")
}

/// The coordination service's cursor-increment endpoint.
pub fn increment_url(hosts: &str) -> (r: String)
    ensures
        r@ == spec_increment_url(hosts@),
{
    String::from_str(hosts).concat("/api/unsplash_page/increment")
}

/// The coordination service's submission endpoint.
pub fn submit_url(hosts: &str) -> (r: String)
    ensures
        r@ == spec_submit_url(hosts@),
{
    String::from_str(hosts).concat("/api/unsplash_page/scrape")
}

/// The authorization header value `Client-ID <key>`.
pub fn authorization(key: &str) -> (r: String)
    ensures
        r@ == spec_authorization(key@),
{
    String::from_str("Client-ID ").concat(key)
}

} // verus!

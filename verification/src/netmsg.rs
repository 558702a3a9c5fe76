//! The textual pieces of the image-download protocol: composing the HTTP
//! request, finding the end of the response headers, and reading the
//! configured server address.
//!
//! The sockets themselves live outside the library; these functions decide
//! every byte around them.

use vstd::prelude::*;
use crate::timecalc::{spec_is_digit, spec_num};

verus! {

/// A `\r\n\r\n` header terminator starts at `i`.
pub open spec fn spec_header_end_at(s: Seq<u8>, i: int) -> bool {
    &&& 0 <= i
    &&& i + 4 <= s.len()
    &&& s[i] == 13
    &&& s[i + 1] == 10
    &&& s[i + 2] == 13
    &&& s[i + 3] == 10
}

/// Finds the first blank line ending the HTTP headers: the position of the
/// first `\r\n\r\n`, or nothing when the data holds none.
pub fn find_header_end(data: &[u8]) -> (r: Option<usize>)
    ensures
        r matches Some(i) ==> spec_header_end_at(data@, i as int) && forall|k: int|
            0 <= k < i ==> !spec_header_end_at(data@, k),
        r is None ==> forall|k: int| !spec_header_end_at(data@, k),
{
    let n = data.len();
    if n < 4 {
        return None;
    }
    let mut i: usize = 0;
    while i <= n - 4
        invariant
            n == data@.len(),
            4 <= n,
            i <= n - 3,
            forall|k: int| 0 <= k < i ==> !spec_header_end_at(data@, k),
        decreases n - i,
    {
        if data[i] == 13 && data[i + 1] == 10 && data[i + 2] == 13 && data[i + 3] == 10 {
            return Some(i);
        }
        i += 1;
    }
    None
}

/// The HTTP GET request sent to the image server.
pub open spec fn spec_http_request(host: Seq<char>, path: Seq<char>) -> Seq<char> {
    "GET "@ + path + " HTTP/1.1\r\nHost: "@ + host + "\r\nConnection: close\r\n\r\n"@
}

/// Composes the HTTP GET request for a host and path.
pub fn format_http_request(host: &str, path: &str) -> (r: String)
    ensures
        r@ == spec_http_request(host@, path@),
{
    let mut s = "GET ".to_owned();
    s.append(path);
    s.append(" HTTP/1.1\r\nHost: ");
    s.append(host);
    s.append("\r\nConnection: close\r\n\r\n");
    proof {
        assert(s@ =~= spec_http_request(host@, path@));
    }
    s
}

/// A run of digits denoting a value an octet can hold.
pub open spec fn spec_valid_octet(s: Seq<char>, i: int, j: int) -> bool {
    &&& 0 <= i < j <= s.len()
    &&& forall|k: int| i <= k < j ==> spec_is_digit(#[trigger] s[k])
    &&& spec_num(s, i, j) <= 255
}

/// A dotted-quad address: three dots splitting the text into four digit runs
/// that each fit an octet.
pub open spec fn spec_valid_ipv4_text(s: Seq<char>) -> bool {
    exists|p1: int, p2: int, p3: int|
        #![trigger spec_ipv4_dots(s, p1, p2, p3)]
        spec_ipv4_dots(s, p1, p2, p3)
}

/// `p1 < p2 < p3` are dots and the four runs between them are octets.
pub open spec fn spec_ipv4_dots(s: Seq<char>, p1: int, p2: int, p3: int) -> bool {
    &&& 0 < p1 && p1 + 1 < p2 && p2 + 1 < p3 && p3 + 1 < s.len()
    &&& s[p1] == '.' && s[p2] == '.' && s[p3] == '.'
    &&& spec_valid_octet(s, 0, p1)
    &&& spec_valid_octet(s, p1 + 1, p2)
    &&& spec_valid_octet(s, p2 + 1, p3)
    &&& spec_valid_octet(s, p3 + 1, s.len() as int)
}

/// A digit run's value never shrinks as it extends.
proof fn lemma_num_grows(s: Seq<char>, i: int, k: int, j: int)
    requires
        i <= k <= j,
        forall|m: int| i <= m < j ==> spec_is_digit(#[trigger] s[m]),
    ensures
        0 <= spec_num(s, i, k) <= spec_num(s, i, j),
    decreases j - k,
{
    if k == j {
        lemma_num_nonneg(s, i, k);
    } else {
        lemma_num_grows(s, i, k, j - 1);
        lemma_num_nonneg(s, i, j - 1);
    }
}

/// A digit run's value is non-negative.
proof fn lemma_num_nonneg(s: Seq<char>, i: int, j: int)
    requires
        forall|m: int| i <= m < j ==> spec_is_digit(#[trigger] s[m]),
    ensures
        spec_num(s, i, j) >= 0,
    decreases j - i,
{
    if j > i {
        lemma_num_nonneg(s, i, j - 1);
    }
}

/// Parses the digit run `s[i..j)` as an octet: accepted exactly when the run
/// is non-empty, all digits, and its value fits.
fn parse_octet(s: &str, i: usize, j: usize) -> (r: Option<u8>)
    requires
        s.is_ascii(),
        i <= j <= s@.len(),
        j <= 10000,
    ensures
        r is Some <==> spec_valid_octet(s@, i as int, j as int),
        r matches Some(v) ==> v as int == spec_num(s@, i as int, j as int),
{
    if i >= j {
        return None;
    }
    let mut acc: u32 = 0;
    let mut k: usize = i;
    while k < j
        invariant
            s.is_ascii(),
            i <= k <= j <= s@.len(),
            j <= 10000,
            forall|m: int| i <= m < k ==> spec_is_digit(#[trigger] s@[m]),
            acc as int == spec_num(s@, i as int, k as int),
            acc <= 255,
        decreases j - k,
    {
        let c = s.get_char(k);
        if !('0' <= c && c <= '9') {
            proof {
                assert(!spec_valid_octet(s@, i as int, j as int));
            }
            return None;
        }
        acc = acc * 10 + ((c as u8 - 48) as u32);
        k += 1;
        if acc > 255 {
            proof {
                if spec_valid_octet(s@, i as int, j as int) {
                    lemma_num_grows(s@, i as int, k as int, j as int);
                }
            }
            return None;
        }
    }
    Some(acc as u8)
}

/// Parses a dotted-quad address into its four octets: accepted exactly when
/// the text is three dots splitting four in-range digit runs.
pub fn parse_ip(ip_str: &str) -> (r: Result<(u8, u8, u8, u8), &'static str>)
    requires
        ip_str@.len() <= 1000,
    ensures
        r is Ok <==> spec_valid_ipv4_text(ip_str@),
        r matches Ok(o) ==> exists|p1: int, p2: int, p3: int|
            #![trigger spec_ipv4_dots(ip_str@, p1, p2, p3)]
            {
                &&& spec_ipv4_dots(ip_str@, p1, p2, p3)
                &&& o.0 as int == spec_num(ip_str@, 0, p1)
                &&& o.1 as int == spec_num(ip_str@, p1 + 1, p2)
                &&& o.2 as int == spec_num(ip_str@, p2 + 1, p3)
                &&& o.3 as int == spec_num(ip_str@, p3 + 1, ip_str@.len() as int)
            },
{
    if !ip_str.is_ascii() {
        proof {
            if spec_valid_ipv4_text(ip_str@) {
                let (p1, p2, p3) = choose|p1: int, p2: int, p3: int|
                    spec_ipv4_dots(ip_str@, p1, p2, p3);
                assert forall|m: int| 0 <= m < ip_str@.len() implies (#[trigger] ip_str@[m])
                    < 128 by {
                    if m == p1 || m == p2 || m == p3 {
                        assert(ip_str@[m] == '.');
                    } else if m < p1 {
                        assert(spec_is_digit(ip_str@[m]));
                    } else if m < p2 {
                        assert(spec_is_digit(ip_str@[m]));
                    } else if m < p3 {
                        assert(spec_is_digit(ip_str@[m]));
                    } else {
                        assert(spec_is_digit(ip_str@[m]));
                    }
                }
            }
        }
        return Err("Invalid IP address format");
    }
    let n = ip_str.unicode_len();
    // collect the dot positions; a fourth dot already rules the text out
    let mut d1: usize = 0;
    let mut d2: usize = 0;
    let mut d3: usize = 0;
    let mut count: usize = 0;
    let mut i: usize = 0;
    while i < n
        invariant
            ip_str.is_ascii(),
            n == ip_str@.len(),
            n <= 1000,
            i <= n,
            count <= 3,
            count >= 1 ==> d1 < i && ip_str@[d1 as int] == '.',
            count >= 2 ==> d1 < d2 < i && ip_str@[d2 as int] == '.',
            count >= 3 ==> d2 < d3 < i && ip_str@[d3 as int] == '.',
            forall|k: int|
                0 <= k < i && ip_str@[k] == '.' ==> ((count >= 1 && k == d1) || (count >= 2 && k
                    == d2) || (count >= 3 && k == d3)),
        decreases n - i,
    {
        if ip_str.get_char(i) == '.' {
            if count == 0 {
                d1 = i;
            } else if count == 1 {
                d2 = i;
            } else if count == 2 {
                d3 = i;
            } else {
                // a fourth dot: no placement of three dots covers this text
                proof {
                    assert forall|p1: int, p2: int, p3: int|
                        !spec_ipv4_dots(ip_str@, p1, p2, p3) by {
                        if spec_ipv4_dots(ip_str@, p1, p2, p3) {
                            assert(d1 == p1 || d1 == p2 || d1 == p3) by {
                                lemma_dot_is_one_of(ip_str@, p1, p2, p3, d1 as int);
                            }
                            assert(d2 == p1 || d2 == p2 || d2 == p3) by {
                                lemma_dot_is_one_of(ip_str@, p1, p2, p3, d2 as int);
                            }
                            assert(d3 == p1 || d3 == p2 || d3 == p3) by {
                                lemma_dot_is_one_of(ip_str@, p1, p2, p3, d3 as int);
                            }
                            assert(i == p1 || i == p2 || i == p3) by {
                                lemma_dot_is_one_of(ip_str@, p1, p2, p3, i as int);
                            }
                        }
                    }
                }
                return Err("Invalid IP address format");
            }
            count += 1;
        }
        i += 1;
    }
    if count != 3 {
        proof {
            assert forall|p1: int, p2: int, p3: int| !spec_ipv4_dots(ip_str@, p1, p2, p3) by {
                if spec_ipv4_dots(ip_str@, p1, p2, p3) {
                    assert(ip_str@[p1] == '.' && ip_str@[p2] == '.' && ip_str@[p3] == '.');
                }
            }
        }
        return Err("Invalid IP address format");
    }
    let o1 = parse_octet(ip_str, 0, d1);
    let o2 = parse_octet(ip_str, d1 + 1, d2);
    let o3 = parse_octet(ip_str, d2 + 1, d3);
    let o4 = parse_octet(ip_str, d3 + 1, n);
    match (o1, o2, o3, o4) {
        (Some(a), Some(b), Some(c), Some(d)) => {
            proof {
                assert(spec_ipv4_dots(ip_str@, d1 as int, d2 as int, d3 as int));
            }
            Ok((a, b, c, d))
        },
        _ => {
            proof {
                assert forall|p1: int, p2: int, p3: int| !spec_ipv4_dots(ip_str@, p1, p2, p3) by {
                    if spec_ipv4_dots(ip_str@, p1, p2, p3) {
                        lemma_dot_is_one_of(ip_str@, p1, p2, p3, d1 as int);
                        lemma_dot_is_one_of(ip_str@, p1, p2, p3, d2 as int);
                        lemma_dot_is_one_of(ip_str@, p1, p2, p3, d3 as int);
                        assert(p1 == d1 && p2 == d2 && p3 == d3);
                    }
                }
            }
            Err("Invalid IP octet")
        },
    }
}

/// Under a valid three-dot placement, every dot is one of the three.
proof fn lemma_dot_is_one_of(s: Seq<char>, p1: int, p2: int, p3: int, k: int)
    requires
        spec_ipv4_dots(s, p1, p2, p3),
        0 <= k < s.len(),
        s[k] == '.',
    ensures
        k == p1 || k == p2 || k == p3,
{
    if k != p1 && k != p2 && k != p3 {
        if k < p1 {
            assert(spec_is_digit(s[k]));
        } else if k < p2 {
            assert(spec_is_digit(s[k]));
        } else if k < p3 {
            assert(spec_is_digit(s[k]));
        } else {
            assert(spec_is_digit(s[k]));
        }
    }
}

} // verus!

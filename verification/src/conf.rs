//! Configuration: the master's API endpoints and the node's data-centre id.

use vstd::prelude::*;
use vstd::string::*;

verus! {

/// Address on which the control web service listens.
pub const UDP_WEB_ADDR: &'static str = "0.0.0.0:38100";

/// Path of the master's endpoint that receives relay status reports.
pub const REPORT_SLAVE_STATUS_API: &'static str = "/fastMaster/v1/reportStatus";

/// Path of the master's endpoint that hands back the relays in use.
pub const GET_USING_UDPLIST_API: &'static str = "/fastMaster/v1/getUsingUdpList";

/// Path of the master's endpoint where a node registers itself.
pub const REGISTER_UDP_INFO_API: &'static str = "/fastMaster/v1/registerUdp";

/// Full URL of the status-report endpoint under the master's root URL.
pub fn report_slave_status_api(root_url: &str) -> (url: String)
    ensures
        url@ == root_url@ + REPORT_SLAVE_STATUS_API@,
{
    let mut url = root_url.to_owned();
    url.append(REPORT_SLAVE_STATUS_API);
    url
}

/// Full URL of the endpoint that lists the relays in use.
pub fn get_using_udp_api(root_url: &str) -> (url: String)
    ensures
        url@ == root_url@ + GET_USING_UDPLIST_API@,
{
    let mut url = root_url.to_owned();
    url.append(GET_USING_UDPLIST_API);
    url
}

/// Full URL of the node-registration endpoint.
pub fn register_udp_info_api(root_url: &str) -> (url: String)
    ensures
        url@ == root_url@ + REGISTER_UDP_INFO_API@,
{
    let mut url = root_url.to_owned();
    url.append(REGISTER_UDP_INFO_API);
    url
}

/// Whether `c` is an ASCII decimal digit.
pub open spec fn is_digit(c: char) -> bool {
    '0' <= c && c <= '9'
}

/// Value of a non-empty run of decimal digits (most significant first).
pub open spec fn digits_value(s: Seq<char>) -> int
    decreases s.len(),
{
    if s.len() == 0 {
        0
    } else {
        digits_value(s.drop_last()) * 10 + (s.last() as int - '0' as int)
    }
}

/// The digits of a signed decimal numeral: what follows an optional sign.
pub open spec fn numeral_body(s: Seq<char>) -> Seq<char> {
    if s.len() > 0 && (s[0] == '-' || s[0] == '+') {
        s.drop_first()
    } else {
        s
    }
}

/// Whether a numeral carries a minus sign.
pub open spec fn numeral_negative(s: Seq<char>) -> bool {
    s.len() > 0 && s[0] == '-'
}

/// The decimal reading of `s` as an `i8`: an optional `+` or `-`, then one
/// or more ASCII digits, and a value in `i8`'s range; anything else
/// (including surrounding whitespace) has no reading.
pub open spec fn spec_parse_i8(s: Seq<char>) -> Option<int> {
    let body = numeral_body(s);
    let magnitude: int = digits_value(body);
    let v: int = if numeral_negative(s) { -magnitude } else { magnitude };
    if body.len() == 0 || !(forall|i: int| 0 <= i < body.len() ==> is_digit(#[trigger] body[i])) {
        None
    } else if -128 <= v && v <= 127 {
        Some(v)
    } else {
        None
    }
}

/// Reading more digits never makes a numeral smaller.
pub proof fn lemma_digits_value_monotone(s: Seq<char>, i: int)
    requires
        0 <= i <= s.len(),
        forall|j: int| 0 <= j < s.len() ==> is_digit(#[trigger] s[j]),
    ensures
        0 <= digits_value(s.take(i)) <= digits_value(s),
    decreases s.len(),
{
    if s.len() == 0 {
        assert(s.take(i) =~= s);
    } else if i == s.len() {
        assert(s.take(i) =~= s);
        lemma_digits_value_monotone(s.drop_last(), i - 1);
        assert(s.drop_last().take(i - 1) =~= s.drop_last());
    } else {
        lemma_digits_value_monotone(s.drop_last(), i);
        assert(s.drop_last().take(i) =~= s.take(i));
        lemma_digits_value_monotone(s.drop_last(), s.len() - 1);
        assert(s.drop_last().take(s.len() - 1) =~= s.drop_last());
    }
}

/// Reads the node's data-centre id, as `i8::from_str` does: an optional
/// sign, then decimal digits, within `i8`'s range.
pub fn parse_idcx(text: &str) -> (r: Option<i8>)
    ensures
        r matches Some(v) ==> spec_parse_i8(text@) == Some(v as int),
        r is None ==> spec_parse_i8(text@) is None,
{
    let n: usize = text.unicode_len();
    let ghost s = text@;
    if n == 0 {
        return None;
    }
    let first: char = text.get_char(0);
    let negative = first == '-';
    let start: usize = if first == '-' || first == '+' { 1 } else { 0 };
    let ghost body = numeral_body(s);
    assert(numeral_negative(s) == negative);
    assert(body =~= s.subrange(start as int, n as int));
    if start == n {
        return None;
    }
    // Largest magnitude the sign allows.
    let limit: u32 = if negative { 128 } else { 127 };
    let mut acc: u32 = 0;
    let mut i: usize = start;
    while i < n
        invariant
            n == s.len(),
            s == text@,
            start <= i <= n,
            start < n,
            body == s.subrange(start as int, n as int),
            body == numeral_body(s),
            negative == numeral_negative(s),
            limit == (if negative { 128u32 } else { 127u32 }),
            forall|j: int| 0 <= j < i - start ==> is_digit(#[trigger] body[j]),
            acc as int == digits_value(body.take(i - start)),
            acc <= limit,
            limit <= 128,
        decreases n - i,
    {
        let c: char = text.get_char(i);
        assert(c == body[i - start]);
        if !('0' <= c && c <= '9') {
            assert(!is_digit(body[i - start]));
            return None;
        }
        let d: u32 = (c as u32) - ('0' as u32);
        assert(body.take(i - start + 1).drop_last() =~= body.take(i - start));
        let next: u32 = acc * 10 + d;
        if next > limit {
            proof {
                assert(digits_value(body.take(i - start + 1)) == next as int);
                if forall|j: int| 0 <= j < body.len() ==> is_digit(#[trigger] body[j]) {
                    lemma_digits_value_monotone(body, i - start + 1);
                    assert(digits_value(body) > limit);
                }
            }
            return None;
        }
        acc = next;
        i = i + 1;
    }
    assert(body.take(n - start) =~= body);
    if negative {
        let v: i8 = if acc == 128 { -128 } else { -(acc as i8) };
        Some(v)
    } else {
        Some(acc as i8)
    }
}

} // verus!

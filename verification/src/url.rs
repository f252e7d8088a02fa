//! Derivation of the stream URL from a base address, and of the query string
//! a notification popup is opened with.

use vstd::prelude::*;
use vstd::string::*;
use crate::config::MAX_TIMEOUT_SECONDS;
use crate::encoding::{percent_encode, percent_encoding_of};
use crate::text::{
    decimal_digits, i32_to_string, is_blank, signed_decimal_digits, starts_with, str_is_blank,
    str_starts_with, strip_trailing_slash, trim_trailing_slash, u64_to_string,
};

verus! {

/// The base address with trailing slashes removed and its scheme rewritten
/// for the stream: `http(s)` becomes `ws(s)`, a WebSocket scheme is kept, and
/// an address without a recognized scheme defaults to the secure scheme.
pub open spec fn rewritten_base(base: Seq<char>) -> Seq<char> {
    let b = trim_trailing_slash(base);
    if starts_with(b, "https://"@) {
        "wss://"@ + b.skip("https://"@.len() as int)
    } else if starts_with(b, "http://"@) {
        "ws://"@ + b.skip("http://"@.len() as int)
    } else if starts_with(b, "ws://"@) || starts_with(b, "wss://"@) {
        b
    } else {
        "wss://"@ + b
    }
}

/// The full stream URL: the rewritten base, the stream path, and the
/// credential percent-encoded as the sole query parameter.
pub open spec fn stream_url(base: Seq<char>, token: Seq<char>) -> Seq<char> {
    rewritten_base(base) + "/stream?token="@ + percent_encoding_of(token)
}

/// Derives the stream URL for `base_url` with `token` as the percent-encoded
/// query credential.
pub fn derive_stream_url(base_url: &str, token: &str) -> (r: String)
    ensures
        r@ == stream_url(base_url@, token@),
{
    let trimmed = strip_trailing_slash(base_url);
    let tlen = trimmed.unicode_len();
    let mut url: String;
    if str_starts_with(trimmed, "https://") {
        proof {
            reveal_strlit("https://");
        }
        url = String::from_str("wss://");
        let rest = trimmed.substring_char(8, tlen);
        url.append(rest);
        proof {
            assert(rest@ =~= trimmed@.skip("https://"@.len() as int));
        }
    } else if str_starts_with(trimmed, "http://") {
        proof {
            reveal_strlit("http://");
        }
        url = String::from_str("ws://");
        let rest = trimmed.substring_char(7, tlen);
        url.append(rest);
        proof {
            assert(rest@ =~= trimmed@.skip("http://"@.len() as int));
        }
    } else if str_starts_with(trimmed, "ws://") || str_starts_with(trimmed, "wss://") {
        url = trimmed.to_owned();
    } else {
        url = String::from_str("wss://");
        url.append(trimmed);
    }
    proof {
        assert(url@ =~= rewritten_base(base_url@));
    }
    url.append("/stream?token=");
    let encoded = percent_encode(token);
    url.append(encoded.as_str());
    proof {
        assert(url@ =~= stream_url(base_url@, token@));
    }
    url
}

/// Every base address beginning with `http://` or `https://` keeps its host
/// and path in the derived stream URL: only the scheme changes, to the
/// corresponding WebSocket scheme, and the credential follows, percent-encoded,
/// as the one query parameter.
pub proof fn lemma_stream_url_scheme(base: Seq<char>, token: Seq<char>)
    ensures
        starts_with(trim_trailing_slash(base), "https://"@) ==> stream_url(base, token) == "wss://"@
            + trim_trailing_slash(base).skip("https://"@.len() as int) + "/stream?token="@
            + percent_encoding_of(token),
        starts_with(trim_trailing_slash(base), "http://"@) ==> stream_url(base, token) == "ws://"@
            + trim_trailing_slash(base).skip("http://"@.len() as int) + "/stream?token="@
            + percent_encoding_of(token),
{
    let b = trim_trailing_slash(base);
    reveal_strlit("https://");
    reveal_strlit("http://");
    if starts_with(b, "http://"@) && starts_with(b, "https://"@) {
        // an address cannot begin with both: the fifth character differs
        assert(b.subrange(0, 8)[4] == b[4]);
        assert(b.subrange(0, 7)[4] == b[4]);
        assert(false);
    }
}

/// The query string a notification popup is opened with.
pub open spec fn notification_query(
    title: Seq<char>,
    message: Seq<char>,
    priority: int,
    timeout: nat,
) -> Seq<char> {
    "notification.html?title="@ + percent_encoding_of(title) + "&message="@ + percent_encoding_of(
        message,
    ) + "&priority="@ + signed_decimal_digits(priority) + "&timeout="@ + decimal_digits(timeout)
}

/// The effective priority of a notification request: 0 when none is given.
pub open spec fn effective_priority(priority: Option<i32>) -> int {
    match priority {
        Some(p) => p as int,
        None => 0,
    }
}

/// Checks a notification request — title and message must not both be blank,
/// the timeout must lie within bounds — and, when it passes, builds the page
/// address the popup is opened with: title and message percent-encoded into
/// query parameters beside the priority and the timeout.
pub fn notification_url(
    title: &str,
    message: &str,
    priority: Option<i32>,
    timeout_seconds: u64,
) -> (r: Result<String, String>)
    ensures
        r is Ok <==> ((!is_blank(title@) || !is_blank(message@)) && 0 < timeout_seconds
            <= MAX_TIMEOUT_SECONDS),
        (r matches Ok(u) ==> u@ == notification_query(
            title@,
            message@,
            effective_priority(priority),
            timeout_seconds as nat,
        )),
        (is_blank(title@) && is_blank(message@)) ==> (r matches Err(m) && m@
            == "title and message must not both be empty"@),
        ((!is_blank(title@) || !is_blank(message@)) && timeout_seconds == 0) ==> (r matches Err(m)
            && m@ == "timeout must be greater than 0"@),
        ((!is_blank(title@) || !is_blank(message@)) && timeout_seconds > MAX_TIMEOUT_SECONDS) ==> (
        r matches Err(m) && m@ == "timeout must not exceed 300 seconds"@),
{
    if str_is_blank(title) && str_is_blank(message) {
        return Err(String::from_str("title and message must not both be empty"));
    }
    if timeout_seconds == 0 {
        return Err(String::from_str("timeout must be greater than 0"));
    }
    if timeout_seconds > MAX_TIMEOUT_SECONDS {
        return Err(String::from_str("timeout must not exceed 300 seconds"));
    }
    let mut url = String::from_str("notification.html?title=");
    let encoded_title = percent_encode(title);
    url.append(encoded_title.as_str());
    url.append("&message=");
    let encoded_message = percent_encode(message);
    url.append(encoded_message.as_str());
    url.append("&priority=");
    let priority_value: i32 = match priority {
        Some(p) => p,
        None => 0,
    };
    let priority_text = i32_to_string(priority_value);
    url.append(priority_text.as_str());
    url.append("&timeout=");
    let timeout_text = u64_to_string(timeout_seconds);
    url.append(timeout_text.as_str());
    proof {
        assert(url@ =~= notification_query(
            title@,
            message@,
            effective_priority(priority),
            timeout_seconds as nat,
        ));
    }
    Ok(url)
}

} // verus!

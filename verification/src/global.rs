//! Where reports are sent: the connection string of the telemetry service.

use crate::lines::{
    first_index,
    split,
    split_on,
    strip_char,
    strip_end_char,
    texts,
    trim_char,
    trim_end_char,
};
use crate::text::{
    ascii_lowercase,
    copy_range,
    from_chars,
    join2,
    spells,
    to_ascii_lowercase,
    to_chars,
    trim,
    trimmed,
};
use vstd::prelude::*;

verus! {

/// Why a connection string cannot be used.
#[derive(Debug, Clone, Copy, PartialEq, Eq, Structural)]
pub enum ConnectionError {
    /// The string names no instrumentation key.
    MissingInstrumentationKey,
}

/// The endpoint that is used where the connection string names none.
pub const DEFAULT_ENDPOINT: &'static str = "https://dc.services.visualstudio.com";

/// The key of a segment: what stands before its first `=`, trimmed and in
/// lower case.
pub open spec fn segment_key(segment: Seq<char>) -> Seq<char> {
    let part = trim(segment);
    let i = first_index(part, '=');
    ascii_lowercase(trim(part.take(i)))
}

/// The value of a segment: what stands after its first `=`, trimmed and
/// without the double quotes around it; empty where there is no `=`.
pub open spec fn segment_value(segment: Seq<char>) -> Seq<char> {
    let part = trim(segment);
    let i = first_index(part, '=');
    if 0 <= i < part.len() {
        trim_char(trim(part.skip(i + 1)), '"')
    } else {
        seq![]
    }
}

/// The segment names the instrumentation key.
pub open spec fn names_ikey(segment: Seq<char>) -> bool {
    trim(segment).len() > 0 && (segment_key(segment) == "instrumentationkey"@ || segment_key(
        segment,
    ) == "ikey"@)
}

/// The segment names the ingestion endpoint.
pub open spec fn names_endpoint(segment: Seq<char>) -> bool {
    trim(segment).len() > 0 && segment_key(segment) == "ingestionendpoint"@
}

/// The value of the last segment that satisfies `p`.
pub open spec fn last_value(segments: Seq<Seq<char>>, p: spec_fn(Seq<char>) -> bool) -> Option<
    Seq<char>,
>
    decreases segments.len(),
{
    if segments.len() == 0 {
        None
    } else if p(segments.last()) {
        Some(segment_value(segments.last()))
    } else {
        last_value(segments.drop_last(), p)
    }
}

/// Endpoint and instrumentation key that a connection string names. Its
/// segments are separated by `;`; empty segments and unknown keys are
/// passed over, and of several segments with one key the last decides.
pub open spec fn connection(cs: Seq<char>) -> Result<(Seq<char>, Seq<char>), ConnectionError> {
    let segments = split(cs, ';');
    match last_value(segments, |s: Seq<char>| names_ikey(s)) {
        None => Err(ConnectionError::MissingInstrumentationKey),
        Some(ikey) => Ok(
            (
                match last_value(segments, |s: Seq<char>| names_endpoint(s)) {
                    Some(endpoint) => endpoint,
                    None => DEFAULT_ENDPOINT@,
                },
                ikey,
            ),
        ),
    }
}

fn read_segment(segment: &Vec<char>) -> (r: (Vec<char>, Vec<char>, bool))
    ensures
        r.0@ == segment_key(segment@),
        r.1@ == segment_value(segment@),
        r.2 == (trim(segment@).len() > 0),
{
    let part = trimmed(segment);
    let n: usize = part.len();
    let mut i: usize = 0;
    while i < n && part[i] != '='
        invariant
            n == part.len(),
            i <= n,
            forall|j: int| 0 <= j < i ==> part@[j] != '=',
        decreases n - i,
    {
        i = i + 1;
    }
    proof {
        crate::lines::lemma_first_index_is(part@, '=', i as int);
    }
    let before = copy_range(&part, 0, i);
    assert(before@ == part@.take(i as int));
    let key = to_ascii_lowercase(&trimmed(&before));
    let value = if i < n {
        let after = copy_range(&part, i + 1, n);
        assert(after@ == part@.skip(i + 1));
        strip_char(&trimmed(&after), '"')
    } else {
        Vec::new()
    };
    (key, value, n > 0)
}

/// Reads endpoint and instrumentation key out of a connection string.
///
/// Fails exactly when no segment names an instrumentation key.
pub fn parse_connection_string(cs: &str) -> (r: Result<(String, String), ConnectionError>)
    ensures
        match r {
            Ok(pair) => connection(cs@) == Ok::<(Seq<char>, Seq<char>), ConnectionError>(
                (pair.0@, pair.1@),
            ),
            Err(e) => connection(cs@) == Err::<(Seq<char>, Seq<char>), ConnectionError>(e),
        },
{
    let segments = split_on(&to_chars(cs), ';');
    let ghost all = texts(segments@);
    let ghost is_ikey = |s: Seq<char>| names_ikey(s);
    let ghost is_endpoint = |s: Seq<char>| names_endpoint(s);
    let mut ikey: Option<Vec<char>> = None;
    let mut ingestion: Option<Vec<char>> = None;
    let mut i: usize = 0;
    assert(all.take(0) == Seq::<Seq<char>>::empty());
    while i < segments.len()
        invariant
            i <= segments.len(),
            all == texts(segments@),
            all == split(cs@, ';'),
            is_ikey == |s: Seq<char>| names_ikey(s),
            is_endpoint == |s: Seq<char>| names_endpoint(s),
            match ikey {
                Some(v) => last_value(all.take(i as int), is_ikey) == Some(v@),
                None => last_value(all.take(i as int), is_ikey) is None,
            },
            match ingestion {
                Some(v) => last_value(all.take(i as int), is_endpoint) == Some(v@),
                None => last_value(all.take(i as int), is_endpoint) is None,
            },
        decreases segments.len() - i,
    {
        proof {
            let upto = all.take(i + 1);
            assert(upto.drop_last() == all.take(i as int));
            assert(upto.last() == segments@[i as int]@);
        }
        let (key, value, filled) = read_segment(&segments[i]);
        if filled {
            if spells(&key, "instrumentationkey") || spells(&key, "ikey") {
                ikey = Some(value);
            } else if spells(&key, "ingestionendpoint") {
                ingestion = Some(value);
            }
        }
        proof {
            reveal_strlit("instrumentationkey");
            reveal_strlit("ikey");
            reveal_strlit("ingestionendpoint");
            assert("instrumentationkey"@.len() == 18);
            assert("ikey"@.len() == 4);
            assert("ingestionendpoint"@.len() == 17);
        }
        i = i + 1;
    }
    assert(all.take(segments.len() as int) == all);
    match ikey {
        None => Err(ConnectionError::MissingInstrumentationKey),
        Some(ikey) => {
            let endpoint = match ingestion {
                Some(endpoint) => from_chars(&endpoint),
                None => DEFAULT_ENDPOINT.to_owned(),
            };
            Ok((endpoint, from_chars(&ikey)))
        },
    }
}

/// Where reports go and under which key.
#[derive(Debug, PartialEq, Eq)]
pub struct TelemetryConfig {
    /// The address that reports are posted to; empty where there is none.
    pub endpoint: String,
    /// The instrumentation key; empty where there is none.
    pub ikey: String,
}

/// The address for reports below an endpoint.
pub open spec fn track_address(endpoint: Seq<char>) -> Seq<char> {
    trim_end_char(endpoint, '/') + "/v2/track"@
}

impl TelemetryConfig {
    /// The configuration that a connection string gives. A string that
    /// cannot be used gives an empty address and an empty key.
    pub fn new(cs: &str) -> (r: TelemetryConfig)
        ensures
            match connection(cs@) {
                Ok(pair) => r.endpoint@ == track_address(pair.0) && r.ikey@ == pair.1,
                Err(_) => r.endpoint@.len() == 0 && r.ikey@.len() == 0,
            },
    {
        match parse_connection_string(cs) {
            Ok((endpoint, ikey)) => {
                let base = from_chars(&strip_end_char(&to_chars(endpoint.as_str()), '/'));
                TelemetryConfig { endpoint: join2(base.as_str(), "/v2/track"), ikey }
            },
            Err(_) => TelemetryConfig { endpoint: String::new(), ikey: String::new() },
        }
    }
}

/// The address that reports are posted to.
pub fn get_endpoint(config: &TelemetryConfig) -> (r: String)
    ensures
        r@ == config.endpoint@,
{
    config.endpoint.clone()
}

/// The instrumentation key.
pub fn get_ikey(config: &TelemetryConfig) -> (r: String)
    ensures
        r@ == config.ikey@,
{
    config.ikey.clone()
}

} // verus!

//! The value of the `--tcp-keepalive` option.
use vstd::prelude::*;
use vstd::string::*;
use crate::decimal::{
    decimal, is_digit, lemma_decimal, lemma_u32_text_round_trip, parse_u32, parse_u32_spec,
    push_decimal,
};
use crate::text::{
    lemma_split_on_append_piece, lemma_trim_ignores_white_space, unicode_white_space,
    lemma_split_on_nonempty, lemma_split_on_three, lemma_trim_unchanged, push_char, split_on, str_split, str_trim,
    str_views, trim,
};

verus! {

/// `socket2::TcpKeepalive`, opaque; what it holds is named by [`keepalive_settings`].
#[verifier::external_type_specification]
#[verifier::external_body]
pub struct ExTcpKeepalive(socket2::TcpKeepalive);

/// Value of `--tcp-keepalive` option.
///
/// When parsed from string, it expects 0 to 3 colon-separated numbers:
///
/// * Timeout (in milliseconds)
/// * Number of failed pings before failing the connection
/// * Interval of pings (in milliseconds)
///
/// Specifying empty string or "" just requests to enable keepalives without configuring parameters.
#[derive(Debug, Clone, Copy, PartialEq, Eq, Structural)]
pub struct TcpKeepaliveParams {
    /// Amount of time after which TCP keepalive probes will be sent on idle connections.
    pub timeout_ms: Option<u32>,
    /// Maximum number of TCP keepalive probes that will be sent before dropping a connection.
    pub count: Option<u32>,
    /// Time interval between TCP keepalive probes.
    pub interval_ms: Option<u32>,
}

impl Default for TcpKeepaliveParams {
    fn default() -> (r: TcpKeepaliveParams)
        ensures
            r == (TcpKeepaliveParams { timeout_ms: None, count: None, interval_ms: None }),
    {
        TcpKeepaliveParams { timeout_ms: None, count: None, interval_ms: None }
    }
}

/// The text of an optional number: its numeral, or nothing.
pub open spec fn optional_decimal(x: Option<u32>) -> Seq<char> {
    match x {
        Some(v) => decimal(v as nat),
        None => Seq::<char>::empty(),
    }
}

/// The text of the parameters: `timeout:count:interval`, each part empty when unset.
pub open spec fn keepalive_text(k: TcpKeepaliveParams) -> Seq<char> {
    optional_decimal(k.timeout_ms) + seq![':'] + optional_decimal(k.count) + seq![':']
        + optional_decimal(k.interval_ms)
}

/// The trimmed `i`-th colon-separated piece, or nothing when there are fewer pieces.
pub open spec fn keepalive_chunk(chunks: Seq<Seq<char>>, i: int) -> Seq<char> {
    if i < chunks.len() {
        trim(chunks[i])
    } else {
        Seq::<char>::empty()
    }
}

/// A piece that is empty leaves its parameter unset; any other piece must be a `u32`.
pub open spec fn chunk_is_valid(c: Seq<char>) -> bool {
    c.len() == 0 || parse_u32_spec(c) is Some
}

pub open spec fn chunk_value(c: Seq<char>) -> Option<u32> {
    if c.len() == 0 {
        None
    } else {
        parse_u32_spec(c)
    }
}

/// What reading the option value `s` gives: at most three colon-separated
/// pieces, each trimmed of white space; the first bad piece decides the error.
pub open spec fn keepalive_of(s: Seq<char>) -> Result<TcpKeepaliveParams, Seq<char>> {
    let chunks = split_on(s, ':');
    let t = keepalive_chunk(chunks, 0);
    let c = keepalive_chunk(chunks, 1);
    let i = keepalive_chunk(chunks, 2);
    if chunks.len() > 3 {
        Err("Too many colon-separated chunks"@)
    } else if !chunk_is_valid(t) {
        Err("failed to parse timeout as a number"@)
    } else if !chunk_is_valid(c) {
        Err("failed to parse count as a number"@)
    } else if !chunk_is_valid(i) {
        Err("failed to parse interval as a number"@)
    } else {
        Ok(
            TcpKeepaliveParams {
                timeout_ms: chunk_value(t),
                count: chunk_value(c),
                interval_ms: chunk_value(i),
            },
        )
    }
}

/// White space after the value (a line end read with it, a tab, a space)
/// changes nothing: each piece is trimmed as `str::trim` trims it.
pub proof fn lemma_keepalive_ignores_white_space(s: Seq<char>, c: char)
    requires
        unicode_white_space(c),
    ensures
        keepalive_of(s.push(c)) == keepalive_of(s),
{
    let sp = split_on(s, ':');
    lemma_split_on_nonempty(s, ':');
    assert(!seq![c].contains(':')) by {
        assert(seq![c][0] == c);
    }
    lemma_split_on_append_piece(s, seq![c], ':');
    assert(s + seq![c] =~= s.push(c));
    let last = sp.last();
    assert(last + seq![c] =~= last.push(c));
    lemma_trim_ignores_white_space(last, c);
    let np = split_on(s.push(c), ':');
    assert forall|i: int| 0 <= i < 3 implies keepalive_chunk(np, i) == keepalive_chunk(sp, i) by {
        if i < sp.len() && i == sp.len() - 1 {
            assert(np[i] == last.push(c));
        }
    }
}

/// `r` is the outcome `spec` describes, the error text taken by its view.
pub open spec fn same_outcome<T>(r: Result<T, &str>, spec: Result<T, Seq<char>>) -> bool {
    match r {
        Ok(v) => spec == Ok::<T, Seq<char>>(v),
        Err(e) => spec == Err::<T, Seq<char>>(e@),
    }
}

/// What a `socket2::TcpKeepalive` holds, in this order: the idle time before
/// probes in nanoseconds, the number of probes, and the interval between
/// probes in nanoseconds (its `time`, `retries` and `interval` fields);
/// `None` where unset.
pub uninterp spec fn keepalive_settings(k: socket2::TcpKeepalive) -> (
    Option<nat>,
    Option<u32>,
    Option<nat>,
);

/// A number of milliseconds, in nanoseconds.
pub open spec fn millis_as_nanos(ms: Option<u32>) -> Option<nat> {
    match ms {
        Some(x) => Some(x as nat * 1_000_000),
        None => None,
    }
}

/// `socket2::TcpKeepalive::new`: every parameter unset.
#[verifier::external_body]
fn keepalive_new() -> (r: socket2::TcpKeepalive)
    ensures
        keepalive_settings(r) == (None::<nat>, None::<u32>, None::<nat>),
{
    socket2::TcpKeepalive::new()
}

/// `socket2::TcpKeepalive::with_time`, given the idle time in milliseconds:
/// sets the idle time to that duration and keeps the other parameters.
#[verifier::external_body]
fn keepalive_with_time(k: socket2::TcpKeepalive, ms: u32) -> (r: socket2::TcpKeepalive)
    ensures
        keepalive_settings(r) == (
            Some(ms as nat * 1_000_000),
            keepalive_settings(k).1,
            keepalive_settings(k).2,
        ),
{
    k.with_time(std::time::Duration::from_millis(u64::from(ms)))
}

/// `socket2::TcpKeepalive::with_retries`: sets the number of probes and
/// keeps the other parameters.
#[verifier::external_body]
fn keepalive_with_retries(k: socket2::TcpKeepalive, retries: u32) -> (r: socket2::TcpKeepalive)
    ensures
        keepalive_settings(r) == (keepalive_settings(k).0, Some(retries), keepalive_settings(k).2),
{
    k.with_retries(retries)
}

/// `socket2::TcpKeepalive::with_interval`, given the interval in milliseconds:
/// sets the interval to that duration and keeps the other parameters.
#[verifier::external_body]
fn keepalive_with_interval(k: socket2::TcpKeepalive, ms: u32) -> (r: socket2::TcpKeepalive)
    ensures
        keepalive_settings(r) == (
            keepalive_settings(k).0,
            keepalive_settings(k).1,
            Some(ms as nat * 1_000_000),
        ),
{
    k.with_interval(std::time::Duration::from_millis(u64::from(ms)))
}

/// Reads one trimmed piece: empty leaves the parameter unset.
fn read_chunk(c: &str) -> (r: Result<Option<u32>, ()>)
    ensures
        r is Ok <==> chunk_is_valid(c@),
        r matches Ok(v) ==> v == chunk_value(c@),
{
    if c.unicode_len() == 0 {
        Ok(None)
    } else {
        match parse_u32(c) {
            Some(v) => Ok(Some(v)),
            None => Err(()),
        }
    }
}

impl TcpKeepaliveParams {
    /// Reads the parameters from `timeout:count:interval`, where each part may be empty or missing.
    pub fn parse(input_string: &str) -> (r: Result<TcpKeepaliveParams, &'static str>)
        ensures
            same_outcome(r, keepalive_of(input_string@)),
    {
        let input_chunks = str_split(input_string, ':');
        let ghost chunks = split_on(input_string@, ':');
        assert(input_chunks@.len() == chunks.len()) by {
            assert(str_views(input_chunks@).len() == input_chunks@.len());
        };
        if input_chunks.len() > 3 {
            return Err("Too many colon-separated chunks");
        }
        let timeout_chunk = if input_chunks.len() > 0 {
            str_trim(input_chunks[0])
        } else {
            ""
        };
        let ping_count_chunk = if input_chunks.len() > 1 {
            str_trim(input_chunks[1])
        } else {
            ""
        };
        let interval_chunk = if input_chunks.len() > 2 {
            str_trim(input_chunks[2])
        } else {
            ""
        };
        proof {
            reveal_strlit("");
            lemma_split_on_nonempty(input_string@, ':');
            assert(str_views(input_chunks@)[0] == input_chunks@[0]@);
            assert(input_chunks@.len() > 1 ==> str_views(input_chunks@)[1] == input_chunks@[1]@);
            assert(input_chunks@.len() > 2 ==> str_views(input_chunks@)[2] == input_chunks@[2]@);
            assert(timeout_chunk@ == keepalive_chunk(chunks, 0));
            assert(ping_count_chunk@ == keepalive_chunk(chunks, 1));
            assert(interval_chunk@ == keepalive_chunk(chunks, 2));
        }
        let timeout_ms = match read_chunk(timeout_chunk) {
            Ok(v) => v,
            Err(_) => {
                return Err("failed to parse timeout as a number");
            },
        };
        let count = match read_chunk(ping_count_chunk) {
            Ok(v) => v,
            Err(_) => {
                return Err("failed to parse count as a number");
            },
        };
        let interval_ms = match read_chunk(interval_chunk) {
            Ok(v) => v,
            Err(_) => {
                return Err("failed to parse interval as a number");
            },
        };
        Ok(TcpKeepaliveParams { timeout_ms, count, interval_ms })
    }

    /// The text `timeout:count:interval`, each part empty when unset.
    pub fn to_string(&self) -> (r: String)
        ensures
            r@ == keepalive_text(*self),
    {
        let mut s = String::new();
        if let Some(x) = self.timeout_ms {
            push_decimal(&mut s, x as u64);
        }
        push_char(&mut s, ':');
        if let Some(x) = self.count {
            push_decimal(&mut s, x as u64);
        }
        push_char(&mut s, ':');
        if let Some(x) = self.interval_ms {
            push_decimal(&mut s, x as u64);
        }
        assert(s@ =~= keepalive_text(*self));
        s
    }

    /// Converts the parameters to socket2's form: each parameter that is set
    /// is handed to the matching `with_*` builder, millisecond values as
    /// durations; unset parameters stay unset.
    pub fn to_socket2(&self) -> (r: socket2::TcpKeepalive)
        ensures
            keepalive_settings(r) == (
                millis_as_nanos(self.timeout_ms),
                self.count,
                millis_as_nanos(self.interval_ms),
            ),
    {
        let mut k = keepalive_new();
        if let Some(x) = self.timeout_ms {
            k = keepalive_with_time(k, x);
        }
        if let Some(x) = self.count {
            k = keepalive_with_retries(k, x);
        }
        if let Some(x) = self.interval_ms {
            k = keepalive_with_interval(k, x);
        }
        k
    }
}

impl std::str::FromStr for TcpKeepaliveParams {
    type Err = &'static str;

    fn from_str(s: &str) -> (r: Result<TcpKeepaliveParams, &'static str>)
        ensures
            same_outcome(r, keepalive_of(s@)),
    {
        TcpKeepaliveParams::parse(s)
    }
}

proof fn lemma_optional_decimal(x: Option<u32>)
    ensures
        !optional_decimal(x).contains(':'),
        trim(optional_decimal(x)) == optional_decimal(x),
        chunk_is_valid(optional_decimal(x)),
        chunk_value(optional_decimal(x)) == x,
{
    if let Some(v) = x {
        let d = decimal(v as nat);
        lemma_decimal(v as nat);
        lemma_u32_text_round_trip(v);
        assert(!d.contains(':')) by {
            if d.contains(':') {
                let j = choose|j: int| 0 <= j < d.len() && d[j] == ':';
                assert(is_digit(d[j]));
            }
        };
        assert(is_digit(d[0]) && is_digit(d[d.len() - 1]));
        lemma_trim_unchanged(d);
    } else {
        let e = Seq::<char>::empty();
        assert(!e.contains(':'));
        lemma_trim_unchanged(e);
    }
}

/// Reading back the text of any parameters gives the same parameters.
pub proof fn lemma_keepalive_round_trip(k: TcpKeepaliveParams)
    ensures
        keepalive_of(keepalive_text(k)) == Ok::<TcpKeepaliveParams, Seq<char>>(k),
{
    let a = optional_decimal(k.timeout_ms);
    let b = optional_decimal(k.count);
    let c = optional_decimal(k.interval_ms);
    lemma_optional_decimal(k.timeout_ms);
    lemma_optional_decimal(k.count);
    lemma_optional_decimal(k.interval_ms);
    lemma_split_on_three(a, b, c, ':');
}

} // verus!

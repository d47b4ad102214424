//! Validation of the service configuration. The configuration source is read
//! and flattened into string pairs outside this crate; everything after that
//! point — which keys are required, how the thread count and the bind address
//! must look — is decided here.

use vstd::prelude::*;
use vstd::string::StrSliceExecFns;
use vstd::utf8::encode_utf8;

verus! {

/// Why a configuration was rejected. The service treats every variant as
/// fatal: it never starts half-configured.
#[derive(Clone, Copy, PartialEq, Eq, Structural, Debug)]
pub enum ConfigError {
    /// The configuration source could not be read or was malformed.
    CannotReadConfig,
    /// No `bind_addr` key.
    MissingBindAddr,
    /// No `num_threads` key.
    MissingNumThreads,
    /// No `dict_path` key.
    MissingDictPath,
    /// `bind_addr` is not of the shape `host:port` with an address-literal
    /// host.
    BadBindAddr,
    /// `num_threads` is not a positive integer that fits the machine.
    BadNumThreads,
}

/// The validated configuration: everything the transport layer needs in
/// order to bring the service up.
#[derive(Clone, Debug, PartialEq, Eq)]
pub struct ServiceConfig {
    /// Address to listen on: an address-literal host and a port.
    pub bind_addr: String,
    /// Size of the worker pool; always positive.
    pub num_threads: usize,
    /// Path of the dictionary resource the engine is loaded from.
    pub dict_path: String,
}

impl ServiceConfig {
    pub open spec fn wf(self) -> bool {
        &&& valid_addr_bytes(encode_utf8(self.bind_addr@))
        &&& self.num_threads > 0
    }
}

/// The value under `key` in a flattened configuration, taking the first
/// occurrence where the source repeated a key.
pub open spec fn spec_lookup(pairs: Seq<(String, String)>, key: Seq<char>) -> Option<Seq<char>>
    decreases pairs.len(),
{
    if pairs.len() == 0 {
        None
    } else if pairs[0].0@ == key {
        Some(pairs[0].1@)
    } else {
        spec_lookup(pairs.drop_first(), key)
    }
}

proof fn lemma_lookup_skip(pairs: Seq<(String, String)>, key: Seq<char>, i: int)
    requires
        0 <= i <= pairs.len(),
        forall|j: int| 0 <= j < i ==> (#[trigger] pairs[j]).0@ != key,
    ensures
        spec_lookup(pairs, key) == spec_lookup(pairs.skip(i), key),
    decreases i,
{
    if i > 0 {
        lemma_lookup_skip(pairs, key, i - 1);
        assert(pairs.skip(i - 1).drop_first() =~= pairs.skip(i));
    } else {
        assert(pairs.skip(0) =~= pairs);
    }
}

/// Finds the value stored under `key`, if any.
pub fn lookup(pairs: &Vec<(String, String)>, key: &String) -> (r: Option<String>)
    ensures
        match r {
            Some(v) => spec_lookup(pairs@, key@) == Some(v@),
            None => spec_lookup(pairs@, key@) is None,
        },
{
    let n: usize = pairs.len();
    let mut i: usize = 0;
    while i < n
        invariant
            n == pairs@.len(),
            0 <= i <= n,
            forall|j: int| 0 <= j < i ==> (#[trigger] pairs@[j]).0@ != key@,
        decreases n - i,
    {
        if pairs[i].0 == *key {
            proof {
                lemma_lookup_skip(pairs@, key@, i as int);
                assert(pairs@.skip(i as int)[0] == pairs@[i as int]);
            }
            return Some(pairs[i].1.clone());
        }
        i += 1;
    }
    proof {
        lemma_lookup_skip(pairs@, key@, n as int);
    }
    None
}

pub open spec fn is_digit(b: u8) -> bool {
    48 <= b <= 57
}

pub open spec fn all_digits(b: Seq<u8>) -> bool {
    forall|i: int| 0 <= i < b.len() ==> is_digit(#[trigger] b[i])
}

/// A non-empty run of decimal digits.
pub open spec fn is_digits(b: Seq<u8>) -> bool {
    b.len() > 0 && all_digits(b)
}

/// The number the digits spell, most significant first.
pub open spec fn digits_value(b: Seq<u8>) -> int
    decreases b.len(),
{
    if b.len() == 0 {
        0
    } else {
        digits_value(b.drop_last()) * 10 + b.last() - 48
    }
}

proof fn lemma_digits_value_nonneg(b: Seq<u8>)
    requires
        all_digits(b),
    ensures
        digits_value(b) >= 0,
    decreases b.len(),
{
    if b.len() > 0 {
        assert(all_digits(b.drop_last()));
        lemma_digits_value_nonneg(b.drop_last());
    }
}

proof fn lemma_digits_value_mono(b: Seq<u8>, i: int)
    requires
        all_digits(b),
        0 <= i <= b.len(),
    ensures
        digits_value(b.take(i)) <= digits_value(b),
    decreases b.len() - i,
{
    if i == b.len() {
        assert(b.take(i) =~= b);
    } else {
        assert(b.take(i + 1).drop_last() =~= b.take(i));
        assert(all_digits(b.take(i)));
        lemma_digits_value_nonneg(b.take(i));
        assert(digits_value(b.take(i + 1)) == digits_value(b.take(i)) * 10 + b[i] - 48);
        lemma_digits_value_mono(b, i + 1);
    }
}

/// Reads the decimal number spelled by `bytes` from `from` on, answering
/// `Some` exactly when that suffix is a non-empty run of digits whose value
/// is at most `max`.
pub(crate) fn parse_decimal(bytes: &Vec<u8>, from: usize, max: u64) -> (r: Option<u64>)
    requires
        from <= bytes@.len(),
        max >= 9,
    ensures
        match r {
            Some(n) => {
                &&& is_digits(bytes@.skip(from as int))
                &&& n == digits_value(bytes@.skip(from as int))
                &&& n <= max
            },
            None => !(is_digits(bytes@.skip(from as int)) && digits_value(
                bytes@.skip(from as int),
            ) <= max),
        },
{
    let ghost suffix = bytes@.skip(from as int);
    let n: usize = bytes.len();
    if from == n {
        assert(suffix.len() == 0);
        return None;
    }
    let mut acc: u64 = 0;
    let mut i: usize = from;
    while i < n
        invariant
            from <= i <= n,
            n == bytes@.len(),
            max >= 9,
            suffix == bytes@.skip(from as int),
            all_digits(suffix.take(i - from)),
            acc == digits_value(suffix.take(i - from)),
            acc <= max,
        decreases n - i,
    {
        let b = bytes[i];
        assert(suffix[i - from] == bytes@[i as int]);
        if b < 48 || b > 57 {
            assert(!all_digits(suffix));
            return None;
        }
        let d = (b - 48) as u64;
        assert(suffix.take(i - from + 1).drop_last() =~= suffix.take(i - from));
        assert(digits_value(suffix.take(i - from + 1)) == acc * 10 + d);
        if acc > (max - d) / 10 {
            proof {
                assert(((max - d) / 10) * 10 + (max - d) % 10 == max - d);
                assert(acc * 10 + d > max);
                if all_digits(suffix) {
                    lemma_digits_value_mono(suffix, i - from + 1);
                }
            }
            return None;
        }
        proof {
            assert(((max - d) / 10) * 10 + (max - d) % 10 == max - d);
            assert(acc * 10 + d <= max);
        }
        acc = acc * 10 + d;
        i += 1;
    }
    assert(suffix.take(n - from) =~= suffix);
    Some(acc)
}

proof fn lemma_digits_value_bound_small(b: Seq<u8>)
    requires
        all_digits(b),
        b.len() <= 3,
    ensures
        0 <= digits_value(b),
        b.len() <= 1 ==> digits_value(b) <= 9,
        b.len() <= 2 ==> digits_value(b) <= 99,
        digits_value(b) <= 999,
    decreases b.len(),
{
    if b.len() > 0 {
        assert(all_digits(b.drop_last()));
        lemma_digits_value_bound_small(b.drop_last());
    }
}

/// One octet of a dotted-quad address: one to three digits spelling a value
/// of at most 255, with no leading zero.
pub open spec fn valid_octet(b: Seq<u8>) -> bool {
    &&& 1 <= b.len() <= 3
    &&& all_digits(b)
    &&& digits_value(b) <= 255
    &&& (b.len() > 1 ==> b[0] != 48)
}

/// `parts` octets separated by dots. Since an octet holds digits only, the
/// first dot is the only possible split point.
pub open spec fn valid_ipv4_parts(b: Seq<u8>, parts: int) -> bool
    decreases parts,
{
    if parts <= 1 {
        valid_octet(b)
    } else {
        exists|i: int|
            #![trigger b[i]]
            0 <= i < b.len() && b[i] == 46 && valid_octet(b.take(i)) && valid_ipv4_parts(
                b.skip(i + 1),
                parts - 1,
            )
    }
}

/// A dotted-quad address literal: four octets separated by dots.
pub open spec fn valid_ipv4(b: Seq<u8>) -> bool {
    valid_ipv4_parts(b, 4)
}

fn check_octet(bytes: &Vec<u8>, from: usize, to: usize) -> (r: bool)
    requires
        from <= to <= bytes@.len(),
    ensures
        r == valid_octet(bytes@.subrange(from as int, to as int)),
{
    let ghost seg = bytes@.subrange(from as int, to as int);
    let len: usize = to - from;
    if len == 0 || len > 3 {
        return false;
    }
    if len > 1 && bytes[from] == 48 {
        assert(seg[0] == bytes@[from as int]);
        return false;
    }
    let mut acc: u32 = 0;
    let mut i: usize = from;
    while i < to
        invariant
            from <= i <= to <= bytes@.len(),
            to - from <= 3,
            seg == bytes@.subrange(from as int, to as int),
            all_digits(seg.take(i - from)),
            acc == digits_value(seg.take(i - from)),
            acc <= 999,
        decreases to - i,
    {
        let b = bytes[i];
        assert(seg[i - from] == bytes@[i as int]);
        if b < 48 || b > 57 {
            assert(!all_digits(seg));
            return false;
        }
        proof {
            lemma_digits_value_bound_small(seg.take(i - from));
            assert(seg.take(i - from + 1).drop_last() =~= seg.take(i - from));
        }
        acc = acc * 10 + (b - 48) as u32;
        i += 1;
    }
    proof {
        assert(seg.take(to - from) =~= seg);
        assert(seg[0] == bytes@[from as int]);
    }
    acc <= 255
}

fn check_ipv4(bytes: &Vec<u8>, from: usize, to: usize, parts: usize) -> (r: bool)
    requires
        from <= to <= bytes@.len(),
        1 <= parts,
    ensures
        r == valid_ipv4_parts(bytes@.subrange(from as int, to as int), parts as int),
    decreases parts,
{
    let ghost seg = bytes@.subrange(from as int, to as int);
    if parts == 1 {
        return check_octet(bytes, from, to);
    }
    let mut p: usize = to;
    let mut i: usize = from;
    while i < to
        invariant
            from <= i <= to <= bytes@.len(),
            p <= to,
            p == to ==> forall|m: int| from <= m < i ==> bytes@[m] != 46,
            p < to ==> from <= p < i && bytes@[p as int] == 46 && (forall|m: int|
                from <= m < p ==> bytes@[m] != 46),
        decreases to - i,
    {
        if p == to && bytes[i] == 46 {
            p = i;
        }
        i += 1;
    }
    if p == to {
        proof {
            assert forall|j: int| 0 <= j < seg.len() implies seg[j] != 46 by {
                assert(seg[j] == bytes@[from + j]);
            }
        }
        return false;
    }
    proof {
        // Any split point j must be the first dot: the head octet holds
        // digits only, so no dot stands inside it, and j itself is a dot.
        assert forall|j: int|
            0 <= j < seg.len() && seg[j] == 46 && valid_octet(seg.take(j)) implies j == p
            - from by {
            assert(seg[j] == bytes@[from + j]);
            if from + j > p {
                assert(seg.take(j)[p - from] == bytes@[p as int]);
            }
        }
        assert(seg.take(p - from) =~= bytes@.subrange(from as int, p as int));
        assert(seg.skip(p - from + 1) =~= bytes@.subrange(p as int + 1, to as int));
        assert(seg[p - from] == bytes@[p as int]);
    }
    if !check_octet(bytes, from, p) {
        return false;
    }
    check_ipv4(bytes, p + 1, to, parts - 1)
}

pub open spec fn hex_digit(c: u8) -> bool {
    is_digit(c) || (97 <= c <= 102) || (65 <= c <= 70)
}

/// A character that may stand inside a bracketed IPv6 host: a hex digit, a
/// colon, a dot (embedded dotted-quad form) or a percent sign (scope id).
pub open spec fn v6_char(c: u8) -> bool {
    hex_digit(c) || c == 58 || c == 46 || c == 37
}

/// The bracketed host form `[...]`: checked for its alphabet and for the two
/// colons every IPv6 text carries. The full grouping grammar is not pinned
/// here; the transport's own address parser stays the last word inside the
/// brackets, and it too treats a failure there as fatal before listening.
pub open spec fn valid_bracketed(b: Seq<u8>) -> bool {
    &&& b.len() >= 4
    &&& b[0] == 91
    &&& b[b.len() - 1] == 93
    &&& (forall|m: int| 1 <= m < b.len() - 1 ==> v6_char(#[trigger] b[m]))
    &&& (exists|x: int, y: int|
        #![trigger b[x], b[y]]
        1 <= x < y < b.len() - 1 && b[x] == 58 && b[y] == 58)
}

fn check_bracketed(bytes: &Vec<u8>, to: usize) -> (r: bool)
    requires
        to <= bytes@.len(),
    ensures
        r == valid_bracketed(bytes@.take(to as int)),
{
    let ghost seg = bytes@.take(to as int);
    if to < 4 {
        return false;
    }
    if bytes[0] != 91 {
        assert(seg[0] == bytes@[0]);
        return false;
    }
    if bytes[to - 1] != 93 {
        assert(seg[to - 1] == bytes@[to - 1]);
        return false;
    }
    let mut colons: usize = 0;
    let mut first_colon: usize = 0;
    let mut i: usize = 1;
    while i < to - 1
        invariant
            1 <= i <= to - 1,
            4 <= to <= bytes@.len(),
            seg == bytes@.take(to as int),
            forall|m: int| 1 <= m < i ==> v6_char(#[trigger] seg[m]),
            colons == 0 ==> forall|m: int| 1 <= m < i ==> seg[m] != 58,
            colons == 1 ==> 1 <= first_colon < i && seg[first_colon as int] == 58 && (forall|
                m: int,
            | 1 <= m < i && m != first_colon ==> seg[m] != 58),
            colons >= 2 ==> exists|x: int, y: int|
                #![trigger seg[x], seg[y]]
                1 <= x < y < i && seg[x] == 58 && seg[y] == 58,
        decreases to - 1 - i,
    {
        let c = bytes[i];
        assert(seg[i as int] == bytes@[i as int]);
        let is_v6_char = (48 <= c && c <= 57) || (97 <= c && c <= 102) || (65 <= c && c <= 70)
            || c == 58 || c == 46 || c == 37;
        if !is_v6_char {
            assert(!v6_char(seg[i as int]));
            return false;
        }
        if c == 58 {
            if colons == 0 {
                first_colon = i;
                colons = 1;
            } else if colons == 1 {
                colons = 2;
            }
        }
        i += 1;
    }
    proof {
        assert(seg[0] == bytes@[0]);
        assert(seg[to - 1] == bytes@[to - 1]);
    }
    if colons >= 2 {
        assert(valid_bracketed(seg));
        true
    } else {
        assert(!valid_bracketed(seg));
        false
    }
}

/// A host a socket address may carry: a dotted-quad address literal, or the
/// bracketed IPv6 form. A bare name such as `example.com` is not a socket
/// address and is rejected.
pub open spec fn valid_host_bytes(b: Seq<u8>) -> bool {
    valid_ipv4(b) || valid_bracketed(b)
}

fn check_host(bytes: &Vec<u8>, to: usize) -> (r: bool)
    requires
        to <= bytes@.len(),
    ensures
        r == valid_host_bytes(bytes@.take(to as int)),
{
    proof {
        assert(bytes@.take(to as int) =~= bytes@.subrange(0, to as int));
    }
    if check_ipv4(bytes, 0, to, 4) {
        true
    } else {
        check_bracketed(bytes, to)
    }
}

/// A byte sequence of the shape `host:port`: an address-literal host, a
/// colon, and a decimal port of at most 65535. The colon is necessarily the
/// last one, since no colon is a digit.
pub open spec fn valid_addr_bytes(b: Seq<u8>) -> bool {
    exists|i: int|
        #![trigger b[i]]
        0 < i < b.len() && b[i] == 58 && valid_host_bytes(b.take(i)) && is_digits(b.skip(i + 1))
            && digits_value(b.skip(i + 1)) <= 65535
}

/// Decides whether `addr` is of the shape `host:port` with an
/// address-literal host.
pub fn check_bind_addr(addr: &String) -> (r: bool)
    ensures
        r == valid_addr_bytes(encode_utf8(addr@)),
{
    let bytes: Vec<u8> = addr.as_str().as_bytes_vec();
    let n: usize = bytes.len();
    let mut colon: usize = 0;
    let mut found = false;
    let mut i: usize = 0;
    while i < n
        invariant
            0 <= i <= n,
            n == bytes@.len(),
            found ==> colon < i && bytes@[colon as int] == 58 && (forall|m: int|
                colon < m < i ==> bytes@[m] != 58),
            !found ==> forall|m: int| 0 <= m < i ==> bytes@[m] != 58,
        decreases n - i,
    {
        if bytes[i] == 58 {
            colon = i;
            found = true;
        }
        i += 1;
    }
    if !found {
        assert(!valid_addr_bytes(bytes@));
        return false;
    }
    if colon == 0 {
        assert(!valid_addr_bytes(bytes@));
        return false;
    }
    let host_ok = check_host(&bytes, colon);
    let port_ok = match parse_decimal(&bytes, colon + 1, 65535) {
        Some(_) => true,
        None => false,
    };
    if host_ok && port_ok {
        assert(valid_addr_bytes(bytes@));
        true
    } else {
        proof {
            assert forall|j: int|
                0 < j < n && bytes@[j] == 58 implies !(valid_host_bytes(bytes@.take(j))
                && is_digits(bytes@.skip(j + 1)) && digits_value(bytes@.skip(j + 1)) <= 65535) by {
                if j < colon {
                    assert(bytes@.skip(j + 1)[colon - j - 1] == bytes@[colon as int]);
                }
            }
        }
        false
    }
}

/// Whether a flattened configuration holds the three required keys with
/// acceptable values.
pub open spec fn config_valid(pairs: Seq<(String, String)>) -> bool {
    &&& spec_lookup(pairs, "bind_addr"@) matches Some(b) && valid_addr_bytes(encode_utf8(b))
    &&& spec_lookup(pairs, "num_threads"@) matches Some(t) && is_digits(encode_utf8(t)) && 0
        < digits_value(encode_utf8(t)) <= usize::MAX
    &&& spec_lookup(pairs, "dict_path"@) is Some
}

/// What validating a flattened configuration yields: the checks run in a
/// fixed order — `bind_addr` present, then well shaped; `num_threads`
/// present, then a positive integer that fits the machine; `dict_path`
/// present — and the first failure names the rejected key.
pub open spec fn config_outcome_matches(
    pairs: Seq<(String, String)>,
    r: Result<ServiceConfig, ConfigError>,
) -> bool {
    ({
        let bind = spec_lookup(pairs, "bind_addr"@);
        let threads = spec_lookup(pairs, "num_threads"@);
        let dict = spec_lookup(pairs, "dict_path"@);
        match r {
                Ok(c) => {
                    &&& bind == Some(c.bind_addr@)
                    &&& valid_addr_bytes(encode_utf8(c.bind_addr@))
                    &&& threads is Some
                    &&& is_digits(encode_utf8(threads->0))
                    &&& c.num_threads == digits_value(encode_utf8(threads->0))
                    &&& c.num_threads > 0
                    &&& dict == Some(c.dict_path@)
                    &&& c.wf()
                },
                Err(e) => match e {
                    ConfigError::MissingBindAddr => bind is None,
                    ConfigError::BadBindAddr => bind is Some && !valid_addr_bytes(
                        encode_utf8(bind->0),
                    ),
                    ConfigError::MissingNumThreads => bind is Some && valid_addr_bytes(
                        encode_utf8(bind->0),
                    ) && threads is None,
                    ConfigError::BadNumThreads => {
                        &&& bind is Some
                        &&& valid_addr_bytes(encode_utf8(bind->0))
                        &&& threads is Some
                        &&& !(is_digits(encode_utf8(threads->0)) && 0 < digits_value(
                            encode_utf8(threads->0),
                        ) <= usize::MAX)
                    },
                    ConfigError::MissingDictPath => {
                        &&& bind is Some
                        &&& valid_addr_bytes(encode_utf8(bind->0))
                        &&& threads is Some
                        &&& is_digits(encode_utf8(threads->0))
                        &&& 0 < digits_value(encode_utf8(threads->0)) <= usize::MAX
                        &&& dict is None
                    },
                    ConfigError::CannotReadConfig => false,
                },
            }
    })
}

/// Validates a flattened configuration, as [`config_outcome_matches`] says.
pub fn config_of(pairs: &Vec<(String, String)>) -> (r: Result<ServiceConfig, ConfigError>)
    ensures
        config_outcome_matches(pairs@, r),
{
    let bind_key = "bind_addr".to_owned();
    let threads_key = "num_threads".to_owned();
    let dict_key = "dict_path".to_owned();

    let bind_addr = match lookup(pairs, &bind_key) {
        Some(v) => v,
        None => {
            return Err(ConfigError::MissingBindAddr);
        },
    };
    if !check_bind_addr(&bind_addr) {
        return Err(ConfigError::BadBindAddr);
    }

    let threads_text = match lookup(pairs, &threads_key) {
        Some(v) => v,
        None => {
            return Err(ConfigError::MissingNumThreads);
        },
    };
    let threads_bytes: Vec<u8> = threads_text.as_str().as_bytes_vec();
    let num_threads: usize = match parse_decimal(&threads_bytes, 0, usize::MAX as u64) {
        Some(n) if n > 0 => {
            proof {
                assert(threads_bytes@.skip(0) =~= threads_bytes@);
            }
            n as usize
        },
        _ => {
            proof {
                assert(threads_bytes@.skip(0) =~= threads_bytes@);
            }
            return Err(ConfigError::BadNumThreads);
        },
    };

    let dict_path = match lookup(pairs, &dict_key) {
        Some(v) => v,
        None => {
            return Err(ConfigError::MissingDictPath);
        },
    };

    Ok(ServiceConfig { bind_addr, num_threads, dict_path })
}

} // verus!

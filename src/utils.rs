//! Duration literals, the lockfile rule, SSH host seeding and healthcheck
//! query addresses.
use vstd::prelude::*;
use crate::text::{
    ascii_digit, chars_of, contains, folds_to, includes, text_of, trim, trimmed, white,
};

verus! {

/// Why a duration literal was refused.
#[derive(Debug, Clone, Copy, PartialEq, Eq)]
pub enum DurationError {
    /// The literal does not start with a decimal digit.
    MissingValue,
    /// The number does not fit in 64 bits.
    ValueTooLarge,
    /// The suffix is none of `s`, `m`, `h`, `d` (in either case).
    UnknownUnit,
    /// The number of seconds does not fit in 64 bits.
    TooLong,
}

/// Number of leading ASCII digits of `s`.
pub open spec fn digit_run(s: Seq<char>) -> nat
    decreases s.len(),
{
    if s.len() > 0 && ascii_digit(s[0]) {
        1 + digit_run(s.drop_first())
    } else {
        0
    }
}

pub open spec fn digit_value(c: char) -> int {
    (c as int) - ('0' as int)
}

/// The number written in decimal by the digits `s`.
pub open spec fn decimal_value(s: Seq<char>) -> int
    decreases s.len(),
{
    if s.len() == 0 {
        0
    } else {
        decimal_value(s.drop_last()) * 10 + digit_value(s.last())
    }
}

/// Seconds per unit of a duration suffix; the empty suffix means seconds.
pub open spec fn unit_seconds(u: Seq<char>) -> Option<int> {
    if u.len() == 0 {
        Some(1)
    } else if u.len() == 1 && folds_to(u[0], 's') {
        Some(1)
    } else if u.len() == 1 && folds_to(u[0], 'm') {
        Some(60)
    } else if u.len() == 1 && folds_to(u[0], 'h') {
        Some(3600)
    } else if u.len() == 1 && folds_to(u[0], 'd') {
        Some(86400)
    } else {
        None
    }
}

/// The meaning of a duration literal `<uint>[s|m|h|d]`, surrounding white
/// space ignored: a number of seconds, or why it is refused.
pub open spec fn duration_of(s: Seq<char>) -> Result<u64, DurationError> {
    let t = trimmed(s);
    let d = digit_run(t) as int;
    let v = decimal_value(t.subrange(0, d));
    if d == 0 {
        Err(DurationError::MissingValue)
    } else if v > u64::MAX {
        Err(DurationError::ValueTooLarge)
    } else {
        match unit_seconds(t.subrange(d, t.len() as int)) {
            None => Err(DurationError::UnknownUnit),
            Some(f) => if v * f > u64::MAX {
                Err(DurationError::TooLong)
            } else {
                Ok((v * f) as u64)
            },
        }
    }
}

proof fn lemma_digit_run(s: Seq<char>, d: int)
    requires
        0 <= d <= s.len(),
        forall|i: int| 0 <= i < d ==> ascii_digit(#[trigger] s[i]),
        d == s.len() || !ascii_digit(s[d]),
    ensures
        digit_run(s) == d,
    decreases d,
{
    if d > 0 {
        let t = s.drop_first();
        assert forall|i: int| 0 <= i < d - 1 implies ascii_digit(#[trigger] t[i]) by {
            assert(ascii_digit(s[i + 1]));
        }
        lemma_digit_run(t, d - 1);
    }
}

pub(crate) proof fn lemma_decimal_monotone(s: Seq<char>, j: int, k: int)
    requires
        0 <= j <= k <= s.len(),
        forall|i: int| 0 <= i < k ==> ascii_digit(#[trigger] s[i]),
    ensures
        decimal_value(s.subrange(0, j)) <= decimal_value(s.subrange(0, k)),
        0 <= decimal_value(s.subrange(0, j)),
    decreases k,
{
    if k > 0 {
        if j < k {
            lemma_decimal_monotone(s, j, k - 1);
        } else {
            lemma_decimal_monotone(s, j - 1, k - 1);
        }
        assert(s.subrange(0, k).drop_last() =~= s.subrange(0, k - 1));
        assert(ascii_digit(s[k - 1]));
    }
    if j > 0 {
        assert(s.subrange(0, j).drop_last() =~= s.subrange(0, j - 1));
    }
}

fn unit_factor(u: &[char]) -> (r: Option<u64>)
    ensures
        match unit_seconds(u@) {
            Some(f) => r == Some(f as u64),
            None => r is None,
        },
{
    if u.len() == 0 {
        return Some(1);
    }
    if u.len() != 1 {
        return None;
    }
    let c = u[0];
    if c == 's' || c == 'S' {
        Some(1)
    } else if c == 'm' || c == 'M' {
        Some(60)
    } else if c == 'h' || c == 'H' {
        Some(3600)
    } else if c == 'd' || c == 'D' {
        Some(86400)
    } else {
        None
    }
}

/// Reads a duration literal such as `"30"`, `"30s"`, `"5m"`, `"2h"` or `"1d"`
/// and returns its length in seconds; a bare number is seconds.
pub fn parse_duration(duration_str: &str) -> (r: Result<u64, DurationError>)
    ensures
        r == duration_of(duration_str@),
{
    let all = chars_of(duration_str);
    let t = trim(all.as_slice());
    let n = t.len();
    let mut d: usize = 0;
    let mut value: u128 = 0;
    while d < n && '0' <= t[d] && t[d] <= '9'
        invariant
            d <= n,
            n == t@.len(),
            t@ == trimmed(duration_str@),
            forall|i: int| 0 <= i < d ==> ascii_digit(#[trigger] t@[i]),
            value == decimal_value(t@.subrange(0, d as int)),
            value <= u64::MAX,
        decreases n - d,
    {
        let ghost before = t@.subrange(0, d as int);
        proof {
            assert(t@.subrange(0, d + 1).drop_last() =~= before);
        }
        let next = value * 10 + (t[d] as u32 - '0' as u32) as u128;
        if next > u64::MAX as u128 {
            let ghost prefix_end = d + 1;
            let mut e: usize = d + 1;
            while e < n && '0' <= t[e] && t[e] <= '9'
                invariant
                    d < e <= n,
                    n == t@.len(),
                    t@ == trimmed(duration_str@),
                    forall|i: int| 0 <= i < e ==> ascii_digit(#[trigger] t@[i]),
                decreases n - e,
            {
                e += 1;
            }
            proof {
                lemma_digit_run(t@, e as int);
                lemma_decimal_monotone(t@, d + 1, e as int);
                assert(decimal_value(t@.subrange(0, d + 1)) == next);
                assert(digit_run(t@) != 0);
            }
            return Err(DurationError::ValueTooLarge);
        }
        value = next;
        d += 1;
    }
    proof {
        lemma_digit_run(t@, d as int);
    }
    if d == 0 {
        return Err(DurationError::MissingValue);
    }
    let unit = &t.as_slice()[d..n];
    proof {
        assert(unit@ =~= t@.subrange(d as int, n as int));
    }
    match unit_factor(unit) {
        None => Err(DurationError::UnknownUnit),
        Some(f) => match (value as u64).checked_mul(f) {
            None => Err(DurationError::TooLong),
            Some(secs) => Ok(secs),
        },
    }
}

pub open spec fn all_digits(b: Seq<char>) -> bool {
    forall|i: int| 0 <= i < b.len() ==> ascii_digit(#[trigger] b[i])
}

/// What integer parsing reads after an optional leading `+`.
pub open spec fn unsigned_body(s: Seq<char>) -> Seq<char> {
    if s.len() > 0 && s[0] == '+' {
        s.drop_first()
    } else {
        s
    }
}

/// The number that `s` writes in decimal, with an optional leading `+`, as
/// integer parsing reads it; `None` when `s` is no such number.
pub open spec fn decimal_of(s: Seq<char>) -> Option<int> {
    let body = unsigned_body(s);
    if body.len() == 0 || !all_digits(body) {
        None
    } else {
        Some(decimal_value(body))
    }
}

/// Reads a decimal number no larger than `max`; `None` when the text is not a
/// number or the number is larger.
pub fn parse_decimal(s: &str, max: u64) -> (r: Option<u64>)
    ensures
        match decimal_of(s@) {
            Some(v) => if v <= max {
                r is Some && r->Some_0 as int == v
            } else {
                r is None
            },
            None => r is None,
        },
{
    let cs = chars_of(s);
    let start: usize = if cs.len() > 0 && cs[0] == '+' {
        1
    } else {
        0
    };
    let n = cs.len();
    let ghost body = cs@.subrange(start as int, n as int);
    proof {
        if start == 1 {
            assert(body =~= s@.drop_first());
        } else {
            assert(body =~= s@);
        }
    }
    if start == n {
        return None;
    }
    let mut i: usize = start;
    let mut value: u128 = 0;
    while i < n
        invariant
            start <= i <= n,
            n == cs@.len(),
            body == cs@.subrange(start as int, n as int),
            body == unsigned_body(s@),
            forall|k: int| 0 <= k < i - start ==> ascii_digit(#[trigger] body[k]),
            value == decimal_value(body.subrange(0, i - start)),
            value <= max,
        decreases n - i,
    {
        let c = cs[i];
        if !('0' <= c && c <= '9') {
            proof {
                assert(!ascii_digit(body[i - start]));
                assert(!all_digits(body));
            }
            return None;
        }
        proof {
            assert(body.subrange(0, i - start + 1).drop_last() =~= body.subrange(0, i - start));
        }
        let next = value * 10 + (c as u32 - '0' as u32) as u128;
        if next > max as u128 {
            assert(decimal_value(body.subrange(0, i - start + 1)) > max);
            let mut e: usize = i + 1;
            while e < n
                invariant
                    start <= i < e <= n,
                    n == cs@.len(),
                    body == cs@.subrange(start as int, n as int),
                    body == unsigned_body(s@),
                    value <= max,
                    decimal_value(body.subrange(0, i - start + 1)) > max,
                    forall|k: int| 0 <= k < e - start ==> ascii_digit(#[trigger] body[k]),
                decreases n - e,
            {
                if !('0' <= cs[e] && cs[e] <= '9') {
                    proof {
                        assert(!ascii_digit(body[e - start]));
                        assert(!all_digits(body));
                    }
                    return None;
                }
                e += 1;
            }
            proof {
                lemma_decimal_monotone(body, i - start + 1, body.len() as int);
                assert(body.subrange(0, body.len() as int) =~= body);
            }
            return None;
        }
        value = next;
        i += 1;
    }
    proof {
        assert(body.subrange(0, body.len() as int) =~= body);
    }
    Some(value as u64)
}

/// The decimal digits of `n`, most significant first, without leading zeros.
pub open spec fn digits_of(n: nat) -> Seq<char>
    decreases n,
{
    if n < 10 {
        seq![char_of_digit(n)]
    } else {
        digits_of(n / 10).push(char_of_digit(n % 10))
    }
}

pub open spec fn char_of_digit(d: nat) -> char {
    if d == 0 { '0' } else if d == 1 { '1' } else if d == 2 { '2' } else if d == 3 { '3' }
    else if d == 4 { '4' } else if d == 5 { '5' } else if d == 6 { '6' } else if d == 7 { '7' }
    else if d == 8 { '8' } else { '9' }
}

proof fn lemma_char_of_digit(d: nat)
    requires
        d < 10,
    ensures
        digit_value(char_of_digit(d)) == d,
        ascii_digit(char_of_digit(d)),
{
    if d == 0 {
    } else if d == 1 {
    } else if d == 2 {
    } else if d == 3 {
    } else if d == 4 {
    } else if d == 5 {
    } else if d == 6 {
    } else if d == 7 {
    } else if d == 8 {
    } else {
    }
}

proof fn lemma_digits_value(n: nat)
    ensures
        decimal_value(digits_of(n)) == n,
        all_digits(digits_of(n)),
        digits_of(n).len() > 0,
    decreases n,
{
    if n < 10 {
        lemma_char_of_digit(n);
        assert(seq![char_of_digit(n)].drop_last() =~= Seq::<char>::empty());
        assert(decimal_value(Seq::<char>::empty()) == 0);
        assert(decimal_value(digits_of(n)) == decimal_value(Seq::<char>::empty()) * 10 + digit_value(char_of_digit(n)));
    } else {
        lemma_char_of_digit(n % 10);
        lemma_digits_value(n / 10);
        let d = digits_of(n);
        assert(d.drop_last() =~= digits_of(n / 10));
        assert((n / 10) * 10 + n % 10 == n) by (nonlinear_arith);
        assert(d.last() == char_of_digit(n % 10));
        assert(decimal_value(d) == decimal_value(d.drop_last()) * 10 + digit_value(d.last()));
        assert forall|i: int| 0 <= i < d.len() implies ascii_digit(#[trigger] d[i]) by {
            if i < d.len() - 1 {
                assert(d[i] == digits_of(n / 10)[i]);
            }
        }
    }
}

fn digit_char(d: u64) -> (c: char)
    requires
        d < 10,
    ensures
        c == char_of_digit(d as nat),
{
    if d == 0 { '0' } else if d == 1 { '1' } else if d == 2 { '2' } else if d == 3 { '3' }
    else if d == 4 { '4' } else if d == 5 { '5' } else if d == 6 { '6' } else if d == 7 { '7' }
    else if d == 8 { '8' } else { '9' }
}

fn push_digits(n: u64, out: &mut Vec<char>)
    ensures
        final(out)@ == old(out)@ + digits_of(n as nat),
    decreases n,
{
    if n >= 10 {
        push_digits(n / 10, out);
    }
    let ghost before = out@;
    out.push(digit_char(n % 10));
    proof {
        if n >= 10 {
            assert(out@ =~= old(out)@ + digits_of(n as nat));
        } else {
            assert(out@ =~= old(out)@ + digits_of(n as nat));
        }
    }
}

/// `n` in decimal.
pub fn decimal_text(n: u64) -> (r: String)
    ensures
        r@ == digits_of(n as nat),
        decimal_value(r@) == n,
        all_digits(r@),
{
    let mut out: Vec<char> = Vec::new();
    push_digits(n, &mut out);
    proof {
        lemma_digits_value(n as nat);
        assert(out@ =~= digits_of(n as nat));
    }
    text_of(out.as_slice())
}

/// What to do about the lockfile at startup.
#[derive(Debug, Clone, Copy, PartialEq, Eq, Structural)]
pub enum LockDecision {
    /// No lockfile: create it.
    Acquire,
    /// A lockfile whose process is gone, or that records no process: replace it.
    ReplaceStale,
    /// A live process holds the lock: refuse to start.
    Refuse(u32),
}

/// The process id a lockfile records: its text, trimmed, in decimal.
pub open spec fn recorded_pid_of(content: Seq<char>) -> Option<u32> {
    match decimal_of(trimmed(content)) {
        Some(v) => if v <= u32::MAX {
            Some(v as u32)
        } else {
            None
        },
        None => None,
    }
}

/// The process id a lockfile records, if it records one.
pub fn recorded_pid(content: &str) -> (r: Option<u32>)
    ensures
        r == recorded_pid_of(content@),
{
    let t = text_of(trim(chars_of(content).as_slice()).as_slice());
    match parse_decimal(t.as_str(), u32::MAX as u64) {
        Some(v) => Some(v as u32),
        None => None,
    }
}

/// The lockfile rule: refuse when a lockfile records a live process;
/// otherwise take the lock, replacing a stale lockfile.
pub open spec fn lock_rule(present: bool, recorded: Option<u32>, alive: bool) -> LockDecision {
    if !present {
        LockDecision::Acquire
    } else {
        match recorded {
            Some(pid) => if alive {
                LockDecision::Refuse(pid)
            } else {
                LockDecision::ReplaceStale
            },
            None => LockDecision::ReplaceStale,
        }
    }
}

/// What to do about the lockfile at startup, given whether one is present,
/// the process id it records, and whether that process is alive.
pub fn lock_decision(present: bool, recorded: Option<u32>, alive: bool) -> (r: LockDecision)
    ensures
        r == lock_rule(present, recorded, alive),
{
    if !present {
        LockDecision::Acquire
    } else {
        match recorded {
            Some(pid) => if alive {
                LockDecision::Refuse(pid)
            } else {
                LockDecision::ReplaceStale
            },
            None => LockDecision::ReplaceStale,
        }
    }
}

/// The text a lockfile holds for a process: its id in decimal and a line break.
pub open spec fn lockfile_text(pid: u32) -> Seq<char> {
    digits_of(pid as nat) + "\n"@
}

/// What a lockfile holds: the process id in decimal and a line break.
pub fn lockfile_content(pid: u32) -> (r: String)
    ensures
        r@ == lockfile_text(pid),
{
    let digits = decimal_text(pid as u64);
    digits.concat("\n")
}

/// A lockfile names the process that wrote it: while that process lives, a
/// second start is refused; once it is gone, the lockfile counts as stale
/// and is replaced.
pub proof fn lemma_lockfile_held_while_alive(pid: u32)
    ensures
        recorded_pid_of(lockfile_text(pid)) == Some(pid),
        lock_rule(true, recorded_pid_of(lockfile_text(pid)), true) == LockDecision::Refuse(pid),
        lock_rule(true, recorded_pid_of(lockfile_text(pid)), false) == LockDecision::ReplaceStale,
{
    let d = digits_of(pid as nat);
    reveal_strlit("\n");
    lemma_digits_value(pid as nat);
    assert(lockfile_text(pid) =~= d + seq!['\n']);
    lemma_trim_digits(d);
    assert(unsigned_body(d) == d) by {
        if d[0] == '+' {
            assert(ascii_digit(d[0]));
        }
    }
}

proof fn lemma_trim_digits(d: Seq<char>)
    requires
        d.len() > 0,
        all_digits(d),
    ensures
        trimmed(d + seq!['\n']) == d,
{
    let s = d + seq!['\n'];
    assert(!white(s[0])) by {
        assert(ascii_digit(d[0]));
    }
    crate::text::lemma_trim_front(s, 0);
    assert(s.subrange(0, s.len() as int) =~= s);
    crate::text::lemma_trim_back(s, d.len() as int);
    assert(s.subrange(0, d.len() as int) =~= d);
    assert(!white(s[d.len() - 1])) by {
        assert(ascii_digit(d[d.len() - 1]));
    }
}

/// The hosts whose keys are seeded into `known_hosts`.
pub fn known_git_hosts() -> (r: Vec<String>)
    ensures
        crate::text::views(r@) == seq!["github.com"@, "gitlab.com"@, "bitbucket.org"@, "azure.com"@],
{
    let mut r: Vec<String> = Vec::new();
    r.push(String::from_str("github.com"));
    r.push(String::from_str("gitlab.com"));
    r.push(String::from_str("bitbucket.org"));
    r.push(String::from_str("azure.com"));
    assert(crate::text::views(r@) =~= seq!["github.com"@, "gitlab.com"@, "bitbucket.org"@, "azure.com"@]);
    r
}

/// A host's key is fetched unless `known_hosts` mentions the host already.
pub fn needs_host_key(known_hosts: &Option<String>, host: &str) -> (r: bool)
    ensures
        r == match known_hosts {
            Some(k) => !contains(k@, host@),
            None => true,
        },
{
    match known_hosts {
        Some(k) => !includes(chars_of(k.as_str()).as_slice(), chars_of(host).as_slice()),
        None => true,
    }
}

/// A private key is usable when it is more than white space.
pub fn ssh_key_usable(key: &str) -> (r: bool)
    ensures
        r == (trimmed(key@).len() > 0),
{
    trim(chars_of(key).as_slice()).len() > 0
}

/// Where a healthcheck ping goes: nowhere for an empty address, else the
/// address itself, or the address with `/fail` for a failure.
pub fn healthcheck_endpoint(url: &str, is_error: bool) -> (r: Option<String>)
    ensures
        url@.len() == 0 ==> r is None,
        url@.len() > 0 && !is_error ==> r is Some && r->Some_0@ == url@,
        url@.len() > 0 && is_error ==> r is Some && r->Some_0@ == url@ + "/fail"@,
{
    if url.unicode_len() == 0 {
        None
    } else if is_error {
        Some(String::from_str(url).concat("/fail"))
    } else {
        Some(String::from_str(url))
    }
}

/// What `urlencoding::encode` makes of a text.
pub uninterp spec fn percent_encoded(s: Seq<char>) -> Seq<char>;

/// Whether `url::Url::parse` accepts a text as an absolute URL.
pub uninterp spec fn parses_as_url(s: Seq<char>) -> bool;

/// Relies on `urlencoding::encode`: the text with every byte but ASCII
/// letters, digits and `-_.~` percent-encoded; the result depends on the text
/// alone.
#[verifier::external_body]
fn url_encode(s: &str) -> (r: String)
    ensures
        r@ == percent_encoded(s@),
{
    urlencoding::encode(s).into_owned()
}

/// Relies on `url::Url::parse`: whether the text parses as an absolute URL;
/// the answer depends on the text alone.
#[verifier::external_body]
fn url_parses(s: &str) -> (r: bool)
    ensures
        r == parses_as_url(s@),
{
    url::Url::parse(s).is_ok()
}

/// Why a query-style notification address could not be made.
#[derive(Debug, Clone, Copy, PartialEq, Eq, Structural)]
pub enum NotifyError {
    InvalidUrl,
}

/// The query address of a notification given the encoded message: the
/// address, then `?status=fail&msg=` for a failure or `?msg=` otherwise,
/// then the message.
pub fn notification_query(url: &str, encoded_message: &str, is_error: bool) -> (r: String)
    ensures
        is_error ==> r@ == url@ + "?status=fail&msg="@ + encoded_message@,
        !is_error ==> r@ == url@ + "?msg="@ + encoded_message@,
{
    if is_error {
        String::from_str(url).concat("?status=fail&msg=").concat(encoded_message)
    } else {
        String::from_str(url).concat("?msg=").concat(encoded_message)
    }
}

/// The query-style notification address for a message; refused when the
/// address is no URL.
pub fn notify_healthcheck(url: &str, message: &str, is_error: bool) -> (r: Result<
    String,
    NotifyError,
>)
    ensures
        !parses_as_url(url@) ==> r == Err::<String, NotifyError>(NotifyError::InvalidUrl),
        parses_as_url(url@) && is_error ==> r is Ok && r->Ok_0@ == url@ + "?status=fail&msg="@
            + percent_encoded(message@),
        parses_as_url(url@) && !is_error ==> r is Ok && r->Ok_0@ == url@ + "?msg="@
            + percent_encoded(message@),
{
    if !url_parses(url) {
        return Err(NotifyError::InvalidUrl);
    }
    let encoded = url_encode(message);
    Ok(notification_query(url, encoded.as_str(), is_error))
}

} // verus!

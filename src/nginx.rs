//! Nginx service policy: the simplified settings, configuration rewriting and
//! log scanning.
use vstd::prelude::*;
use vstd::string::*;
use crate::config::{ConfigError, GlobalSettings, Permissions, ServiceConfig, ServiceType, SettingValue};
use crate::docker::SHOWN_ERROR_LINES;
use crate::text::{
    chars_of, contains, contains_folded, ends_with, includes, has_folded, is_white, lines_of, matches_at,
    occurs_at, same_chars, split_lines, starts_with, text_of, trim, trimmed, views, white,
};

verus! {

/// The settings that restarting and observing an Nginx container read.
#[derive(Debug, Clone)]
pub struct Config {
    pub nginx_container_name: String,
    pub compose_dir: String,
    pub compose_file: String,
    pub use_docker_compose: bool,
    pub disable_restart: bool,
    pub monitor_logs: bool,
    pub log_tail_lines: u32,
    pub force_rebuild: Option<bool>,
}

} // verus!

verus! {

/// The lines of a log that mention an error, in any ASCII case.
pub open spec fn error_lines(ls: Seq<Seq<char>>) -> Seq<Seq<char>>
    decreases ls.len(),
{
    if ls.len() == 0 {
        Seq::empty()
    } else if contains_folded(ls.last(), "error"@) {
        error_lines(ls.drop_last()).push(ls.last())
    } else {
        error_lines(ls.drop_last())
    }
}

/// How many of the lines mention `403`.
pub open spec fn forbidden_count(ls: Seq<Seq<char>>) -> nat
    decreases ls.len(),
{
    if ls.len() == 0 {
        0
    } else if contains(ls.last(), "403"@) {
        forbidden_count(ls.drop_last()) + 1
    } else {
        forbidden_count(ls.drop_last())
    }
}

/// A line that nginx's own error log marks as serious.
pub open spec fn is_severe(l: Seq<char>) -> bool {
    contains(l, "error"@) || contains(l, "critical"@) || contains(l, "alert"@) || contains(
        l,
        "emerg"@,
    )
}

pub open spec fn severe_lines_of(ls: Seq<Seq<char>>) -> Seq<Seq<char>>
    decreases ls.len(),
{
    if ls.len() == 0 {
        Seq::empty()
    } else if is_severe(ls.last()) {
        severe_lines_of(ls.drop_last()).push(ls.last())
    } else {
        severe_lines_of(ls.drop_last())
    }
}

/// What a scan of a container's log found.
#[derive(Debug, Clone)]
pub struct LogScan {
    /// The lines that mention an error, in order.
    pub error_lines: Vec<String>,
    /// How many of those mention `403`.
    pub forbidden_count: usize,
}

/// Scans a log: the lines that mention `error` in any case, and how many of
/// them mention `403`.
pub fn scan_logs(logs: &str) -> (r: LogScan)
    ensures
        views(r.error_lines@) == error_lines(lines_of(logs@)),
        r.forbidden_count == forbidden_count(error_lines(lines_of(logs@))),
{
    let lines = split_lines(chars_of(logs).as_slice());
    let ghost ls = lines@.map_values(|l: Vec<char>| l@);
    let error = chars_of("error");
    let forbidden = chars_of("403");
    let mut found: Vec<String> = Vec::new();
    let mut count: usize = 0;
    let mut i: usize = 0;
    while i < lines.len()
        invariant
            i <= lines@.len(),
            ls == lines@.map_values(|l: Vec<char>| l@),
            ls == lines_of(logs@),
            error@ == "error"@,
            forbidden@ == "403"@,
            views(found@) == error_lines(ls.subrange(0, i as int)),
            count == forbidden_count(error_lines(ls.subrange(0, i as int))),
            count <= i,
        decreases lines@.len() - i,
    {
        proof {
            assert(ls.subrange(0, i + 1).drop_last() =~= ls.subrange(0, i as int));
            assert(ls.subrange(0, i + 1).last() == ls[i as int]);
        }
        let line = &lines[i];
        if has_folded(line.as_slice(), error.as_slice()) {
            let ghost before = error_lines(ls.subrange(0, i as int));
            found.push(text_of(line.as_slice()));
            proof {
                assert(views(found@) =~= before.push(ls[i as int]));
                assert(before.push(ls[i as int]).drop_last() =~= before);
            }
            if includes(line.as_slice(), forbidden.as_slice()) {
                count += 1;
            }
        }
        i += 1;
    }
    assert(ls.subrange(0, i as int) =~= ls);
    LogScan { error_lines: found, forbidden_count: count }
}

impl LogScan {
    /// A warning is due exactly when some line mentions an error.
    pub fn warns(&self) -> (r: bool)
        ensures
            r == (self.error_lines@.len() > 0),
    {
        self.error_lines.len() > 0
    }

    /// The `403` count is reported exactly when it is not zero.
    pub fn reports_forbidden(&self) -> (r: bool)
        ensures
            r == (self.forbidden_count > 0),
    {
        self.forbidden_count > 0
    }

    /// The first few error lines, the ones a warning shows.
    pub fn shown(&self) -> (r: Vec<String>)
        ensures
            r@ == self.error_lines@.subrange(
                0,
                if self.error_lines@.len() < SHOWN_ERROR_LINES {
                    self.error_lines@.len() as int
                } else {
                    SHOWN_ERROR_LINES as int
                },
            ),
    {
        let n = if self.error_lines.len() < SHOWN_ERROR_LINES {
            self.error_lines.len()
        } else {
            SHOWN_ERROR_LINES
        };
        let mut r: Vec<String> = Vec::new();
        let mut i: usize = 0;
        while i < n
            invariant
                i <= n <= self.error_lines@.len(),
                r@ == self.error_lines@.subrange(0, i as int),
            decreases n - i,
        {
            r.push(self.error_lines[i].clone());
            i += 1;
            assert(r@ =~= self.error_lines@.subrange(0, i as int));
        }
        r
    }
}

/// The lines of nginx's error log that mention `error`, `critical`, `alert`
/// or `emerg`.
pub fn severe_lines(log: &str) -> (r: Vec<String>)
    ensures
        views(r@) == severe_lines_of(lines_of(log@)),
{
    let lines = split_lines(chars_of(log).as_slice());
    let ghost ls = lines@.map_values(|l: Vec<char>| l@);
    let words: [Vec<char>; 4] = [
        chars_of("error"),
        chars_of("critical"),
        chars_of("alert"),
        chars_of("emerg"),
    ];
    let mut found: Vec<String> = Vec::new();
    let mut i: usize = 0;
    while i < lines.len()
        invariant
            i <= lines@.len(),
            ls == lines@.map_values(|l: Vec<char>| l@),
            ls == lines_of(log@),
            words[0]@ == "error"@,
            words[1]@ == "critical"@,
            words[2]@ == "alert"@,
            words[3]@ == "emerg"@,
            views(found@) == severe_lines_of(ls.subrange(0, i as int)),
        decreases lines@.len() - i,
    {
        proof {
            assert(ls.subrange(0, i + 1).drop_last() =~= ls.subrange(0, i as int));
            assert(ls.subrange(0, i + 1).last() == ls[i as int]);
        }
        let line = lines[i].as_slice();
        if includes(line, words[0].as_slice()) || includes(line, words[1].as_slice()) || includes(
            line,
            words[2].as_slice(),
        ) || includes(line, words[3].as_slice()) {
            let ghost before = severe_lines_of(ls.subrange(0, i as int));
            found.push(text_of(line));
            proof {
                assert(views(found@) =~= before.push(ls[i as int]));
            }
        }
        i += 1;
    }
    assert(ls.subrange(0, i as int) =~= ls);
    found
}

} // verus!

verus! {

/// `s` with every occurrence of `from`, left to right, replaced by `to`.
pub open spec fn replaced(s: Seq<char>, from: Seq<char>, to: Seq<char>) -> Seq<char>
    decreases s.len(),
{
    if from.len() == 0 || s.len() == 0 {
        s
    } else if starts_with(s, from) {
        to + replaced(s.subrange(from.len() as int, s.len() as int), from, to)
    } else {
        seq![s[0]] + replaced(s.drop_first(), from, to)
    }
}

fn replace_all(s: &[char], from: &[char], to: &[char]) -> (r: Vec<char>)
    requires
        from@.len() > 0,
    ensures
        r@ == replaced(s@, from@, to@),
{
    let n = s.len();
    let mut out: Vec<char> = Vec::new();
    let mut i: usize = 0;
    assert(s@.subrange(0, n as int) =~= s@);
    assert(out@ + replaced(s@, from@, to@) =~= replaced(s@, from@, to@));
    while i < n
        invariant
            i <= n,
            n == s@.len(),
            from@.len() > 0,
            out@ + replaced(s@.subrange(i as int, n as int), from@, to@) == replaced(s@, from@, to@),
        decreases n - i,
    {
        let ghost rest = s@.subrange(i as int, n as int);
        if matches_at(s, from, i) {
            proof {
                assert(rest.subrange(0, from@.len() as int) =~= s@.subrange(
                    i as int,
                    i + from@.len(),
                ));
                assert(rest.subrange(from@.len() as int, rest.len() as int) =~= s@.subrange(
                    i + from@.len(),
                    n as int,
                ));
            }
            let ghost before = out@;
            let mut k: usize = 0;
            while k < to.len()
                invariant
                    k <= to@.len(),
                    out@ == before + to@.subrange(0, k as int),
                decreases to@.len() - k,
            {
                out.push(to[k]);
                k += 1;
                assert(out@ =~= before + to@.subrange(0, k as int));
            }
            proof {
                assert(to@.subrange(0, to@.len() as int) =~= to@);
                assert(before + (to@ + replaced(
                    s@.subrange(i + from@.len(), n as int),
                    from@,
                    to@,
                )) =~= out@ + replaced(s@.subrange(i + from@.len(), n as int), from@, to@));
            }
            i = i + from.len();
        } else {
            proof {
                if rest.len() >= from@.len() {
                    assert(rest.subrange(0, from@.len() as int) =~= s@.subrange(
                        i as int,
                        i + from@.len(),
                    ));
                }
                assert(rest.drop_first() =~= s@.subrange(i + 1, n as int));
            }
            let ghost before = out@;
            out.push(s[i]);
            proof {
                assert(before + (seq![s@[i as int]] + replaced(
                    s@.subrange(i + 1, n as int),
                    from@,
                    to@,
                )) =~= out@ + replaced(s@.subrange(i + 1, n as int), from@, to@));
            }
            i = i + 1;
        }
    }
    proof {
        assert(s@.subrange(n as int, n as int) =~= Seq::<char>::empty());
        assert(out@ + Seq::<char>::empty() =~= out@);
    }
    out
}

/// A configuration with directory listing switched on: every
/// `autoindex off;` becomes `autoindex on;`.
pub fn enable_autoindex(content: &str) -> (r: String)
    ensures
        r@ == replaced(content@, "autoindex off;"@, "autoindex on;"@),
{
    let from = chars_of("autoindex off;");
    let to = chars_of("autoindex on;");
    proof {
        reveal_strlit("autoindex off;");
    }
    let out = replace_all(chars_of(content).as_slice(), from.as_slice(), to.as_slice());
    text_of(out.as_slice())
}

/// The end of the run of white space that starts at `k`.
pub open spec fn white_end(s: Seq<char>, k: int) -> int
    decreases s.len() - k,
{
    if 0 <= k < s.len() && white(s[k]) {
        white_end(s, k + 1)
    } else {
        k
    }
}

/// The first `;` at or after `k`, or the end of `s`.
pub open spec fn semicolon_at_or_after(s: Seq<char>, k: int) -> int
    decreases s.len() - k,
{
    if k < 0 || k >= s.len() {
        s.len() as int
    } else if s[k] == ';' {
        k
    } else {
        semicolon_at_or_after(s, k + 1)
    }
}

/// A `root` directive starts at `i`: the word, then white space.
pub open spec fn root_at(s: Seq<char>, i: int) -> bool {
    occurs_at(s, "root"@, i) && i + 4 < s.len() && white(s[i + 4])
}

/// The arguments of the `root` directives from index `i` on: after `root` and
/// white space, everything up to the next `;` (or the end); the scan goes on
/// from that `;`.
pub open spec fn root_args_from(s: Seq<char>, i: int) -> Seq<Seq<char>>
    decreases s.len() - i,
{
    if i < 0 || i >= s.len() {
        Seq::empty()
    } else if root_at(s, i) {
        let k = white_end(s, i + 4);
        let e = semicolon_at_or_after(s, k);
        if e <= i || k > e || e > s.len() {
            Seq::empty()
        } else {
            seq![s.subrange(k, e)] + root_args_from(s, e)
        }
    } else {
        root_args_from(s, i + 1)
    }
}

/// The directories that need an index file: each `root` argument, trimmed,
/// unless it is empty or refers to a variable (`$`).
pub open spec fn index_roots_of(args: Seq<Seq<char>>) -> Seq<Seq<char>>
    decreases args.len(),
{
    if args.len() == 0 {
        Seq::empty()
    } else {
        let t = trimmed(args.last());
        if t.len() > 0 && !contains(t, "$"@) {
            index_roots_of(args.drop_last()).push(t)
        } else {
            index_roots_of(args.drop_last())
        }
    }
}

proof fn lemma_white_end(s: Seq<char>, k: int, m: int)
    requires
        0 <= k <= m <= s.len(),
        forall|j: int| k <= j < m ==> white(#[trigger] s[j]),
        m == s.len() || !white(s[m]),
    ensures
        white_end(s, k) == m,
    decreases m - k,
{
    if k < m {
        lemma_white_end(s, k + 1, m);
    }
}

proof fn lemma_semicolon(s: Seq<char>, k: int, m: int)
    requires
        0 <= k <= m <= s.len(),
        forall|j: int| k <= j < m ==> s[j] != ';',
        m == s.len() || s[m] == ';',
    ensures
        semicolon_at_or_after(s, k) == m,
    decreases m - k,
{
    if k < m {
        lemma_semicolon(s, k + 1, m);
    }
}

fn root_arguments(s: &[char]) -> (r: Vec<Vec<char>>)
    ensures
        r@.map_values(|a: Vec<char>| a@) == root_args_from(s@, 0),
{
    let word = chars_of("root");
    proof {
        reveal_strlit("root");
    }
    let n = s.len();
    let mut r: Vec<Vec<char>> = Vec::new();
    let mut i: usize = 0;
    while i < n
        invariant
            i <= n,
            n == s@.len(),
            word@ == "root"@,
            word@.len() == 4,
            r@.map_values(|a: Vec<char>| a@) + root_args_from(s@, i as int) == root_args_from(s@, 0),
        decreases n - i,
    {
        if matches_at(s, word.as_slice(), i) && i + 4 < n && is_white(s[i + 4]) {
            let mut k: usize = i + 4;
            while k < n && is_white(s[k])
                invariant
                    i + 4 <= k <= n,
                    n == s@.len(),
                    forall|j: int| i + 4 <= j < k ==> white(#[trigger] s@[j]),
                decreases n - k,
            {
                k += 1;
            }
            let mut e: usize = k;
            while e < n && s[e] != ';'
                invariant
                    k <= e <= n,
                    n == s@.len(),
                    forall|j: int| k <= j < e ==> s@[j] != ';',
                decreases n - e,
            {
                e += 1;
            }
            proof {
                lemma_white_end(s@, i + 4, k as int);
                lemma_semicolon(s@, k as int, e as int);
            }
            let mut arg: Vec<char> = Vec::new();
            let mut j: usize = k;
            while j < e
                invariant
                    k <= j <= e <= n,
                    n == s@.len(),
                    arg@ == s@.subrange(k as int, j as int),
                decreases e - j,
            {
                arg.push(s[j]);
                j += 1;
                assert(arg@ =~= s@.subrange(k as int, j as int));
            }
            let ghost before = r@.map_values(|a: Vec<char>| a@);
            r.push(arg);
            proof {
                assert(r@.map_values(|a: Vec<char>| a@) =~= before.push(s@.subrange(k as int, e as int)));
                assert(before.push(s@.subrange(k as int, e as int)) + root_args_from(s@, e as int)
                    =~= before + root_args_from(s@, i as int));
            }
            i = e;
        } else {
            i += 1;
        }
    }
    proof {
        assert(r@.map_values(|a: Vec<char>| a@) + root_args_from(s@, i as int) =~= r@.map_values(
            |a: Vec<char>| a@,
        ));
    }
    r
}

/// The directories named by the `root` directives of a configuration that
/// need an index file: trimmed, non-empty, and free of `$` variables.
pub fn index_roots(content: &str) -> (r: Vec<String>)
    ensures
        views(r@) == index_roots_of(root_args_from(content@, 0)),
{
    let args = root_arguments(chars_of(content).as_slice());
    let ghost a = args@.map_values(|x: Vec<char>| x@);
    let dollar = chars_of("$");
    let mut r: Vec<String> = Vec::new();
    let mut i: usize = 0;
    while i < args.len()
        invariant
            i <= args@.len(),
            a == args@.map_values(|x: Vec<char>| x@),
            a == root_args_from(content@, 0),
            dollar@ == "$"@,
            views(r@) == index_roots_of(a.subrange(0, i as int)),
        decreases args@.len() - i,
    {
        proof {
            assert(a.subrange(0, i + 1).drop_last() =~= a.subrange(0, i as int));
            assert(a.subrange(0, i + 1).last() == a[i as int]);
        }
        let t = trim(args[i].as_slice());
        if t.len() > 0 && !includes(t.as_slice(), dollar.as_slice()) {
            let ghost before = views(r@);
            r.push(text_of(t.as_slice()));
            proof {
                assert(views(r@) =~= before.push(t@));
            }
        }
        i += 1;
    }
    assert(a.subrange(0, i as int) =~= a);
    r
}

/// Some entry of a directory is an index file (its name starts with `index.`).
pub fn has_index(entry_names: &Vec<String>) -> (r: bool)
    ensures
        r == exists|i: int|
            0 <= i < entry_names@.len() && starts_with(#[trigger] entry_names@[i]@, "index."@),
{
    let prefix = chars_of("index.");
    let mut i: usize = 0;
    while i < entry_names.len()
        invariant
            i <= entry_names@.len(),
            prefix@ == "index."@,
            forall|j: int| 0 <= j < i ==> !starts_with(#[trigger] entry_names@[j]@, "index."@),
        decreases entry_names@.len() - i,
    {
        if matches_at(chars_of(entry_names[i].as_str()).as_slice(), prefix.as_slice(), 0) {
            return true;
        }
        i += 1;
    }
    false
}

/// A file that the configuration scan reads: `nginx.conf` or any `*.conf`.
pub fn is_config_file_name(name: &str) -> (r: bool)
    ensures
        r == (name@ == "nginx.conf"@ || ends_with(name@, ".conf"@)),
{
    let cs = chars_of(name);
    let suffix = chars_of(".conf");
    let whole = chars_of("nginx.conf");
    let is_whole = same_chars(cs.as_slice(), whole.as_slice());
    if suffix.len() > cs.len() {
        return is_whole;
    }
    is_whole || matches_at(cs.as_slice(), suffix.as_slice(), cs.len() - suffix.len())
}

} // verus!

verus! {

/// The header whose presence means the headers were added already.
pub open spec fn header_marker() -> Seq<char> {
    "add_header X-Content-Type-Options"@
}

/// The lines added inside a `location` block.
pub open spec fn header_lines() -> Seq<Seq<char>> {
    seq![
        "        # Security headers"@,
        "        add_header X-Content-Type-Options nosniff;"@,
        "        add_header X-Frame-Options SAMEORIGIN;"@,
        "        add_header X-XSS-Protection \"1; mode=block\";"@,
    ]
}

/// A line that opens a `location` block.
pub open spec fn opens_location(l: Seq<char>) -> bool {
    contains(l, "location"@) && contains(l, "{"@)
}

/// Lines that are each followed by another line, with the headers inserted
/// after each one that opens a `location` block.
pub open spec fn with_headers(prefix: Seq<Seq<char>>) -> Seq<Seq<char>>
    decreases prefix.len(),
{
    if prefix.len() == 0 {
        Seq::empty()
    } else {
        with_headers(prefix.drop_last()).push(prefix.last()) + if opens_location(prefix.last()) {
            header_lines()
        } else {
            Seq::empty()
        }
    }
}

/// The lines joined with `\n`.
pub open spec fn joined_lines(ls: Seq<Seq<char>>) -> Seq<char>
    decreases ls.len(),
{
    if ls.len() == 0 {
        Seq::empty()
    } else if ls.len() == 1 {
        ls[0]
    } else {
        joined_lines(ls.drop_last()) + "\n"@ + ls.last()
    }
}

/// Some line but the last opens a `location` block.
pub open spec fn has_location_block(ls: Seq<Seq<char>>) -> bool {
    exists|j: int| 0 <= j < ls.len() - 1 && opens_location(#[trigger] ls[j])
}

/// A configuration with security headers: unchanged when it sets
/// `X-Content-Type-Options` already or has no `location` block to put them
/// in; else its lines, joined with `\n`, with the headers after every line
/// that opens a `location` block (the last line excepted).
pub open spec fn secured(c: Seq<char>) -> Seq<char> {
    let ls = lines_of(c);
    if contains(c, header_marker()) || !has_location_block(ls) {
        c
    } else {
        joined_lines(with_headers(ls.drop_last()).push(ls.last()))
    }
}

proof fn lemma_contains_concat(a: Seq<char>, b: Seq<char>, p: Seq<char>)
    ensures
        contains(a, p) ==> contains(a + b, p),
        contains(b, p) ==> contains(a + b, p),
{
    if contains(a, p) {
        let i = choose|i: int| occurs_at(a, p, i);
        assert((a + b).subrange(i, i + p.len()) =~= a.subrange(i, i + p.len()));
        assert(occurs_at(a + b, p, i));
    }
    if contains(b, p) {
        let i = choose|i: int| occurs_at(b, p, i);
        assert((a + b).subrange(a.len() + i, a.len() + i + p.len()) =~= b.subrange(i, i + p.len()));
        assert(occurs_at(a + b, p, a.len() + i));
    }
}

proof fn lemma_joined_contains(ls: Seq<Seq<char>>, k: int, p: Seq<char>)
    requires
        0 <= k < ls.len(),
        contains(ls[k], p),
    ensures
        contains(joined_lines(ls), p),
    decreases ls.len(),
{
    if ls.len() > 1 {
        let init = ls.drop_last();
        if k == ls.len() - 1 {
            lemma_contains_concat(joined_lines(init) + "\n"@, ls.last(), p);
        } else {
            lemma_joined_contains(init, k, p);
            lemma_contains_concat(joined_lines(init), "\n"@, p);
            lemma_contains_concat(joined_lines(init) + "\n"@, ls.last(), p);
        }
    }
}

proof fn lemma_headers_present(prefix: Seq<Seq<char>>, j: int)
    requires
        0 <= j < prefix.len(),
        opens_location(prefix[j]),
    ensures
        exists|k: int| 0 <= k < with_headers(prefix).len() && #[trigger] with_headers(prefix)[k] == header_lines()[1],
    decreases prefix.len(),
{
    let init = prefix.drop_last();
    let base = with_headers(init).push(prefix.last());
    if opens_location(prefix.last()) {
        assert(with_headers(prefix)[base.len() + 1int] == header_lines()[1]);
    } else {
        assert(j < prefix.len() - 1);
        assert(init[j] == prefix[j]);
        lemma_headers_present(init, j);
        let k = choose|k: int| 0 <= k < with_headers(init).len() && #[trigger] with_headers(init)[k] == header_lines()[1];
        assert(with_headers(prefix)[k] == header_lines()[1]);
    }
}

proof fn lemma_marker_in_header()
    ensures
        contains(header_lines()[1], header_marker()),
{
    reveal_strlit("        add_header X-Content-Type-Options nosniff;");
    reveal_strlit("add_header X-Content-Type-Options");
    assert(header_lines()[1].subrange(8, 8 + header_marker().len() as int) =~= header_marker());
    assert(occurs_at(header_lines()[1], header_marker(), 8));
}

/// Adding security headers twice gives what adding them once gives: once
/// added, the `X-Content-Type-Options` header is present and guards the
/// configuration from a second insertion.
pub proof fn lemma_secured_idempotent(c: Seq<char>)
    ensures
        secured(secured(c)) == secured(c),
{
    let ls = lines_of(c);
    if !(contains(c, header_marker()) || !has_location_block(ls)) {
        let j = choose|j: int| 0 <= j < ls.len() - 1 && opens_location(#[trigger] ls[j]);
        let prefix = ls.drop_last();
        assert(prefix[j] == ls[j]);
        lemma_headers_present(prefix, j);
        let all = with_headers(prefix).push(ls.last());
        let k = choose|k: int| 0 <= k < with_headers(prefix).len() && #[trigger] with_headers(prefix)[k] == header_lines()[1];
        assert(all[k] == header_lines()[1]);
        lemma_marker_in_header();
        lemma_joined_contains(all, k, header_marker());
    }
}

fn push_text(out: &mut Vec<String>, s: &str)
    ensures
        views(final(out)@) == views(old(out)@).push(s@),
{
    let ghost before = views(out@);
    out.push(String::from_str(s));
    assert(views(out@) =~= before.push(s@));
}

fn join_lines(ls: &Vec<String>) -> (r: String)
    ensures
        r@ == joined_lines(views(ls@)),
{
    let mut r = String::new();
    let mut i: usize = 0;
    while i < ls.len()
        invariant
            i <= ls@.len(),
            r@ == joined_lines(views(ls@).subrange(0, i as int)),
        decreases ls@.len() - i,
    {
        proof {
            let sub = views(ls@).subrange(0, i + 1);
            assert(sub.drop_last() =~= views(ls@).subrange(0, i as int));
            if i == 0 {
                assert(sub.len() == 1);
            }
        }
        if i > 0 {
            r.append("\n");
        }
        r.append(ls[i].as_str());
        i += 1;
    }
    assert(views(ls@).subrange(0, i as int) =~= views(ls@));
    r
}

/// Adds the security headers to a configuration that lacks them (see
/// `secured`).
pub fn add_security_headers(content: &str) -> (r: String)
    ensures
        r@ == secured(content@),
{
    let cs = chars_of(content);
    let marker = chars_of("add_header X-Content-Type-Options");
    if includes(cs.as_slice(), marker.as_slice()) {
        return String::from_str(content);
    }
    let lines = split_lines(cs.as_slice());
    let ghost ls = lines@.map_values(|l: Vec<char>| l@);
    let location = chars_of("location");
    let brace = chars_of("{");
    let n = lines.len();
    if n == 0 {
        return String::from_str(content);
    }
    let mut out: Vec<String> = Vec::new();
    let mut found = false;
    let mut j: usize = 0;
    while j < n - 1
        invariant
            j <= n - 1,
            n == lines@.len(),
            n > 0,
            ls == lines@.map_values(|l: Vec<char>| l@),
            location@ == "location"@,
            brace@ == "{"@,
            views(out@) == with_headers(ls.subrange(0, j as int)),
            found == exists|k: int| 0 <= k < j && opens_location(#[trigger] ls[k]),
        decreases n - 1 - j,
    {
        let line = lines[j].as_slice();
        proof {
            assert(ls.subrange(0, j + 1).drop_last() =~= ls.subrange(0, j as int));
            assert(ls.subrange(0, j + 1).last() == ls[j as int]);
        }
        let ghost before = views(out@);
        out.push(text_of(line));
        proof {
            assert(views(out@) =~= before.push(ls[j as int]));
        }
        if includes(line, location.as_slice()) && includes(line, brace.as_slice()) {
            let ghost mid = views(out@);
            push_text(&mut out, "        # Security headers");
            push_text(&mut out, "        add_header X-Content-Type-Options nosniff;");
            push_text(&mut out, "        add_header X-Frame-Options SAMEORIGIN;");
            push_text(&mut out, "        add_header X-XSS-Protection \"1; mode=block\";");
            proof {
                assert(views(out@) =~= mid + header_lines());
            }
            found = true;
        } else {
            proof {
                assert(views(out@) =~= views(out@) + Seq::<Seq<char>>::empty());
            }
        }
        j += 1;
    }
    proof {
        assert(ls.subrange(0, n - 1) =~= ls.drop_last());
        assert(ls == lines_of(content@));
    }
    if !found {
        proof {
            assert(!has_location_block(ls));
        }
        return String::from_str(content);
    }
    let ghost before = views(out@);
    out.push(text_of(lines[n - 1].as_slice()));
    proof {
        assert(views(out@) =~= before.push(ls.last()));
        assert(has_location_block(ls));
    }
    join_lines(&out)
}

} // verus!

verus! {

/// The value of the first setting under `key`, if any.
pub open spec fn setting_of(settings: Seq<(String, SettingValue)>, key: Seq<char>) -> Option<
    SettingValue,
>
    decreases settings.len(),
{
    if settings.len() == 0 {
        None
    } else if settings[0].0@ == key {
        Some(settings[0].1)
    } else {
        setting_of(settings.drop_first(), key)
    }
}

fn find_setting(settings: &Vec<(String, SettingValue)>, key: &str) -> (r: Option<SettingValue>)
    ensures
        r == setting_of(settings@, key@),
{
    let k = chars_of(key);
    let mut i: usize = 0;
    assert(settings@.subrange(0, settings@.len() as int) =~= settings@);
    while i < settings.len()
        invariant
            i <= settings@.len(),
            k@ == key@,
            setting_of(settings@.subrange(i as int, settings@.len() as int), key@) == setting_of(
                settings@,
                key@,
            ),
        decreases settings@.len() - i,
    {
        let ghost rest = settings@.subrange(i as int, settings@.len() as int);
        proof {
            assert(rest.drop_first() =~= settings@.subrange(i + 1, settings@.len() as int));
        }
        if same_chars(chars_of(settings[i].0.as_str()).as_slice(), k.as_slice()) {
            return Some(settings[i].1.clone_value());
        }
        i += 1;
    }
    None
}

impl SettingValue {
    pub fn clone_value(&self) -> (r: Self)
        ensures
            r == *self,
    {
        match self {
            SettingValue::Text(s) => SettingValue::Text(s.clone()),
            SettingValue::Flag(b) => SettingValue::Flag(*b),
            SettingValue::Other => SettingValue::Other,
        }
    }
}

/// The web root inside the container: the `web_root` setting when it is text,
/// else `/var/www/html`.
pub open spec fn web_root_of(service: ServiceConfig) -> Seq<char> {
    match setting_of(service.custom_settings@, "web_root"@) {
        Some(SettingValue::Text(s)) => s@,
        _ => "/var/www/html"@,
    }
}

/// Whether directory listing is wanted: the `enable_dir_listing` setting
/// when it is a boolean, else no.
pub open spec fn dir_listing_of(service: ServiceConfig) -> bool {
    match setting_of(service.custom_settings@, "enable_dir_listing"@) {
        Some(SettingValue::Flag(b)) => b,
        _ => false,
    }
}

/// An Nginx service with its settings read.
#[derive(Debug, Clone)]
pub struct NginxService<'a> {
    pub service: &'a ServiceConfig,
    pub global: &'a GlobalSettings,
    pub web_root: String,
    pub enable_dir_listing: bool,
}

impl<'a> NginxService<'a> {
    /// Reads an Nginx service's settings; other service types are refused.
    pub fn new(service: &'a ServiceConfig, global: &'a GlobalSettings) -> (r: Result<
        NginxService<'a>,
        ConfigError,
    >)
        ensures
            !(service.service_type is Nginx) ==> r == Err::<NginxService<'a>, ConfigError>(
                ConfigError::NotNginxService,
            ),
            service.service_type is Nginx ==> r is Ok && r->Ok_0.service == *service
                && r->Ok_0.global == *global && r->Ok_0.web_root@ == web_root_of(*service)
                && r->Ok_0.enable_dir_listing == dir_listing_of(*service),
    {
        if !matches!(service.service_type, ServiceType::Nginx) {
            return Err(ConfigError::NotNginxService);
        }
        let web_root = match find_setting(&service.custom_settings, "web_root") {
            Some(SettingValue::Text(s)) => s,
            _ => String::from_str("/var/www/html"),
        };
        let enable_dir_listing = match find_setting(
            &service.custom_settings,
            "enable_dir_listing",
        ) {
            Some(SettingValue::Flag(b)) => b,
            _ => false,
        };
        Ok(
            NginxService {
                service,
                global,
                web_root,
                enable_dir_listing,
            },
        )
    }

    /// Where the service's configuration lives on the host.
    pub fn get_config_path(&self) -> (r: String)
        ensures
            r == self.service.local_path,
    {
        self.service.local_path.clone()
    }

    /// The ownership to apply: the service's policy, else `nginx:nginx`.
    pub fn permissions(&self) -> (r: Permissions)
        ensures
            self.service.permissions is Some ==> r == self.service.permissions->Some_0,
            self.service.permissions is None ==> r.fix && r.user@ == "nginx"@ && r.group@
                == "nginx"@,
    {
        match &self.service.permissions {
            Some(p) => Permissions { fix: p.fix, user: p.user.clone(), group: p.group.clone() },
            None => Permissions {
                fix: true,
                user: String::from_str("nginx"),
                group: String::from_str("nginx"),
            },
        }
    }

    /// A configuration file after the fixes: directory listing switched on
    /// when wanted, then the security headers added.
    pub fn fix_config_text(&self, content: &str) -> (r: String)
        ensures
            r@ == secured(
                if self.enable_dir_listing {
                    replaced(content@, "autoindex off;"@, "autoindex on;"@)
                } else {
                    content@
                },
            ),
    {
        if self.enable_dir_listing {
            let listed = enable_autoindex(content);
            add_security_headers(listed.as_str())
        } else {
            add_security_headers(content)
        }
    }

    /// The in-container script that creates the web root and applies
    /// ownership and modes (directories 755, files 644) to it.
    pub fn web_root_script(&self, permissions: &Permissions) -> (r: String)
        ensures
            r@ == "mkdir -p "@ + self.web_root@ + " && chown -R "@ + permissions.user@ + ":"@
                + permissions.group@ + " "@ + self.web_root@ + " && chmod -R 755 "@ + self.web_root@
                + " && find "@ + self.web_root@ + " -type d -exec chmod 755 {} \\; && find "@
                + self.web_root@ + " -type f -exec chmod 644 {} \\;"@,
    {
        let w = self.web_root.as_str();
        String::from_str("mkdir -p ").concat(w).concat(" && chown -R ").concat(
            permissions.user.as_str(),
        ).concat(":").concat(permissions.group.as_str()).concat(" ").concat(w).concat(
            " && chmod -R 755 ",
        ).concat(w).concat(" && find ").concat(w).concat(
            " -type d -exec chmod 755 {} \\; && find ",
        ).concat(w).concat(" -type f -exec chmod 644 {} \\;")
    }

    /// The in-container script that lists the directories under the web root.
    pub fn list_dirs_script(&self) -> (r: String)
        ensures
            r@ == "find "@ + self.web_root@ + " -type d"@,
    {
        String::from_str("find ").concat(self.web_root.as_str()).concat(" -type d")
    }
}

/// The in-container script that succeeds exactly when `dir` holds an index file.
pub fn index_check_script(dir: &str) -> (r: String)
    ensures
        r@ == "find "@ + dir@ + " -maxdepth 1 -name \"index.*\" | grep ."@,
{
    String::from_str("find ").concat(dir).concat(" -maxdepth 1 -name \"index.*\" | grep .")
}

/// The placeholder page written where a served directory has no index file.
pub fn welcome_page() -> (r: String)
    ensures
        r@ == "<!DOCTYPE html>\n<html>\n<head>\n  <title>Welcome</title>\n</head>\n<body>\n  <h1>Welcome</h1>\n  <p>Site under construction</p>\n</body>\n</html>\n"@,
{
    String::from_str(
        "<!DOCTYPE html>\n<html>\n<head>\n  <title>Welcome</title>\n</head>\n<body>\n  <h1>Welcome</h1>\n  <p>Site under construction</p>\n</body>\n</html>\n",
    )
}

/// The in-container script that writes the placeholder page into `dir`, owned
/// by the policy's user and group, mode 644.
pub fn index_create_script(dir: &str, permissions: &Permissions) -> (r: String)
    ensures
        r@ == "printf '%s' '"@ + "<!DOCTYPE html>\n<html>\n<head>\n  <title>Welcome</title>\n</head>\n<body>\n  <h1>Welcome</h1>\n  <p>Site under construction</p>\n</body>\n</html>\n"@
            + "' > "@ + dir@ + "/index.html && chown "@ + permissions.user@ + ":"@
            + permissions.group@ + " "@ + dir@ + "/index.html && chmod 644 "@ + dir@
            + "/index.html"@,
{
    let page = welcome_page();
    String::from_str("printf '%s' '").concat(page.as_str()).concat("' > ").concat(dir).concat(
        "/index.html && chown ",
    ).concat(permissions.user.as_str()).concat(":").concat(permissions.group.as_str()).concat(
        " ",
    ).concat(dir).concat("/index.html && chmod 644 ").concat(dir).concat("/index.html")
}

/// The in-container script that makes nginx's configuration files readable.
pub fn config_permission_script() -> (r: String)
    ensures
        r@ == "chmod -R 644 /etc/nginx/conf.d/*.conf && chmod 644 /etc/nginx/nginx.conf"@,
{
    String::from_str("chmod -R 644 /etc/nginx/conf.d/*.conf && chmod 644 /etc/nginx/nginx.conf")
}

/// The `docker` arguments of the in-container configuration test.
pub fn config_test_args(container_name: &str) -> (r: Vec<String>)
    ensures
        views(r@) == seq!["exec"@, container_name@, "nginx"@, "-t"@],
{
    let mut r: Vec<String> = Vec::new();
    r.push(String::from_str("exec"));
    r.push(String::from_str(container_name));
    r.push(String::from_str("nginx"));
    r.push(String::from_str("-t"));
    assert(views(r@) =~= seq!["exec"@, container_name@, "nginx"@, "-t"@]);
    r
}

} // verus!

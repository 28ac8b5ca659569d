//! What the application does at start-up: the steps, the icon sizes to
//! cache, and the log filter.
use vstd::prelude::*;
use tracing_subscriber::EnvFilter;

verus! {

/// A start-up step.
#[derive(Clone, Copy, Debug, PartialEq, Eq, Structural)]
pub enum StartupStep {
    /// Load the translations for the user's languages.
    Localize,
    /// Set up the icon cache and fill it in the background.
    CacheIcons,
    /// Install the log subscriber.
    StartTracing,
}

/// The start-up steps, in order: translations, icons, logging.
pub fn init() -> (r: Vec<StartupStep>)
    ensures
        r@ == seq![StartupStep::Localize, StartupStep::CacheIcons, StartupStep::StartTracing],
{
    let mut r: Vec<StartupStep> = Vec::new();
    r.push(StartupStep::Localize);
    r.push(StartupStep::CacheIcons);
    r.push(StartupStep::StartTracing);
    assert(r@ =~= seq![StartupStep::Localize, StartupStep::CacheIcons, StartupStep::StartTracing]);
    r
}

/// The icon sizes, in pixels, that are cached in the background at
/// start-up.
pub fn icons() -> (r: Vec<u16>)
    ensures
        r@ == seq![14u16, 16u16, 18u16, 20u16, 32u16],
{
    let mut r: Vec<u16> = Vec::new();
    r.push(14);
    r.push(16);
    r.push(18);
    r.push(20);
    r.push(32);
    assert(r@ =~= seq![14u16, 16u16, 18u16, 20u16, 32u16]);
    r
}

/// `c` is white space as `char::is_whitespace` (Unicode White_Space)
/// counts it, which is what `str::trim` removes.
pub open spec fn white_space(c: char) -> bool {
    let n = c as u32;
    ||| 0x9 <= n <= 0xd
    ||| n == 0x20
    ||| n == 0x85
    ||| n == 0xa0
    ||| n == 0x1680
    ||| 0x2000 <= n <= 0x200a
    ||| n == 0x2028
    ||| n == 0x2029
    ||| n == 0x202f
    ||| n == 0x205f
    ||| n == 0x3000
}

/// The number of bytes of `c` in UTF-8.
pub open spec fn utf8_len(c: char) -> int {
    let n = c as u32;
    if n < 0x80 {
        1
    } else if n < 0x800 {
        2
    } else if n < 0x1_0000 {
        3
    } else {
        4
    }
}

/// The number of bytes of `s` in UTF-8.
pub open spec fn utf8_size(s: Seq<char>) -> int
    decreases s.len(),
{
    if s.len() == 0 {
        0
    } else {
        utf8_size(s.drop_last()) + utf8_len(s.last())
    }
}

/// Byte offset `b` of the UTF-8 text of `p` falls between characters (or
/// at an end).
pub open spec fn char_boundary(p: Seq<char>, b: int) -> bool {
    exists|j: int| 0 <= j <= p.len() && #[trigger] utf8_size(p.take(j)) == b
}

/// `p` starts with exactly `n` white-space characters.
pub open spec fn leading(p: Seq<char>, n: int) -> bool {
    &&& 0 <= n <= p.len()
    &&& forall|m: int| 0 <= m < n ==> white_space(#[trigger] p[m])
    &&& (n == p.len() || !white_space(p[n]))
}

/// A character at which the directive parser may cut: `=`, `[`, `]`, `{`
/// or `}`.
pub open spec fn cut_char(c: char) -> bool {
    c == '=' || c == '[' || c == ']' || c == '{' || c == '}'
}

/// A character after which the directive parser may start a cut: `=`, `[`
/// or `{`.
pub open spec fn opening_char(c: char) -> bool {
    c == '=' || c == '[' || c == '{'
}

/// One directive (no comma in it) is safe to parse. The parser walks the
/// directive with its surrounding white space trimmed, and cuts the
/// untrimmed text at the byte offsets it found in the trimmed one: at the
/// start, at a `=`, `[`, `]`, `{` or `}`, and just after a `=`, `[` or `{`.
/// Each of these offsets, taken in the untrimmed text, falls between
/// characters.
pub open spec fn piece_safe(p: Seq<char>) -> bool {
    forall|n: int, j: int|
        #![trigger leading(p, n), p[j]]
        leading(p, n) && n <= j < p.len() && cut_char(p[j]) ==> {
            let q = utf8_size(p.take(j)) - utf8_size(p.take(n));
            char_boundary(p, q) && (opening_char(p[j]) ==> char_boundary(p, q + 1))
        }
}

/// A text of filter directives on which `EnvFilter::try_new` cuts no
/// directive inside a character: every comma-separated directive is safe
/// to parse (`piece_safe`).
pub open spec fn directives_safe(s: Seq<char>) -> bool {
    forall|st: int, en: int|
        0 <= st <= en <= s.len() && (st == 0 || s[st - 1] == ',') && (en == s.len() || s[en] == ',') && (forall|m: int|
            st <= m < en ==> s[m] != ',') ==> #[trigger] piece_safe(s.subrange(st, en))
}

/// Whether `EnvFilter::try_new` accepts a text of filter directives.
pub uninterp spec fn filter_accepted(s: Seq<char>) -> bool;

/// `EnvFilter::try_new`: whether the text parses as filter directives.
/// Texts on which its parser could cut a directive inside a character are
/// left out (see `directives_safe`). The condition counts every offset at
/// which the parser can cut; whether it does cut at one depends on the
/// parser's state and on the field patterns it compiles before (a failed
/// pattern ends the parse), which is not stated here, so a few texts whose
/// parse ends before such an offset are left out as well.
#[verifier::external_body]
fn directives_parse(s: &str) -> (r: bool)
    requires
        directives_safe(s@),
    ensures
        r == filter_accepted(s@),
{
    EnvFilter::try_new(s).is_ok()
}

/// Whether a text of filter directives is one that `tracing` takes (see
/// `directives_safe`); a caller tests it before handing the text over.
pub fn safe_directives(s: &str) -> (r: bool)
    ensures
        r == directives_safe(s@),
{
    let cs = crate::text::chars_of(s);
    let n = cs.len();
    let mut i: usize = 0;
    let mut start: usize = 0;
    let mut piece: Vec<char> = Vec::new();
    while i < n
        invariant
            cs@ == s@,
            n == cs@.len(),
            start <= i <= n,
            start == 0 || cs@[start - 1] == ',',
            forall|m: int| start <= m < i ==> cs@[m] != ',',
            piece@ == cs@.subrange(start as int, i as int),
            forall|st: int, en: int|
                0 <= st < start && st <= en <= cs@.len() && (st == 0 || cs@[st - 1] == ',') && (en == cs@.len()
                    || cs@[en] == ',') && (forall|m: int| st <= m < en ==> cs@[m] != ',') ==> #[trigger] piece_safe(
                    cs@.subrange(st, en),
                ),
        decreases n - i,
    {
        let c = cs[i];
        if c == ',' {
            let ok = piece_ok(&piece);
            if !ok {
                proof {
                    assert(0 <= start <= i <= cs@.len() && (start == 0 || cs@[start - 1] == ',') && cs@[i as int] == ',');
                    assert(!piece_safe(cs@.subrange(start as int, i as int)));
                }
                return false;
            }
            proof {
                assert forall|st: int, en: int|
                    0 <= st < i + 1 && st <= en <= cs@.len() && (st == 0 || cs@[st - 1] == ',') && (en == cs@.len()
                        || cs@[en] == ',') && (forall|m: int| st <= m < en ==> cs@[m] != ',') implies #[trigger] piece_safe(
                    cs@.subrange(st, en),
                ) by {
                    if st >= start {
                        if st > start {
                            assert(cs@[st - 1] != ',');
                        }
                        if en > i {
                            assert(cs@[i as int] != ',');
                        }
                        if en < i {
                            assert(cs@[en] != ',');
                        }
                    }
                }
            }
            start = i + 1;
            piece = Vec::new();
            proof {
                assert(piece@ =~= cs@.subrange(start as int, (i + 1) as int));
            }
        } else {
            piece.push(c);
            proof {
                assert(piece@ =~= cs@.subrange(start as int, (i + 1) as int));
            }
        }
        i = i + 1;
    }
    let ok = piece_ok(&piece);
    proof {
        if ok {
            assert forall|st: int, en: int|
                0 <= st <= en <= cs@.len() && (st == 0 || cs@[st - 1] == ',') && (en == cs@.len() || cs@[en] == ',')
                    && (forall|m: int| st <= m < en ==> cs@[m] != ',') implies #[trigger] piece_safe(cs@.subrange(st, en)) by {
                if st >= start {
                    if st > start {
                        assert(cs@[st - 1] != ',');
                    }
                    if en < i {
                        assert(cs@[en] != ',');
                    }
                }
            }
        } else {
            assert(!piece_safe(cs@.subrange(start as int, i as int)));
        }
    }
    ok
}

/// Whether a directive (no comma in it) is safe to parse (`piece_safe`).
fn piece_ok(p: &Vec<char>) -> (r: bool)
    ensures
        r == piece_safe(p@),
{
    let len = p.len();
    let mut pre: Vec<u128> = Vec::new();
    pre.push(0);
    let mut j: usize = 0;
    while j < len
        invariant
            len == p@.len(),
            j <= len,
            pre@.len() == j + 1,
            forall|a: int| 0 <= a <= j ==> #[trigger] pre@[a] == utf8_size(p@.take(a)),
            forall|a: int, b: int| 0 <= a <= b <= j ==> pre@[a] <= pre@[b],
            forall|a: int| 0 <= a <= j ==> pre@[a] <= 4 * a,
        decreases len - j,
    {
        let c = p[j];
        let w: u128 = if (c as u32) < 0x80 {
            1
        } else if (c as u32) < 0x800 {
            2
        } else if (c as u32) < 0x1_0000 {
            3
        } else {
            4
        };
        let last = pre[j];
        pre.push(last + w);
        proof {
            assert(p@.take(j + 1).drop_last() =~= p@.take(j as int));
            assert(p@.take(j + 1).last() == c);
            assert(pre@[j + 1] == utf8_size(p@.take(j + 1)));
        }
        j = j + 1;
    }
    let mut n: usize = 0;
    while n < len && is_white_space(p[n])
        invariant
            n <= len,
            len == p@.len(),
            forall|m: int| 0 <= m < n ==> white_space(#[trigger] p@[m]),
        decreases len - n,
    {
        n = n + 1;
    }
    proof {
        assert(leading(p@, n as int));
        assert forall|n2: int| #[trigger] leading(p@, n2) implies n2 == n by {
            if n2 < n {
                assert(white_space(p@[n2]));
            } else if n2 > n {
                assert(white_space(p@[n as int]));
            }
        }
    }
    let base = pre[n];
    let mut k: usize = n;
    while k < len
        invariant
            len == p@.len(),
            n <= k <= len,
            pre@.len() == len + 1,
            leading(p@, n as int),
            forall|n2: int| #[trigger] leading(p@, n2) ==> n2 == n,
            base == pre@[n as int],
            forall|a: int| 0 <= a <= len ==> #[trigger] pre@[a] == utf8_size(p@.take(a)),
            forall|a: int, b: int| 0 <= a <= b <= len ==> pre@[a] <= pre@[b],
            forall|a: int| 0 <= a <= len ==> pre@[a] <= 4 * a,
            forall|j2: int|
                n <= j2 < k && cut_char(#[trigger] p@[j2]) ==> {
                    let q = utf8_size(p@.take(j2)) - utf8_size(p@.take(n as int));
                    char_boundary(p@, q) && (opening_char(p@[j2]) ==> char_boundary(p@, q + 1))
                },
        decreases len - k,
    {
        let c = p[k];
        if c == '=' || c == '[' || c == ']' || c == '{' || c == '}' {
            let q = pre[k] - base;
            let at = holds_value(&pre, q);
            let after = if c == '=' || c == '[' || c == '{' {
                holds_value(&pre, q + 1)
            } else {
                true
            };
            proof {
                let qi = utf8_size(p@.take(k as int)) - utf8_size(p@.take(n as int));
                assert(qi == q);
                assert(at == char_boundary(p@, qi)) by {
                    if char_boundary(p@, qi) {
                        let j2 = choose|j2: int| 0 <= j2 <= p@.len() && #[trigger] utf8_size(p@.take(j2)) == qi;
                        assert(pre@[j2] == q);
                    }
                    if at {
                        let j2 = choose|j2: int| 0 <= j2 < pre@.len() && pre@[j2] == q;
                        assert(pre@[j2] == utf8_size(p@.take(j2)));
                    }
                }
                if opening_char(c) {
                    assert(after == char_boundary(p@, qi + 1)) by {
                        if char_boundary(p@, qi + 1) {
                            let j2 = choose|j2: int| 0 <= j2 <= p@.len() && #[trigger] utf8_size(p@.take(j2)) == qi + 1;
                            assert(pre@[j2] == q + 1);
                        }
                        if after {
                            let j2 = choose|j2: int| 0 <= j2 < pre@.len() && pre@[j2] == q + 1;
                            assert(pre@[j2] == utf8_size(p@.take(j2)));
                        }
                    }
                }
            }
            if !(at && after) {
                proof {
                    assert(leading(p@, n as int) && cut_char(p@[k as int]));
                }
                return false;
            }
        }
        k = k + 1;
    }
    proof {
        assert forall|n2: int, j2: int|
            #![trigger leading(p@, n2), p@[j2]]
            leading(p@, n2) && n2 <= j2 < p@.len() && cut_char(p@[j2]) implies {
                let q = utf8_size(p@.take(j2)) - utf8_size(p@.take(n2));
                char_boundary(p@, q) && (opening_char(p@[j2]) ==> char_boundary(p@, q + 1))
            } by {
            assert(n2 == n);
        }
    }
    true
}

/// Whether `v` holds `x`.
fn holds_value(v: &Vec<u128>, x: u128) -> (r: bool)
    ensures
        r == exists|j: int| 0 <= j < v@.len() && v@[j] == x,
{
    let mut i: usize = 0;
    while i < v.len()
        invariant
            i <= v@.len(),
            forall|j: int| 0 <= j < i ==> v@[j] != x,
        decreases v.len() - i,
    {
        if v[i] == x {
            return true;
        }
        i = i + 1;
    }
    false
}

/// `c` is white space (see `white_space`).
fn is_white_space(c: char) -> (r: bool)
    ensures
        r == white_space(c),
{
    let n = c as u32;
    (0x9 <= n && n <= 0xd) || n == 0x20 || n == 0x85 || n == 0xa0 || n == 0x1680 || (0x2000 <= n && n <= 0x200a)
        || n == 0x2028 || n == 0x2029 || n == 0x202f || n == 0x205f || n == 0x3000
}

/// The log filter: the `RUST_LOG` value when it is set and parses, else
/// "warn".
pub fn tracing(env_value: Option<String>) -> (r: String)
    requires
        env_value matches Some(v) ==> directives_safe(v@),
    ensures
        r@ == match env_value {
            Some(v) => if filter_accepted(v@) { v@ } else { "warn"@ },
            None => "warn"@,
        },
{
    match env_value {
        Some(v) => {
            if directives_parse(v.as_str()) {
                v
            } else {
                String::from_str("warn")
            }
        },
        None => String::from_str("warn"),
    }
}

} // verus!

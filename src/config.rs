//! The launcher's settings file: one `key = value` setting per line.
use vstd::prelude::*;
use vstd::string::{StrSliceExecFns, StringExecFns};

use crate::context::Config;

verus! {

/// Why a settings line was refused.
#[derive(Clone, Copy, Debug, PartialEq, Eq, Structural)]
pub enum ConfigError {
    /// A numeric setting whose value is not a decimal `u32`.
    BadNumber,
}

/// Characters that surround keys and values without belonging to them.
pub open spec fn is_blank(c: char) -> bool {
    c == ' ' || c == '\t' || c == '\r'
}

pub open spec fn is_digit(c: char) -> bool {
    '0' as u32 <= c as u32 && c as u32 <= '9' as u32
}

/// The first index from `i` on that does not hold a blank.
pub open spec fn skip_blanks(s: Seq<char>, i: int) -> int
    decreases s.len() - i,
{
    if 0 <= i < s.len() && is_blank(s[i]) {
        skip_blanks(s, i + 1)
    } else {
        i
    }
}

/// The end of `s` up to `j`, with the blanks before it, down to `lo`, cut off.
pub open spec fn skip_blanks_back(s: Seq<char>, lo: int, j: int) -> int
    decreases j - lo,
{
    if lo < j && j <= s.len() && is_blank(s[j - 1]) {
        skip_blanks_back(s, lo, j - 1)
    } else {
        j
    }
}

/// `s` without its leading and trailing blanks.
pub open spec fn trimmed(s: Seq<char>) -> Seq<char> {
    let lo = skip_blanks(s, 0);
    s.subrange(lo, skip_blanks_back(s, lo, s.len() as int))
}

/// The index of the first `=` from `i` on, or the length where there is none.
pub open spec fn find_eq(s: Seq<char>, i: int) -> int
    decreases s.len() - i,
{
    if 0 <= i < s.len() {
        if s[i] == '=' {
            i
        } else {
            find_eq(s, i + 1)
        }
    } else {
        s.len() as int
    }
}

/// The number that the decimal digits `s` write.
pub open spec fn digits_value(s: Seq<char>) -> int
    decreases s.len(),
{
    if s.len() == 0 {
        0
    } else {
        digits_value(s.drop_last()) * 10 + (s.last() as u32 - '0' as u32)
    }
}

pub open spec fn all_digits(s: Seq<char>) -> bool {
    forall|i: int| 0 <= i < s.len() ==> is_digit(#[trigger] s[i])
}

/// The `u32` that `s` writes in decimal, if it is one.
pub open spec fn spec_parse_u32(s: Seq<char>) -> Option<u32> {
    if s.len() > 0 && all_digits(s) && digits_value(s) <= u32::MAX {
        Some(digits_value(s) as u32)
    } else {
        None
    }
}

/// `config` with the setting `key` set from `value`. A flag is on where its
/// value is `true`; an unknown key changes nothing.
pub open spec fn apply_setting(config: Config, key: Seq<char>, value: Seq<char>) -> Result<
    Config,
    ConfigError,
> {
    let n = spec_parse_u32(value);
    let flag = value == "true"@;
    if key == "window_width"@ {
        if n is Some { Ok(Config { window_width: n->0, ..config }) } else { Err(ConfigError::BadNumber) }
    } else if key == "window_height"@ {
        if n is Some { Ok(Config { window_height: n->0, ..config }) } else { Err(ConfigError::BadNumber) }
    } else if key == "refresh_rate"@ {
        if n is Some { Ok(Config { refresh_rate: n->0, ..config }) } else { Err(ConfigError::BadNumber) }
    } else if key == "sfx_volume"@ {
        if n is Some { Ok(Config { sfx_volume: n->0, ..config }) } else { Err(ConfigError::BadNumber) }
    } else if key == "music_volume"@ {
        if n is Some { Ok(Config { music_volume: n->0, ..config }) } else { Err(ConfigError::BadNumber) }
    } else if key == "fullscreen"@ {
        Ok(Config { fullscreen: flag, ..config })
    } else if key == "keep_aspect_ratio"@ {
        Ok(Config { keep_aspect_ratio: flag, ..config })
    } else if key == "enable_linear_filtering"@ {
        Ok(Config { enable_linear_filtering: flag, ..config })
    } else if key == "original_mode"@ {
        Ok(Config { original_mode: flag, ..config })
    } else if key == "pause_game_on_background"@ {
        Ok(Config { pause_game_on_background: flag, ..config })
    } else if key == "launch_chocobo"@ {
        Ok(Config { launch_chocobo: flag, ..config })
    } else {
        Ok(config)
    }
}

/// `config` after the settings line `line`: the trimmed text before the
/// first `=` is the key, the trimmed text after it the value; a line with
/// no `=` changes nothing.
pub open spec fn line_setting(config: Config, line: Seq<char>) -> Result<Config, ConfigError> {
    let e = find_eq(line, 0);
    if e >= line.len() {
        Ok(config)
    } else {
        apply_setting(
            config,
            trimmed(line.subrange(0, e)),
            trimmed(line.subrange(e + 1, line.len() as int)),
        )
    }
}

proof fn lemma_digits_grow(s: Seq<char>, j: int, k: int)
    requires
        all_digits(s),
        0 <= j <= k <= s.len(),
    ensures
        0 <= digits_value(s.take(j)) <= digits_value(s.take(k)),
    decreases k,
{
    if k == 0 {
        assert(s.take(0) =~= Seq::<char>::empty());
    } else if j == k {
        lemma_digits_grow(s, j - 1, k - 1);
        assert(s.take(k).drop_last() =~= s.take(k - 1));
        assert(is_digit(s[k - 1]));
    } else {
        lemma_digits_grow(s, j, k - 1);
        assert(s.take(k).drop_last() =~= s.take(k - 1));
        assert(is_digit(s[k - 1]));
    }
}

/// Reads `s` as a decimal `u32`: digits only, at least one, no overflow.
pub fn parse_u32(s: &str) -> (r: Option<u32>)
    ensures
        r == spec_parse_u32(s@),
{
    let n = s.unicode_len();
    if n == 0 {
        return None;
    }
    let mut v: u64 = 0;
    let mut i: usize = 0;
    while i < n
        invariant
            n == s@.len(),
            i <= n,
            v == digits_value(s@.take(i as int)),
            v <= u32::MAX,
            forall|j: int| 0 <= j < i ==> is_digit(#[trigger] s@[j]),
        decreases n - i,
    {
        let c = s.get_char(i);
        if (c as u32) < ('0' as u32) || (c as u32) > ('9' as u32) {
            assert(!is_digit(s@[i as int]));
            return None;
        }
        assert(s@.take(i + 1).drop_last() =~= s@.take(i as int));
        let next = v * 10 + ((c as u32) - ('0' as u32)) as u64;
        if next > u32::MAX as u64 {
            proof {
                if all_digits(s@) {
                    lemma_digits_grow(s@, i + 1, n as int);
                    assert(s@.take(n as int) =~= s@);
                }
            }
            return None;
        }
        v = next;
        i = i + 1;
    }
    assert(s@.take(n as int) =~= s@);
    Some(v as u32)
}

fn blank(c: char) -> (r: bool)
    ensures
        r == is_blank(c),
{
    c == ' ' || c == '\t' || c == '\r'
}

/// `s` without its leading and trailing blanks.
pub fn trim(s: &str) -> (r: &str)
    ensures
        r@ == trimmed(s@),
{
    let n = s.unicode_len();
    let mut lo: usize = 0;
    while lo < n && blank(s.get_char(lo))
        invariant
            n == s@.len(),
            lo <= n,
            skip_blanks(s@, lo as int) == skip_blanks(s@, 0),
        decreases n - lo,
    {
        lo = lo + 1;
    }
    let mut hi: usize = n;
    while hi > lo && blank(s.get_char(hi - 1))
        invariant
            n == s@.len(),
            lo <= hi <= n,
            lo == skip_blanks(s@, 0),
            skip_blanks_back(s@, lo as int, hi as int) == skip_blanks_back(s@, lo as int, n as int),
        decreases hi - lo,
    {
        hi = hi - 1;
    }
    s.substring_char(lo, hi)
}

fn is_key(key: &String, name: &str) -> (r: bool)
    ensures
        r == (key@ == name@),
{
    *key == String::from_str(name)
}

/// Applies one line of the settings file to `config`.
pub fn apply_config_line(config: Config, line: &str) -> (r: Result<Config, ConfigError>)
    ensures
        r == line_setting(config, line@),
{
    let n = line.unicode_len();
    let mut e: usize = 0;
    while e < n && line.get_char(e) != '='
        invariant
            n == line@.len(),
            e <= n,
            find_eq(line@, e as int) == find_eq(line@, 0),
        decreases n - e,
    {
        e = e + 1;
    }
    if e >= n {
        return Ok(config);
    }
    let key = String::from_str(trim(line.substring_char(0, e)));
    let value = trim(line.substring_char(e + 1, n));
    let flag = String::from_str(value) == String::from_str("true");
    let mut c = config;
    if is_key(&key, "window_width") {
        c.window_width = match parse_u32(value) { Some(v) => v, None => return Err(ConfigError::BadNumber) };
    } else if is_key(&key, "window_height") {
        c.window_height = match parse_u32(value) { Some(v) => v, None => return Err(ConfigError::BadNumber) };
    } else if is_key(&key, "refresh_rate") {
        c.refresh_rate = match parse_u32(value) { Some(v) => v, None => return Err(ConfigError::BadNumber) };
    } else if is_key(&key, "sfx_volume") {
        c.sfx_volume = match parse_u32(value) { Some(v) => v, None => return Err(ConfigError::BadNumber) };
    } else if is_key(&key, "music_volume") {
        c.music_volume = match parse_u32(value) { Some(v) => v, None => return Err(ConfigError::BadNumber) };
    } else if is_key(&key, "fullscreen") {
        c.fullscreen = flag;
    } else if is_key(&key, "keep_aspect_ratio") {
        c.keep_aspect_ratio = flag;
    } else if is_key(&key, "enable_linear_filtering") {
        c.enable_linear_filtering = flag;
    } else if is_key(&key, "original_mode") {
        c.original_mode = flag;
    } else if is_key(&key, "pause_game_on_background") {
        c.pause_game_on_background = flag;
    } else if is_key(&key, "launch_chocobo") {
        c.launch_chocobo = flag;
    }
    Ok(c)
}

/// `config` after the first `k` lines of `lines`, or the first refusal.
pub open spec fn lines_setting(config: Config, lines: Seq<String>, k: int) -> Result<
    Config,
    ConfigError,
>
    decreases k,
{
    if k <= 0 {
        Ok(config)
    } else {
        match lines_setting(config, lines, k - 1) {
            Ok(c) => line_setting(c, lines[k - 1]@),
            Err(e) => Err(e),
        }
    }
}

proof fn lemma_refusal_stands(config: Config, lines: Seq<String>, i: int, j: int)
    requires
        0 < i <= j,
        lines_setting(config, lines, i) is Err,
    ensures
        lines_setting(config, lines, j) == lines_setting(config, lines, i),
    decreases j - i,
{
    if j > i {
        lemma_refusal_stands(config, lines, i, j - 1);
    }
}

/// Applies the lines of the settings file, in order, to `config`; stops at
/// the first line refused.
pub fn apply_config_lines(config: Config, lines: &Vec<String>) -> (r: Result<Config, ConfigError>)
    ensures
        r == lines_setting(config, lines@, lines@.len() as int),
{
    let mut c = config;
    let mut k: usize = 0;
    while k < lines.len()
        invariant
            k <= lines@.len(),
            lines_setting(config, lines@, k as int) == Ok::<Config, ConfigError>(c),
        decreases lines@.len() - k,
    {
        match apply_config_line(c, lines[k].as_str()) {
            Ok(next) => c = next,
            Err(e) => {
                proof {
                    lemma_refusal_stands(config, lines@, k + 1, lines@.len() as int);
                }
                return Err(e);
            },
        }
        k = k + 1;
    }
    Ok(c)
}

} // verus!
